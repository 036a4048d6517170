//! The frames of the request/response protocol spoken with the peer.

use vstd::prelude::*;

verus! {

/// A JSON payload that the core carries through without looking inside.
#[verifier::external_type_specification]
#[verifier::external_body]
pub struct ExJsonValue(serde_json::Value);

/// `Clone::clone` of `serde_json::Value`: the copy is a JSON value equal to
/// the one it was made from.
pub assume_specification[ <serde_json::Value as Clone>::clone ](
    value: &serde_json::Value,
) -> (copy: serde_json::Value)
    ensures
        copy == *value,
;

/// A path of the file system, carried through without looking inside.
#[verifier::external_type_specification]
#[verifier::external_body]
pub struct ExPathBuf(std::path::PathBuf);

/// `Clone::clone` of `std::path::PathBuf`: the copy is a path equal to the
/// one it was made from.
pub assume_specification[ <std::path::PathBuf as Clone>::clone ](
    path: &std::path::PathBuf,
) -> (copy: std::path::PathBuf)
    ensures
        copy == *path,
;

/// Error code of a malformed frame and of a handshake violation.
pub const INVALID_REQUEST_ERROR_CODE: i64 = -32600;

/// The identifier of a thread. The registry hands each one out once.
#[derive(Clone, Copy, Debug, PartialEq, Eq, Hash, Structural)]
pub struct ThreadId {
    pub value: u64,
}

/// The identifier that pairs a request with its response.
#[derive(Clone, Debug, PartialEq, Eq)]
pub enum RequestId {
    Text(String),
    Integer(i64),
}

/// The error object of an error frame.
#[derive(Debug, PartialEq)]
pub struct JsonRpcError {
    pub code: i64,
    pub message: String,
    pub data: Option<serde_json::Value>,
}

impl Clone for JsonRpcError {
    fn clone(&self) -> (copy: Self)
        ensures
            copy == *self,
    {
        JsonRpcError {
            code: self.code,
            message: self.message.clone(),
            data: match &self.data {
                Some(value) => Some(value.clone()),
                None => None,
            },
        }
    }
}

/// How the client names itself in the handshake.
#[derive(Clone, Debug, PartialEq, Eq)]
pub struct ClientInfo {
    pub name: String,
    pub title: Option<String>,
    pub version: String,
}

/// A request of the peer, told apart by its method.
#[derive(Clone, Debug, PartialEq)]
pub enum ClientRequest {
    Initialize { request_id: RequestId, client_info: ClientInfo },
    ConfigRead { request_id: RequestId, params: Option<serde_json::Value> },
    ConfigValueWrite { request_id: RequestId, params: Option<serde_json::Value> },
    ConfigBatchWrite { request_id: RequestId, params: Option<serde_json::Value> },
    ConfigRequirementsRead { request_id: RequestId },
    Engine { request_id: RequestId, method: String, params: Option<serde_json::Value> },
}

impl ClientRequest {
    /// The id under which the request must be answered.
    pub open spec fn request_id(self) -> RequestId {
        match self {
            ClientRequest::Initialize { request_id, .. } => request_id,
            ClientRequest::ConfigRead { request_id, .. } => request_id,
            ClientRequest::ConfigValueWrite { request_id, .. } => request_id,
            ClientRequest::ConfigBatchWrite { request_id, .. } => request_id,
            ClientRequest::ConfigRequirementsRead { request_id } => request_id,
            ClientRequest::Engine { request_id, .. } => request_id,
        }
    }
}

/// A request frame as it reaches the processor: understood, or not.
#[derive(Clone, Debug, PartialEq)]
pub enum InboundRequest {
    /// The frame was a well-formed request of a known kind.
    Parsed(ClientRequest),
    /// The frame could not be understood; `detail` says why. It carries
    /// the request id where one could be made out.
    Malformed { request_id: Option<RequestId>, detail: String },
}

/// A response frame of the peer.
#[derive(Clone, Debug, PartialEq)]
pub struct JsonRpcResponse {
    pub id: RequestId,
    pub result: serde_json::Value,
}

/// An error frame of the peer.
#[derive(Clone, Debug, PartialEq)]
pub struct JsonRpcErrorFrame {
    pub id: RequestId,
    pub error: JsonRpcError,
}

/// A notification frame of the peer.
#[derive(Clone, Debug, PartialEq)]
pub struct JsonRpcNotification {
    pub method: String,
    pub params: Option<serde_json::Value>,
}

/// A warning about the configuration, raised while it was loaded.
#[derive(Clone, Debug, PartialEq, Eq)]
pub struct ConfigWarningNotification {
    pub summary: String,
    pub details: Option<String>,
}

/// A notification from the host to the peer.
#[derive(Clone, Debug, PartialEq)]
pub enum ServerNotification {
    ConfigWarning(ConfigWarningNotification),
    Engine { method: String, params: serde_json::Value },
}

/// Why the host asks the peer for fresh tokens.
#[derive(Clone, Copy, Debug, PartialEq, Eq, Structural)]
pub enum ChatgptAuthTokensRefreshReason {
    Unauthorized,
}

/// Parameters of the token refresh request sent to the peer.
#[derive(Clone, Debug, PartialEq, Eq)]
pub struct ChatgptAuthTokensRefreshParams {
    pub reason: ChatgptAuthTokensRefreshReason,
    pub previous_account_id: Option<String>,
}

/// A request that the host sends to the peer.
#[derive(Clone, Debug, PartialEq)]
pub enum ServerRequestPayload {
    ChatgptAuthTokensRefresh(ChatgptAuthTokensRefreshParams),
    Engine { method: String, params: serde_json::Value },
}

/// The answer to a successful handshake.
#[derive(Clone, Debug, PartialEq, Eq)]
pub struct InitializeResponse {
    pub user_agent: String,
}

/// The result carried by a response frame of the host.
#[derive(Clone, Debug, PartialEq)]
pub enum ResponsePayload {
    Initialize(InitializeResponse),
    Json(serde_json::Value),
}

/// A frame on its way to the peer.
#[derive(Clone, Debug, PartialEq)]
pub enum OutgoingMessage {
    Request { id: RequestId, payload: ServerRequestPayload },
    Response { id: RequestId, result: ResponsePayload },
    Error { id: RequestId, error: JsonRpcError },
    Notification(ServerNotification),
}

impl OutgoingMessage {
    /// Whether the frame ends a request of the peer: a response or an error.
    pub open spec fn is_terminal(self) -> bool {
        self is Response || self is Error
    }

    /// The request that a terminal frame answers.
    pub open spec fn answers(self, id: RequestId) -> bool {
        match self {
            OutgoingMessage::Response { id: i, .. } => i == id,
            OutgoingMessage::Error { id: i, .. } => i == id,
            _ => false,
        }
    }

    /// Whether the frame is an error frame for `id` with the
    /// invalid-request code, the text `message` and no data.
    pub open spec fn is_invalid_request(self, id: RequestId, message: Seq<char>) -> bool {
        &&& self matches OutgoingMessage::Error { id: i, error }
        &&& i == id
        &&& error.code == INVALID_REQUEST_ERROR_CODE
        &&& error.message@ == message
        &&& error.data is None
    }
}

/// Builds the error object of a malformed frame or a handshake violation.
pub fn invalid_request(message: String) -> (error: JsonRpcError)
    ensures
        error.code == INVALID_REQUEST_ERROR_CODE,
        error.message == message,
        error.data is None,
{
    JsonRpcError { code: INVALID_REQUEST_ERROR_CODE, message, data: None }
}

} // verus!
