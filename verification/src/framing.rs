//! How the members of a frame decide what the frame is, and under which
//! method names the requests and notifications travel.

use vstd::prelude::*;
use vstd::string::*;
use crate::protocol::ClientInfo;
use crate::protocol::ClientRequest;
use crate::protocol::InboundRequest;
use crate::protocol::JsonRpcError;
use crate::protocol::JsonRpcErrorFrame;
use crate::protocol::JsonRpcNotification;
use crate::protocol::JsonRpcResponse;
use crate::protocol::RequestId;
use crate::protocol::ServerNotification;
use crate::protocol::ServerRequestPayload;
use crate::text::str_eq;

verus! {

/// Method of the handshake.
pub const INITIALIZE_METHOD: &'static str = "initialize";

/// Method that reads the configuration.
pub const CONFIG_READ_METHOD: &'static str = "config/read";

/// Method that writes one configuration value.
pub const CONFIG_VALUE_WRITE_METHOD: &'static str = "config/value/write";

/// Method that writes several configuration values.
pub const CONFIG_BATCH_WRITE_METHOD: &'static str = "config/batchWrite";

/// Method that reads the configuration requirements.
pub const CONFIG_REQUIREMENTS_READ_METHOD: &'static str = "configRequirements/read";

/// Method under which the host asks the peer for fresh tokens.
pub const AUTH_TOKENS_REFRESH_METHOD: &'static str = "account/chatgptAuthTokens/refresh";

/// Method under which the host sends a configuration warning.
pub const CONFIG_WARNING_METHOD: &'static str = "configWarning";

/// The members of a frame as they were read from the wire.
#[derive(Debug, PartialEq)]
pub struct RawFrame {
    /// The id, where the frame has one that is a text or a whole number.
    pub id: Option<RequestId>,
    /// The method, where the frame has one that is a text.
    pub method: Option<String>,
    /// The parameters, where the frame has some.
    pub params: Option<serde_json::Value>,
    /// The result, where the frame has one.
    pub result: Option<serde_json::Value>,
    /// The error object, where the frame has one, or why it could not be
    /// read as one.
    pub error: Option<Result<JsonRpcError, String>>,
    /// The client that the parameters name, or why they name none.
    pub client_info: Result<ClientInfo, String>,
}

/// A frame of the peer, told apart by its members.
#[derive(Debug, PartialEq)]
pub enum Inbound {
    /// A frame with an id and a method.
    Request(InboundRequest),
    /// A frame with an id and a result.
    Response(JsonRpcResponse),
    /// A frame with an id and an error object.
    Error(JsonRpcErrorFrame),
    /// A frame with a method and no id.
    Notification(JsonRpcNotification),
}

/// The request that a frame with the id `request_id` and the method
/// `method` stands for. The handshake needs the client that its parameters
/// name, and is not understood without; the configuration methods keep
/// their parameters; every other method is for the engine.
pub open spec fn request_for(
    request_id: RequestId,
    method: String,
    params: Option<serde_json::Value>,
    client_info: Result<ClientInfo, String>,
) -> InboundRequest {
    if method@ == INITIALIZE_METHOD@ {
        match client_info {
            Ok(info) => InboundRequest::Parsed(
                ClientRequest::Initialize { request_id, client_info: info },
            ),
            Err(detail) => InboundRequest::Malformed { request_id: Some(request_id), detail },
        }
    } else if method@ == CONFIG_READ_METHOD@ {
        InboundRequest::Parsed(ClientRequest::ConfigRead { request_id, params })
    } else if method@ == CONFIG_VALUE_WRITE_METHOD@ {
        InboundRequest::Parsed(ClientRequest::ConfigValueWrite { request_id, params })
    } else if method@ == CONFIG_BATCH_WRITE_METHOD@ {
        InboundRequest::Parsed(ClientRequest::ConfigBatchWrite { request_id, params })
    } else if method@ == CONFIG_REQUIREMENTS_READ_METHOD@ {
        InboundRequest::Parsed(ClientRequest::ConfigRequirementsRead { request_id })
    } else {
        InboundRequest::Parsed(ClientRequest::Engine { request_id, method, params })
    }
}

/// Whether `frame` is what the members `raw` make: with an id and a
/// method a request; with a method alone a notification; with an id and no
/// method an error where there is an error object, a response where there
/// is a result, and a frame that is not understood where there is neither
/// or where the error object could not be read. A frame with neither id
/// nor method is not understood and has no id to answer under.
pub open spec fn frame_of(raw: RawFrame, frame: Inbound) -> bool {
    match (raw.id, raw.method) {
        (Some(id), Some(method)) => frame == Inbound::Request(
            request_for(id, method, raw.params, raw.client_info),
        ),
        (None, Some(method)) => frame == Inbound::Notification(
            JsonRpcNotification { method, params: raw.params },
        ),
        (Some(id), None) => match raw.error {
            Some(Ok(error)) => frame == Inbound::Error(JsonRpcErrorFrame { id, error }),
            Some(Err(detail)) => frame == Inbound::Request(
                InboundRequest::Malformed { request_id: Some(id), detail },
            ),
            None => match raw.result {
                Some(result) => frame == Inbound::Response(JsonRpcResponse { id, result }),
                None => {
                    &&& frame matches Inbound::Request(
                        InboundRequest::Malformed { request_id, detail },
                    )
                    &&& request_id == Some(id)
                    &&& detail@ == "frame has neither method, result nor error"@
                },
            },
        },
        (None, None) => {
            &&& frame matches Inbound::Request(InboundRequest::Malformed { request_id, detail })
            &&& request_id is None
            &&& detail@ == "frame has neither id nor method"@
        },
    }
}

/// The request that a frame with an id and a method stands for; see
/// [`request_for`].
pub fn request_of(
    request_id: RequestId,
    method: String,
    params: Option<serde_json::Value>,
    client_info: Result<ClientInfo, String>,
) -> (request: InboundRequest)
    ensures
        request == request_for(request_id, method, params, client_info),
{
    let name = method.as_str();
    if str_eq(name, INITIALIZE_METHOD) {
        match client_info {
            Ok(info) => InboundRequest::Parsed(
                ClientRequest::Initialize { request_id, client_info: info },
            ),
            Err(detail) => InboundRequest::Malformed { request_id: Some(request_id), detail },
        }
    } else if str_eq(name, CONFIG_READ_METHOD) {
        InboundRequest::Parsed(ClientRequest::ConfigRead { request_id, params })
    } else if str_eq(name, CONFIG_VALUE_WRITE_METHOD) {
        InboundRequest::Parsed(ClientRequest::ConfigValueWrite { request_id, params })
    } else if str_eq(name, CONFIG_BATCH_WRITE_METHOD) {
        InboundRequest::Parsed(ClientRequest::ConfigBatchWrite { request_id, params })
    } else if str_eq(name, CONFIG_REQUIREMENTS_READ_METHOD) {
        InboundRequest::Parsed(ClientRequest::ConfigRequirementsRead { request_id })
    } else {
        InboundRequest::Parsed(ClientRequest::Engine { request_id, method, params })
    }
}

/// Tells what a frame is from its members; see [`frame_of`].
pub fn read_frame(raw: RawFrame) -> (frame: Inbound)
    ensures
        frame_of(raw, frame),
{
    let RawFrame { id, method, params, result, error, client_info } = raw;
    match id {
        Some(id) => match method {
            Some(method) => Inbound::Request(request_of(id, method, params, client_info)),
            None => match error {
                Some(Ok(error)) => Inbound::Error(JsonRpcErrorFrame { id, error }),
                Some(Err(detail)) => Inbound::Request(
                    InboundRequest::Malformed { request_id: Some(id), detail },
                ),
                None => match result {
                    Some(result) => Inbound::Response(JsonRpcResponse { id, result }),
                    None => Inbound::Request(
                        InboundRequest::Malformed {
                            request_id: Some(id),
                            detail: String::from_str("frame has neither method, result nor error"),
                        },
                    ),
                },
            },
        },
        None => match method {
            Some(method) => Inbound::Notification(JsonRpcNotification { method, params }),
            None => Inbound::Request(
                InboundRequest::Malformed {
                    request_id: None,
                    detail: String::from_str("frame has neither id nor method"),
                },
            ),
        },
    }
}

/// The method under which a request of the host travels.
pub fn server_request_method(payload: &ServerRequestPayload) -> (method: String)
    ensures
        method@ == (match *payload {
            ServerRequestPayload::ChatgptAuthTokensRefresh(_) => AUTH_TOKENS_REFRESH_METHOD@,
            ServerRequestPayload::Engine { method: m, .. } => m@,
        }),
{
    match payload {
        ServerRequestPayload::ChatgptAuthTokensRefresh(_) => String::from_str(
            AUTH_TOKENS_REFRESH_METHOD,
        ),
        ServerRequestPayload::Engine { method, .. } => method.clone(),
    }
}

/// The method under which a notification of the host travels.
pub fn server_notification_method(notification: &ServerNotification) -> (method: String)
    ensures
        method@ == (match *notification {
            ServerNotification::ConfigWarning(_) => CONFIG_WARNING_METHOD@,
            ServerNotification::Engine { method: m, .. } => m@,
        }),
{
    match notification {
        ServerNotification::ConfigWarning(_) => String::from_str(CONFIG_WARNING_METHOD),
        ServerNotification::Engine { method, .. } => method.clone(),
    }
}

} // verus!
