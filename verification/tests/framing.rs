use trill_engine::framing::read_frame;
use trill_engine::framing::request_of;
use trill_engine::framing::server_notification_method;
use trill_engine::framing::server_request_method;
use trill_engine::framing::Inbound;
use trill_engine::framing::RawFrame;
use trill_engine::framing::AUTH_TOKENS_REFRESH_METHOD;
use trill_engine::framing::CONFIG_WARNING_METHOD;
use trill_engine::protocol::ChatgptAuthTokensRefreshParams;
use trill_engine::protocol::ChatgptAuthTokensRefreshReason;
use trill_engine::protocol::ClientInfo;
use trill_engine::protocol::ClientRequest;
use trill_engine::protocol::ConfigWarningNotification;
use trill_engine::protocol::InboundRequest;
use trill_engine::protocol::JsonRpcError;
use trill_engine::protocol::JsonRpcErrorFrame;
use trill_engine::protocol::JsonRpcNotification;
use trill_engine::protocol::JsonRpcResponse;
use trill_engine::protocol::RequestId;
use trill_engine::protocol::ServerNotification;
use trill_engine::protocol::ServerRequestPayload;

fn info() -> ClientInfo {
    ClientInfo { name: "vscode".to_string(), title: Some("VS Code".to_string()), version: "1.0".to_string() }
}

fn no_client() -> Result<ClientInfo, String> {
    Err("missing field `clientInfo`".to_string())
}

fn value(text: &str) -> serde_json::Value {
    serde_json::Value::String(text.to_string())
}

fn raw() -> RawFrame {
    RawFrame { id: None, method: None, params: None, result: None, error: None, client_info: no_client() }
}

fn id(n: i64) -> RequestId {
    RequestId::Integer(n)
}

#[test]
fn methods_name_requests() {
    assert_eq!(
        request_of(id(1), "initialize".to_string(), Some(value("p")), Ok(info())),
        InboundRequest::Parsed(ClientRequest::Initialize { request_id: id(1), client_info: info() })
    );
    assert_eq!(
        request_of(id(2), "config/read".to_string(), Some(value("p")), no_client()),
        InboundRequest::Parsed(ClientRequest::ConfigRead { request_id: id(2), params: Some(value("p")) })
    );
    assert_eq!(
        request_of(id(3), "config/value/write".to_string(), None, no_client()),
        InboundRequest::Parsed(ClientRequest::ConfigValueWrite { request_id: id(3), params: None })
    );
    assert_eq!(
        request_of(id(4), "config/batchWrite".to_string(), Some(value("b")), no_client()),
        InboundRequest::Parsed(ClientRequest::ConfigBatchWrite { request_id: id(4), params: Some(value("b")) })
    );
    assert_eq!(
        request_of(id(5), "configRequirements/read".to_string(), Some(value("x")), no_client()),
        InboundRequest::Parsed(ClientRequest::ConfigRequirementsRead { request_id: id(5) })
    );
    assert_eq!(
        request_of(RequestId::Text("six".to_string()), "thread/start".to_string(), None, Ok(info())),
        InboundRequest::Parsed(ClientRequest::Engine {
            request_id: RequestId::Text("six".to_string()),
            method: "thread/start".to_string(),
            params: None,
        })
    );
    // method names are matched letter for letter
    assert_eq!(
        request_of(id(7), "Initialize".to_string(), None, Ok(info())),
        InboundRequest::Parsed(ClientRequest::Engine {
            request_id: id(7),
            method: "Initialize".to_string(),
            params: None,
        })
    );
}

#[test]
fn handshake_without_client_is_malformed() {
    assert_eq!(
        request_of(id(1), "initialize".to_string(), Some(value("p")), no_client()),
        InboundRequest::Malformed {
            request_id: Some(id(1)),
            detail: "missing field `clientInfo`".to_string()
        }
    );
}

#[test]
fn members_decide_the_kind_of_frame() {
    let request = RawFrame {
        id: Some(id(1)),
        method: Some("config/read".to_string()),
        params: Some(value("p")),
        // a request is a request whatever else it carries
        result: Some(value("r")),
        ..raw()
    };
    assert_eq!(
        read_frame(request),
        Inbound::Request(InboundRequest::Parsed(ClientRequest::ConfigRead {
            request_id: id(1),
            params: Some(value("p"))
        }))
    );
    let notification = RawFrame { method: Some("ping".to_string()), params: Some(value("p")), ..raw() };
    assert_eq!(
        read_frame(notification),
        Inbound::Notification(JsonRpcNotification { method: "ping".to_string(), params: Some(value("p")) })
    );
    let response = RawFrame { id: Some(id(2)), result: Some(value("r")), ..raw() };
    assert_eq!(read_frame(response), Inbound::Response(JsonRpcResponse { id: id(2), result: value("r") }));
    let failure = JsonRpcError { code: 7, message: "no".to_string(), data: None };
    let error = RawFrame {
        id: Some(id(3)),
        error: Some(Ok(failure.clone())),
        // the error object wins over a result
        result: Some(value("r")),
        ..raw()
    };
    assert_eq!(read_frame(error), Inbound::Error(JsonRpcErrorFrame { id: id(3), error: failure }));
}

#[test]
fn frames_that_are_not_understood() {
    let bad_error = RawFrame { id: Some(id(1)), error: Some(Err("missing field `code`".to_string())), ..raw() };
    assert_eq!(
        read_frame(bad_error),
        Inbound::Request(InboundRequest::Malformed {
            request_id: Some(id(1)),
            detail: "missing field `code`".to_string()
        })
    );
    let bare_id = RawFrame { id: Some(id(2)), params: Some(value("p")), ..raw() };
    assert_eq!(
        read_frame(bare_id),
        Inbound::Request(InboundRequest::Malformed {
            request_id: Some(id(2)),
            detail: "frame has neither method, result nor error".to_string()
        })
    );
    assert_eq!(
        read_frame(RawFrame { result: Some(value("r")), ..raw() }),
        Inbound::Request(InboundRequest::Malformed {
            request_id: None,
            detail: "frame has neither id nor method".to_string()
        })
    );
}

#[test]
fn host_frames_travel_under_their_methods() {
    assert_eq!(AUTH_TOKENS_REFRESH_METHOD, "account/chatgptAuthTokens/refresh");
    assert_eq!(CONFIG_WARNING_METHOD, "configWarning");
    let refresh = ServerRequestPayload::ChatgptAuthTokensRefresh(ChatgptAuthTokensRefreshParams {
        reason: ChatgptAuthTokensRefreshReason::Unauthorized,
        previous_account_id: None,
    });
    assert_eq!(server_request_method(&refresh), "account/chatgptAuthTokens/refresh");
    assert_eq!(
        server_request_method(&ServerRequestPayload::Engine {
            method: "item/approve".to_string(),
            params: value("p")
        }),
        "item/approve"
    );
    let warning = ServerNotification::ConfigWarning(ConfigWarningNotification {
        summary: "s".to_string(),
        details: None,
    });
    assert_eq!(server_notification_method(&warning), "configWarning");
    assert_eq!(
        server_notification_method(&ServerNotification::Engine {
            method: "thread/started".to_string(),
            params: value("p")
        }),
        "thread/started"
    );
}
