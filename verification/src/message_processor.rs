//! The protocol front door: the handshake gate and the routing of the
//! peer's frames.

use vstd::prelude::*;
use vstd::string::*;
use crate::config_types::ResidencyRequirement;
use crate::config_types::SessionSource;
use crate::identity::client_suffix;
use crate::identity::format_client_suffix;
use crate::identity::is_header_value;
use crate::identity::ProcessIdentity;
use crate::identity::SetOriginatorError;
use crate::outgoing::OutgoingMessageSender;
use crate::outgoing::Resolution;
use crate::protocol::ChatgptAuthTokensRefreshParams;
use crate::protocol::ChatgptAuthTokensRefreshReason;
use crate::protocol::ClientInfo;
use crate::protocol::ClientRequest;
use crate::protocol::ConfigWarningNotification;
use crate::protocol::InboundRequest;
use crate::protocol::InitializeResponse;
use crate::protocol::invalid_request;
use crate::protocol::JsonRpcError;
use crate::protocol::JsonRpcErrorFrame;
use crate::protocol::JsonRpcNotification;
use crate::protocol::JsonRpcResponse;
use crate::protocol::OutgoingMessage;
use crate::protocol::RequestId;
use crate::protocol::ResponsePayload;
use crate::protocol::ServerNotification;
use crate::protocol::ServerRequestPayload;
use crate::protocol::ThreadId;
use crate::text::concat2;
use crate::text::concat3;
use crate::text::decimal_digits;
use crate::text::push_decimal;
use crate::thread_manager::ThreadCreatedReceiver;
use crate::thread_manager::ThreadManager;
use crate::trill_thread::TrillThread;

verus! {

/// What is left to do for a request once the processor has seen it.
#[derive(Clone, Debug, PartialEq)]
pub enum Dispatch {
    /// Nothing: the processor has answered the request itself.
    Done,
    /// Read the configuration and report with
    /// [`MessageProcessor::handle_config_read`].
    ConfigRead { request_id: RequestId, params: Option<serde_json::Value> },
    /// Write one configuration value and report with
    /// [`MessageProcessor::handle_config_value_write`].
    ConfigValueWrite { request_id: RequestId, params: Option<serde_json::Value> },
    /// Write several configuration values and report with
    /// [`MessageProcessor::handle_config_batch_write`].
    ConfigBatchWrite { request_id: RequestId, params: Option<serde_json::Value> },
    /// Read the configuration requirements and report with
    /// [`MessageProcessor::handle_config_requirements_read`].
    ConfigRequirementsRead { request_id: RequestId },
    /// Hand the request to the engine, which answers it.
    Engine { request_id: RequestId, method: String, params: Option<serde_json::Value> },
}

/// Where a request goes once the handshake is done.
pub open spec fn route(request: ClientRequest) -> Dispatch {
    match request {
        ClientRequest::Initialize { .. } => Dispatch::Done,
        ClientRequest::ConfigRead { request_id, params } => Dispatch::ConfigRead {
            request_id,
            params,
        },
        ClientRequest::ConfigValueWrite { request_id, params } => Dispatch::ConfigValueWrite {
            request_id,
            params,
        },
        ClientRequest::ConfigBatchWrite { request_id, params } => Dispatch::ConfigBatchWrite {
            request_id,
            params,
        },
        ClientRequest::ConfigRequirementsRead { request_id } => Dispatch::ConfigRequirementsRead {
            request_id,
        },
        ClientRequest::Engine { request_id, method, params } => Dispatch::Engine {
            request_id,
            method,
            params,
        },
    }
}

/// Text of the error that answers a frame which could not be understood.
pub open spec fn invalid_request_message(detail: Seq<char>) -> Seq<char> {
    "Invalid request: "@ + detail
}

/// Text of the error that answers a handshake whose client name is not a
/// header value.
pub open spec fn invalid_client_name_message(name: Seq<char>) -> Seq<char> {
    "Invalid clientInfo.name: '"@ + name + "'. Must be a valid HTTP header value."@
}

/// The frame that carries a configuration warning to the peer.
pub open spec fn warning_frame(warning: ConfigWarningNotification) -> OutgoingMessage {
    OutgoingMessage::Notification(ServerNotification::ConfigWarning(warning))
}

/// The front door of the protocol. It is uninitialized until the first
/// successful handshake and initialized from then on.
pub struct MessageProcessor<W> {
    outgoing: OutgoingMessageSender<W>,
    thread_manager: ThreadManager,
    identity: ProcessIdentity,
    enforce_residency: Option<ResidencyRequirement>,
    initialized: bool,
    config_warnings: Vec<ConfigWarningNotification>,
}

/// What a processor is made from.
pub struct MessageProcessorArgs {
    /// The identity under which the process presents itself.
    pub identity: ProcessIdentity,
    /// Where the configuration wants the requests of the process to stay.
    pub enforce_residency: Option<ResidencyRequirement>,
    /// The warnings raised while the configuration was loaded.
    pub config_warnings: Vec<ConfigWarningNotification>,
    /// How many notifications of new threads are kept for listeners.
    pub thread_created_capacity: usize,
}

impl<W> MessageProcessor<W> {
    /// The outgoing correlation layer of the processor.
    pub closed spec fn outgoing(&self) -> OutgoingMessageSender<W> {
        self.outgoing
    }

    /// The registry of threads of the processor.
    pub closed spec fn thread_manager(&self) -> ThreadManager {
        self.thread_manager
    }

    /// The identity of the process.
    pub closed spec fn identity(&self) -> ProcessIdentity {
        self.identity
    }

    /// Where the configuration wants the requests of the process to stay.
    pub closed spec fn enforce_residency(&self) -> Option<ResidencyRequirement> {
        self.enforce_residency
    }

    /// Whether the handshake has succeeded.
    pub closed spec fn initialized(&self) -> bool {
        self.initialized
    }

    /// The configuration warnings that wait for the handshake.
    pub closed spec fn config_warnings(&self) -> Seq<ConfigWarningNotification> {
        self.config_warnings@
    }

    /// The frames queued for the peer.
    pub open spec fn queued(&self) -> Seq<OutgoingMessage> {
        self.outgoing().queued()
    }

    /// `post` differs from `pre` by one more queued frame, `frame`.
    pub open spec fn sent(pre: Self, post: Self, frame: OutgoingMessage) -> bool {
        &&& post.queued() == pre.queued().push(frame)
        &&& post.outgoing().pending() == pre.outgoing().pending()
        &&& post.outgoing().next_id() == pre.outgoing().next_id()
        &&& pre.outgoing().wf() ==> post.outgoing().wf()
        &&& post.thread_manager() == pre.thread_manager()
        &&& post.identity() == pre.identity()
        &&& post.enforce_residency() == pre.enforce_residency()
        &&& post.initialized() == pre.initialized()
        &&& post.config_warnings() == pre.config_warnings()
    }

    /// `post` differs from `pre` by one more queued frame: the
    /// invalid-request error for `id` with the text `message`.
    pub open spec fn rejected(pre: Self, post: Self, id: RequestId, message: Seq<char>) -> bool {
        &&& post.queued().len() == pre.queued().len() + 1
        &&& post.queued().drop_last() == pre.queued()
        &&& post.queued().last().is_invalid_request(id, message)
        &&& post.outgoing().pending() == pre.outgoing().pending()
        &&& post.outgoing().next_id() == pre.outgoing().next_id()
        &&& pre.outgoing().wf() ==> post.outgoing().wf()
        &&& post.thread_manager() == pre.thread_manager()
        &&& post.identity() == pre.identity()
        &&& post.enforce_residency() == pre.enforce_residency()
        &&& post.initialized() == pre.initialized()
        &&& post.config_warnings() == pre.config_warnings()
    }

    /// `post` is `pre` after a successful handshake of the client `info`
    /// under the request `id`: the originator is the client's name unless
    /// one was set before, the user-agent suffix is recorded, the response
    /// with the user agent is queued, the waiting warnings follow it in
    /// their order, and none is left waiting. The residency that the
    /// configuration wants is in force from then on.
    pub open spec fn welcomed(pre: Self, post: Self, id: RequestId, info: ClientInfo) -> bool {
        let before = pre.queued();
        let after = post.queued();
        let warnings = pre.config_warnings();
        &&& post.initialized()
        &&& post.config_warnings().len() == 0
        &&& post.identity().originator() == match pre.identity().originator() {
            Some(o) => Some(o),
            None => Some(info.name@),
        }
        &&& post.identity().user_agent_suffix() == Some(client_suffix(info.name@, info.version@))
        &&& post.identity().default_originator() == pre.identity().default_originator()
        &&& post.identity().client_details() == pre.identity().client_details()
        &&& post.identity().residency_requirement() == pre.enforce_residency()
        &&& post.enforce_residency() == pre.enforce_residency()
        &&& after.len() == before.len() + 1 + warnings.len()
        &&& after.subrange(0, before.len() as int) == before
        &&& after[before.len() as int] matches OutgoingMessage::Response {
            id: i,
            result: ResponsePayload::Initialize(r),
        } && i == id && r.user_agent@ == post.identity().user_agent()
        &&& forall|j: int|
            before.len() < j < after.len() ==> #[trigger] after[j] == warning_frame(
                warnings[j - before.len() - 1],
            )
        &&& post.outgoing().pending() == pre.outgoing().pending()
        &&& post.outgoing().next_id() == pre.outgoing().next_id()
        &&& pre.outgoing().wf() ==> post.outgoing().wf()
        &&& post.thread_manager() == pre.thread_manager()
    }

    /// What [`MessageProcessor::process_request`] does with `frame` in the
    /// state `pre`: the state `post` it leaves and what it returns.
    pub open spec fn handled(pre: Self, frame: InboundRequest, post: Self, next: Dispatch) -> bool {
        match frame {
            InboundRequest::Malformed { request_id: Some(request_id), detail } => {
                &&& next is Done
                &&& Self::rejected(pre, post, request_id, invalid_request_message(detail@))
            },
            InboundRequest::Malformed { request_id: None, .. } => {
                &&& next is Done
                &&& post == pre
            },
            InboundRequest::Parsed(ClientRequest::Initialize { request_id, client_info }) => {
                &&& next is Done
                &&& if pre.initialized() {
                    Self::rejected(pre, post, request_id, "Already initialized"@)
                } else if !is_header_value(client_info.name@) {
                    Self::rejected(
                        pre,
                        post,
                        request_id,
                        invalid_client_name_message(client_info.name@),
                    )
                } else {
                    Self::welcomed(pre, post, request_id, client_info)
                }
            },
            InboundRequest::Parsed(request) => {
                if pre.initialized() {
                    &&& next == route(request)
                    &&& post == pre
                } else {
                    &&& next is Done
                    &&& Self::rejected(pre, post, request.request_id(), "Not initialized"@)
                }
            },
        }
    }

    /// A processor before the handshake: nothing queued, nothing in
    /// flight, no thread, and the warnings given waiting. Its threads
    /// belong to the editor front end.
    pub fn new(args: MessageProcessorArgs) -> (p: Self)
        ensures
            !p.initialized(),
            p.config_warnings() == args.config_warnings@,
            p.identity() == args.identity,
            p.enforce_residency() == args.enforce_residency,
            p.outgoing().wf(),
            p.outgoing().pending() == Map::<i64, W>::empty(),
            p.queued() == Seq::<OutgoingMessage>::empty(),
            p.outgoing().next_id() == 0,
            p.thread_manager().wf(),
            p.thread_manager().threads() == Map::<u64, TrillThread>::empty(),
            p.thread_manager().created_count() == 0,
            p.thread_manager().source() == SessionSource::VSCode,
    {
        let MessageProcessorArgs {
            identity,
            enforce_residency,
            config_warnings,
            thread_created_capacity,
        } = args;
        MessageProcessor {
            outgoing: OutgoingMessageSender::new(),
            thread_manager: ThreadManager::new(SessionSource::VSCode, thread_created_capacity),
            identity,
            enforce_residency,
            initialized: false,
            config_warnings,
        }
    }

    /// Whether the handshake has succeeded.
    pub fn is_initialized(&self) -> (b: bool)
        ensures
            b == self.initialized(),
    {
        self.initialized
    }

    /// Number of configuration warnings that wait for the handshake.
    pub fn pending_warnings(&self) -> (n: usize)
        ensures
            n == self.config_warnings().len(),
    {
        self.config_warnings.len()
    }

    /// Where the requests of the process have to stay, if anywhere.
    pub fn residency_requirement(&self) -> (requirement: Option<ResidencyRequirement>)
        ensures
            requirement == self.identity().residency_requirement(),
    {
        self.identity.get_residency_requirement()
    }

    /// The user agent under which the process presents itself.
    pub fn user_agent(&self) -> (agent: String)
        ensures
            agent@ == self.identity().user_agent(),
    {
        self.identity.get_user_agent()
    }

    /// The outgoing correlation layer, to send through and to take frames
    /// from.
    pub fn outgoing_mut(&mut self) -> (sender: &mut OutgoingMessageSender<W>)
        ensures
            *sender == old(self).outgoing(),
            final(self).outgoing() == *final(sender),
            final(self).thread_manager() == old(self).thread_manager(),
            final(self).identity() == old(self).identity(),
            final(self).enforce_residency() == old(self).enforce_residency(),
            final(self).initialized() == old(self).initialized(),
            final(self).config_warnings() == old(self).config_warnings(),
    {
        &mut self.outgoing
    }

    /// The registry of threads, to start threads in and to work on them.
    pub fn thread_manager_mut(&mut self) -> (manager: &mut ThreadManager)
        ensures
            *manager == old(self).thread_manager(),
            final(self).thread_manager() == *final(manager),
            final(self).outgoing() == old(self).outgoing(),
            final(self).identity() == old(self).identity(),
            final(self).enforce_residency() == old(self).enforce_residency(),
            final(self).initialized() == old(self).initialized(),
            final(self).config_warnings() == old(self).config_warnings(),
    {
        &mut self.thread_manager
    }

    /// The registry of threads, to read from.
    pub fn thread_manager_ref(&self) -> (manager: &ThreadManager)
        ensures
            *manager == self.thread_manager(),
    {
        &self.thread_manager
    }

    fn reject(&mut self, id: RequestId, message: String)
        ensures
            Self::rejected(*old(self), *final(self), id, message@),
    {
        self.outgoing.send_error(id, invalid_request(message));
        assert(final(self).queued().drop_last() =~= old(self).queued());
    }

    fn flush_config_warnings(&mut self)
        ensures
            final(self).config_warnings().len() == 0,
            final(self).queued().len() == old(self).queued().len() + old(self).config_warnings().len(),
            final(self).queued().subrange(0, old(self).queued().len() as int) == old(self).queued(),
            forall|j: int|
                old(self).queued().len() <= j < final(self).queued().len() ==> #[trigger] final(self).queued()[j] == warning_frame(
                    old(self).config_warnings()[j - old(self).queued().len()],
                ),
            final(self).outgoing().pending() == old(self).outgoing().pending(),
            final(self).outgoing().next_id() == old(self).outgoing().next_id(),
            old(self).outgoing().wf() ==> final(self).outgoing().wf(),
            final(self).thread_manager() == old(self).thread_manager(),
            final(self).identity() == old(self).identity(),
            final(self).enforce_residency() == old(self).enforce_residency(),
            final(self).initialized() == old(self).initialized(),
    {
        let ghost before = self.queued();
        let ghost warnings = self.config_warnings();
        let ghost mut done: int = 0;
        while self.config_warnings.len() > 0
            invariant
                0 <= done <= warnings.len(),
                self.config_warnings() == warnings.subrange(done, warnings.len() as int),
                self.queued().len() == before.len() + done,
                self.queued().subrange(0, before.len() as int) == before,
                forall|j: int|
                    before.len() <= j < self.queued().len() ==> #[trigger] self.queued()[j]
                        == warning_frame(warnings[j - before.len()]),
                self.outgoing().pending() == old(self).outgoing().pending(),
                self.outgoing().next_id() == old(self).outgoing().next_id(),
                old(self).outgoing().wf() ==> self.outgoing().wf(),
                self.thread_manager() == old(self).thread_manager(),
                self.identity() == old(self).identity(),
                self.enforce_residency() == old(self).enforce_residency(),
                self.initialized() == old(self).initialized(),
            decreases self.config_warnings().len(),
        {
            let ghost queue_before = self.queued();
            let notification = self.config_warnings.remove(0);
            assert(notification == warnings[done]);
            self.outgoing.send_server_notification(
                ServerNotification::ConfigWarning(notification),
            );
            proof {
                assert(self.config_warnings() =~= warnings.subrange(
                    done + 1,
                    warnings.len() as int,
                ));
                assert(self.queued().subrange(0, before.len() as int) =~= before);
                assert forall|j: int|
                    before.len() <= j < self.queued().len() implies #[trigger] self.queued()[j]
                    == warning_frame(warnings[j - before.len()]) by {
                    if j < queue_before.len() {
                        assert(self.queued()[j] == queue_before[j]);
                    }
                }
                done = done + 1;
            }
        }
    }

    fn initialize(&mut self, request_id: RequestId, client_info: ClientInfo)
        requires
            !old(self).initialized(),
        ensures
            if is_header_value(client_info.name@) {
                Self::welcomed(*old(self), *final(self), request_id, client_info)
            } else {
                Self::rejected(
                    *old(self),
                    *final(self),
                    request_id,
                    invalid_client_name_message(client_info.name@),
                )
            },
    {
        let ClientInfo { name, title: _title, version } = client_info;
        match self.identity.set_default_originator(name.clone()) {
            Err(SetOriginatorError::InvalidHeaderValue) => {
                let message = concat3(
                    "Invalid clientInfo.name: '",
                    name.as_str(),
                    "'. Must be a valid HTTP header value.",
                );
                self.reject(request_id, message);
                return ;
            },
            Err(SetOriginatorError::AlreadyInitialized) => {
                // An originator set earlier, as by an override of the
                // environment, stays: the handshake goes on.
            },
            Ok(_) => {},
        }
        self.identity.set_residency_requirement(self.enforce_residency);
        self.identity.set_user_agent_suffix(format_client_suffix(name.as_str(), version.as_str()));
        let user_agent = self.identity.get_user_agent();
        let ghost before = self.queued();
        self.outgoing.send_response(
            request_id,
            ResponsePayload::Initialize(InitializeResponse { user_agent }),
        );
        self.initialized = true;
        let ghost middle = self.queued();
        self.flush_config_warnings();
        proof {
            let after = self.queued();
            let warnings = old(self).config_warnings();
            assert(after.subrange(0, middle.len() as int) == middle);
            assert(after[before.len() as int] == middle[before.len() as int]);
            assert(after.subrange(0, before.len() as int) =~= before) by {
                assert forall|j: int| 0 <= j < before.len() implies after[j] == before[j] by {
                    assert(after[j] == middle[j]);
                }
            }
            assert(middle.len() == before.len() + 1);
        }
    }

    /// Takes in a request frame of the peer.
    ///
    /// A frame that could not be understood is answered with an
    /// invalid-request error under its request id, or passed over where it
    /// has none, and changes nothing else. Before the
    /// handshake only `Initialize` is accepted: it is refused where the
    /// client's name is not a header value, and otherwise answered with the
    /// user agent and followed by the waiting configuration warnings; any
    /// other request is answered with the error "Not initialized". After
    /// the handshake a second `Initialize` is answered with the error
    /// "Already initialized", and every other request is returned for the
    /// caller to carry out, with nothing queued.
    pub fn process_request(&mut self, frame: InboundRequest) -> (next: Dispatch)
        ensures
            Self::handled(*old(self), frame, *final(self), next),
    {
        match frame {
            InboundRequest::Malformed { request_id, detail } => {
                match request_id {
                    Some(request_id) => {
                        let message = concat2("Invalid request: ", detail.as_str());
                        self.reject(request_id, message);
                    },
                    None => {},
                }
                Dispatch::Done
            },
            InboundRequest::Parsed(request) => {
                match request {
                    ClientRequest::Initialize { request_id, client_info } => {
                        if self.initialized {
                            self.reject(request_id, String::from_str("Already initialized"));
                        } else {
                            self.initialize(request_id, client_info);
                        }
                        Dispatch::Done
                    },
                    ClientRequest::ConfigRead { request_id, params } => {
                        if !self.initialized {
                            self.reject(request_id, String::from_str("Not initialized"));
                            Dispatch::Done
                        } else {
                            Dispatch::ConfigRead { request_id, params }
                        }
                    },
                    ClientRequest::ConfigValueWrite { request_id, params } => {
                        if !self.initialized {
                            self.reject(request_id, String::from_str("Not initialized"));
                            Dispatch::Done
                        } else {
                            Dispatch::ConfigValueWrite { request_id, params }
                        }
                    },
                    ClientRequest::ConfigBatchWrite { request_id, params } => {
                        if !self.initialized {
                            self.reject(request_id, String::from_str("Not initialized"));
                            Dispatch::Done
                        } else {
                            Dispatch::ConfigBatchWrite { request_id, params }
                        }
                    },
                    ClientRequest::ConfigRequirementsRead { request_id } => {
                        if !self.initialized {
                            self.reject(request_id, String::from_str("Not initialized"));
                            Dispatch::Done
                        } else {
                            Dispatch::ConfigRequirementsRead { request_id }
                        }
                    },
                    ClientRequest::Engine { request_id, method, params } => {
                        if !self.initialized {
                            self.reject(request_id, String::from_str("Not initialized"));
                            Dispatch::Done
                        } else {
                            Dispatch::Engine { request_id, method, params }
                        }
                    },
                }
            },
        }
    }

    /// The frame that reports the outcome of a request carried out for
    /// the processor: the response with the value, or the error.
    pub open spec fn reply_frame(
        request_id: RequestId,
        outcome: Result<serde_json::Value, JsonRpcError>,
    ) -> OutgoingMessage {
        match outcome {
            Ok(value) => OutgoingMessage::Response {
                id: request_id,
                result: ResponsePayload::Json(value),
            },
            Err(error) => OutgoingMessage::Error { id: request_id, error },
        }
    }

    fn reply(&mut self, request_id: RequestId, outcome: Result<serde_json::Value, JsonRpcError>)
        ensures
            Self::sent(*old(self), *final(self), Self::reply_frame(request_id, outcome)),
    {
        match outcome {
            Ok(value) => self.outgoing.send_response(request_id, ResponsePayload::Json(value)),
            Err(error) => self.outgoing.send_error(request_id, error),
        }
    }

    /// Reports what reading the configuration came to: the response or
    /// the error is queued for the request.
    pub fn handle_config_read(
        &mut self,
        request_id: RequestId,
        outcome: Result<serde_json::Value, JsonRpcError>,
    )
        ensures
            Self::sent(*old(self), *final(self), Self::reply_frame(request_id, outcome)),
    {
        self.reply(request_id, outcome)
    }

    /// Reports what writing one configuration value came to: the response
    /// or the error is queued for the request.
    pub fn handle_config_value_write(
        &mut self,
        request_id: RequestId,
        outcome: Result<serde_json::Value, JsonRpcError>,
    )
        ensures
            Self::sent(*old(self), *final(self), Self::reply_frame(request_id, outcome)),
    {
        self.reply(request_id, outcome)
    }

    /// Reports what writing several configuration values came to: the
    /// response or the error is queued for the request.
    pub fn handle_config_batch_write(
        &mut self,
        request_id: RequestId,
        outcome: Result<serde_json::Value, JsonRpcError>,
    )
        ensures
            Self::sent(*old(self), *final(self), Self::reply_frame(request_id, outcome)),
    {
        self.reply(request_id, outcome)
    }

    /// Reports what reading the configuration requirements came to: the
    /// response or the error is queued for the request.
    pub fn handle_config_requirements_read(
        &mut self,
        request_id: RequestId,
        outcome: Result<serde_json::Value, JsonRpcError>,
    )
        ensures
            Self::sent(*old(self), *final(self), Self::reply_frame(request_id, outcome)),
    {
        self.reply(request_id, outcome)
    }

    /// Takes in a notification of the peer. The protocol has none that
    /// asks for anything, so nothing is done with it.
    pub fn process_notification(&self, notification: &JsonRpcNotification) {
    }

    /// A new listener for the threads created from now on.
    pub fn thread_created_receiver(&self) -> (receiver: ThreadCreatedReceiver)
        ensures
            receiver.position() == self.thread_manager().created_count(),
    {
        self.thread_manager.subscribe_thread_created()
    }

    /// Says whether a listener is to be attached to the thread
    /// `thread_id`: after the handshake, and where the thread is
    /// registered.
    pub fn try_attach_thread_listener(&self, thread_id: ThreadId) -> (attach: bool)
        ensures
            attach == (self.initialized() && self.thread_manager().threads().contains_key(
                thread_id.value,
            )),
    {
        if !self.initialized {
            return false;
        }
        self.thread_manager.get_thread(thread_id).is_ok()
    }

    /// Takes in a response of the peer to a request of the host: it goes
    /// to the correlation layer as it is.
    pub fn process_response(&mut self, response: JsonRpcResponse) -> (r: Resolution<W>)
        ensures
            OutgoingMessageSender::resolved(
                old(self).outgoing(),
                response.id,
                Ok(response.result),
                final(self).outgoing(),
                r,
            ),
            old(self).outgoing().wf() ==> final(self).outgoing().wf(),
            final(self).thread_manager() == old(self).thread_manager(),
            final(self).identity() == old(self).identity(),
            final(self).enforce_residency() == old(self).enforce_residency(),
            final(self).initialized() == old(self).initialized(),
            final(self).config_warnings() == old(self).config_warnings(),
    {
        let JsonRpcResponse { id, result } = response;
        self.outgoing.notify_client_response(id, result)
    }

    /// Takes in an error of the peer for a request of the host: it goes
    /// to the correlation layer as it is.
    pub fn process_error(&mut self, err: JsonRpcErrorFrame) -> (r: Resolution<W>)
        ensures
            OutgoingMessageSender::resolved(
                old(self).outgoing(),
                err.id,
                Err(err.error),
                final(self).outgoing(),
                r,
            ),
            old(self).outgoing().wf() ==> final(self).outgoing().wf(),
            final(self).thread_manager() == old(self).thread_manager(),
            final(self).identity() == old(self).identity(),
            final(self).enforce_residency() == old(self).enforce_residency(),
            final(self).initialized() == old(self).initialized(),
            final(self).config_warnings() == old(self).config_warnings(),
    {
        let JsonRpcErrorFrame { id, error } = err;
        self.outgoing.notify_client_error(id, error)
    }
}

/// Once the handshake has succeeded the processor stays initialized,
/// whatever request comes.
pub proof fn lemma_handshake_is_permanent<W>(
    pre: MessageProcessor<W>,
    frame: InboundRequest,
    post: MessageProcessor<W>,
    next: Dispatch,
)
    requires
        MessageProcessor::handled(pre, frame, post, next),
        pre.initialized(),
    ensures
        post.initialized(),
{
}

/// The first handshake of a client whose name is a header value
/// succeeds.
pub proof fn lemma_first_initialize_succeeds<W>(
    pre: MessageProcessor<W>,
    request_id: RequestId,
    client_info: ClientInfo,
    post: MessageProcessor<W>,
    next: Dispatch,
)
    requires
        MessageProcessor::handled(
            pre,
            InboundRequest::Parsed(ClientRequest::Initialize { request_id, client_info }),
            post,
            next,
        ),
        !pre.initialized(),
        is_header_value(client_info.name@),
    ensures
        post.initialized(),
        MessageProcessor::welcomed(pre, post, request_id, client_info),
{
}

/// The handshake succeeds once: after a request that left the processor
/// initialized, an `Initialize` is answered with the error "Already
/// initialized" and changes nothing else.
pub proof fn lemma_second_initialize_fails<W>(
    before: MessageProcessor<W>,
    first: InboundRequest,
    ready: MessageProcessor<W>,
    first_next: Dispatch,
    request_id: RequestId,
    client_info: ClientInfo,
    after: MessageProcessor<W>,
    second_next: Dispatch,
)
    requires
        MessageProcessor::handled(before, first, ready, first_next),
        ready.initialized(),
        MessageProcessor::handled(
            ready,
            InboundRequest::Parsed(ClientRequest::Initialize { request_id, client_info }),
            after,
            second_next,
        ),
    ensures
        MessageProcessor::rejected(ready, after, request_id, "Already initialized"@),
        after.initialized(),
        second_next is Done,
{
}

/// Before the handshake every request but `Initialize` is answered with
/// the error "Not initialized", and the processor stays uninitialized.
pub proof fn lemma_requests_before_handshake_are_refused<W>(
    pre: MessageProcessor<W>,
    request: ClientRequest,
    post: MessageProcessor<W>,
    next: Dispatch,
)
    requires
        MessageProcessor::handled(pre, InboundRequest::Parsed(request), post, next),
        !pre.initialized(),
        !(request is Initialize),
    ensures
        MessageProcessor::rejected(pre, post, request.request_id(), "Not initialized"@),
        !post.initialized(),
        next is Done,
{
}

/// No configuration warning is sent before the handshake has succeeded:
/// a request that leaves the processor uninitialized leaves the warnings
/// waiting, and queues at most one frame, which is an error.
pub proof fn lemma_warnings_wait_for_handshake<W>(
    pre: MessageProcessor<W>,
    frame: InboundRequest,
    post: MessageProcessor<W>,
    next: Dispatch,
)
    requires
        MessageProcessor::handled(pre, frame, post, next),
        !post.initialized(),
    ensures
        post.config_warnings() == pre.config_warnings(),
        post.queued() == pre.queued() || (post.queued().drop_last() == pre.queued()
            && post.queued().last() is Error),
{
}

/// The handshake that succeeds sends the waiting configuration warnings
/// right after its response, in the order in which they waited, and leaves
/// none waiting.
pub proof fn lemma_warnings_follow_handshake<W>(
    pre: MessageProcessor<W>,
    frame: InboundRequest,
    post: MessageProcessor<W>,
    next: Dispatch,
)
    requires
        MessageProcessor::handled(pre, frame, post, next),
        !pre.initialized(),
        post.initialized(),
    ensures
        post.config_warnings().len() == 0,
        post.queued().len() == pre.queued().len() + 1 + pre.config_warnings().len(),
        post.queued().subrange(0, pre.queued().len() as int) == pre.queued(),
        post.queued()[pre.queued().len() as int] is Response,
        forall|j: int|
            pre.queued().len() < j < post.queued().len() ==> #[trigger] post.queued()[j]
                == warning_frame(pre.config_warnings()[j - pre.queued().len() - 1]),
{
}

/// After the handshake no request sends a configuration warning: none
/// is left waiting by the handshake, and a request queues at most one
/// frame, which is an error.
pub proof fn lemma_warnings_are_sent_once<W>(
    pre: MessageProcessor<W>,
    frame: InboundRequest,
    post: MessageProcessor<W>,
    next: Dispatch,
)
    requires
        MessageProcessor::handled(pre, frame, post, next),
        pre.initialized(),
    ensures
        post.config_warnings() == pre.config_warnings(),
        post.queued() == pre.queued() || (post.queued().drop_last() == pre.queued()
            && post.queued().last() is Error),
{
}

/// Whether exactly one of the frames is a response or an error, and that
/// one answers the request `id`.
pub open spec fn answered_once(frames: Seq<OutgoingMessage>, id: RequestId) -> bool {
    exists|k: int|
        0 <= k < frames.len() && (#[trigger] frames[k]).answers(id) && forall|j: int|
            0 <= j < frames.len() && j != k ==> !(#[trigger] frames[j]).is_terminal()
}

/// A request that the processor answers itself gets exactly one answer:
/// of the frames that it queues for the request, one is a response or an
/// error, and it carries the id of the request.
pub proof fn lemma_request_is_answered_once<W>(
    pre: MessageProcessor<W>,
    request: ClientRequest,
    post: MessageProcessor<W>,
    next: Dispatch,
)
    requires
        MessageProcessor::handled(pre, InboundRequest::Parsed(request), post, next),
        next is Done,
    ensures
        post.queued().len() > pre.queued().len(),
        post.queued().subrange(0, pre.queued().len() as int) == pre.queued(),
        answered_once(
            post.queued().subrange(pre.queued().len() as int, post.queued().len() as int),
            request.request_id(),
        ),
{
    let before = pre.queued();
    let after = post.queued();
    let added = after.subrange(before.len() as int, after.len() as int);
    if request is Initialize && !pre.initialized() && is_header_value(
        request->Initialize_client_info.name@,
    ) {
        assert(added[0] == after[before.len() as int]);
        assert forall|j: int| 0 <= j < added.len() && j != 0 implies !(
        #[trigger] added[j]).is_terminal() by {
            assert(added[j] == after[before.len() + j]);
        }
        assert(added[0].answers(request.request_id()));
    } else {
        assert(after.drop_last() == before);
        assert(after.subrange(0, before.len() as int) =~= before);
        assert(added[0] == after.last());
        assert(added[0].answers(request.request_id()));
    }
}

/// A request that is returned for the caller to carry out is not answered
/// by the processor: nothing is queued for it.
pub proof fn lemma_routed_request_is_not_answered<W>(
    pre: MessageProcessor<W>,
    request: ClientRequest,
    post: MessageProcessor<W>,
    next: Dispatch,
)
    requires
        MessageProcessor::handled(pre, InboundRequest::Parsed(request), post, next),
        !(next is Done),
    ensures
        pre.initialized(),
        !(request is Initialize),
        next == route(request),
        post == pre,
{
}

/// How long the bridge waits for the peer's tokens, in seconds.
pub const EXTERNAL_AUTH_REFRESH_TIMEOUT_SECS: u64 = 10;

/// Why fresh tokens are needed.
#[derive(Clone, Copy, Debug, PartialEq, Eq, Structural)]
pub enum ExternalAuthRefreshReason {
    Unauthorized,
}

/// What the credential layer hands to the bridge.
#[derive(Clone, Debug, PartialEq, Eq)]
pub struct ExternalAuthRefreshContext {
    pub reason: ExternalAuthRefreshReason,
    pub previous_account_id: Option<String>,
}

/// The pair of tokens that a refresh yields.
#[derive(Clone, Debug, PartialEq, Eq)]
pub struct ExternalAuthTokens {
    pub access_token: String,
    pub id_token: String,
}

/// The peer's answer to a refresh request, once decoded.
#[derive(Clone, Debug, PartialEq, Eq)]
pub struct ChatgptAuthTokensRefreshResponse {
    pub access_token: String,
    pub id_token: String,
}

/// How the wait for the peer's answer ended.
#[derive(Debug, PartialEq)]
pub enum RefreshWait {
    /// The peer answered; `decoded` is the answer, or why its payload
    /// could not be read as a pair of tokens.
    Answered { decoded: Result<ChatgptAuthTokensRefreshResponse, String> },
    /// The peer answered with an error.
    Failed { error: JsonRpcError },
    /// The request was given up, or the peer went away.
    Canceled,
    /// The time allowed ran out.
    TimedOut,
}

/// Why a refresh failed.
#[derive(Clone, Debug, PartialEq)]
pub enum RefreshError {
    /// No answer came within `seconds` seconds.
    Timeout { seconds: u64 },
    /// The request was given up, or the peer went away.
    Canceled,
    /// The peer answered with an error.
    Peer { error: JsonRpcError },
    /// The peer's answer could not be read as a pair of tokens.
    ResponseDecode { detail: String },
}

/// Text of the error of a refresh that ran out of time.
pub open spec fn timeout_message(seconds: u64) -> Seq<char> {
    "auth refresh request timed out after "@ + decimal_digits(seconds as nat) + "s"@
}

impl RefreshError {
    /// The error as a line of text.
    pub fn message(&self) -> (text: String)
        ensures
            text@ == (match *self {
                RefreshError::Timeout { seconds } => timeout_message(seconds),
                RefreshError::Canceled => "auth refresh request canceled: channel closed"@,
                RefreshError::Peer { error } => "auth refresh request failed: "@ + error.message@,
                RefreshError::ResponseDecode { detail } => detail@,
            }),
    {
        match self {
            RefreshError::Timeout { seconds } => {
                let mut text = String::from_str("auth refresh request timed out after ");
                push_decimal(&mut text, *seconds);
                text.append("s");
                text
            },
            RefreshError::Canceled => String::from_str(
                "auth refresh request canceled: channel closed",
            ),
            RefreshError::Peer { error } => concat2(
                "auth refresh request failed: ",
                error.message.as_str(),
            ),
            RefreshError::ResponseDecode { detail } => detail.clone(),
        }
    }
}

/// Lets the credential layer ask the peer for fresh tokens, through the
/// outgoing correlation layer.
pub struct ExternalAuthRefreshBridge;

impl ExternalAuthRefreshBridge {
    /// The reason as the protocol names it.
    pub fn map_reason(reason: ExternalAuthRefreshReason) -> (mapped:
        ChatgptAuthTokensRefreshReason)
        ensures
            mapped == ChatgptAuthTokensRefreshReason::Unauthorized,
    {
        match reason {
            ExternalAuthRefreshReason::Unauthorized => ChatgptAuthTokensRefreshReason::Unauthorized,
        }
    }

    /// The request that asks the peer for fresh tokens.
    pub open spec fn refresh_request(context: ExternalAuthRefreshContext) -> ServerRequestPayload {
        ServerRequestPayload::ChatgptAuthTokensRefresh(
            ChatgptAuthTokensRefreshParams {
                reason: ChatgptAuthTokensRefreshReason::Unauthorized,
                previous_account_id: context.previous_account_id,
            },
        )
    }

    /// What the bridge returns for each way in which the wait can end.
    pub open spec fn outcome(waited: RefreshWait) -> Result<ExternalAuthTokens, RefreshError> {
        match waited {
            RefreshWait::Answered { decoded: Ok(response) } => Ok(
                ExternalAuthTokens {
                    access_token: response.access_token,
                    id_token: response.id_token,
                },
            ),
            RefreshWait::Answered { decoded: Err(detail) } => Err(
                RefreshError::ResponseDecode { detail },
            ),
            RefreshWait::Failed { error } => Err(RefreshError::Peer { error }),
            RefreshWait::Canceled => Err(RefreshError::Canceled),
            RefreshWait::TimedOut => Err(
                RefreshError::Timeout { seconds: EXTERNAL_AUTH_REFRESH_TIMEOUT_SECS },
            ),
        }
    }

    /// Starts a refresh: sends the request for fresh tokens to the peer
    /// and records `waiter` for the answer. The caller waits on it for at
    /// most [`EXTERNAL_AUTH_REFRESH_TIMEOUT_SECS`] seconds and reports with
    /// [`ExternalAuthRefreshBridge::refresh`].
    pub fn begin_refresh<W>(
        outgoing: &mut OutgoingMessageSender<W>,
        context: ExternalAuthRefreshContext,
        waiter: W,
    ) -> (request_id: RequestId)
        requires
            old(outgoing).wf(),
            old(outgoing).next_id() < i64::MAX,
        ensures
            final(outgoing).wf(),
            OutgoingMessageSender::requested(
                *old(outgoing),
                Self::refresh_request(context),
                waiter,
                *final(outgoing),
                request_id,
            ),
    {
        let params = ChatgptAuthTokensRefreshParams {
            reason: Self::map_reason(context.reason),
            previous_account_id: context.previous_account_id,
        };
        outgoing.send_request_with_id(ServerRequestPayload::ChatgptAuthTokensRefresh(params), waiter)
    }

    /// Ends a refresh, given how the wait for the answer to `request_id`
    /// ended. Where the time ran out the request is given up, so that its
    /// entry leaves the table and a late answer finds nothing; in every
    /// other case the table is left as it is. The tokens come back where
    /// the peer answered with a pair of them, and otherwise the error that
    /// names what happened.
    pub fn refresh<W>(
        outgoing: &mut OutgoingMessageSender<W>,
        request_id: &RequestId,
        waited: RefreshWait,
    ) -> (r: Result<ExternalAuthTokens, RefreshError>)
        ensures
            r == Self::outcome(waited),
            old(outgoing).wf() ==> final(outgoing).wf(),
            final(outgoing).queued() == old(outgoing).queued(),
            final(outgoing).next_id() == old(outgoing).next_id(),
            final(outgoing).pending() == (if waited is TimedOut {
                old(outgoing).pending_without(*request_id)
            } else {
                old(outgoing).pending()
            }),
    {
        match waited {
            RefreshWait::Answered { decoded } => {
                match decoded {
                    Ok(response) => Ok(
                        ExternalAuthTokens {
                            access_token: response.access_token,
                            id_token: response.id_token,
                        },
                    ),
                    Err(detail) => Err(RefreshError::ResponseDecode { detail }),
                }
            },
            RefreshWait::Failed { error } => Err(RefreshError::Peer { error }),
            RefreshWait::Canceled => Err(RefreshError::Canceled),
            RefreshWait::TimedOut => {
                let _canceled = outgoing.cancel_request(request_id);
                Err(RefreshError::Timeout { seconds: EXTERNAL_AUTH_REFRESH_TIMEOUT_SECS })
            },
        }
    }
}

/// A refresh that the peer never answers ends with the timeout error and
/// leaves nothing behind: the entry of the request has left the table,
/// which is as it was before the refresh began, and an answer that comes
/// late is reported as unmatched and changes nothing.
pub proof fn lemma_timed_out_refresh_leaves_no_entry<W>(
    before: OutgoingMessageSender<W>,
    context: ExternalAuthRefreshContext,
    waiter: W,
    waiting: OutgoingMessageSender<W>,
    request_id: RequestId,
    after: OutgoingMessageSender<W>,
    late: Result<serde_json::Value, JsonRpcError>,
)
    requires
        OutgoingMessageSender::requested(
            before,
            ExternalAuthRefreshBridge::refresh_request(context),
            waiter,
            waiting,
            request_id,
        ),
        after.pending() == waiting.pending_without(request_id),
    ensures
        ExternalAuthRefreshBridge::outcome(RefreshWait::TimedOut) == Err::<
            ExternalAuthTokens,
            RefreshError,
        >(RefreshError::Timeout { seconds: 10 }),
        after.pending() == before.pending(),
        !after.is_pending(request_id),
        after.resolution(request_id, late) == (Resolution::Unmatched::<W> { id: request_id }),
        after.pending_without(request_id) == after.pending(),
{
    assert(after.pending() =~= before.pending());
    assert(after.pending_without(request_id) =~= after.pending());
}

} // verus!
