//! The glue between a thread and the user interface that shows it: what
//! the interface is told when a thread starts, and how operations and
//! events are passed on.

use vstd::prelude::*;
use vstd::string::*;
use crate::pipeline::Event;
use crate::pipeline::EventMsg;
use crate::pipeline::Op;
use crate::pipeline::Pipeline;
use crate::pipeline::PipelineClosed;
use crate::pipeline::SessionConfiguredEvent;
use crate::protocol::ThreadId;
use crate::text::concat2;
use crate::thread_manager::EngineStart;
use crate::thread_manager::InitializationError;
use crate::thread_manager::NewThread;
use crate::thread_manager::nth_thread_id;
use crate::thread_manager::ThreadManager;
use crate::trill_thread::ThreadConfigSnapshot;
use crate::trill_thread::TrillThread;

verus! {

/// What the user interface is told.
#[derive(Clone, Debug, PartialEq, Eq)]
pub enum AppEvent {
    /// An event of the thread.
    CodexEvent(Event),
    /// The interface has to end; the text says why.
    FatalExitRequest(String),
}

/// What the loop that passes events on has to do next.
#[derive(Clone, Debug, PartialEq, Eq)]
pub enum Forward {
    /// Hand this to the interface and go on.
    Send(AppEvent),
    /// Wait until the thread has an event.
    Wait,
    /// Stop: the thread has ended.
    Stop,
}

/// What starting the agent came to.
#[derive(Clone, Debug, PartialEq, Eq)]
pub struct SpawnedAgent {
    /// The thread that was started, if one was.
    pub thread_id: Option<ThreadId>,
    /// What the interface is told, in this order.
    pub events: Vec<AppEvent>,
}

/// Whether `event` is the event that shows the configured session: it
/// carries the empty id, which does not matter for what is shown.
pub open spec fn shows_session(event: AppEvent, session_configured: SessionConfiguredEvent) -> bool {
    &&& event matches AppEvent::CodexEvent(e)
    &&& e.id@ == Seq::<char>::empty()
    &&& e.msg == EventMsg::SessionConfigured(session_configured)
}

/// Whether `event` is the error event of a start that failed for the
/// reason given; it carries the empty id.
pub open spec fn reports_error(event: AppEvent, reason: Seq<char>) -> bool {
    &&& event matches AppEvent::CodexEvent(e)
    &&& e.id@ == Seq::<char>::empty()
    &&& e.msg matches EventMsg::Error { message }
    &&& message@ == reason
}

/// Text of the request to end the interface after a failed start.
pub open spec fn failed_start_message(reason: Seq<char>) -> Seq<char> {
    "Failed to initialize codex: "@ + reason
}

/// The event that shows a configured session to the interface.
pub fn spawn_agent_from_existing(session_configured: SessionConfiguredEvent) -> (event: AppEvent)
    ensures
        shows_session(event, session_configured),
{
    AppEvent::CodexEvent(
        Event { id: String::new(), msg: EventMsg::SessionConfigured(session_configured) },
    )
}

/// Starts the agent: a thread is started in the registry, given what the
/// construction of its engine came to. Where that failed the interface is
/// told the error and then asked to end, and no thread exists; otherwise
/// the interface is shown the configured session.
pub fn spawn_agent(
    server: &mut ThreadManager,
    config: ThreadConfigSnapshot,
    engine: Result<EngineStart, String>,
) -> (spawned: SpawnedAgent)
    requires
        old(server).wf(),
        old(server).created_count() < u64::MAX,
    ensures
        final(server).wf(),
        match engine {
            Err(reason) => {
                &&& spawned.thread_id is None
                &&& ThreadManager::unchanged(*old(server), *final(server))
                &&& spawned.events@.len() == 2
                &&& reports_error(spawned.events@[0], reason@)
                &&& spawned.events@[1] matches AppEvent::FatalExitRequest(text) && text@
                    == failed_start_message(reason@)
            },
            Ok(start) => {
                &&& spawned.thread_id == Some(nth_thread_id(old(server).created_count() as int))
                &&& final(server).created_count() == old(server).created_count() + 1
                &&& final(server).threads().dom() == old(server).threads().dom().insert(
                    old(server).created_count(),
                )
                &&& spawned.events@.len() == 1
                &&& spawned.events@[0] matches AppEvent::CodexEvent(e)
                &&& e.id@ == Seq::<char>::empty()
                &&& e.msg matches EventMsg::SessionConfigured(sc)
                &&& sc.session_id == nth_thread_id(old(server).created_count() as int)
                &&& sc.model == config.model
                &&& sc.rollout_path == start.rollout_path
            },
        },
{
    let mut events: Vec<AppEvent> = Vec::new();
    match server.start_thread(config, engine) {
        Err(err) => {
            let InitializationError { reason } = err;
            let message = concat2("Failed to initialize codex: ", reason.as_str());
            events.push(
                AppEvent::CodexEvent(
                    Event { id: String::new(), msg: EventMsg::Error { message: reason } },
                ),
            );
            events.push(AppEvent::FatalExitRequest(message));
            SpawnedAgent { thread_id: None, events }
        },
        Ok(started) => {
            let NewThread { thread_id, session_configured } = started;
            events.push(spawn_agent_from_existing(session_configured));
            proof {
                assert(final(server).threads().dom() =~= old(server).threads().dom().insert(
                    old(server).created_count(),
                ));
            }
            SpawnedAgent { thread_id: Some(thread_id), events }
        },
    }
}

/// Passes one operation of the interface on to the thread. Says whether
/// the thread took it; an operation for a thread that has ended, or that
/// is not registered, is dropped.
pub fn forward_op(server: &mut ThreadManager, thread_id: ThreadId, op: Op) -> (taken: bool)
    requires
        old(server).wf(),
    ensures
        final(server).wf(),
        taken == (old(server).threads().contains_key(thread_id.value) && !old(
            server,
        ).threads()[thread_id.value].pipeline().is_closed()),
        !old(server).threads().contains_key(thread_id.value) ==> ThreadManager::unchanged(
            *old(server),
            *final(server),
        ),
        old(server).threads().contains_key(thread_id.value) ==> {
            &&& ThreadManager::only_thread_changed(*old(server), thread_id, *final(server))
            &&& TrillThread::same_but_pipeline(
                old(server).threads()[thread_id.value],
                final(server).threads()[thread_id.value],
            )
            &&& exists|r: Result<String, PipelineClosed>|
                Pipeline::submits(
                    old(server).threads()[thread_id.value].pipeline(),
                    op,
                    final(server).threads()[thread_id.value].pipeline(),
                    r,
                )
        },
{
    match server.submit(thread_id, op) {
        Ok(Ok(_id)) => true,
        Ok(Err(_closed)) => false,
        Err(_missing) => false,
    }
}

/// Takes the next event of the thread for the interface and says how the
/// loop goes on: with the event, with a wait, or not at all where the
/// thread has ended or is not registered.
pub fn forward_event(server: &mut ThreadManager, thread_id: ThreadId) -> (next: Forward)
    requires
        old(server).wf(),
    ensures
        final(server).wf(),
        !old(server).threads().contains_key(thread_id.value) ==> next == Forward::Stop
            && ThreadManager::unchanged(*old(server), *final(server)),
        old(server).threads().contains_key(thread_id.value) ==> {
            &&& ThreadManager::only_thread_changed(*old(server), thread_id, *final(server))
            &&& TrillThread::same_but_pipeline(
                old(server).threads()[thread_id.value],
                final(server).threads()[thread_id.value],
            )
            &&& Pipeline::polls(
                old(server).threads()[thread_id.value].pipeline(),
                final(server).threads()[thread_id.value].pipeline(),
                match next {
                    Forward::Send(AppEvent::CodexEvent(event)) => Ok(Some(event)),
                    Forward::Send(AppEvent::FatalExitRequest(_)) => Ok(None),
                    Forward::Wait => Ok(None),
                    Forward::Stop => Err(PipelineClosed),
                },
            )
            &&& !(next matches Forward::Send(AppEvent::FatalExitRequest(_)))
        },
{
    match server.next_event(thread_id) {
        Ok(Ok(Some(event))) => Forward::Send(AppEvent::CodexEvent(event)),
        Ok(Ok(None)) => Forward::Wait,
        Ok(Err(_closed)) => Forward::Stop,
        Err(_missing) => Forward::Stop,
    }
}

} // verus!
