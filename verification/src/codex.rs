//! The session core of one thread: its pipeline, its status cell, the
//! configuration in effect and the handle of its durable state.

use vstd::prelude::*;
use crate::pipeline::Event;
use crate::pipeline::EventMsg;
use crate::pipeline::Op;
use crate::pipeline::Pipeline;
use crate::pipeline::PipelineClosed;
use crate::pipeline::Submission;
use crate::status::AgentStatus;
use crate::status::next_version;
use crate::status::StatusCell;
use crate::status::StatusView;
use crate::trill_thread::ThreadConfigSnapshot;

verus! {

/// The handle of the durable state of a thread. The core only passes it
/// on.
#[derive(Clone, Copy, Debug, PartialEq, Eq, Structural)]
pub struct StateDbHandle {
    pub id: u64,
}

/// One session: what the client side and the engine side of a thread
/// share.
pub struct Codex {
    pipeline: Pipeline,
    agent_status: StatusCell,
    config: ThreadConfigSnapshot,
    state_db: Option<StateDbHandle>,
}

impl Codex {
    /// The pipeline of the session.
    pub closed spec fn pipeline(&self) -> Pipeline {
        self.pipeline
    }

    /// The status cell of the session.
    pub closed spec fn status(&self) -> StatusCell {
        self.agent_status
    }

    /// The configuration in effect.
    pub closed spec fn config(&self) -> ThreadConfigSnapshot {
        self.config
    }

    /// The handle of the durable state, if the session has one.
    pub closed spec fn state_db_handle(&self) -> Option<StateDbHandle> {
        self.state_db
    }

    /// The session is consistent: its pipeline is.
    pub open spec fn wf(&self) -> bool {
        self.pipeline().wf()
    }

    /// `post` has the status, configuration and state handle of `pre`.
    pub open spec fn same_but_pipeline(pre: Self, post: Self) -> bool {
        &&& post.status() == pre.status()
        &&& post.config() == pre.config()
        &&& post.state_db_handle() == pre.state_db_handle()
    }

    /// A session that has not started: an open, empty pipeline and the
    /// status `PendingInit`.
    pub fn new(config: ThreadConfigSnapshot, state_db: Option<StateDbHandle>) -> (codex: Self)
        ensures
            codex.wf(),
            !codex.pipeline().is_closed(),
            codex.pipeline().accepted() == Seq::<Submission>::empty(),
            codex.pipeline().emitted() == Seq::<Event>::empty(),
            codex.pipeline().started() == 0,
            codex.pipeline().delivered() == 0,
            codex.pipeline().next_id() == 0,
            codex.status().current() == AgentStatus::PendingInit,
            codex.status().version() == 0,
            codex.config() == config,
            codex.state_db_handle() == state_db,
    {
        Codex {
            pipeline: Pipeline::new(),
            agent_status: StatusCell::new(AgentStatus::PendingInit),
            config,
            state_db,
        }
    }

    /// Queues an operation; see [`Pipeline::submit`].
    pub fn submit(&mut self, op: Op) -> (r: Result<String, PipelineClosed>)
        requires
            old(self).wf(),
        ensures
            final(self).wf(),
            Pipeline::submits(old(self).pipeline(), op, final(self).pipeline(), r),
            Self::same_but_pipeline(*old(self), *final(self)),
    {
        self.pipeline.submit(op)
    }

    /// Queues a submission under a given id; see
    /// [`Pipeline::submit_with_id`].
    pub fn submit_with_id(&mut self, sub: Submission) -> (r: Result<(), PipelineClosed>)
        requires
            old(self).wf(),
        ensures
            final(self).wf(),
            Pipeline::submits_with_id(old(self).pipeline(), sub, final(self).pipeline(), r),
            Self::same_but_pipeline(*old(self), *final(self)),
    {
        self.pipeline.submit_with_id(sub)
    }

    /// Takes the next event; see [`Pipeline::next_event`].
    pub fn next_event(&mut self) -> (r: Result<Option<Event>, PipelineClosed>)
        requires
            old(self).wf(),
        ensures
            final(self).wf(),
            Pipeline::polls(old(self).pipeline(), final(self).pipeline(), r),
            Self::same_but_pipeline(*old(self), *final(self)),
    {
        self.pipeline.next_event()
    }

    /// The status of the agent at this moment.
    pub fn agent_status(&self) -> (status: AgentStatus)
        ensures
            status == self.status().current(),
    {
        self.agent_status.get()
    }

    /// A new observer of the status.
    pub fn subscribe_status(&self) -> (view: StatusView)
        ensures
            view.seen() == self.status().version(),
    {
        self.agent_status.subscribe()
    }

    /// The status cell, for an observer to read.
    pub fn status_cell(&self) -> (cell: &StatusCell)
        ensures
            *cell == self.status(),
    {
        &self.agent_status
    }

    /// The handle of the durable state, if the session has one.
    pub fn state_db(&self) -> (handle: Option<StateDbHandle>)
        ensures
            handle == self.state_db_handle(),
    {
        self.state_db
    }

    /// The configuration in effect, as a value of its own.
    pub fn thread_config_snapshot(&self) -> (snapshot: ThreadConfigSnapshot)
        ensures
            snapshot == self.config(),
    {
        self.config.clone()
    }

    /// Takes the next submission for the engine; see
    /// [`Pipeline::next_submission`].
    pub fn next_submission(&mut self) -> (r: Option<Submission>)
        requires
            old(self).wf(),
        ensures
            final(self).wf(),
            Pipeline::takes(old(self).pipeline(), final(self).pipeline(), r),
            Self::same_but_pipeline(*old(self), *final(self)),
    {
        self.pipeline.next_submission()
    }

    /// Emits an event of the engine; see [`Pipeline::emit`].
    pub fn emit(&mut self, msg: EventMsg) -> (r: Result<(), PipelineClosed>)
        requires
            old(self).wf(),
        ensures
            final(self).wf(),
            Pipeline::emits(old(self).pipeline(), msg, final(self).pipeline(), r),
            Self::same_but_pipeline(*old(self), *final(self)),
    {
        self.pipeline.emit(msg)
    }

    /// Sets the status of the agent. Only the engine calls this.
    pub fn set_status(&mut self, status: AgentStatus)
        ensures
            final(self).status().current() == status,
            final(self).status().version() == next_version(old(self).status().version()),
            final(self).pipeline() == old(self).pipeline(),
            final(self).config() == old(self).config(),
            final(self).state_db_handle() == old(self).state_db_handle(),
    {
        self.agent_status.update(status);
    }

    /// Puts a new configuration in the place of the current one.
    pub fn replace_config(&mut self, config: ThreadConfigSnapshot)
        ensures
            final(self).config() == config,
            final(self).pipeline() == old(self).pipeline(),
            final(self).status() == old(self).status(),
            final(self).state_db_handle() == old(self).state_db_handle(),
    {
        self.config = config;
    }

    /// Ends the session: the pipeline is closed.
    pub fn shutdown(&mut self)
        requires
            old(self).wf(),
        ensures
            final(self).wf(),
            Pipeline::closes(old(self).pipeline(), final(self).pipeline()),
            Self::same_but_pipeline(*old(self), *final(self)),
    {
        self.pipeline.close();
    }
}

} // verus!
