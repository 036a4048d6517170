//! A thread: the conduit for the two-way stream of messages that make up
//! one conversation.

use vstd::prelude::*;
use vstd::string::*;
use std::path::PathBuf;
use crate::codex::Codex;
use crate::codex::StateDbHandle;
use crate::config_types::AskForApproval;
use crate::config_types::Personality;
use crate::config_types::ReasoningEffort;
use crate::config_types::SandboxPolicy;
use crate::config_types::SessionSource;
use crate::pipeline::Event;
use crate::pipeline::Op;
use crate::pipeline::Pipeline;
use crate::pipeline::PipelineClosed;
use crate::pipeline::Submission;
use crate::status::AgentStatus;
use crate::status::StatusCell;
use crate::status::StatusView;

verus! {

/// The configuration in effect for a thread at one moment. A snapshot is
/// never changed: a new one takes its place.
#[derive(Debug, PartialEq, Eq)]
pub struct ThreadConfigSnapshot {
    pub model: String,
    pub model_provider_id: String,
    pub approval_policy: AskForApproval,
    pub sandbox_policy: SandboxPolicy,
    pub cwd: PathBuf,
    pub reasoning_effort: Option<ReasoningEffort>,
    pub personality: Option<Personality>,
    pub session_source: SessionSource,
}

impl Clone for ThreadConfigSnapshot {
    fn clone(&self) -> (copy: Self)
        ensures
            copy == *self,
    {
        ThreadConfigSnapshot {
            model: self.model.clone(),
            model_provider_id: self.model_provider_id.clone(),
            approval_policy: self.approval_policy,
            sandbox_policy: self.sandbox_policy,
            cwd: self.cwd.clone(),
            reasoning_effort: self.reasoning_effort,
            personality: self.personality,
            session_source: self.session_source,
        }
    }
}

/// One thread: a session and the place where its rollout is kept.
pub struct TrillThread {
    codex: Codex,
    rollout_path: Option<PathBuf>,
}

impl TrillThread {
    /// The session of the thread.
    pub closed spec fn codex(&self) -> Codex {
        self.codex
    }

    /// The place where the rollout of the thread is kept, if it has one.
    pub closed spec fn rollout(&self) -> Option<PathBuf> {
        self.rollout_path
    }

    /// The pipeline of the thread.
    pub open spec fn pipeline(&self) -> Pipeline {
        self.codex().pipeline()
    }

    /// The thread is consistent: its session is.
    pub open spec fn wf(&self) -> bool {
        self.codex().wf()
    }

    /// `post` is `pre` but for the pipeline.
    pub open spec fn same_but_pipeline(pre: Self, post: Self) -> bool {
        &&& Codex::same_but_pipeline(pre.codex(), post.codex())
        &&& post.rollout() == pre.rollout()
    }

    /// A thread around a session.
    pub fn new(codex: Codex, rollout_path: Option<PathBuf>) -> (thread: Self)
        ensures
            thread.codex() == codex,
            thread.rollout() == rollout_path,
    {
        Self { codex, rollout_path }
    }

    /// Queues an operation and returns the id under which its events will
    /// be reported. Fails where the thread has ended.
    pub fn submit(&mut self, op: Op) -> (r: Result<String, PipelineClosed>)
        requires
            old(self).wf(),
        ensures
            final(self).wf(),
            Pipeline::submits(old(self).pipeline(), op, final(self).pipeline(), r),
            Self::same_but_pipeline(*old(self), *final(self)),
    {
        self.codex.submit(op)
    }

    /// Queues a submission under the id that the caller chose. Use
    /// sparingly: [`TrillThread::submit`] is the way in.
    pub fn submit_with_id(&mut self, sub: Submission) -> (r: Result<(), PipelineClosed>)
        requires
            old(self).wf(),
        ensures
            final(self).wf(),
            Pipeline::submits_with_id(old(self).pipeline(), sub, final(self).pipeline(), r),
            Self::same_but_pipeline(*old(self), *final(self)),
    {
        self.codex.submit_with_id(sub)
    }

    /// Takes the next event of the thread: `Ok(None)` where the consumer
    /// has to wait, the error where the thread has ended and no event is
    /// left.
    pub fn next_event(&mut self) -> (r: Result<Option<Event>, PipelineClosed>)
        requires
            old(self).wf(),
        ensures
            final(self).wf(),
            Pipeline::polls(old(self).pipeline(), final(self).pipeline(), r),
            Self::same_but_pipeline(*old(self), *final(self)),
    {
        self.codex.next_event()
    }

    /// The status of the agent at this moment.
    pub fn agent_status(&self) -> (status: AgentStatus)
        ensures
            status == self.codex().status().current(),
    {
        self.codex.agent_status()
    }

    /// A new observer of the status of the agent.
    pub fn subscribe_status(&self) -> (view: StatusView)
        ensures
            view.seen() == self.codex().status().version(),
    {
        self.codex.subscribe_status()
    }

    /// The status cell of the thread, for an observer to read.
    pub fn status_cell(&self) -> (cell: &StatusCell)
        ensures
            *cell == self.codex().status(),
    {
        self.codex.status_cell()
    }

    /// The place where the rollout of the thread is kept, if it has one.
    pub fn rollout_path(&self) -> (path: Option<PathBuf>)
        ensures
            path == self.rollout(),
    {
        match &self.rollout_path {
            Some(p) => Some(p.clone()),
            None => None,
        }
    }

    /// The handle of the durable state of the thread, if it has one.
    pub fn state_db(&self) -> (handle: Option<StateDbHandle>)
        ensures
            handle == self.codex().state_db_handle(),
    {
        self.codex.state_db()
    }

    /// The configuration in effect for the thread.
    pub fn config_snapshot(&self) -> (snapshot: ThreadConfigSnapshot)
        ensures
            snapshot == self.codex().config(),
    {
        self.codex.thread_config_snapshot()
    }

    /// The session of the thread, for the engine to work on.
    pub fn codex_mut(&mut self) -> (codex: &mut Codex)
        ensures
            *codex == old(self).codex(),
            final(self).codex() == *final(codex),
            final(self).rollout() == old(self).rollout(),
    {
        &mut self.codex
    }

    /// Ends the thread: its pipeline is closed, so that whoever asks for
    /// the next event or submits an operation is told so and does not wait.
    pub fn shutdown(&mut self)
        requires
            old(self).wf(),
        ensures
            final(self).wf(),
            Pipeline::closes(old(self).pipeline(), final(self).pipeline()),
            Self::same_but_pipeline(*old(self), *final(self)),
    {
        self.codex.shutdown();
    }
}

} // verus!
