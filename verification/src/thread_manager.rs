//! The registry of threads: it creates them, owns them, finds them by id
//! and tells its listeners of each new one.

use vstd::prelude::*;
use vstd::string::*;
use std::collections::HashMap;
use std::collections::VecDeque;
use std::path::PathBuf;
use crate::codex::Codex;
use crate::codex::StateDbHandle;
use crate::config_types::SessionSource;
use crate::pipeline::Event;
use crate::pipeline::EventMsg;
use crate::pipeline::Op;
use crate::pipeline::Pipeline;
use crate::pipeline::PipelineClosed;
use crate::pipeline::SessionConfiguredEvent;
use crate::pipeline::Submission;
use crate::protocol::ThreadId;
use crate::status::AgentStatus;
use crate::status::next_version;
use crate::trill_thread::ThreadConfigSnapshot;
use crate::trill_thread::TrillThread;

verus! {

broadcast use vstd::std_specs::hash::group_hash_axioms;

/// No thread is registered under the id.
#[derive(Clone, Copy, Debug, PartialEq, Eq, Structural)]
pub struct ThreadNotFound {
    pub thread_id: ThreadId,
}

/// The engine of a new thread could not be built; `reason` says why.
#[derive(Clone, Debug, PartialEq, Eq)]
pub struct InitializationError {
    pub reason: String,
}

/// What a running engine brings to its thread.
#[derive(Clone, Debug, PartialEq, Eq)]
pub struct EngineStart {
    pub rollout_path: Option<PathBuf>,
    pub state_db: Option<StateDbHandle>,
}

/// What the caller gets for a thread that was started.
#[derive(Clone, Debug, PartialEq, Eq)]
pub struct NewThread {
    pub thread_id: ThreadId,
    pub session_configured: SessionConfiguredEvent,
}

/// A listener for new threads. It remembers how many threads had been
/// created when it last looked.
#[derive(Clone, Copy, Debug, PartialEq, Eq, Structural)]
pub struct ThreadCreatedReceiver {
    next: u64,
}

/// What a listener learns when it looks.
#[derive(Clone, Copy, Debug, PartialEq, Eq, Structural)]
pub enum ThreadCreatedPoll {
    /// The next thread that was created since the listener subscribed.
    Created(ThreadId),
    /// No thread was created since the listener last looked.
    Empty,
    /// The listener fell behind: so many notifications are gone for it.
    /// It goes on with the oldest one that is kept.
    Lagged(u64),
}

impl ThreadCreatedReceiver {
    /// How many threads had been created when the listener last looked,
    /// counting those it was told of and those it missed.
    pub closed spec fn position(&self) -> u64 {
        self.next
    }
}

/// The thread that was created as number `i`.
pub open spec fn nth_thread_id(i: int) -> ThreadId {
    ThreadId { value: i as u64 }
}

/// The registry of threads.
///
/// Thread ids are handed out in sequence, so none is used twice. The last
/// `capacity` notifications of new threads are kept for the listeners.
pub struct ThreadManager {
    next_thread_id: u64,
    threads: HashMap<u64, TrillThread>,
    session_source: SessionSource,
    capacity: usize,
    recent: VecDeque<ThreadId>,
}

impl ThreadManager {
    /// The threads that are registered, by the number of their id.
    pub closed spec fn threads(&self) -> Map<u64, TrillThread> {
        self.threads@
    }

    /// How many threads were created so far. It is also the number of the
    /// id that the next thread gets.
    pub closed spec fn created_count(&self) -> u64 {
        self.next_thread_id
    }

    /// How many notifications are kept for listeners that fall behind.
    pub closed spec fn capacity(&self) -> usize {
        self.capacity
    }

    /// The front end that the threads of this registry belong to.
    pub closed spec fn source(&self) -> SessionSource {
        self.session_source
    }

    /// The number of the oldest notification that is still kept.
    pub open spec fn oldest_kept(&self) -> int {
        if self.created_count() <= self.capacity() {
            0
        } else {
            self.created_count() - self.capacity()
        }
    }

    /// The registry is consistent. [`ThreadManager::new`] establishes this
    /// and every method keeps it.
    pub closed spec fn wf(&self) -> bool {
        &&& self.capacity >= 1
        &&& forall|k: u64| #[trigger]
            self.threads@.contains_key(k) ==> k < self.next_thread_id && self.threads@[k].wf()
        &&& self.recent@.len() == self.next_thread_id - self.oldest_kept()
        &&& forall|i: int|
            0 <= i < self.recent@.len() ==> #[trigger] self.recent@[i] == nth_thread_id(
                self.oldest_kept() + i,
            )
    }

    /// `post` is `pre` as far as the contracts can tell.
    pub open spec fn unchanged(pre: Self, post: Self) -> bool {
        &&& post.threads() == pre.threads()
        &&& post.created_count() == pre.created_count()
        &&& post.capacity() == pre.capacity()
        &&& post.source() == pre.source()
    }

    /// `post` is `pre` but for the thread `id`, which is registered in
    /// both.
    pub open spec fn only_thread_changed(pre: Self, id: ThreadId, post: Self) -> bool {
        &&& pre.threads().contains_key(id.value)
        &&& post.threads() == pre.threads().insert(id.value, post.threads()[id.value])
        &&& post.created_count() == pre.created_count()
        &&& post.capacity() == pre.capacity()
        &&& post.source() == pre.source()
    }

    /// A registry without threads. A `capacity` of 0 counts as 1.
    pub fn new(session_source: SessionSource, capacity: usize) -> (manager: Self)
        ensures
            manager.wf(),
            manager.threads() == Map::<u64, TrillThread>::empty(),
            manager.created_count() == 0,
            manager.capacity() == (if capacity == 0 {
                1usize
            } else {
                capacity
            }),
            manager.source() == session_source,
    {
        ThreadManager {
            next_thread_id: 0,
            threads: HashMap::new(),
            session_source,
            capacity: if capacity == 0 {
                1
            } else {
                capacity
            },
            recent: VecDeque::new(),
        }
    }

    /// Whether another thread id can be handed out.
    pub fn can_start_thread(&self) -> (ok: bool)
        ensures
            ok == (self.created_count() < u64::MAX),
    {
        self.next_thread_id < u64::MAX
    }

    /// Number of threads that are registered.
    pub fn thread_count(&self) -> (n: usize)
        ensures
            n == self.threads().len(),
    {
        self.threads.len()
    }

    /// Starts a thread with the configuration `config`, given what the
    /// construction of its engine came to.
    ///
    /// Where the engine could not be built the call fails with the reason
    /// and the registry is as before: no thread was added, no id was used
    /// and no listener is told. Otherwise the thread is registered under
    /// the next id, with a fresh session that has the configuration given,
    /// the session source of the registry, and the rollout path and state
    /// handle of the engine; the listeners are told; and the id comes back
    /// together with the first event of the session.
    pub fn start_thread(
        &mut self,
        config: ThreadConfigSnapshot,
        engine: Result<EngineStart, String>,
    ) -> (r: Result<NewThread, InitializationError>)
        requires
            old(self).wf(),
            old(self).created_count() < u64::MAX,
        ensures
            final(self).wf(),
            match engine {
                Err(reason) => {
                    &&& r == Err::<NewThread, InitializationError>(InitializationError { reason })
                    &&& Self::unchanged(*old(self), *final(self))
                },
                Ok(start) => {
                    &&& r matches Ok(started)
                    &&& started.thread_id == nth_thread_id(old(self).created_count() as int)
                    &&& started.session_configured.session_id == started.thread_id
                    &&& started.session_configured.model == config.model
                    &&& started.session_configured.rollout_path == start.rollout_path
                    &&& !old(self).threads().contains_key(started.thread_id.value)
                    &&& final(self).created_count() == old(self).created_count() + 1
                    &&& final(self).capacity() == old(self).capacity()
                    &&& final(self).source() == old(self).source()
                    &&& final(self).threads() == old(self).threads().insert(
                        started.thread_id.value,
                        final(self).threads()[started.thread_id.value],
                    )
                    &&& ({
                        let thread = final(self).threads()[started.thread_id.value];
                        &&& thread.rollout() == start.rollout_path
                        &&& thread.codex().state_db_handle() == start.state_db
                        &&& thread.codex().status().current() == AgentStatus::PendingInit
                        &&& thread.codex().config() == (ThreadConfigSnapshot {
                            session_source: old(self).source(),
                            ..config
                        })
                        &&& !thread.pipeline().is_closed()
                        &&& thread.pipeline().accepted() == Seq::<Submission>::empty()
                        &&& thread.pipeline().emitted() == Seq::<Event>::empty()
                    })
                },
            },
    {
        let start = match engine {
            Err(reason) => {
                return Err(InitializationError { reason });
            },
            Ok(start) => start,
        };
        let EngineStart { rollout_path, state_db } = start;
        let thread_id = ThreadId { value: self.next_thread_id };
        let session_configured = SessionConfiguredEvent {
            session_id: thread_id,
            model: config.model.clone(),
            rollout_path: match &rollout_path {
                Some(p) => Some(p.clone()),
                None => None,
            },
        };
        let ThreadConfigSnapshot {
            model,
            model_provider_id,
            approval_policy,
            sandbox_policy,
            cwd,
            reasoning_effort,
            personality,
            session_source: _requested,
        } = config;
        let config = ThreadConfigSnapshot {
            model,
            model_provider_id,
            approval_policy,
            sandbox_policy,
            cwd,
            reasoning_effort,
            personality,
            session_source: self.session_source,
        };
        let thread = TrillThread::new(Codex::new(config, state_db), rollout_path);
        let ghost oldest_before = self.oldest_kept();
        self.threads.insert(thread_id.value, thread);
        self.recent.push_back(thread_id);
        self.next_thread_id = self.next_thread_id + 1;
        if self.recent.len() > self.capacity {
            let _dropped = self.recent.pop_front();
        }
        proof {
            assert(final(self).threads() =~= old(self).threads().insert(
                thread_id.value,
                final(self).threads()[thread_id.value],
            ));
        }
        Ok(NewThread { thread_id, session_configured })
    }

    /// The thread registered under `id`, to read from.
    pub fn get_thread(&self, id: ThreadId) -> (r: Result<&TrillThread, ThreadNotFound>)
        ensures
            match r {
                Ok(thread) => self.threads().contains_key(id.value) && *thread == self.threads()[id.value],
                Err(e) => e.thread_id == id && !self.threads().contains_key(id.value),
            },
    {
        match self.threads.get(&id.value) {
            Some(thread) => Ok(thread),
            None => Err(ThreadNotFound { thread_id: id }),
        }
    }

    /// Retires the thread `id`: it leaves the registry and is shut down,
    /// so that its pipeline is closed. It is handed back for the events
    /// that are left in it.
    pub fn remove_thread(&mut self, id: ThreadId) -> (r: Result<TrillThread, ThreadNotFound>)
        requires
            old(self).wf(),
        ensures
            final(self).wf(),
            final(self).threads() == old(self).threads().remove(id.value),
            final(self).created_count() == old(self).created_count(),
            final(self).capacity() == old(self).capacity(),
            final(self).source() == old(self).source(),
            match r {
                Ok(thread) => {
                    &&& old(self).threads().contains_key(id.value)
                    &&& thread.wf()
                    &&& Pipeline::closes(old(self).threads()[id.value].pipeline(), thread.pipeline())
                    &&& TrillThread::same_but_pipeline(old(self).threads()[id.value], thread)
                },
                Err(e) => e.thread_id == id && !old(self).threads().contains_key(id.value),
            },
    {
        match self.threads.remove(&id.value) {
            Some(thread) => {
                let mut thread = thread;
                thread.shutdown();
                Ok(thread)
            },
            None => Err(ThreadNotFound { thread_id: id }),
        }
    }

    /// Queues an operation on the thread `id`; see
    /// [`TrillThread::submit`].
    pub fn submit(&mut self, id: ThreadId, op: Op) -> (r: Result<
        Result<String, PipelineClosed>,
        ThreadNotFound,
    >)
        requires
            old(self).wf(),
        ensures
            final(self).wf(),
            match r {
                Ok(inner) => {
                    &&& Self::only_thread_changed(*old(self), id, *final(self))
                    &&& Pipeline::submits(
                        old(self).threads()[id.value].pipeline(),
                        op,
                        final(self).threads()[id.value].pipeline(),
                        inner,
                    )
                    &&& TrillThread::same_but_pipeline(
                        old(self).threads()[id.value],
                        final(self).threads()[id.value],
                    )
                },
                Err(e) => {
                    &&& e.thread_id == id
                    &&& !old(self).threads().contains_key(id.value)
                    &&& Self::unchanged(*old(self), *final(self))
                },
            },
    {
        if !self.threads.contains_key(&id.value) {
            return Err(ThreadNotFound { thread_id: id });
        }
        let taken = self.threads.remove(&id.value);
        let mut thread = taken.unwrap();
        let inner = thread.submit(op);
        self.threads.insert(id.value, thread);
        proof {
            assert(final(self).threads() =~= old(self).threads().insert(
                id.value,
                final(self).threads()[id.value],
            ));
        }
        Ok(inner)
    }

    /// Queues a submission under a given id on the thread `id`; see
    /// [`TrillThread::submit_with_id`].
    pub fn submit_with_id(&mut self, id: ThreadId, sub: Submission) -> (r: Result<
        Result<(), PipelineClosed>,
        ThreadNotFound,
    >)
        requires
            old(self).wf(),
        ensures
            final(self).wf(),
            match r {
                Ok(inner) => {
                    &&& Self::only_thread_changed(*old(self), id, *final(self))
                    &&& Pipeline::submits_with_id(
                        old(self).threads()[id.value].pipeline(),
                        sub,
                        final(self).threads()[id.value].pipeline(),
                        inner,
                    )
                    &&& TrillThread::same_but_pipeline(
                        old(self).threads()[id.value],
                        final(self).threads()[id.value],
                    )
                },
                Err(e) => {
                    &&& e.thread_id == id
                    &&& !old(self).threads().contains_key(id.value)
                    &&& Self::unchanged(*old(self), *final(self))
                },
            },
    {
        if !self.threads.contains_key(&id.value) {
            return Err(ThreadNotFound { thread_id: id });
        }
        let taken = self.threads.remove(&id.value);
        let mut thread = taken.unwrap();
        let inner = thread.submit_with_id(sub);
        self.threads.insert(id.value, thread);
        proof {
            assert(final(self).threads() =~= old(self).threads().insert(
                id.value,
                final(self).threads()[id.value],
            ));
        }
        Ok(inner)
    }

    /// Takes the next event of the thread `id`; see
    /// [`TrillThread::next_event`].
    pub fn next_event(&mut self, id: ThreadId) -> (r: Result<
        Result<Option<Event>, PipelineClosed>,
        ThreadNotFound,
    >)
        requires
            old(self).wf(),
        ensures
            final(self).wf(),
            match r {
                Ok(inner) => {
                    &&& Self::only_thread_changed(*old(self), id, *final(self))
                    &&& Pipeline::polls(
                        old(self).threads()[id.value].pipeline(),
                        final(self).threads()[id.value].pipeline(),
                        inner,
                    )
                    &&& TrillThread::same_but_pipeline(
                        old(self).threads()[id.value],
                        final(self).threads()[id.value],
                    )
                },
                Err(e) => {
                    &&& e.thread_id == id
                    &&& !old(self).threads().contains_key(id.value)
                    &&& Self::unchanged(*old(self), *final(self))
                },
            },
    {
        if !self.threads.contains_key(&id.value) {
            return Err(ThreadNotFound { thread_id: id });
        }
        let taken = self.threads.remove(&id.value);
        let mut thread = taken.unwrap();
        let inner = thread.next_event();
        self.threads.insert(id.value, thread);
        proof {
            assert(final(self).threads() =~= old(self).threads().insert(
                id.value,
                final(self).threads()[id.value],
            ));
        }
        Ok(inner)
    }

    /// Takes the next submission of the thread `id` for its engine; see
    /// [`Pipeline::next_submission`].
    pub fn next_submission(&mut self, id: ThreadId) -> (r: Result<Option<Submission>, ThreadNotFound>)
        requires
            old(self).wf(),
        ensures
            final(self).wf(),
            match r {
                Ok(inner) => {
                    &&& Self::only_thread_changed(*old(self), id, *final(self))
                    &&& Pipeline::takes(
                        old(self).threads()[id.value].pipeline(),
                        final(self).threads()[id.value].pipeline(),
                        inner,
                    )
                    &&& TrillThread::same_but_pipeline(
                        old(self).threads()[id.value],
                        final(self).threads()[id.value],
                    )
                },
                Err(e) => {
                    &&& e.thread_id == id
                    &&& !old(self).threads().contains_key(id.value)
                    &&& Self::unchanged(*old(self), *final(self))
                },
            },
    {
        if !self.threads.contains_key(&id.value) {
            return Err(ThreadNotFound { thread_id: id });
        }
        let taken = self.threads.remove(&id.value);
        let mut thread = taken.unwrap();
        let inner = thread.codex_mut().next_submission();
        self.threads.insert(id.value, thread);
        proof {
            assert(final(self).threads() =~= old(self).threads().insert(
                id.value,
                final(self).threads()[id.value],
            ));
        }
        Ok(inner)
    }

    /// Emits an event of the engine of the thread `id`; see
    /// [`Pipeline::emit`].
    pub fn emit(&mut self, id: ThreadId, msg: EventMsg) -> (r: Result<
        Result<(), PipelineClosed>,
        ThreadNotFound,
    >)
        requires
            old(self).wf(),
        ensures
            final(self).wf(),
            match r {
                Ok(inner) => {
                    &&& Self::only_thread_changed(*old(self), id, *final(self))
                    &&& Pipeline::emits(
                        old(self).threads()[id.value].pipeline(),
                        msg,
                        final(self).threads()[id.value].pipeline(),
                        inner,
                    )
                    &&& TrillThread::same_but_pipeline(
                        old(self).threads()[id.value],
                        final(self).threads()[id.value],
                    )
                },
                Err(e) => {
                    &&& e.thread_id == id
                    &&& !old(self).threads().contains_key(id.value)
                    &&& Self::unchanged(*old(self), *final(self))
                },
            },
    {
        if !self.threads.contains_key(&id.value) {
            return Err(ThreadNotFound { thread_id: id });
        }
        let taken = self.threads.remove(&id.value);
        let mut thread = taken.unwrap();
        let inner = thread.codex_mut().emit(msg);
        self.threads.insert(id.value, thread);
        proof {
            assert(final(self).threads() =~= old(self).threads().insert(
                id.value,
                final(self).threads()[id.value],
            ));
        }
        Ok(inner)
    }

    /// Sets the status of the agent of the thread `id`. Only the engine of
    /// that thread calls this.
    pub fn set_status(&mut self, id: ThreadId, status: AgentStatus) -> (r: Result<(), ThreadNotFound>)
        requires
            old(self).wf(),
        ensures
            final(self).wf(),
            match r {
                Ok(_) => {
                    let before = old(self).threads()[id.value];
                    let after = final(self).threads()[id.value];
                    &&& Self::only_thread_changed(*old(self), id, *final(self))
                    &&& after.codex().status().current() == status
                    &&& after.codex().status().version() == next_version(
                        before.codex().status().version(),
                    )
                    &&& after.pipeline() == before.pipeline()
                    &&& after.codex().config() == before.codex().config()
                    &&& after.codex().state_db_handle() == before.codex().state_db_handle()
                    &&& after.rollout() == before.rollout()
                },
                Err(e) => {
                    &&& e.thread_id == id
                    &&& !old(self).threads().contains_key(id.value)
                    &&& Self::unchanged(*old(self), *final(self))
                },
            },
    {
        if !self.threads.contains_key(&id.value) {
            return Err(ThreadNotFound { thread_id: id });
        }
        let taken = self.threads.remove(&id.value);
        let mut thread = taken.unwrap();
        thread.codex_mut().set_status(status);
        self.threads.insert(id.value, thread);
        proof {
            assert(final(self).threads() =~= old(self).threads().insert(
                id.value,
                final(self).threads()[id.value],
            ));
        }
        Ok(())
    }

    /// A new listener for new threads. It is told of the threads created
    /// from now on, and of none that exists already.
    pub fn subscribe_thread_created(&self) -> (receiver: ThreadCreatedReceiver)
        ensures
            receiver.position() == self.created_count(),
    {
        ThreadCreatedReceiver { next: self.next_thread_id }
    }

    /// What a listener at `position` learns when it looks, and the
    /// position at which it stands afterwards.
    pub open spec fn notification_at(&self, position: u64) -> (ThreadCreatedPoll, u64) {
        if position >= self.created_count() {
            (ThreadCreatedPoll::Empty, position)
        } else if position < self.oldest_kept() {
            (
                ThreadCreatedPoll::Lagged((self.oldest_kept() - position) as u64),
                self.oldest_kept() as u64,
            )
        } else {
            (ThreadCreatedPoll::Created(nth_thread_id(position as int)), (position + 1) as u64)
        }
    }

    /// Lets a listener look for the next new thread.
    pub fn poll_thread_created(&self, receiver: &mut ThreadCreatedReceiver) -> (r:
        ThreadCreatedPoll)
        requires
            self.wf(),
        ensures
            r == self.notification_at(old(receiver).position()).0,
            final(receiver).position() == self.notification_at(old(receiver).position()).1,
    {
        let position: u64 = receiver.next;
        if position >= self.next_thread_id {
            return ThreadCreatedPoll::Empty;
        }
        let kept: u64 = self.recent.len() as u64;
        let oldest: u64 = self.next_thread_id - kept;
        if position < oldest {
            receiver.next = oldest;
            ThreadCreatedPoll::Lagged(oldest - position)
        } else {
            let index: usize = (position - oldest) as usize;
            let id = self.recent[index];
            receiver.next = position + 1;
            ThreadCreatedPoll::Created(id)
        }
    }
}

/// Threads created at different times have different ids, and the one
/// created later has the larger id. As an id is made from the count of
/// threads created, which only grows, no id is handed out twice, whether
/// the thread that had it is still registered or not.
pub proof fn lemma_thread_ids_are_never_reused(earlier: int, later: int)
    requires
        0 <= earlier < later <= u64::MAX,
    ensures
        nth_thread_id(earlier) != nth_thread_id(later),
        nth_thread_id(earlier).value < nth_thread_id(later).value,
{
}

/// A listener that is told of a thread is told of the thread whose number
/// is its position, and then stands right behind that thread; a listener
/// that stands at the count of threads created is told of nothing; and a
/// listener never moves back. A new listener stands at the count of
/// threads created, so it is told of no thread that existed before it, and
/// of each later thread at most once, in the order of creation.
pub proof fn lemma_listener_sees_only_later_threads(manager: ThreadManager, position: u64)
    ensures
        manager.notification_at(position).1 >= position,
        manager.notification_at(position).0 matches ThreadCreatedPoll::Created(id) ==> {
            &&& id == nth_thread_id(position as int)
            &&& position < manager.created_count()
            &&& manager.notification_at(position).1 == position + 1
        },
        position == manager.created_count() ==> manager.notification_at(position).0
            == ThreadCreatedPoll::Empty,
{
}

} // verus!
