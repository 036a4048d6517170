//! The submission/event pipeline of one thread: operations go in, events
//! come out, both in order.

use vstd::prelude::*;
use vstd::string::*;
use std::collections::VecDeque;
use crate::protocol::ThreadId;
use crate::status::AgentStatus;
use crate::text::decimal_digits;
use crate::text::decimal_string;

verus! {

/// An instruction of the client to a thread.
#[derive(Clone, Debug, PartialEq, Eq)]
pub enum Op {
    /// Input of the user for the agent to work on.
    UserInput { text: String },
    /// Stop what is being worked on.
    Interrupt,
    /// Change the model used from the next turn on.
    Configure { model: String },
    /// The client's decision on a tool call that waits for approval.
    ExecApproval { call_id: String, approved: bool },
    /// End the thread.
    Shutdown,
}

/// An operation together with the id under which its events are reported.
#[derive(Clone, Debug, PartialEq, Eq)]
pub struct Submission {
    pub id: String,
    pub op: Op,
}

/// What the first event of a session tells about the session.
#[derive(Clone, Debug, PartialEq, Eq)]
pub struct SessionConfiguredEvent {
    pub session_id: ThreadId,
    pub model: String,
    pub rollout_path: Option<std::path::PathBuf>,
}

/// What an event reports.
#[derive(Clone, Debug, PartialEq, Eq)]
pub enum EventMsg {
    SessionConfigured(SessionConfiguredEvent),
    TaskStarted,
    AgentMessage { message: String },
    ToolOutput { call_id: String, output: String, success: bool },
    StatusChanged(AgentStatus),
    Error { message: String },
    TaskComplete,
    ShutdownComplete,
}

/// A fact emitted by the engine, tagged with the id of the submission that
/// caused it. Events emitted before any submission was taken carry the
/// empty id.
#[derive(Clone, Debug, PartialEq, Eq)]
pub struct Event {
    pub id: String,
    pub msg: EventMsg,
}

/// The pipeline is closed: the thread has ended.
#[derive(Clone, Copy, Debug, PartialEq, Eq, Structural)]
pub struct PipelineClosed;

/// The number that follows `n` when submissions are numbered: the count
/// wraps around after the largest one.
pub open spec fn next_counter(n: u64) -> u64 {
    if n == u64::MAX {
        0
    } else {
        (n + 1) as u64
    }
}

/// The ordered channel pair of one thread.
///
/// The client side submits operations and takes events; the engine side
/// takes the submissions one at a time, in the order in which they came,
/// and emits events, each of which is tagged with the submission that the
/// engine took last. Besides what is still queued, the pipeline keeps, for
/// its contracts only, the whole history of what went through it.
pub struct Pipeline {
    next_id: u64,
    submissions: VecDeque<Submission>,
    active: Option<String>,
    events: VecDeque<Event>,
    closed: bool,
    accepted: Ghost<Seq<Submission>>,
    started: Ghost<nat>,
    emitted: Ghost<Seq<Event>>,
    origins: Ghost<Seq<nat>>,
    delivered: Ghost<nat>,
}

impl Pipeline {
    /// Every submission that was accepted, in the order of acceptance.
    pub closed spec fn accepted(&self) -> Seq<Submission> {
        self.accepted@
    }

    /// How many of the accepted submissions the engine has taken.
    pub closed spec fn started(&self) -> nat {
        self.started@
    }

    /// Every event that was emitted, in the order of emission.
    pub closed spec fn emitted(&self) -> Seq<Event> {
        self.emitted@
    }

    /// For the event number `k`, how many submissions the engine had taken
    /// when it emitted the event: 0 for an event that precedes all
    /// submissions, and otherwise the 1-based number of the submission that
    /// caused it.
    pub closed spec fn origin(&self, k: int) -> nat {
        self.origins@[k]
    }

    /// How many of the emitted events the consumer has taken.
    pub closed spec fn delivered(&self) -> nat {
        self.delivered@
    }

    /// Whether the pipeline was closed.
    pub closed spec fn is_closed(&self) -> bool {
        self.closed
    }

    /// The counter from which the next submission id is made.
    pub closed spec fn next_id(&self) -> u64 {
        self.next_id
    }

    /// The submissions that wait for the engine, oldest first.
    pub open spec fn waiting(&self) -> Seq<Submission> {
        self.accepted().subrange(self.started() as int, self.accepted().len() as int)
    }

    /// The events that wait for the consumer, oldest first.
    pub open spec fn backlog(&self) -> Seq<Event> {
        self.emitted().subrange(self.delivered() as int, self.emitted().len() as int)
    }

    /// The id with which the engine's next event is tagged.
    pub open spec fn active_id(&self) -> Seq<char> {
        if self.started() == 0 {
            Seq::<char>::empty()
        } else {
            self.accepted()[self.started() - 1].id@
        }
    }

    /// The pipeline's bookkeeping is consistent. [`Pipeline::new`]
    /// establishes this and every method keeps it.
    pub closed spec fn wf(&self) -> bool {
        &&& self.started@ <= self.accepted@.len()
        &&& self.delivered@ <= self.emitted@.len()
        &&& self.origins@.len() == self.emitted@.len()
        &&& self.submissions@ =~= self.accepted@.subrange(
            self.started@ as int,
            self.accepted@.len() as int,
        )
        &&& self.events@ =~= self.emitted@.subrange(
            self.delivered@ as int,
            self.emitted@.len() as int,
        )
        &&& match self.active {
            Some(id) => self.started@ > 0 && id@ == self.accepted@[self.started@ - 1].id@,
            None => self.started@ == 0,
        }
        &&& forall|k: int| 0 <= k < self.origins@.len() ==> #[trigger] self.origins@[k] <= self.started@
        &&& forall|i: int, j: int|
            0 <= i <= j < self.origins@.len() ==> #[trigger] self.origins@[i] <= #[trigger] self.origins@[j]
        &&& forall|k: int|
            0 <= k < self.origins@.len() ==> (#[trigger] self.emitted@[k]).id@ == (if self.origins@[k] == 0 {
                Seq::<char>::empty()
            } else {
                self.accepted@[self.origins@[k] - 1].id@
            })
    }

    /// `post` has the origins that `pre` had for the events of `pre`.
    pub open spec fn origins_kept(pre: Self, post: Self) -> bool {
        forall|k: int| 0 <= k < pre.emitted().len() ==> post.origin(k) == pre.origin(k)
    }

    /// What [`Pipeline::submit_with_id`] does: on a closed pipeline it
    /// fails and changes nothing; otherwise the submission joins the
    /// accepted ones.
    pub open spec fn submits_with_id(
        pre: Self,
        sub: Submission,
        post: Self,
        r: Result<(), PipelineClosed>,
    ) -> bool {
        if pre.is_closed() {
            r is Err && post == pre
        } else {
            &&& r is Ok
            &&& !post.is_closed()
            &&& post.accepted() == pre.accepted().push(sub)
            &&& post.started() == pre.started()
            &&& post.emitted() == pre.emitted()
            &&& post.delivered() == pre.delivered()
            &&& post.next_id() == pre.next_id()
            &&& Self::origins_kept(pre, post)
        }
    }

    /// What [`Pipeline::submit`] does: on a closed pipeline it fails and
    /// changes nothing; otherwise the operation joins the accepted
    /// submissions under the decimal numeral of the counter, which is
    /// returned, and the counter moves on.
    pub open spec fn submits(pre: Self, op: Op, post: Self, r: Result<String, PipelineClosed>) -> bool {
        if pre.is_closed() {
            r is Err && post == pre
        } else {
            &&& r is Ok
            &&& r->Ok_0@ == decimal_digits(pre.next_id() as nat)
            &&& !post.is_closed()
            &&& post.accepted().len() == pre.accepted().len() + 1
            &&& post.accepted().drop_last() == pre.accepted()
            &&& post.accepted().last().id@ == decimal_digits(pre.next_id() as nat)
            &&& post.accepted().last().op == op
            &&& post.next_id() == next_counter(pre.next_id())
            &&& post.started() == pre.started()
            &&& post.emitted() == pre.emitted()
            &&& post.delivered() == pre.delivered()
            &&& Self::origins_kept(pre, post)
        }
    }

    /// What [`Pipeline::next_event`] does: it hands out the oldest event
    /// not yet taken; where there is none it changes nothing, and fails
    /// exactly when the pipeline is closed.
    pub open spec fn polls(pre: Self, post: Self, r: Result<Option<Event>, PipelineClosed>) -> bool {
        if pre.delivered() < pre.emitted().len() {
            &&& r == Ok::<Option<Event>, PipelineClosed>(
                Some(pre.emitted()[pre.delivered() as int]),
            )
            &&& post.delivered() == pre.delivered() + 1
            &&& post.accepted() == pre.accepted()
            &&& post.started() == pre.started()
            &&& post.emitted() == pre.emitted()
            &&& post.is_closed() == pre.is_closed()
            &&& post.next_id() == pre.next_id()
            &&& Self::origins_kept(pre, post)
        } else if pre.is_closed() {
            r is Err && post == pre
        } else {
            r == Ok::<Option<Event>, PipelineClosed>(None) && post == pre
        }
    }

    /// What [`Pipeline::next_submission`] does: on an open pipeline with a
    /// waiting submission it hands out the oldest one, which becomes the
    /// one that the engine works on; otherwise it changes nothing.
    pub open spec fn takes(pre: Self, post: Self, r: Option<Submission>) -> bool {
        if !pre.is_closed() && pre.started() < pre.accepted().len() {
            &&& r == Some(pre.accepted()[pre.started() as int])
            &&& post.started() == pre.started() + 1
            &&& post.accepted() == pre.accepted()
            &&& post.emitted() == pre.emitted()
            &&& post.delivered() == pre.delivered()
            &&& !post.is_closed()
            &&& post.next_id() == pre.next_id()
            &&& Self::origins_kept(pre, post)
        } else {
            r is None && post == pre
        }
    }

    /// What [`Pipeline::emit`] does: on a closed pipeline it fails and
    /// changes nothing; otherwise one event joins the emitted ones, with
    /// the message given, the id of the submission that the engine works
    /// on, and that submission's number as its origin.
    pub open spec fn emits(pre: Self, msg: EventMsg, post: Self, r: Result<(), PipelineClosed>) -> bool {
        if pre.is_closed() {
            r is Err && post == pre
        } else {
            &&& r is Ok
            &&& post.emitted().len() == pre.emitted().len() + 1
            &&& post.emitted().drop_last() == pre.emitted()
            &&& post.emitted().last().msg == msg
            &&& post.emitted().last().id@ == pre.active_id()
            &&& post.origin(pre.emitted().len() as int) == pre.started()
            &&& post.accepted() == pre.accepted()
            &&& post.started() == pre.started()
            &&& post.delivered() == pre.delivered()
            &&& !post.is_closed()
            &&& post.next_id() == pre.next_id()
            &&& Self::origins_kept(pre, post)
        }
    }

    /// What [`Pipeline::close`] does: the pipeline is closed and its
    /// history stays as it was.
    pub open spec fn closes(pre: Self, post: Self) -> bool {
        &&& post.is_closed()
        &&& post.accepted() == pre.accepted()
        &&& post.started() == pre.started()
        &&& post.emitted() == pre.emitted()
        &&& post.delivered() == pre.delivered()
        &&& post.next_id() == pre.next_id()
        &&& Self::origins_kept(pre, post)
    }

    /// An open pipeline through which nothing has gone yet.
    pub fn new() -> (p: Self)
        ensures
            p.wf(),
            !p.is_closed(),
            p.accepted() == Seq::<Submission>::empty(),
            p.emitted() == Seq::<Event>::empty(),
            p.started() == 0,
            p.delivered() == 0,
            p.next_id() == 0,
    {
        Pipeline {
            next_id: 0,
            submissions: VecDeque::new(),
            active: None,
            events: VecDeque::new(),
            closed: false,
            accepted: Ghost(Seq::empty()),
            started: Ghost(0),
            emitted: Ghost(Seq::empty()),
            origins: Ghost(Seq::empty()),
            delivered: Ghost(0),
        }
    }

    /// Whether the pipeline was closed.
    pub fn closed(&self) -> (b: bool)
        ensures
            b == self.is_closed(),
    {
        self.closed
    }

    /// Queues a submission under the id that the caller chose. Fails, and
    /// changes nothing, where the pipeline is closed.
    pub fn submit_with_id(&mut self, sub: Submission) -> (r: Result<(), PipelineClosed>)
        requires
            old(self).wf(),
        ensures
            final(self).wf(),
            Self::submits_with_id(*old(self), sub, *final(self), r),
    {
        if self.closed {
            return Err(PipelineClosed);
        }
        proof {
            self.accepted@ = self.accepted@.push(sub);
        }
        self.submissions.push_back(sub);
        proof {
            assert(self.submissions@ =~= self.accepted@.subrange(
                self.started@ as int,
                self.accepted@.len() as int,
            ));
        }
        Ok(())
    }

    /// Queues an operation and returns the id under which its events will
    /// be reported: the decimal numeral of the pipeline's counter, which
    /// then moves on. Fails, and changes nothing, where the pipeline is
    /// closed.
    pub fn submit(&mut self, op: Op) -> (r: Result<String, PipelineClosed>)
        requires
            old(self).wf(),
        ensures
            final(self).wf(),
            Self::submits(*old(self), op, *final(self), r),
    {
        if self.closed {
            return Err(PipelineClosed);
        }
        let id = decimal_string(self.next_id);
        let sub = Submission { id: id.clone(), op };
        self.next_id = if self.next_id == u64::MAX {
            0
        } else {
            self.next_id + 1
        };
        let r = self.submit_with_id(sub);
        proof {
            assert(self.accepted().drop_last() =~= old(self).accepted());
        }
        Ok(id)
    }

    /// Takes the next event for the consumer: `Ok(Some(event))` with the
    /// oldest event not yet taken; `Ok(None)` where there is none yet and
    /// the pipeline is open, so that the consumer has to wait; and the
    /// error where there is none and the pipeline is closed.
    pub fn next_event(&mut self) -> (r: Result<Option<Event>, PipelineClosed>)
        requires
            old(self).wf(),
        ensures
            final(self).wf(),
            Self::polls(*old(self), *final(self), r),
    {
        if self.events.len() == 0 {
            return if self.closed {
                Err(PipelineClosed)
            } else {
                Ok(None)
            };
        }
        let taken = self.events.pop_front();
        proof {
            assert(taken == Some(old(self).events@[0]));
            assert(old(self).events@[0] == old(self).emitted@[old(self).delivered@ as int]);
            self.delivered@ = self.delivered@ + 1;
            assert(self.events@ =~= self.emitted@.subrange(
                self.delivered@ as int,
                self.emitted@.len() as int,
            ));
        }
        Ok(taken)
    }

    /// Takes the next submission for the engine, which from now on works
    /// on it: the events emitted next are tagged with its id. `None` where
    /// no submission waits or the pipeline is closed.
    pub fn next_submission(&mut self) -> (r: Option<Submission>)
        requires
            old(self).wf(),
        ensures
            final(self).wf(),
            Self::takes(*old(self), *final(self), r),
    {
        if self.closed {
            return None;
        }
        if self.submissions.len() == 0 {
            return None;
        }
        let taken = self.submissions.pop_front();
        match &taken {
            Some(sub) => {
                self.active = Some(sub.id.clone());
            },
            None => {},
        }
        proof {
            assert(taken == Some(old(self).submissions@[0]));
            assert(old(self).submissions@[0] == old(self).accepted@[old(self).started@ as int]);
            self.started@ = self.started@ + 1;
            assert(self.submissions@ =~= self.accepted@.subrange(
                self.started@ as int,
                self.accepted@.len() as int,
            ));
        }
        taken
    }

    /// Emits an event for the submission that the engine works on; before
    /// the first submission the event carries the empty id. Fails, and
    /// drops the event, where the pipeline is closed.
    pub fn emit(&mut self, msg: EventMsg) -> (r: Result<(), PipelineClosed>)
        requires
            old(self).wf(),
        ensures
            final(self).wf(),
            Self::emits(*old(self), msg, *final(self), r),
    {
        if self.closed {
            return Err(PipelineClosed);
        }
        let id = match &self.active {
            Some(id) => id.clone(),
            None => String::new(),
        };
        let event = Event { id, msg };
        proof {
            self.emitted@ = self.emitted@.push(event);
            self.origins@ = self.origins@.push(self.started@);
        }
        self.events.push_back(event);
        proof {
            assert(self.events@ =~= self.emitted@.subrange(
                self.delivered@ as int,
                self.emitted@.len() as int,
            ));
            assert(self.emitted().drop_last() =~= old(self).emitted());
        }
        Ok(())
    }

    /// Closes the pipeline, as the end of the thread does. Events already
    /// emitted can still be taken; nothing more goes in.
    pub fn close(&mut self)
        requires
            old(self).wf(),
        ensures
            final(self).wf(),
            Self::closes(*old(self), *final(self)),
    {
        self.closed = true;
    }

    /// Number of events that wait for the consumer.
    pub fn backlog_len(&self) -> (n: usize)
        requires
            self.wf(),
        ensures
            n == self.backlog().len(),
    {
        self.events.len()
    }

    /// Number of submissions that wait for the engine.
    pub fn waiting_len(&self) -> (n: usize)
        requires
            self.wf(),
        ensures
            n == self.waiting().len(),
    {
        self.submissions.len()
    }
}

/// Events follow the order of the submissions that caused them: of two
/// events, the one emitted later stems from the same submission as the
/// earlier one or from a later submission, never from an earlier one. Each
/// event carries the id of the submission it stems from, and the empty id
/// where it precedes all submissions.
pub proof fn lemma_events_follow_submission_order(p: Pipeline, i: int, j: int)
    requires
        p.wf(),
        0 <= i <= j < p.emitted().len(),
    ensures
        p.origin(i) <= p.origin(j) <= p.started() <= p.accepted().len(),
        p.origin(j) > 0 ==> p.emitted()[j].id@ == p.accepted()[p.origin(j) - 1].id@,
        p.origin(j) == 0 ==> p.emitted()[j].id@ == Seq::<char>::empty(),
{
}

/// The consumer gets the events in the order of their emission, none
/// skipped and none twice: a call that hands out an event hands out the one
/// whose number is the count of events taken before, and moves that count
/// by one.
pub proof fn lemma_events_are_delivered_in_order(
    pre: Pipeline,
    post: Pipeline,
    r: Result<Option<Event>, PipelineClosed>,
)
    requires
        Pipeline::polls(pre, post, r),
        r matches Ok(Some(_)),
    ensures
        r->Ok_0->Some_0 == pre.emitted()[pre.delivered() as int],
        post.delivered() == pre.delivered() + 1,
        post.emitted() == pre.emitted(),
{
}

/// What one call can make of a pipeline: `post` comes from `pre` by a
/// submission, by taking an event or a submission, by an event of the
/// engine, or by closing.
pub open spec fn stepped(pre: Pipeline, post: Pipeline) -> bool {
    ||| exists|op: Op, r: Result<String, PipelineClosed>| Pipeline::submits(pre, op, post, r)
    ||| exists|sub: Submission, r: Result<(), PipelineClosed>|
        Pipeline::submits_with_id(pre, sub, post, r)
    ||| exists|r: Result<Option<Event>, PipelineClosed>| Pipeline::polls(pre, post, r)
    ||| exists|r: Option<Submission>| Pipeline::takes(pre, post, r)
    ||| exists|msg: EventMsg, r: Result<(), PipelineClosed>| Pipeline::emits(pre, msg, post, r)
    ||| Pipeline::closes(pre, post)
}

/// Whatever is done with a pipeline, nothing that went through it is
/// lost, changed or reordered: the submissions accepted and the events
/// emitted before are still there, in their places and with their origins;
/// the engine and the consumer never go back; and a closed pipeline stays
/// closed.
pub proof fn lemma_history_is_kept(pre: Pipeline, post: Pipeline)
    requires
        pre.wf(),
        stepped(pre, post),
    ensures
        pre.accepted().len() <= post.accepted().len(),
        post.accepted().subrange(0, pre.accepted().len() as int) == pre.accepted(),
        pre.emitted().len() <= post.emitted().len(),
        post.emitted().subrange(0, pre.emitted().len() as int) == pre.emitted(),
        Pipeline::origins_kept(pre, post),
        pre.started() <= post.started(),
        pre.delivered() <= post.delivered(),
        pre.is_closed() ==> post.is_closed(),
{
    assert(pre.accepted().subrange(0, pre.accepted().len() as int) =~= pre.accepted());
    assert(pre.emitted().subrange(0, pre.emitted().len() as int) =~= pre.emitted());
    if post.accepted().len() == pre.accepted().len() + 1 {
        assert(post.accepted().drop_last() =~= pre.accepted()) by {
            if exists|sub: Submission, r: Result<(), PipelineClosed>|
                Pipeline::submits_with_id(pre, sub, post, r) {
                let (sub, r) = choose|sub: Submission, r: Result<(), PipelineClosed>|
                    Pipeline::submits_with_id(pre, sub, post, r);
                assert(pre.accepted().push(sub).drop_last() =~= pre.accepted());
            }
        }
        assert(post.accepted().subrange(0, pre.accepted().len() as int)
            =~= post.accepted().drop_last());
    }
    if post.emitted().len() == pre.emitted().len() + 1 {
        assert(post.emitted().subrange(0, pre.emitted().len() as int)
            =~= post.emitted().drop_last());
    }
}

/// On a closed pipeline nobody is left waiting. A submission fails. A
/// call for the next event never asks the consumer to wait: it fails, or
/// it hands out an event and the backlog shrinks by one, so that after as
/// many calls as there were events left every further call fails.
pub proof fn lemma_closed_pipeline_never_blocks(
    pre: Pipeline,
    post: Pipeline,
    r: Result<Option<Event>, PipelineClosed>,
)
    requires
        pre.wf(),
        pre.is_closed(),
        Pipeline::polls(pre, post, r),
    ensures
        r != Ok::<Option<Event>, PipelineClosed>(None),
        post.is_closed(),
        r is Ok ==> post.backlog().len() + 1 == pre.backlog().len(),
        pre.backlog().len() == 0 ==> r is Err,
{
}

/// On a closed pipeline a submission fails and changes nothing.
pub proof fn lemma_closed_pipeline_refuses_submissions(
    pre: Pipeline,
    op: Op,
    post: Pipeline,
    r: Result<String, PipelineClosed>,
)
    requires
        pre.is_closed(),
        Pipeline::submits(pre, op, post, r),
    ensures
        r is Err,
        post == pre,
{
}


} // verus!
