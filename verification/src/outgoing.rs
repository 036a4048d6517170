//! The outgoing correlation layer: what the host sends to the peer, and the
//! table that pairs each request of the host with the peer's answer.

use vstd::prelude::*;
use std::collections::HashMap;
use std::collections::VecDeque;
use crate::protocol::JsonRpcError;
use crate::protocol::OutgoingMessage;
use crate::protocol::RequestId;
use crate::protocol::ResponsePayload;
use crate::protocol::ServerNotification;
use crate::protocol::ServerRequestPayload;

verus! {

broadcast use vstd::std_specs::hash::group_hash_axioms;

/// What became of an answer of the peer.
pub enum Resolution<W> {
    /// The answer matched a pending request: `waiter` is the handle that
    /// was registered for it and `outcome` is what the peer sent. The entry
    /// has left the table.
    Delivered { waiter: W, outcome: Result<serde_json::Value, JsonRpcError> },
    /// No request was pending under `id`: nothing changed.
    Unmatched { id: RequestId },
}

/// Sends frames to the peer and keeps the table of requests in flight.
///
/// `W` is the handle through which the caller that sent a request is told
/// of the answer. Frames are queued in the order in which they were sent;
/// the transport takes them out with [`OutgoingMessageSender::next_outgoing`].
pub struct OutgoingMessageSender<W> {
    next_request_id: i64,
    request_id_to_callback: HashMap<i64, W>,
    outbox: VecDeque<OutgoingMessage>,
}

impl<W> OutgoingMessageSender<W> {
    /// Every pending id was handed out by this sender, so the next id is
    /// fresh. [`OutgoingMessageSender::new`] establishes this and every
    /// method keeps it.
    pub closed spec fn wf(&self) -> bool {
        &&& 0 <= self.next_request_id
        &&& forall|k: i64| #[trigger]
            self.request_id_to_callback@.contains_key(k) ==> 0 <= k < self.next_request_id
    }

    /// The requests in flight, each with its waiter.
    pub closed spec fn pending(&self) -> Map<i64, W> {
        self.request_id_to_callback@
    }

    /// The frames sent and not yet taken by the transport, oldest first.
    pub closed spec fn queued(&self) -> Seq<OutgoingMessage> {
        self.outbox@
    }

    /// The id that the next request will get.
    pub closed spec fn next_id(&self) -> i64 {
        self.next_request_id
    }

    /// Whether `id` names a request in flight.
    pub open spec fn is_pending(&self, id: RequestId) -> bool {
        id matches RequestId::Integer(n) && self.pending().contains_key(n)
    }

    /// The table without the entry of `id`; the table itself where `id`
    /// names no entry.
    pub open spec fn pending_without(&self, id: RequestId) -> Map<i64, W> {
        match id {
            RequestId::Integer(n) => self.pending().remove(n),
            RequestId::Text(_) => self.pending(),
        }
    }

    /// What an answer `outcome` of the peer to `id` resolves to.
    pub open spec fn resolution(
        &self,
        id: RequestId,
        outcome: Result<serde_json::Value, JsonRpcError>,
    ) -> Resolution<W> {
        match id {
            RequestId::Integer(n) => if self.pending().contains_key(n) {
                Resolution::Delivered { waiter: self.pending()[n], outcome }
            } else {
                Resolution::Unmatched { id }
            },
            RequestId::Text(_) => Resolution::Unmatched { id },
        }
    }

    /// What [`OutgoingMessageSender::send_request_with_id`] does: the
    /// request gets the next id, under which nothing is pending; `waiter`
    /// is recorded under it; the request frame is queued.
    pub open spec fn requested(
        pre: Self,
        payload: ServerRequestPayload,
        waiter: W,
        post: Self,
        id: RequestId,
    ) -> bool {
        &&& id == RequestId::Integer(pre.next_id())
        &&& !pre.is_pending(id)
        &&& post.next_id() == pre.next_id() + 1
        &&& post.pending() == pre.pending().insert(pre.next_id(), waiter)
        &&& post.queued() == pre.queued().push(OutgoingMessage::Request { id, payload })
    }

    /// What an answer of the peer does: the entry of `id`, if there is
    /// one, leaves the table and its waiter comes back with the answer;
    /// nothing else changes.
    pub open spec fn resolved(
        pre: Self,
        id: RequestId,
        outcome: Result<serde_json::Value, JsonRpcError>,
        post: Self,
        r: Resolution<W>,
    ) -> bool {
        &&& r == pre.resolution(id, outcome)
        &&& post.pending() == pre.pending_without(id)
        &&& post.queued() == pre.queued()
        &&& post.next_id() == pre.next_id()
    }

    /// What [`OutgoingMessageSender::cancel_request`] does: the entry of
    /// `id`, if there is one, leaves the table; nothing else changes.
    pub open spec fn cancelled(pre: Self, id: RequestId, post: Self, found: bool) -> bool {
        &&& found == pre.is_pending(id)
        &&& post.pending() == pre.pending_without(id)
        &&& post.queued() == pre.queued()
        &&& post.next_id() == pre.next_id()
    }

    /// A sender with nothing queued and nothing in flight.
    pub fn new() -> (sender: Self)
        ensures
            sender.pending() == Map::<i64, W>::empty(),
            sender.queued() == Seq::<OutgoingMessage>::empty(),
            sender.next_id() == 0,
            sender.wf(),
    {
        OutgoingMessageSender {
            next_request_id: 0,
            request_id_to_callback: HashMap::new(),
            outbox: VecDeque::new(),
        }
    }

    /// Whether another request id can be handed out.
    pub fn can_send_request(&self) -> (ok: bool)
        ensures
            ok == (self.next_id() < i64::MAX),
    {
        self.next_request_id < i64::MAX
    }

    /// Number of requests in flight.
    pub fn pending_len(&self) -> (n: usize)
        ensures
            n == self.pending().len(),
    {
        self.request_id_to_callback.len()
    }

    /// Whether the request `id` is in flight.
    pub fn has_pending(&self, id: &RequestId) -> (found: bool)
        ensures
            found == self.is_pending(*id),
    {
        match id {
            RequestId::Integer(n) => self.request_id_to_callback.contains_key(n),
            RequestId::Text(_) => false,
        }
    }

    /// Queues a response to the peer's request `id`.
    pub fn send_response(&mut self, id: RequestId, result: ResponsePayload)
        ensures
            final(self).queued() == old(self).queued().push(
                OutgoingMessage::Response { id, result },
            ),
            final(self).pending() == old(self).pending(),
            final(self).next_id() == old(self).next_id(),
            old(self).wf() ==> final(self).wf(),
    {
        self.outbox.push_back(OutgoingMessage::Response { id, result });
    }

    /// Queues an error for the peer's request `id`.
    pub fn send_error(&mut self, id: RequestId, error: JsonRpcError)
        ensures
            final(self).queued() == old(self).queued().push(OutgoingMessage::Error { id, error }),
            final(self).pending() == old(self).pending(),
            final(self).next_id() == old(self).next_id(),
            old(self).wf() ==> final(self).wf(),
    {
        self.outbox.push_back(OutgoingMessage::Error { id, error });
    }

    /// Queues a notification to the peer.
    pub fn send_server_notification(&mut self, notification: ServerNotification)
        ensures
            final(self).queued() == old(self).queued().push(
                OutgoingMessage::Notification(notification),
            ),
            final(self).pending() == old(self).pending(),
            final(self).next_id() == old(self).next_id(),
            old(self).wf() ==> final(self).wf(),
    {
        self.outbox.push_back(OutgoingMessage::Notification(notification));
    }

    /// Sends a request to the peer: hands out a fresh id, records `waiter`
    /// under it and queues the request frame.
    pub fn send_request_with_id(&mut self, payload: ServerRequestPayload, waiter: W) -> (id:
        RequestId)
        requires
            old(self).wf(),
            old(self).next_id() < i64::MAX,
        ensures
            final(self).wf(),
            Self::requested(*old(self), payload, waiter, *final(self), id),
    {
        let n: i64 = self.next_request_id;
        self.next_request_id = n + 1;
        self.request_id_to_callback.insert(n, waiter);
        self.outbox.push_back(
            OutgoingMessage::Request { id: RequestId::Integer(n), payload },
        );
        RequestId::Integer(n)
    }

    fn resolve(&mut self, id: RequestId, outcome: Result<serde_json::Value, JsonRpcError>) -> (r:
        Resolution<W>)
        ensures
            Self::resolved(*old(self), id, outcome, *final(self), r),
            old(self).wf() ==> final(self).wf(),
    {
        match id {
            RequestId::Integer(n) => {
                match self.request_id_to_callback.remove(&n) {
                    Some(waiter) => Resolution::Delivered { waiter, outcome },
                    None => {
                        assert(old(self).pending().remove(n) =~= old(self).pending());
                        Resolution::Unmatched { id: RequestId::Integer(n) }
                    },
                }
            },
            RequestId::Text(text) => Resolution::Unmatched { id: RequestId::Text(text) },
        }
    }

    /// Takes in a response of the peer. Where a request is pending under
    /// `id`, its entry leaves the table and the waiter is handed back with
    /// `result`; otherwise nothing changes.
    pub fn notify_client_response(&mut self, id: RequestId, result: serde_json::Value) -> (r:
        Resolution<W>)
        ensures
            Self::resolved(*old(self), id, Ok(result), *final(self), r),
            old(self).wf() ==> final(self).wf(),
    {
        self.resolve(id, Ok(result))
    }

    /// Takes in an error of the peer. Where a request is pending under
    /// `id`, its entry leaves the table and the waiter is handed back with
    /// `error`; otherwise nothing changes.
    pub fn notify_client_error(&mut self, id: RequestId, error: JsonRpcError) -> (r: Resolution<W>)
        ensures
            Self::resolved(*old(self), id, Err(error), *final(self), r),
            old(self).wf() ==> final(self).wf(),
    {
        self.resolve(id, Err(error))
    }

    /// Gives up the request `id`: its entry leaves the table and its
    /// waiter is dropped, which releases whoever waits on it. Says whether
    /// there was such an entry.
    pub fn cancel_request(&mut self, id: &RequestId) -> (found: bool)
        ensures
            Self::cancelled(*old(self), *id, *final(self), found),
            old(self).wf() ==> final(self).wf(),
    {
        match id {
            RequestId::Integer(n) => {
                match self.request_id_to_callback.remove(n) {
                    Some(_waiter) => true,
                    None => {
                        assert(old(self).pending().remove(*n) =~= old(self).pending());
                        false
                    },
                }
            },
            RequestId::Text(_) => false,
        }
    }

    /// Gives up every request in flight, as when the peer has gone: the
    /// table is emptied and all waiters are dropped. Returns how many there
    /// were.
    pub fn cancel_all(&mut self) -> (released: usize)
        ensures
            released == old(self).pending().len(),
            final(self).pending() == Map::<i64, W>::empty(),
            final(self).queued() == old(self).queued(),
            final(self).next_id() == old(self).next_id(),
            old(self).wf() ==> final(self).wf(),
    {
        let released = self.request_id_to_callback.len();
        self.request_id_to_callback.clear();
        released
    }

    /// Takes the oldest queued frame for the transport to write.
    pub fn next_outgoing(&mut self) -> (frame: Option<OutgoingMessage>)
        ensures
            old(self).queued().len() == 0 ==> frame is None
                && final(self).queued() == old(self).queued(),
            old(self).queued().len() > 0 ==> frame == Some(old(self).queued()[0])
                && final(self).queued() == old(self).queued().drop_first(),
            final(self).pending() == old(self).pending(),
            final(self).next_id() == old(self).next_id(),
            old(self).wf() ==> final(self).wf(),
    {
        self.outbox.pop_front()
    }

    /// Number of frames queued for the transport.
    pub fn outgoing_len(&self) -> (n: usize)
        ensures
            n == self.queued().len(),
    {
        self.outbox.len()
    }
}

/// A request that was sent and is then answered under its id resolves its
/// waiter with exactly that answer, and its entry leaves the table, which
/// is then as it was before the request.
pub proof fn lemma_matching_response_resolves_waiter<W>(
    before: OutgoingMessageSender<W>,
    payload: ServerRequestPayload,
    waiter: W,
    sent: OutgoingMessageSender<W>,
    id: RequestId,
    answer: Result<serde_json::Value, JsonRpcError>,
    after: OutgoingMessageSender<W>,
    r: Resolution<W>,
)
    requires
        OutgoingMessageSender::requested(before, payload, waiter, sent, id),
        OutgoingMessageSender::resolved(sent, id, answer, after, r),
    ensures
        sent.is_pending(id),
        r == (Resolution::Delivered { waiter, outcome: answer }),
        !after.is_pending(id),
        after.pending() == before.pending(),
{
    assert(after.pending() =~= before.pending());
}

/// A request that was sent and then given up, as after a timeout, has
/// left the table, which is then as it was before the request. An answer
/// that comes late finds nothing: it is reported as unmatched and changes
/// nothing.
pub proof fn lemma_late_response_after_cancel_is_ignored<W>(
    before: OutgoingMessageSender<W>,
    payload: ServerRequestPayload,
    waiter: W,
    sent: OutgoingMessageSender<W>,
    id: RequestId,
    given_up: OutgoingMessageSender<W>,
    found: bool,
    answer: Result<serde_json::Value, JsonRpcError>,
    after: OutgoingMessageSender<W>,
    r: Resolution<W>,
)
    requires
        OutgoingMessageSender::requested(before, payload, waiter, sent, id),
        OutgoingMessageSender::cancelled(sent, id, given_up, found),
        OutgoingMessageSender::resolved(given_up, id, answer, after, r),
    ensures
        found,
        !given_up.is_pending(id),
        given_up.pending() == before.pending(),
        r == (Resolution::Unmatched::<W> { id }),
        after.pending() == given_up.pending(),
        after.queued() == given_up.queued(),
        after.next_id() == given_up.next_id(),
{
    assert(given_up.pending() =~= before.pending());
    assert(after.pending() =~= given_up.pending());
}

/// To give up a request twice is to give it up once: the second call
/// finds nothing and changes nothing.
pub proof fn lemma_second_cancel_is_noop<W>(
    before: OutgoingMessageSender<W>,
    id: RequestId,
    once: OutgoingMessageSender<W>,
    found_first: bool,
    twice: OutgoingMessageSender<W>,
    found_second: bool,
)
    requires
        OutgoingMessageSender::cancelled(before, id, once, found_first),
        OutgoingMessageSender::cancelled(once, id, twice, found_second),
    ensures
        !found_second,
        twice.pending() == once.pending(),
        twice.queued() == once.queued(),
        twice.next_id() == once.next_id(),
{
    assert(twice.pending() =~= once.pending());
}

/// An id that was resolved or given up is not resolved again: whatever
/// comes for it afterwards, an answer or a cancellation, finds nothing and
/// changes nothing.
pub proof fn lemma_resolved_id_stays_resolved<W>(
    before: OutgoingMessageSender<W>,
    id: RequestId,
    first: Result<serde_json::Value, JsonRpcError>,
    once: OutgoingMessageSender<W>,
    r_first: Resolution<W>,
    second: Result<serde_json::Value, JsonRpcError>,
    twice: OutgoingMessageSender<W>,
    r_second: Resolution<W>,
    cancelled: OutgoingMessageSender<W>,
    found: bool,
)
    requires
        OutgoingMessageSender::resolved(before, id, first, once, r_first),
        OutgoingMessageSender::resolved(once, id, second, twice, r_second),
        OutgoingMessageSender::cancelled(once, id, cancelled, found),
    ensures
        r_second == (Resolution::Unmatched::<W> { id }),
        twice.pending() == once.pending(),
        twice.queued() == once.queued(),
        !found,
        cancelled.pending() == once.pending(),
{
    assert(twice.pending() =~= once.pending());
    assert(cancelled.pending() =~= once.pending());
}


} // verus!
