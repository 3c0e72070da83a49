//! The request dispatcher: correlation of relay replies with the requests
//! that are still waiting for one.

use crate::text::{decimal, lemma_decimal_injective, push_decimal};
use vstd::prelude::*;

verus! {

/// What every correlation id of this client begins with.
pub const CORRELATION_PREFIX: &'static str = "linux-";

/// A message to or from a relay.
#[derive(Debug, PartialEq)]
pub struct RelayFrame {
    pub correlation_id: String,
    pub message_type: String,
    pub payload: serde_json::Value,
}

/// A reply paired with the request it answers.
#[derive(Debug, PartialEq)]
pub struct DispatchedResponse {
    pub correlation_id: String,
    pub request_message_type: String,
    pub response_message_type: String,
    pub payload: serde_json::Value,
}

/// Why a reply could not be dispatched.
#[derive(Debug, Clone, Copy, PartialEq, Eq)]
pub enum DispatcherError {
    /// No request with the reply's correlation id is waiting.
    UnknownCorrelationId,
}

/// A request that waits for its reply.
#[derive(Debug)]
struct PendingRequest {
    correlation_id: String,
    message_type: String,
}

/// Hands out correlation ids and remembers which requests are waiting.
#[derive(Debug)]
pub struct RelayRequestDispatcher {
    next_id: u64,
    pending: Vec<PendingRequest>,
}

/// Model of a waiting request.
pub struct PendingView {
    pub correlation_id: Seq<char>,
    pub message_type: Seq<char>,
}

/// Model of a [`RelayRequestDispatcher`]: the number of the id handed out
/// last, and the waiting requests.
pub struct DispatcherView {
    pub next_id: nat,
    pub pending: Seq<PendingView>,
}

/// The correlation id with the number `n`.
pub open spec fn correlation_id_for(n: nat) -> Seq<char> {
    CORRELATION_PREFIX@ + decimal(n)
}

/// The number of the id that follows `last`. Numbers stop at `u64::MAX`.
pub open spec fn id_after(last: nat) -> nat {
    if last < u64::MAX {
        last + 1
    } else {
        last
    }
}

/// The first position at or after `from` where a request with the id
/// `id` waits, or the length of `pending` where there is none.
pub open spec fn position_from(pending: Seq<PendingView>, id: Seq<char>, from: int) -> int
    decreases pending.len() - from,
{
    if from < 0 || from >= pending.len() {
        pending.len() as int
    } else if pending[from].correlation_id == id {
        from
    } else {
        position_from(pending, id, from + 1)
    }
}

/// The position where a request with the id `id` waits, or the length of
/// `pending` where there is none.
pub open spec fn position_of(pending: Seq<PendingView>, id: Seq<char>) -> int {
    position_from(pending, id, 0)
}

/// A request with the id `id` is waiting.
pub open spec fn is_pending(dispatcher: DispatcherView, id: Seq<char>) -> bool {
    position_of(dispatcher.pending, id) < dispatcher.pending.len()
}

/// No id waits twice, and every waiting id was handed out by this
/// dispatcher.
pub open spec fn well_formed(dispatcher: DispatcherView) -> bool {
    &&& forall|i: int, j: int|
        0 <= i < j < dispatcher.pending.len() ==> (#[trigger] dispatcher.pending[i]).correlation_id
            != (#[trigger] dispatcher.pending[j]).correlation_id
    &&& forall|i: int|
        0 <= i < dispatcher.pending.len() ==> exists|n: nat|
            1 <= n <= dispatcher.next_id && (#[trigger] dispatcher.pending[i]).correlation_id
                == #[trigger] correlation_id_for(n)
}

/// The dispatcher after a request of type `message_type` was registered:
/// the request waits under the next id. Should that id be waiting already,
/// which takes the id numbers to run out, the new request replaces the
/// old one.
pub open spec fn registered(dispatcher: DispatcherView, message_type: Seq<char>) -> DispatcherView {
    let next_id = id_after(dispatcher.next_id);
    let request = PendingView { correlation_id: correlation_id_for(next_id), message_type };
    let at = position_of(dispatcher.pending, request.correlation_id);
    DispatcherView {
        next_id,
        pending: if at < dispatcher.pending.len() {
            dispatcher.pending.update(at, request)
        } else {
            dispatcher.pending.push(request)
        },
    }
}

/// The dispatcher after the reply to `id` was dispatched: the request no
/// longer waits. Without such a request nothing changes.
pub open spec fn resolved(dispatcher: DispatcherView, id: Seq<char>) -> DispatcherView {
    let at = position_of(dispatcher.pending, id);
    if at < dispatcher.pending.len() {
        DispatcherView { pending: dispatcher.pending.remove(at), ..dispatcher }
    } else {
        dispatcher
    }
}

/// The type of the request that waits under `id`.
pub open spec fn pending_type(dispatcher: DispatcherView, id: Seq<char>) -> Seq<char>
    recommends
        is_pending(dispatcher, id),
{
    dispatcher.pending[position_of(dispatcher.pending, id)].message_type
}

impl View for PendingRequest {
    type V = PendingView;

    closed spec fn view(&self) -> PendingView {
        PendingView { correlation_id: self.correlation_id@, message_type: self.message_type@ }
    }
}

impl View for RelayRequestDispatcher {
    type V = DispatcherView;

    closed spec fn view(&self) -> DispatcherView {
        DispatcherView {
            next_id: self.next_id as nat,
            pending: Seq::new(self.pending@.len(), |i: int| self.pending@[i]@),
        }
    }
}

impl Default for RelayRequestDispatcher {
    fn default() -> (dispatcher: Self)
        ensures
            dispatcher@.next_id == 0,
            dispatcher@.pending.len() == 0,
            well_formed(dispatcher@),
    {
        RelayRequestDispatcher { next_id: 0, pending: Vec::new() }
    }
}

/// Where `position_from` finds `id`, there it is, and nowhere before.
pub proof fn lemma_position(pending: Seq<PendingView>, id: Seq<char>, from: int)
    requires
        0 <= from <= pending.len(),
    ensures
        from <= position_from(pending, id, from) <= pending.len(),
        position_from(pending, id, from) < pending.len() ==> pending[position_from(
            pending,
            id,
            from,
        )].correlation_id == id,
        forall|i: int|
            from <= i < position_from(pending, id, from) ==> (#[trigger] pending[i]).correlation_id
                != id,
    decreases pending.len() - from,
{
    if from < pending.len() && pending[from].correlation_id != id {
        lemma_position(pending, id, from + 1);
    }
}

impl RelayRequestDispatcher {
    /// Finds the waiting request with the id `id`.
    fn position(&self, id: &String) -> (at: usize)
        ensures
            at == position_of(self@.pending, id@),
            at <= self.pending.len(),
            self@.pending.len() == self.pending.len(),
    {
        let mut at: usize = 0;
        while at < self.pending.len()
            invariant
                at <= self.pending.len(),
                position_of(self@.pending, id@) == position_from(self@.pending, id@, at as int),
                self@.pending.len() == self.pending.len(),
            decreases self.pending.len() - at,
        {
            if self.pending[at].correlation_id == *id {
                assert(self@.pending[at as int].correlation_id == id@);
                return at;
            }
            assert(self@.pending[at as int].correlation_id != id@);
            at = at + 1;
        }
        at
    }

    /// Registers an outbound request of type `message_type` and returns
    /// the frame to send: a fresh correlation id, the type, the payload.
    pub fn register_outbound(&mut self, message_type: &str, payload: serde_json::Value) -> (frame:
        RelayFrame)
        ensures
            final(self)@ == registered(old(self)@, message_type@),
            frame.correlation_id@ == correlation_id_for(final(self)@.next_id),
            frame.message_type@ == message_type@,
            frame.payload == payload,
            is_pending(final(self)@, frame.correlation_id@),
            pending_type(final(self)@, frame.correlation_id@) == message_type@,
            well_formed(old(self)@) ==> well_formed(final(self)@),
            well_formed(old(self)@) && old(self)@.next_id < u64::MAX ==> final(self)@.pending
                == old(self)@.pending.push(
                (PendingView {
                    correlation_id: frame.correlation_id@,
                    message_type: message_type@,
                }),
            ),
    {
        let ghost before = self@;
        let next_id = self.next_id.saturating_add(1);
        let mut correlation_id = CORRELATION_PREFIX.to_owned();
        push_decimal(&mut correlation_id, next_id);
        let at = self.position(&correlation_id);
        let ghost request = PendingView {
            correlation_id: correlation_id@,
            message_type: message_type@,
        };
        if at < self.pending.len() {
            self.pending[at].message_type = message_type.to_owned();
            assert(self.pending[at as int]@ == request) by {
                lemma_position(before.pending, correlation_id@, 0);
            }
        } else {
            self.pending.push(
                PendingRequest {
                    correlation_id: correlation_id.clone(),
                    message_type: message_type.to_owned(),
                },
            );
        }
        self.next_id = next_id;
        proof {
            assert(self@.pending =~= registered(before, message_type@).pending);
            lemma_registered(before, message_type@);
        }
        RelayFrame { correlation_id, message_type: message_type.to_owned(), payload }
    }

    /// Dispatches a reply: the request that waits under the reply's
    /// correlation id stops waiting and is returned with the reply. A reply
    /// to no waiting request is refused and changes nothing.
    pub fn resolve_response(&mut self, response: RelayFrame) -> (r: Result<
        DispatchedResponse,
        DispatcherError,
    >)
        ensures
            r is Ok <==> is_pending(old(self)@, response.correlation_id@),
            final(self)@ == resolved(old(self)@, response.correlation_id@),
            r is Err ==> final(self)@ == old(self)@,
            r matches Ok(dispatched) ==> {
                &&& dispatched.correlation_id == response.correlation_id
                &&& dispatched.request_message_type@ == pending_type(
                    old(self)@,
                    response.correlation_id@,
                )
                &&& dispatched.response_message_type == response.message_type
                &&& dispatched.payload == response.payload
                &&& final(self)@.pending.len() == old(self)@.pending.len() - 1
            },
            r matches Err(error) ==> error == DispatcherError::UnknownCorrelationId,
            well_formed(old(self)@) ==> well_formed(final(self)@),
            well_formed(old(self)@) ==> !is_pending(final(self)@, response.correlation_id@),
    {
        let ghost before = self@;
        let at = self.position(&response.correlation_id);
        if at >= self.pending.len() {
            return Err(DispatcherError::UnknownCorrelationId);
        }
        let request = self.pending.remove(at);
        proof {
            assert(self@.pending =~= before.pending.remove(at as int));
            lemma_resolved(before, response.correlation_id@);
        }
        Ok(
            DispatchedResponse {
                correlation_id: response.correlation_id,
                request_message_type: request.message_type,
                response_message_type: response.message_type,
                payload: response.payload,
            },
        )
    }

    /// The number of requests that wait for a reply.
    pub fn pending_count(&self) -> (count: usize)
        ensures
            count == self@.pending.len(),
    {
        self.pending.len()
    }
}

/// Different numbers give different correlation ids.
pub proof fn lemma_correlation_ids_differ(a: nat, b: nat)
    requires
        correlation_id_for(a) == correlation_id_for(b),
    ensures
        a == b,
{
    let prefix = CORRELATION_PREFIX@;
    assert(decimal(a) =~= correlation_id_for(a).skip(prefix.len() as int));
    assert(decimal(b) =~= correlation_id_for(b).skip(prefix.len() as int));
    lemma_decimal_injective(a, b);
}

/// Registering keeps a dispatcher well formed, the new request waits
/// under its id, and as long as id numbers have not run out the id is
/// new: nothing that waited is replaced.
pub proof fn lemma_registered(dispatcher: DispatcherView, message_type: Seq<char>)
    ensures
        is_pending(
            registered(dispatcher, message_type),
            correlation_id_for(id_after(dispatcher.next_id)),
        ),
        pending_type(
            registered(dispatcher, message_type),
            correlation_id_for(id_after(dispatcher.next_id)),
        ) == message_type,
        well_formed(dispatcher) ==> well_formed(registered(dispatcher, message_type)),
        well_formed(dispatcher) && dispatcher.next_id < u64::MAX ==> {
            &&& !is_pending(dispatcher, correlation_id_for(id_after(dispatcher.next_id)))
            &&& registered(dispatcher, message_type).pending == dispatcher.pending.push(
                (PendingView {
                    correlation_id: correlation_id_for(id_after(dispatcher.next_id)),
                    message_type,
                }),
            )
        },
{
    let next_id = id_after(dispatcher.next_id);
    let id = correlation_id_for(next_id);
    let after = registered(dispatcher, message_type);
    let at = position_of(dispatcher.pending, id);
    lemma_position(dispatcher.pending, id, 0);
    lemma_position(after.pending, id, 0);
    assert(after.pending[at].correlation_id == id);
    if well_formed(dispatcher) {
        if dispatcher.next_id < u64::MAX && at < dispatcher.pending.len() {
            let n = choose|n: nat|
                1 <= n <= dispatcher.next_id && dispatcher.pending[at].correlation_id
                    == #[trigger] correlation_id_for(n);
            lemma_correlation_ids_differ(n, next_id);
        }
        assert forall|i: int| 0 <= i < after.pending.len() implies exists|n: nat|
            1 <= n <= after.next_id && (#[trigger] after.pending[i]).correlation_id
                == #[trigger] correlation_id_for(n) by {
            if i == at {
                assert(after.pending[i].correlation_id == correlation_id_for(next_id));
                if dispatcher.next_id >= u64::MAX {
                    assert(next_id == dispatcher.next_id);
                    if at < dispatcher.pending.len() {
                        let n = choose|n: nat|
                            1 <= n <= dispatcher.next_id && dispatcher.pending[at].correlation_id
                                == #[trigger] correlation_id_for(n);
                        assert(after.pending[i].correlation_id == correlation_id_for(n));
                    }
                }
            } else {
                let n = choose|n: nat|
                    1 <= n <= dispatcher.next_id && dispatcher.pending[i].correlation_id
                        == #[trigger] correlation_id_for(n);
                assert(after.pending[i].correlation_id == correlation_id_for(n));
            }
        }
        assert forall|i: int, j: int| 0 <= i < j < after.pending.len() implies (
        #[trigger] after.pending[i]).correlation_id != (
        #[trigger] after.pending[j]).correlation_id by {
            if at >= dispatcher.pending.len() {
                if j == at {
                    assert(dispatcher.pending[i].correlation_id != id);
                }
            }
        }
    }
}

/// Resolving keeps a dispatcher well formed; a reply to a waiting request
/// makes the count of waiting requests go down by one, and the id no
/// longer waits.
pub proof fn lemma_resolved(dispatcher: DispatcherView, id: Seq<char>)
    ensures
        well_formed(dispatcher) ==> well_formed(resolved(dispatcher, id)),
        is_pending(dispatcher, id) ==> resolved(dispatcher, id).pending.len()
            == dispatcher.pending.len() - 1,
        !is_pending(dispatcher, id) ==> resolved(dispatcher, id) == dispatcher,
        well_formed(dispatcher) ==> !is_pending(resolved(dispatcher, id), id),
{
    let after = resolved(dispatcher, id);
    let at = position_of(dispatcher.pending, id);
    lemma_position(dispatcher.pending, id, 0);
    lemma_position(after.pending, id, 0);
    if well_formed(dispatcher) && at < dispatcher.pending.len() {
        assert forall|i: int| 0 <= i < after.pending.len() implies (
        #[trigger] after.pending[i]).correlation_id != id && exists|n: nat|
            1 <= n <= after.next_id && after.pending[i].correlation_id
                == #[trigger] correlation_id_for(n) by {
            let from = if i < at {
                i
            } else {
                i + 1
            };
            assert(after.pending[i] == dispatcher.pending[from]);
            let n = choose|n: nat|
                1 <= n <= dispatcher.next_id && dispatcher.pending[from].correlation_id
                    == #[trigger] correlation_id_for(n);
            assert(after.pending[i].correlation_id == correlation_id_for(n));
        }
        assert forall|i: int, j: int| 0 <= i < j < after.pending.len() implies (
        #[trigger] after.pending[i]).correlation_id != (
        #[trigger] after.pending[j]).correlation_id by {
            let from_i = if i < at {
                i
            } else {
                i + 1
            };
            let from_j = if j < at {
                j
            } else {
                j + 1
            };
            assert(after.pending[i] == dispatcher.pending[from_i]);
            assert(after.pending[j] == dispatcher.pending[from_j]);
        }
    }
}

/// A request that was just registered is answered by the reply that
/// carries its id: the reply is dispatched with the request's type, and
/// the dispatcher waits for exactly what it waited for before.
pub proof fn lemma_register_then_resolve(dispatcher: DispatcherView, message_type: Seq<char>)
    requires
        well_formed(dispatcher),
        dispatcher.next_id < u64::MAX,
    ensures
        ({
            let id = correlation_id_for(id_after(dispatcher.next_id));
            let waiting = registered(dispatcher, message_type);
            &&& waiting.pending.len() == dispatcher.pending.len() + 1
            &&& is_pending(waiting, id)
            &&& pending_type(waiting, id) == message_type
            &&& resolved(waiting, id).pending == dispatcher.pending
        }),
{
    let id = correlation_id_for(id_after(dispatcher.next_id));
    let waiting = registered(dispatcher, message_type);
    lemma_registered(dispatcher, message_type);
    lemma_position(dispatcher.pending, id, 0);
    lemma_position(waiting.pending, id, 0);
    assert(position_of(waiting.pending, id) == dispatcher.pending.len());
    assert(resolved(waiting, id).pending =~= dispatcher.pending);
}

} // verus!
