//! The interception state machine for one HTTP transaction.
//!
//! Each transaction owns one `Filter`, created by the per-transaction
//! factory `Filter::new`. A header event in an `Idle` slot yields the one
//! outbound call to make; the transport's answer either suspends that
//! direction (`AwaitingReply`) or fails open. A completion event consumes
//! the stored context for its handle exactly once, decodes the reply, and
//! says which direction to resume and whether to inject the header; every
//! failure is handled locally and fails open, so traffic is never left
//! suspended and never dropped.

use vstd::prelude::*;

use crate::codec::{decode_response, spec_decode_response, Direction};
use crate::dispatch::{build_call, spec_call_request, CallRequest, DispatchError};
use crate::store::{map_dirs_unique, map_has_dir, ContextStore, TransactionContext};

verus! {

/// The gRPC status code that marks a successful completion.
pub const GRPC_STATUS_OK: u32 = 0;

/// The life of one transaction-direction slot. `Idle` is initial; a
/// successful dispatch moves it to `AwaitingReply`; its one completion moves
/// it to `Completed` or `Failed`, both terminal.
#[derive(Clone, Copy, PartialEq, Eq, Debug, Structural)]
pub enum SlotState {
    Idle,
    AwaitingReply,
    Completed,
    Failed,
}

/// Why an enrichment did not happen. Every kind is handled locally and fails
/// open: the traffic proceeds without the enriched header.
#[derive(Clone, Copy, PartialEq, Eq, Debug, Structural)]
pub enum FailureKind {
    /// The transport rejected the call at once; nothing was sent, nothing
    /// was suspended, and no completion will arrive.
    Dispatch,
    /// The call was sent but came back failed, timed out, or empty.
    TimeoutOrTransport,
    /// The reply could not be decoded.
    Decode,
    /// The reply's direction does not match the stored direction.
    ProtocolMismatch,
    /// The completion names no live handle; it is ignored.
    UnknownHandle,
}

/// What the host must do after a dispatch result was recorded.
#[derive(Clone, Copy, PartialEq, Eq, Debug, Structural)]
pub enum DispatchOutcome {
    /// The call is in flight: suspend the direction until its completion.
    Suspend,
    /// Fail open: let the direction proceed unenriched; do not suspend, and
    /// expect no completion.
    Proceed(FailureKind),
}

/// What the host must do after a completion event was consumed.
#[derive(PartialEq, Eq, Debug)]
pub enum CompletionOutcome {
    /// Set the direction's header to `header` and resume the direction.
    Applied { direction: Direction, header: Vec<u8> },
    /// Fail open: resume the direction with no header set.
    FailedResume { direction: Direction, failure: FailureKind },
    /// The handle is unknown or already consumed: log and do nothing.
    Ignored { failure: FailureKind },
}

/// Mathematical model of a `CompletionOutcome`.
pub enum CompletionEffect {
    Applied { direction: Direction, header: Seq<u8> },
    FailedResume { direction: Direction, failure: FailureKind },
    Ignored { failure: FailureKind },
}

impl View for CompletionOutcome {
    type V = CompletionEffect;

    open spec fn view(&self) -> CompletionEffect {
        match self {
            CompletionOutcome::Applied { direction, header } => CompletionEffect::Applied {
                direction: *direction,
                header: header@,
            },
            CompletionOutcome::FailedResume { direction, failure } => CompletionEffect::FailedResume {
                direction: *direction,
                failure: *failure,
            },
            CompletionOutcome::Ignored { failure } => CompletionEffect::Ignored { failure: *failure },
        }
    }
}

/// Mathematical model of a `Filter`: the transaction's name, the two
/// per-direction slots, and the map from live correlation handles to the
/// direction recorded for them.
#[verifier::ext_equal]
pub struct FilterView {
    pub transaction_id: Seq<u8>,
    pub request_state: SlotState,
    pub response_state: SlotState,
    pub pending: Map<u32, Direction>,
}

/// The slot of `s` for direction `d`.
pub open spec fn slot_of(s: FilterView, d: Direction) -> SlotState {
    match d {
        Direction::RequestPath => s.request_state,
        Direction::ResponsePath => s.response_state,
    }
}

/// `s` with the slot for `d` set to `state`.
pub open spec fn with_slot(s: FilterView, d: Direction, state: SlotState) -> FilterView {
    match d {
        Direction::RequestPath => FilterView { request_state: state, ..s },
        Direction::ResponsePath => FilterView { response_state: state, ..s },
    }
}

/// The direction that `d` is not.
pub open spec fn other_direction(d: Direction) -> Direction {
    match d {
        Direction::RequestPath => Direction::ResponsePath,
        Direction::ResponsePath => Direction::RequestPath,
    }
}

/// Whether some live handle is recorded with direction `d`.
pub open spec fn pending_for(s: FilterView, d: Direction) -> bool {
    map_has_dir(s.pending, d)
}

/// The filter's invariant: the transaction name fits the wire format; a slot
/// awaits a reply exactly when a live handle is recorded for its direction;
/// and at most one live handle is recorded per direction.
pub open spec fn filter_inv(s: FilterView) -> bool {
    &&& s.transaction_id.len() <= crate::codec::MAX_FIELD_LEN
    &&& (s.request_state == SlotState::AwaitingReply <==> pending_for(
        s,
        Direction::RequestPath,
    ))
    &&& (s.response_state == SlotState::AwaitingReply <==> pending_for(
        s,
        Direction::ResponsePath,
    ))
    &&& map_dirs_unique(s.pending)
}

/// What recording the transport's answer to a dispatched call does to the
/// state, and what the host must do next. A fresh handle is recorded and the
/// direction suspended; a rejection, or a handle colliding with a live one,
/// fails open without suspending.
pub open spec fn dispatch_transition(
    s: FilterView,
    d: Direction,
    result: Result<u32, DispatchError>,
) -> (FilterView, DispatchOutcome) {
    match result {
        Ok(handle) => {
            if s.pending.dom().contains(handle) {
                (with_slot(s, d, SlotState::Failed), DispatchOutcome::Proceed(FailureKind::Dispatch))
            } else {
                (
                    FilterView {
                        pending: s.pending.insert(handle, d),
                        ..with_slot(s, d, SlotState::AwaitingReply)
                    },
                    DispatchOutcome::Suspend,
                )
            }
        },
        Err(_) => (with_slot(s, d, SlotState::Failed), DispatchOutcome::Proceed(FailureKind::Dispatch)),
    }
}

/// What consuming one completion event does to the state, and what the host
/// must do next. An unknown handle changes nothing; a known handle is
/// consumed, its direction resumed exactly once, and the slot ends
/// `Completed` with the decoded header applied, or `Failed` open.
pub open spec fn completion_transition(
    s: FilterView,
    handle: u32,
    status_code: u32,
    payload: Seq<u8>,
) -> (FilterView, CompletionEffect) {
    if !s.pending.dom().contains(handle) {
        (s, CompletionEffect::Ignored { failure: FailureKind::UnknownHandle })
    } else {
        let d = s.pending[handle];
        let s1 = FilterView { pending: s.pending.remove(handle), ..s };
        if status_code != GRPC_STATUS_OK || payload.len() == 0 {
            (
                with_slot(s1, d, SlotState::Failed),
                CompletionEffect::FailedResume { direction: d, failure: FailureKind::TimeoutOrTransport },
            )
        } else {
            match spec_decode_response(payload) {
                Err(_) => (
                    with_slot(s1, d, SlotState::Failed),
                    CompletionEffect::FailedResume { direction: d, failure: FailureKind::Decode },
                ),
                Ok(m) => {
                    if m.direction != d {
                        (
                            with_slot(s1, d, SlotState::Failed),
                            CompletionEffect::FailedResume {
                                direction: d,
                                failure: FailureKind::ProtocolMismatch,
                            },
                        )
                    } else {
                        (
                            with_slot(s1, d, SlotState::Completed),
                            CompletionEffect::Applied { direction: d, header: m.header },
                        )
                    }
                },
            }
        }
    }
}

/// The interception state machine for one HTTP transaction.
pub struct Filter {
    transaction_id: Vec<u8>,
    request_state: SlotState,
    response_state: SlotState,
    store: ContextStore,
}

impl View for Filter {
    type V = FilterView;

    closed spec fn view(&self) -> FilterView {
        FilterView {
            transaction_id: self.transaction_id@,
            request_state: self.request_state,
            response_state: self.response_state,
            pending: self.store@,
        }
    }
}

impl Filter {
    /// The store is well formed and the model satisfies the invariant.
    pub closed spec fn wf(self) -> bool {
        self.store.wf() && filter_inv(self@)
    }

    /// A well-formed filter's model satisfies the invariant.
    pub proof fn lemma_wf_inv(self)
        requires
            self.wf(),
        ensures
            filter_inv(self@),
    {
    }

    /// The per-transaction factory: a filter for the transaction named
    /// `transaction_id`, with both slots `Idle` and nothing in flight.
    pub fn new(transaction_id: Vec<u8>) -> (r: Filter)
        requires
            transaction_id@.len() <= crate::codec::MAX_FIELD_LEN,
        ensures
            r.wf(),
            r@.transaction_id == transaction_id@,
            r@.request_state == SlotState::Idle,
            r@.response_state == SlotState::Idle,
            r@.pending == Map::<u32, Direction>::empty(),
    {
        let r = Filter {
            transaction_id,
            request_state: SlotState::Idle,
            response_state: SlotState::Idle,
            store: ContextStore::new(),
        };
        proof {
            assert(forall|d: Direction| slot_of(r@, d) == SlotState::Idle);
        }
        r
    }

    /// The slot for `direction`.
    pub fn slot_state(&self, direction: Direction) -> (r: SlotState)
        ensures
            r == slot_of(self@, direction),
    {
        match direction {
            Direction::RequestPath => self.request_state,
            Direction::ResponsePath => self.response_state,
        }
    }

    /// The transaction's name.
    pub fn transaction_id(&self) -> (r: &Vec<u8>)
        ensures
            r@ == self@.transaction_id,
    {
        &self.transaction_id
    }

    /// Whether `handle` names a call in flight.
    pub fn is_pending(&self, handle: u32) -> (r: bool)
        ensures
            r == self@.pending.dom().contains(handle),
    {
        self.store.contains(handle)
    }

    fn set_slot(&mut self, direction: Direction, state: SlotState)
        ensures
            final(self)@ == with_slot(old(self)@, direction, state),
            final(self).store == old(self).store,
            final(self).transaction_id == old(self).transaction_id,
    {
        match direction {
            Direction::RequestPath => {
                self.request_state = state;
            },
            Direction::ResponsePath => {
                self.response_state = state;
            },
        }
    }

    /// A header event: if the slot for `direction` is `Idle`, the one call
    /// to dispatch for it; otherwise a call is already outstanding or the
    /// slot is settled, and the event is rejected with nothing dispatched.
    pub fn on_headers(&self, direction: Direction) -> (r: Option<CallRequest>)
        requires
            self.wf(),
        ensures
            match r {
                Some(call) => {
                    &&& slot_of(self@, direction) == SlotState::Idle
                    &&& call@ == spec_call_request(direction, self@.transaction_id)
                },
                None => slot_of(self@, direction) != SlotState::Idle,
            },
    {
        let state = self.slot_state(direction);
        if state == SlotState::Idle {
            Some(build_call(direction, &self.transaction_id))
        } else {
            None
        }
    }

    /// Records the transport's answer to the call dispatched for
    /// `direction`: a fresh handle suspends the direction, anything else
    /// fails open without suspending.
    pub fn on_dispatch_result(
        &mut self,
        direction: Direction,
        result: Result<u32, DispatchError>,
    ) -> (r: DispatchOutcome)
        requires
            old(self).wf(),
            slot_of(old(self)@, direction) == SlotState::Idle,
        ensures
            final(self).wf(),
            final(self)@ == dispatch_transition(old(self)@, direction, result).0,
            r == dispatch_transition(old(self)@, direction, result).1,
    {
        proof {
            old(self).store.lemma_pending_dir(Direction::RequestPath);
            old(self).store.lemma_pending_dir(Direction::ResponsePath);
        }
        match result {
            Ok(handle) => {
                if self.store.contains(handle) {
                    self.set_slot(direction, SlotState::Failed);
                    proof {
                        self.store.lemma_pending_dir(Direction::RequestPath);
                        self.store.lemma_pending_dir(Direction::ResponsePath);
                        self.store.lemma_directions_unique();
                    }
                    DispatchOutcome::Proceed(FailureKind::Dispatch)
                } else {
                    proof {
                        assert(!old(self).store.pending_dir(direction));
                    }
                    self.store.insert(handle, TransactionContext { direction });
                    self.set_slot(direction, SlotState::AwaitingReply);
                    proof {
                        self.store.lemma_pending_dir(Direction::RequestPath);
                        self.store.lemma_pending_dir(Direction::ResponsePath);
                        self.store.lemma_directions_unique();
                        assert(self@ =~= dispatch_transition(old(self)@, direction, result).0);
                    }
                    DispatchOutcome::Suspend
                }
            },
            Err(_) => {
                self.set_slot(direction, SlotState::Failed);
                proof {
                    self.store.lemma_pending_dir(Direction::RequestPath);
                    self.store.lemma_pending_dir(Direction::ResponsePath);
                    self.store.lemma_directions_unique();
                }
                DispatchOutcome::Proceed(FailureKind::Dispatch)
            },
        }
    }

    /// Consumes one completion event. The context for `handle` is looked up
    /// and removed, so a second delivery for the same handle is ignored; the
    /// stored direction is resumed exactly once, with the decoded header
    /// applied on success and with nothing applied on any failure.
    pub fn on_completion(&mut self, handle: u32, status_code: u32, payload: &[u8]) -> (r:
        CompletionOutcome)
        requires
            old(self).wf(),
        ensures
            final(self).wf(),
            final(self)@ == completion_transition(old(self)@, handle, status_code, payload@).0,
            r@ == completion_transition(old(self)@, handle, status_code, payload@).1,
    {
        proof {
            old(self).store.lemma_pending_dir(Direction::RequestPath);
            old(self).store.lemma_pending_dir(Direction::ResponsePath);
        }
        let context = match self.store.take(handle) {
            None => {
                return CompletionOutcome::Ignored { failure: FailureKind::UnknownHandle };
            },
            Some(context) => context,
        };
        let direction = context.direction;
        proof {
            self.store.lemma_pending_dir(Direction::RequestPath);
            self.store.lemma_pending_dir(Direction::ResponsePath);
            self.store.lemma_directions_unique();
        }
        if status_code != GRPC_STATUS_OK || payload.len() == 0 {
            self.set_slot(direction, SlotState::Failed);
            proof {
                assert(self@ =~= completion_transition(old(self)@, handle, status_code, payload@).0);
            }
            return CompletionOutcome::FailedResume {
                direction,
                failure: FailureKind::TimeoutOrTransport,
            };
        }
        match decode_response(payload) {
            Err(_) => {
                self.set_slot(direction, SlotState::Failed);
                proof {
                    assert(self@ =~= completion_transition(
                        old(self)@,
                        handle,
                        status_code,
                        payload@,
                    ).0);
                }
                CompletionOutcome::FailedResume { direction, failure: FailureKind::Decode }
            },
            Ok(message) => {
                if message.direction == direction {
                    self.set_slot(direction, SlotState::Completed);
                    proof {
                        assert(self@ =~= completion_transition(
                            old(self)@,
                            handle,
                            status_code,
                            payload@,
                        ).0);
                    }
                    CompletionOutcome::Applied { direction, header: message.header }
                } else {
                    self.set_slot(direction, SlotState::Failed);
                    proof {
                        assert(self@ =~= completion_transition(
                            old(self)@,
                            handle,
                            status_code,
                            payload@,
                        ).0);
                    }
                    CompletionOutcome::FailedResume {
                        direction,
                        failure: FailureKind::ProtocolMismatch,
                    }
                }
            },
        }
    }
}

/// The name of the header the enrichment injects for direction `d`.
pub open spec fn spec_header_name(d: Direction) -> Seq<char> {
    match d {
        Direction::RequestPath => "x-request-header"@,
        Direction::ResponsePath => "x-response-header"@,
    }
}

/// The name of the header to set when an enrichment is applied for
/// `direction`.
pub fn header_name(direction: Direction) -> (r: &'static str)
    ensures
        r@ == spec_header_name(direction),
{
    match direction {
        Direction::RequestPath => "x-request-header",
        Direction::ResponsePath => "x-response-header",
    }
}

/// Law: at most one outstanding call exists per direction of a transaction;
/// two live handles recorded with the same direction are the same handle.
pub proof fn lemma_at_most_one_outstanding(s: FilterView, h1: u32, h2: u32)
    requires
        filter_inv(s),
        s.pending.dom().contains(h1),
        s.pending.dom().contains(h2),
        s.pending[h1] == s.pending[h2],
    ensures
        h1 == h2,
{
    assert(map_dirs_unique(s.pending));
}

/// Law: recording a dispatch result in an idle slot preserves the filter's
/// invariant; with `Filter::new` and `lemma_completion_preserves_inv` this
/// makes the invariant — and with it the at-most-one-outstanding-call bound —
/// hold in every reachable state.
pub proof fn lemma_dispatch_preserves_inv(
    s: FilterView,
    d: Direction,
    result: Result<u32, DispatchError>,
)
    requires
        filter_inv(s),
        slot_of(s, d) == SlotState::Idle,
    ensures
        filter_inv(dispatch_transition(s, d, result).0),
{
    let s1 = dispatch_transition(s, d, result).0;
    match result {
        Ok(handle) => {
            if s.pending.dom().contains(handle) {
                lemma_failed_slot_keeps_inv(s, d);
            } else {
                assert(s1.pending.dom().contains(handle) && s1.pending[handle] == d);
                assert(pending_for(s1, d));
                let od = other_direction(d);
                if pending_for(s, od) {
                    let h = choose|h: u32|
                        #[trigger] s.pending.dom().contains(h) && s.pending[h] == od;
                    assert(s1.pending.dom().contains(h) && s1.pending[h] == od);
                }
                if pending_for(s1, od) {
                    let h = choose|h: u32|
                        #[trigger] s1.pending.dom().contains(h) && s1.pending[h] == od;
                    assert(s.pending.dom().contains(h) && s.pending[h] == od);
                }
                assert(map_dirs_unique(s1.pending)) by {
                    assert forall|h1: u32, h2: u32|
                        s1.pending.dom().contains(h1) && s1.pending.dom().contains(h2)
                            && s1.pending[h1] == s1.pending[h2] implies h1 == h2 by {
                        if h1 != handle && h2 != handle {
                            assert(s.pending.dom().contains(h1) && s.pending.dom().contains(h2));
                        } else if h1 == handle && h2 != handle {
                            assert(s.pending.dom().contains(h2) && s.pending[h2] == d);
                            assert(pending_for(s, d));
                        } else if h1 != handle && h2 == handle {
                            assert(s.pending.dom().contains(h1) && s.pending[h1] == d);
                            assert(pending_for(s, d));
                        }
                    }
                }
                match d {
                    Direction::RequestPath => {},
                    Direction::ResponsePath => {},
                }
            }
        },
        Err(_) => {
            lemma_failed_slot_keeps_inv(s, d);
        },
    }
}

/// Law: consuming a completion event preserves the filter's invariant.
pub proof fn lemma_completion_preserves_inv(
    s: FilterView,
    handle: u32,
    status_code: u32,
    payload: Seq<u8>,
)
    requires
        filter_inv(s),
    ensures
        filter_inv(completion_transition(s, handle, status_code, payload).0),
{
    if s.pending.dom().contains(handle) {
        let d = s.pending[handle];
        let s1 = completion_transition(s, handle, status_code, payload).0;
        assert(s1.pending == s.pending.remove(handle));
        assert(!pending_for(s1, d)) by {
            if pending_for(s1, d) {
                let h = choose|h: u32|
                    #[trigger] s1.pending.dom().contains(h) && s1.pending[h] == d;
                assert(s.pending.dom().contains(h) && s.pending[h] == d);
                assert(h == handle);
            }
        }
        let od = other_direction(d);
        if pending_for(s, od) {
            let h = choose|h: u32| #[trigger] s.pending.dom().contains(h) && s.pending[h] == od;
            assert(h != handle);
            assert(s1.pending.dom().contains(h) && s1.pending[h] == od);
        }
        if pending_for(s1, od) {
            let h = choose|h: u32| #[trigger] s1.pending.dom().contains(h) && s1.pending[h] == od;
            assert(s.pending.dom().contains(h) && s.pending[h] == od);
        }
        assert(pending_for(s, d));
        match d {
            Direction::RequestPath => {},
            Direction::ResponsePath => {},
        }
    }
}

proof fn lemma_failed_slot_keeps_inv(s: FilterView, d: Direction)
    requires
        filter_inv(s),
        slot_of(s, d) == SlotState::Idle,
    ensures
        filter_inv(with_slot(s, d, SlotState::Failed)),
{
    match d {
        Direction::RequestPath => {},
        Direction::ResponsePath => {},
    }
}

/// Law: a successful dispatch is answered by exactly one resume of its
/// direction and exactly one terminal transition of its slot, whenever its
/// completion is delivered; the handle is consumed by that completion.
pub proof fn lemma_exactly_one_resume(
    s: FilterView,
    d: Direction,
    handle: u32,
    status_code: u32,
    payload: Seq<u8>,
)
    requires
        filter_inv(s),
        slot_of(s, d) == SlotState::Idle,
        !s.pending.dom().contains(handle),
    ensures
        ({
            let (s1, suspended) = dispatch_transition(s, d, Ok(handle));
            let (s2, effect) = completion_transition(s1, handle, status_code, payload);
            &&& suspended == DispatchOutcome::Suspend
            &&& slot_of(s1, d) == SlotState::AwaitingReply
            &&& match effect {
                CompletionEffect::Applied { direction, .. } => direction == d,
                CompletionEffect::FailedResume { direction, .. } => direction == d,
                CompletionEffect::Ignored { .. } => false,
            }
            &&& slot_of(s2, d) == SlotState::Completed || slot_of(s2, d) == SlotState::Failed
            &&& !s2.pending.dom().contains(handle)
        }),
{
    let (s1, _) = dispatch_transition(s, d, Ok(handle));
    assert(s1.pending[handle] == d);
}

/// Law: delivering a completion for a handle whose completion was already
/// consumed (or that was never live) has no effect: the state is unchanged
/// and the event is ignored. In particular a second delivery for the same
/// handle is a no-op.
pub proof fn lemma_completion_idempotent(
    s: FilterView,
    handle: u32,
    status_code1: u32,
    payload1: Seq<u8>,
    status_code2: u32,
    payload2: Seq<u8>,
)
    ensures
        ({
            let (s1, _) = completion_transition(s, handle, status_code1, payload1);
            let (s2, effect2) = completion_transition(s1, handle, status_code2, payload2);
            &&& s2 == s1
            &&& effect2 == CompletionEffect::Ignored { failure: FailureKind::UnknownHandle }
        }),
{
    let (s1, _) = completion_transition(s, handle, status_code1, payload1);
    assert(!s1.pending.dom().contains(handle));
}

/// Law: a rejected dispatch never suspends the transaction and leaves no
/// call in flight: the slot fails open and the pending map is unchanged, so
/// no completion will ever be expected or consumed for it.
pub proof fn lemma_rejected_dispatch_never_suspends(
    s: FilterView,
    d: Direction,
    error: DispatchError,
)
    ensures
        ({
            let (s1, outcome) = dispatch_transition(s, d, Err(error));
            &&& outcome == DispatchOutcome::Proceed(FailureKind::Dispatch)
            &&& slot_of(s1, d) == SlotState::Failed
            &&& s1.pending == s.pending
        }),
{
}

} // verus!
