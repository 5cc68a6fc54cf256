//! The transaction context store: the record of the calls in flight for one
//! transaction, keyed by the correlation handle the transport returned.
//!
//! The store owns each `TransactionContext` from the moment a dispatch
//! succeeds until its completion is consumed, and holds at most one live
//! handle per direction, which is what makes a resume deliverable at most
//! once per outstanding call.

use vstd::prelude::*;

use crate::codec::Direction;

verus! {

/// Whether some live handle in `m` is recorded with direction `d`.
pub open spec fn map_has_dir(m: Map<u32, Direction>, d: Direction) -> bool {
    exists|h: u32| #[trigger] m.dom().contains(h) && m[h] == d
}

/// Whether no two live handles in `m` are recorded with the same direction.
pub open spec fn map_dirs_unique(m: Map<u32, Direction>) -> bool {
    forall|h1: u32, h2: u32|
        m.dom().contains(h1) && m.dom().contains(h2) && m[h1] == m[h2] ==> h1 == h2
}

/// What is recorded for a call in flight: the direction whose completion is
/// awaited.
#[derive(Clone, Copy, PartialEq, Eq, Debug, Structural)]
pub struct TransactionContext {
    pub direction: Direction,
}

/// Maps each live correlation handle to the context recorded when its call
/// was dispatched. At most one live handle exists per direction.
pub struct ContextStore {
    request_handle: Option<u32>,
    response_handle: Option<u32>,
}

impl View for ContextStore {
    type V = Map<u32, Direction>;

    closed spec fn view(&self) -> Map<u32, Direction> {
        let m = Map::<u32, Direction>::empty();
        let m = match self.request_handle {
            Some(h) => m.insert(h, Direction::RequestPath),
            None => m,
        };
        match self.response_handle {
            Some(h) => m.insert(h, Direction::ResponsePath),
            None => m,
        }
    }
}

impl ContextStore {
    /// Two live handles never collide.
    pub closed spec fn wf(self) -> bool {
        match (self.request_handle, self.response_handle) {
            (Some(a), Some(b)) => a != b,
            _ => true,
        }
    }

    /// Whether a call is in flight for `d`.
    pub closed spec fn pending_dir(self, d: Direction) -> bool {
        match d {
            Direction::RequestPath => self.request_handle is Some,
            Direction::ResponsePath => self.response_handle is Some,
        }
    }

    /// A call is in flight for `d` exactly when some live handle is recorded
    /// with direction `d`.
    pub proof fn lemma_pending_dir(self, d: Direction)
        requires
            self.wf(),
        ensures
            self.pending_dir(d) <==> map_has_dir(self@, d),
    {
        if self.pending_dir(d) {
            match d {
                Direction::RequestPath => {
                    let h = self.request_handle->0;
                    assert(self@.dom().contains(h) && self@[h] == d);
                },
                Direction::ResponsePath => {
                    let h = self.response_handle->0;
                    assert(self@.dom().contains(h) && self@[h] == d);
                },
            }
        }
    }

    /// Two live handles recorded with the same direction are the same handle.
    pub proof fn lemma_directions_unique(self)
        requires
            self.wf(),
        ensures
            map_dirs_unique(self@),
    {
    }

    /// An empty store: nothing in flight.
    pub fn new() -> (r: ContextStore)
        ensures
            r.wf(),
            r@ == Map::<u32, Direction>::empty(),
            forall|d: Direction| !r.pending_dir(d),
    {
        ContextStore { request_handle: None, response_handle: None }
    }

    /// Whether `handle` is live.
    pub fn contains(&self, handle: u32) -> (r: bool)
        ensures
            r == self@.dom().contains(handle),
    {
        let in_request = match self.request_handle {
            Some(h) => h == handle,
            None => false,
        };
        let in_response = match self.response_handle {
            Some(h) => h == handle,
            None => false,
        };
        in_request || in_response
    }

    /// Records the context for a freshly dispatched call under its handle.
    pub fn insert(&mut self, handle: u32, context: TransactionContext)
        requires
            old(self).wf(),
            !old(self).pending_dir(context.direction),
            !old(self)@.dom().contains(handle),
        ensures
            final(self).wf(),
            final(self)@ == old(self)@.insert(handle, context.direction),
            final(self).pending_dir(context.direction),
            forall|d: Direction|
                d != context.direction
                    ==> (final(self).pending_dir(d) <==> old(self).pending_dir(d)),
    {
        match context.direction {
            Direction::RequestPath => {
                self.request_handle = Some(handle);
            },
            Direction::ResponsePath => {
                self.response_handle = Some(handle);
            },
        }
        proof {
            assert(final(self)@ =~= old(self)@.insert(handle, context.direction));
        }
    }

    /// Looks up and removes the context for `handle`; `None` means the handle
    /// is unknown or its completion was already consumed, and nothing changes.
    pub fn take(&mut self, handle: u32) -> (r: Option<TransactionContext>)
        requires
            old(self).wf(),
        ensures
            final(self).wf(),
            match r {
                Some(context) => {
                    &&& old(self)@.dom().contains(handle)
                    &&& context.direction == old(self)@[handle]
                    &&& final(self)@ == old(self)@.remove(handle)
                    &&& !final(self).pending_dir(context.direction)
                    &&& forall|d: Direction|
                        d != context.direction
                            ==> (final(self).pending_dir(d) <==> old(self).pending_dir(d))
                },
                None => {
                    &&& !old(self)@.dom().contains(handle)
                    &&& *final(self) == *old(self)
                },
            },
    {
        let in_request = match self.request_handle {
            Some(h) => h == handle,
            None => false,
        };
        if in_request {
            self.request_handle = None;
            proof {
                assert(final(self)@ =~= old(self)@.remove(handle));
            }
            return Some(TransactionContext { direction: Direction::RequestPath });
        }
        let in_response = match self.response_handle {
            Some(h) => h == handle,
            None => false,
        };
        if in_response {
            self.response_handle = None;
            proof {
                assert(final(self)@ =~= old(self)@.remove(handle));
            }
            return Some(TransactionContext { direction: Direction::ResponsePath });
        }
        None
    }
}

} // verus!
