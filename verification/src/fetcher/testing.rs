//! A switch for tests: hold fetch requests back until released.

use vstd::prelude::*;

verus! {

/// An operation on a [`FetchGate`]: blocking it, unblocking it, or a request that starts.
#[derive(Clone, Copy, Debug, PartialEq, Eq, Structural)]
pub enum GateOp {
    Block,
    Unblock,
    Request,
}

/// Whether a gate that is `blocked` is blocked after `op`.
pub open spec fn gate_next(blocked: bool, op: GateOp) -> bool {
    match op {
        GateOp::Block => true,
        GateOp::Unblock => false,
        GateOp::Request => blocked,
    }
}

/// Whether `op` on a gate that is `blocked` releases the requests held back.
pub open spec fn gate_releases(blocked: bool, op: GateOp) -> bool {
    op == GateOp::Unblock && blocked
}

/// The position in `ops` of the first operation that releases the held-back requests, on a
/// gate that starts `blocked`.
pub open spec fn release_index(blocked: bool, ops: Seq<GateOp>) -> Option<nat>
    decreases ops.len(),
{
    if ops.len() == 0 {
        None
    } else if gate_releases(blocked, ops[0]) {
        Some(0)
    } else {
        match release_index(gate_next(blocked, ops[0]), ops.drop_first()) {
            Some(k) => Some(k + 1),
            None => None,
        }
    }
}

/// The position of the first unblock in `ops`.
pub open spec fn first_unblock(ops: Seq<GateOp>) -> Option<nat>
    decreases ops.len(),
{
    if ops.len() == 0 {
        None
    } else if ops[0] == GateOp::Unblock {
        Some(0)
    } else {
        match first_unblock(ops.drop_first()) {
            Some(k) => Some(k + 1),
            None => None,
        }
    }
}

/// Whether a request that starts on a gate that is `blocked` waits for a release.
pub open spec fn request_waits(blocked: bool) -> bool {
    blocked
}

/// A request that starts while nothing is held back goes on at once. One that starts while
/// requests are held back waits, and the first unblock after it releases it: blocks and other
/// requests in between neither release it nor lose it, and without a later unblock it waits
/// for ever.
pub proof fn lemma_held_requests_wait_for_next_unblock(blocked: bool, later: Seq<GateOp>)
    ensures
        request_waits(blocked) == blocked,
        blocked ==> (release_index(gate_next(blocked, GateOp::Request), later) == first_unblock(later)),
    decreases later.len(),
{
    if blocked && later.len() > 0 {
        lemma_held_requests_wait_for_next_unblock(
            gate_next(blocked, later[0]),
            later.drop_first(),
        );
    }
}

/// Whether fetch requests are held back.
///
/// While blocked, each fetch request that starts waits for the next release before it is
/// passed on to the underlying fetcher.
#[derive(Clone, Copy, Debug, PartialEq, Eq, Structural)]
pub struct FetchGate {
    blocked: bool,
}

impl FetchGate {
    /// Whether requests are held back.
    pub closed spec fn is_blocked(&self) -> bool {
        self.blocked
    }

    /// A gate that lets every request through.
    pub fn new() -> (g: FetchGate)
        ensures
            !g.is_blocked(),
    {
        FetchGate { blocked: false }
    }

    /// Hold back the requests that start from now on, until [`unblock`](Self::unblock).
    pub fn block(&mut self)
        ensures
            final(self).is_blocked(),
            final(self).is_blocked() == gate_next(old(self).is_blocked(), GateOp::Block),
    {
        self.blocked = true;
    }

    /// Let waiting requests proceed. The result tells whether any were held back: it is the
    /// blocking state before the call.
    pub fn unblock(&mut self) -> (released: bool)
        ensures
            released == old(self).is_blocked(),
            !final(self).is_blocked(),
            released == gate_releases(old(self).is_blocked(), GateOp::Unblock),
            final(self).is_blocked() == gate_next(old(self).is_blocked(), GateOp::Unblock),
    {
        let released = self.blocked;
        self.blocked = false;
        released
    }

    /// Whether a request starting now must wait for a release.
    pub fn must_wait(&self) -> (r: bool)
        ensures
            r == self.is_blocked(),
            r == request_waits(self.is_blocked()),
    {
        self.blocked
    }
}

} // verus!
