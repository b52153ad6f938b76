//! A channel with versioning.
//!
//! Sending a message only buffers it in the sender. Only when [`VersionedChannel::commit`] is
//! called are all buffered messages delivered, in the order they were sent;
//! [`VersionedChannel::revert`] drops all buffered messages without ever delivering them.

use vstd::prelude::*;

verus! {

/// The sending end of a channel with versioning: the messages sent since the last commit or
/// revert.
#[derive(Debug)]
pub struct VersionedChannel<T> {
    pending: Vec<T>,
}

impl<T> View for VersionedChannel<T> {
    type V = Seq<T>;

    /// The messages sent since the last commit or revert, oldest first.
    closed spec fn view(&self) -> Seq<T> {
        self.pending@
    }
}

/// An operation on a channel with versioning.
#[derive(Clone, Copy, Debug, PartialEq, Eq)]
pub enum ChannelOp<T> {
    Send(T),
    Commit,
    Revert,
}

/// The pending messages and the delivered messages after one operation on a channel whose
/// pending messages are `pending`.
pub open spec fn channel_step<T>(pending: Seq<T>, op: ChannelOp<T>) -> (Seq<T>, Seq<T>) {
    match op {
        ChannelOp::Send(m) => (pending.push(m), Seq::empty()),
        ChannelOp::Commit => (Seq::empty(), pending),
        ChannelOp::Revert => (Seq::empty(), Seq::empty()),
    }
}

/// The pending messages and all the messages delivered after running `ops`, in order, on a
/// channel whose pending messages are `pending`.
pub open spec fn run_ops<T>(pending: Seq<T>, ops: Seq<ChannelOp<T>>) -> (Seq<T>, Seq<T>)
    decreases ops.len(),
{
    if ops.len() == 0 {
        (pending, Seq::empty())
    } else {
        let first = channel_step(pending, ops[0]);
        let rest = run_ops(first.0, ops.drop_first());
        (rest.0, first.1 + rest.1)
    }
}

/// Whether the first commit or revert in `ops` exists and is a commit.
pub open spec fn settles_by_commit<T>(ops: Seq<ChannelOp<T>>) -> bool
    decreases ops.len(),
{
    if ops.len() == 0 {
        false
    } else {
        match ops[0] {
            ChannelOp::Send(_) => settles_by_commit(ops.drop_first()),
            ChannelOp::Commit => true,
            ChannelOp::Revert => false,
        }
    }
}

/// The messages sent in `ops` whose first following commit or revert is a commit, in the order
/// they were sent.
pub open spec fn committed_messages<T>(ops: Seq<ChannelOp<T>>) -> Seq<T>
    decreases ops.len(),
{
    if ops.len() == 0 {
        Seq::empty()
    } else {
        match ops[0] {
            ChannelOp::Send(m) => if settles_by_commit(ops.drop_first()) {
                seq![m] + committed_messages(ops.drop_first())
            } else {
                committed_messages(ops.drop_first())
            },
            _ => committed_messages(ops.drop_first()),
        }
    }
}

impl<T> VersionedChannel<T> {
    /// A channel with nothing pending.
    pub fn init() -> (c: VersionedChannel<T>)
        ensures
            c@ == Seq::<T>::empty(),
    {
        VersionedChannel { pending: Vec::new() }
    }

    /// Tentatively send a message: it is delivered at the next commit, unless reverted first.
    pub fn send(&mut self, msg: T)
        ensures
            final(self)@ == old(self)@.push(msg),
            final(self)@ == channel_step(old(self)@, ChannelOp::Send(msg)).0,
    {
        self.pending.push(msg);
    }

    /// Commit to the pending messages: hand out, for delivery to the receivers, every message
    /// sent since the last commit or revert, oldest first.
    pub fn commit(&mut self) -> (delivered: Vec<T>)
        ensures
            delivered@ == old(self)@,
            final(self)@ == Seq::<T>::empty(),
            (final(self)@, delivered@) == channel_step(old(self)@, ChannelOp::<T>::Commit),
    {
        let mut delivered: Vec<T> = Vec::new();
        std::mem::swap(&mut delivered, &mut self.pending);
        delivered
    }

    /// Drop the pending messages: none of them is ever delivered.
    pub fn revert(&mut self)
        ensures
            final(self)@ == Seq::<T>::empty(),
            final(self)@ == channel_step(old(self)@, ChannelOp::<T>::Revert).0,
    {
        self.pending.clear();
    }

    /// The number of messages waiting for a commit.
    pub fn pending_len(&self) -> (n: usize)
        ensures
            n == self@.len(),
    {
        self.pending.len()
    }
}

/// Messages are delivered exactly when they are committed: running any sequence of
/// operations delivers the messages that were pending if the first settling operation is a
/// commit, followed by every message sent in the sequence whose first following commit or revert
/// is a commit, in the order they were sent. Messages followed by a revert, or by nothing, are
/// never delivered.
pub proof fn lemma_delivers_exactly_committed<T>(pending: Seq<T>, ops: Seq<ChannelOp<T>>)
    ensures
        run_ops(pending, ops).1 == (if settles_by_commit(ops) {
            pending
        } else {
            Seq::<T>::empty()
        }) + committed_messages(ops),
    decreases ops.len(),
{
    if ops.len() == 0 {
        assert(Seq::<T>::empty() + Seq::<T>::empty() =~= Seq::<T>::empty());
    } else {
        let rest = ops.drop_first();
        let first = channel_step(pending, ops[0]);
        lemma_delivers_exactly_committed(first.0, rest);
        match ops[0] {
            ChannelOp::Send(m) => {
                if settles_by_commit(rest) {
                    assert(Seq::<T>::empty() + (pending.push(m) + committed_messages(rest))
                        =~= pending + (seq![m] + committed_messages(rest)));
                } else {
                    assert(Seq::<T>::empty() + (Seq::<T>::empty() + committed_messages(rest))
                        =~= Seq::<T>::empty() + committed_messages(rest));
                }
            },
            ChannelOp::Commit => {
                assert(Seq::<T>::empty() + committed_messages(rest) =~= committed_messages(rest));
            },
            ChannelOp::Revert => {
                assert(Seq::<T>::empty() + (Seq::<T>::empty() + committed_messages(rest))
                    =~= Seq::<T>::empty() + committed_messages(rest));
            },
        }
    }
}

/// Sending `msgs` on a channel with nothing pending and then committing delivers `msgs`, in the
/// order they were sent.
pub proof fn lemma_commit_after_sends<T>(msgs: Seq<T>)
    ensures
        run_ops(
            Seq::<T>::empty(),
            msgs.map_values(|m: T| ChannelOp::Send(m)).push(ChannelOp::Commit),
        ).1 == msgs,
    decreases msgs.len(),
{
    let ops = msgs.map_values(|m: T| ChannelOp::Send(m)).push(ChannelOp::Commit);
    lemma_delivers_exactly_committed(Seq::<T>::empty(), ops);
    lemma_sends_then_commit_committed(msgs);
    assert(Seq::<T>::empty() + msgs =~= msgs);
}

proof fn lemma_sends_then_commit_committed<T>(msgs: Seq<T>)
    ensures
        settles_by_commit(msgs.map_values(|m: T| ChannelOp::Send(m)).push(ChannelOp::Commit)),
        committed_messages(msgs.map_values(|m: T| ChannelOp::Send(m)).push(ChannelOp::Commit))
            == msgs,
    decreases msgs.len(),
{
    let ops = msgs.map_values(|m: T| ChannelOp::Send(m)).push(ChannelOp::Commit);
    if msgs.len() == 0 {
        assert(ops.drop_first() =~= Seq::<ChannelOp<T>>::empty());
        assert(committed_messages(ops.drop_first()) =~= Seq::<T>::empty());
    } else {
        let rest = msgs.drop_first();
        lemma_sends_then_commit_committed(rest);
        assert(ops.drop_first() =~= rest.map_values(|m: T| ChannelOp::Send(m)).push(
            ChannelOp::Commit,
        ));
        assert(ops[0] == ChannelOp::Send(msgs[0]));
        assert(seq![msgs[0]] + rest =~= msgs);
    }
}

} // verus!
