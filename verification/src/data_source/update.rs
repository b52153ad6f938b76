//! The generic algorithm for bringing a data source up to date with decided leaves.

use crate::availability::{ErrorEvent, MissingBlockContext};
use vstd::prelude::*;

verus! {

/// The quorum certificate that justifies the leaf at `k` of a chain given newest first, each
/// leaf with the certificate it carries: the decide certificate for the newest leaf, and for
/// each older leaf the certificate that the next newer leaf carries.
pub open spec fn justifying_qc<L, Q>(leaf_chain: Seq<(L, Q)>, qc: Q, k: int) -> Q {
    if k == 0 {
        qc
    } else {
        leaf_chain[k - 1].1
    }
}

/// Pair each leaf of a decided chain with the certificate that justifies it, oldest leaf first.
///
/// `leaf_chain` is the decided chain, newest leaf first, each leaf with the certificate it
/// carries, which justifies its parent, the next leaf in the chain; `qc` is the certificate of
/// the decide event, which justifies the newest leaf. The certificate that the oldest leaf
/// carries justifies no leaf of the chain and is dropped.
pub fn decide_pairs<L, Q>(leaf_chain: Vec<(L, Q)>, qc: Q) -> (pairs: Vec<(L, Q)>)
    ensures
        pairs.len() == leaf_chain.len(),
        forall|k: int|
            #![trigger pairs@[k]]
            0 <= k < pairs.len() ==> {
                let m = leaf_chain.len() - 1 - k;
                &&& pairs@[k].0 == leaf_chain@[m].0
                &&& pairs@[k].1 == justifying_qc(leaf_chain@, qc, m)
            },
        pairs.len() > 0 ==> pairs@[pairs.len() - 1] == (leaf_chain@[0].0, qc),
        forall|k: int| 0 <= k < pairs.len() - 1 ==> #[trigger] pairs@[k].1 == leaf_chain@[leaf_chain.len() - 2 - k].1,
{
    let ghost chain = leaf_chain@;
    let n = leaf_chain.len();
    let mut rest = leaf_chain;
    let mut pairs: Vec<(L, Q)> = Vec::new();
    // The oldest leaf: its certificate justifies nothing in this chain.
    let mut older = match rest.pop() {
        Some((leaf, _)) => leaf,
        None => return pairs,
    };
    while rest.len() > 0
        invariant
            chain.len() == n,
            n > 0,
            rest@ == chain.take(rest.len() as int),
            older == chain[rest.len() as int].0,
            pairs.len() + rest.len() + 1 == n,
            forall|k: int|
                #![trigger pairs@[k]]
                0 <= k < pairs.len() ==> {
                    let m = n - 1 - k;
                    &&& pairs@[k].0 == chain[m].0
                    &&& pairs@[k].1 == justifying_qc(chain, qc, m)
                },
        decreases rest.len(),
    {
        let ghost before = pairs@;
        let ghost m = rest.len() as int;
        let (newer, justify) = rest.pop().unwrap();
        assert(justify == justifying_qc(chain, qc, m));
        pairs.push((older, justify));
        older = newer;
        assert(forall|k: int| 0 <= k < before.len() ==> pairs@[k] == before[k]);
    }
    pairs.push((older, qc));
    proof {
        assert(pairs@[pairs.len() - 1] == (chain[0].0, qc));
    }
    pairs
}

/// What becomes of the block of a decided leaf.
#[derive(Clone, Debug, PartialEq, Eq)]
pub enum BlockAction<B> {
    /// The payload is available: store the block.
    Insert(B),
    /// The payload is not available to this node: report it missing, so that an attached
    /// fetcher retrieves it.
    ReportMissing(ErrorEvent),
}

/// Decide what to do with the block of a decided leaf, given its payload if it could be
/// resolved and otherwise the context that identifies it.
pub fn block_action<B>(payload: Option<B>, ctx: MissingBlockContext) -> (a: BlockAction<B>)
    ensures
        match payload {
            Some(b) => a == BlockAction::Insert(b),
            None => a == BlockAction::<B>::ReportMissing(
                ErrorEvent {
                    error: crate::query_error::QueryError::Missing,
                    context: Some(crate::availability::ErrorContext::MissingBlock(ctx)),
                },
            ),
        },
{
    match payload {
        Some(b) => BlockAction::Insert(b),
        None => BlockAction::ReportMissing(ErrorEvent::missing_block(ctx)),
    }
}

} // verus!
