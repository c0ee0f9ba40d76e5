//! Facts that relate the operations of the container to one another, stated
//! over the views that their contracts use.

use crate::error::{attached, leaf_chain, FailureView};
use vstd::prelude::*;

verus! {

/// The chain that attaching the messages of `contexts` one after another, the
/// first one first, gives over `chain`.
pub open spec fn attached_all(chain: Seq<FailureView>, contexts: Seq<Seq<char>>) -> Seq<
    FailureView,
>
    decreases contexts.len(),
{
    if contexts.len() == 0 {
        chain
    } else {
        attached(attached_all(chain, contexts.drop_last()), contexts.last())
    }
}

/// A container made from one failure has a chain of exactly one item, which
/// displays as that failure does.
pub proof fn lemma_leaf_chain_single(v: FailureView)
    ensures
        leaf_chain(v).len() == 1,
        leaf_chain(v)[0].display == v.display,
        leaf_chain(v)[0] == v,
{
}

/// Attaching a context message puts one layer in front of the chain, which
/// displays as that message, and keeps every earlier layer behind it in its
/// order.
pub proof fn lemma_attached_prepends(chain: Seq<FailureView>, context: Seq<char>)
    requires
        chain.len() >= 1,
    ensures
        attached(chain, context).len() == chain.len() + 1,
        attached(chain, context)[0].display == context,
        attached(chain, context).drop_first() == chain,
{
    assert(attached(chain, context).drop_first() =~= chain);
}

/// After `n` context messages over a single failure the chain has `n + 1`
/// items: the messages, the last one first, and then the failure.
pub proof fn lemma_attached_all_len(leaf: FailureView, contexts: Seq<Seq<char>>)
    ensures
        attached_all(leaf_chain(leaf), contexts).len() == contexts.len() + 1,
        attached_all(leaf_chain(leaf), contexts).last() == leaf,
        forall|i: int|
            0 <= i < contexts.len() ==> #[trigger] attached_all(leaf_chain(leaf), contexts)[i].display
                == contexts[contexts.len() - 1 - i],
    decreases contexts.len(),
{
    if contexts.len() > 0 {
        let rest = contexts.drop_last();
        lemma_attached_all_len(leaf, rest);
        let inner = attached_all(leaf_chain(leaf), rest);
        lemma_attached_prepends(inner, contexts.last());
        assert forall|i: int| 0 <= i < contexts.len() implies #[trigger] attached_all(
            leaf_chain(leaf),
            contexts,
        )[i].display == contexts[contexts.len() - 1 - i] by {
            if i > 0 {
                assert(attached_all(leaf_chain(leaf), contexts)[i] == inner[i - 1]);
                assert(rest[rest.len() - 1 - (i - 1)] == contexts[contexts.len() - 1 - i]);
            }
        }
    }
}

} // verus!
