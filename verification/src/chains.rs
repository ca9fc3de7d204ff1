//! The chains that the configured providers serve: each once, smallest first.

use crate::ascending::{
    ascending_distinct, is_listing, lemma_ascending_distinct, lemma_listing_insert,
    lemma_listing_is_ascending_distinct, lemma_listing_present, strict_order,
};
use crate::model::{provider_chains, ProviderConfig};
use vstd::prelude::*;

verus! {

/// The numeric order of chain identifiers.
pub open spec fn id_order() -> spec_fn(u64, u64) -> bool {
    |a: u64, b: u64| a < b
}

/// The distinct chain identifiers of `ids` in ascending numeric order.
pub open spec fn ascending_ids(ids: Seq<u64>) -> Seq<u64> {
    ascending_distinct(ids, id_order())
}

/// The numeric order is a strict total order.
pub proof fn lemma_id_order()
    ensures
        strict_order(id_order()),
{
}

/// Whatever chains the providers name, and however often, the listing holds
/// each of them exactly once, in ascending numeric order, and no other.
pub proof fn lemma_ascending_ids(ids: Seq<u64>)
    ensures
        forall|i: int, j: int|
            0 <= i < j < ascending_ids(ids).len() ==> ascending_ids(ids)[i] < ascending_ids(ids)[j],
        forall|x: u64| ascending_ids(ids).contains(x) <==> ids.contains(x),
        ascending_ids(ids).no_duplicates(),
{
    lemma_id_order();
    lemma_ascending_distinct(ids, id_order());
    let list = ascending_ids(ids);
    assert forall|i: int, j: int| 0 <= i < j < list.len() implies list[i] < list[j] by {
        assert(id_order()(list[i], list[j]));
    }
}

/// Lists the chains of the providers, each once, in ascending numeric order.
pub fn distinct_chain_ids(providers: &Vec<ProviderConfig>) -> (ids: Vec<u64>)
    ensures
        ids@ == ascending_ids(provider_chains(providers@)),
{
    let ghost chains = provider_chains(providers@);
    let mut out: Vec<u64> = Vec::new();
    let mut i: usize = 0;
    proof {
        lemma_id_order();
    }
    while i < providers.len()
        invariant
            i <= providers@.len(),
            chains == provider_chains(providers@),
            strict_order(id_order()),
            is_listing(out@, chains.take(i as int), id_order()),
        decreases providers@.len() - i,
    {
        let id: u64 = providers[i].chain_id;
        let mut k: usize = 0;
        while k < out.len() && out[k] < id
            invariant
                k <= out@.len(),
                forall|m: int| 0 <= m < k ==> out@[m] < id,
            decreases out@.len() - k,
        {
            k = k + 1;
        }
        proof {
            assert(chains.take(i as int + 1) =~= chains.take(i as int).push(id));
            assert forall|m: int| 0 <= m < k implies #[trigger] id_order()(out@[m], id) by {}
        }
        if k < out.len() && out[k] == id {
            proof {
                lemma_listing_present(out@, chains.take(i as int), id, k as int, id_order());
            }
        } else {
            proof {
                lemma_listing_insert(out@, chains.take(i as int), id, k as int, id_order());
            }
            out.insert(k, id);
        }
        i = i + 1;
    }
    proof {
        assert(chains.take(i as int) =~= chains);
        lemma_listing_is_ascending_distinct(out@, chains, id_order());
    }
    out
}

} // verus!
