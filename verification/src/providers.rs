//! The configured providers, counted once each.

use crate::chains::{ascending_ids, lemma_ascending_ids};
use crate::model::{
    distinct_providers, provider_chains, provider_views, Endpoint, ProviderConfig, ProviderView,
};
use vstd::prelude::*;

verus! {

/// The chain of a provider.
pub open spec fn chain_of() -> spec_fn(ProviderView) -> u64 {
    |v: ProviderView| v.chain_id
}

/// The number of distinct chains of a list of providers is the number of
/// items of their ascending listing, and the chains are those of the
/// distinct providers.
proof fn lemma_chains_of_providers(providers: Seq<ProviderConfig>)
    ensures
        ascending_ids(provider_chains(providers)).len() == provider_chains(providers).to_set().len(),
        provider_views(providers).to_set().map(chain_of()) == provider_chains(providers).to_set(),
        provider_views(providers).to_set().finite(),
{
    let chains = provider_chains(providers);
    let views = provider_views(providers);
    let list = ascending_ids(chains);
    lemma_ascending_ids(chains);
    list.unique_seq_to_set();
    assert(list.to_set() =~= chains.to_set());
    vstd::seq_lib::seq_to_set_is_finite(views);
    assert forall|c: u64| views.to_set().map(chain_of()).contains(c) <==> chains.to_set().contains(
        c,
    ) by {
        if views.to_set().map(chain_of()).contains(c) {
            let v = choose|v: ProviderView| views.to_set().contains(v) && c == chain_of()(v);
            let i = choose|i: int| 0 <= i < views.len() && views[i] == v;
            assert(chains[i] == c);
        }
        if chains.to_set().contains(c) {
            let i = choose|i: int| 0 <= i < chains.len() && chains[i] == c;
            assert(views.to_set().contains(views[i]));
            assert(chain_of()(views[i]) == c);
        }
    }
    assert(views.to_set().map(chain_of()) =~= chains.to_set());
}

/// There are at least as many distinct providers as distinct chains, and no
/// more than there are configs.
pub proof fn lemma_provider_count_bounds(providers: Seq<ProviderConfig>)
    ensures
        ascending_ids(provider_chains(providers)).len() <= distinct_providers(providers),
        distinct_providers(providers) <= providers.len(),
{
    let views = provider_views(providers);
    lemma_chains_of_providers(providers);
    vstd::set_lib::lemma_map_size_bound(
        views.to_set(),
        provider_chains(providers).to_set(),
        chain_of(),
    );
    views.lemma_cardinality_of_set();
}

/// Where no two different providers serve one chain, there are as many
/// distinct providers as distinct chains.
pub proof fn lemma_one_provider_for_each_chain(providers: Seq<ProviderConfig>)
    requires
        forall|i: int, j: int|
            0 <= i < providers.len() && 0 <= j < providers.len() && providers[i].chain_id
                == providers[j].chain_id ==> providers[i]@ == providers[j]@,
    ensures
        distinct_providers(providers) == ascending_ids(provider_chains(providers)).len(),
{
    let views = provider_views(providers);
    lemma_chains_of_providers(providers);
    assert forall|a: ProviderView, b: ProviderView|
        views.to_set().contains(a) && views.to_set().contains(b) && #[trigger] chain_of()(a)
            == #[trigger] chain_of()(b) implies a == b by {
        let i = choose|i: int| 0 <= i < views.len() && views[i] == a;
        let j = choose|j: int| 0 <= j < views.len() && views[j] == b;
        assert(providers[i].chain_id == providers[j].chain_id);
    }
    vstd::set_lib::lemma_map_size(
        views.to_set(),
        provider_chains(providers).to_set(),
        chain_of(),
    );
}

/// Two providers that differ in trust or endpoint count as two, though they
/// serve one chain.
pub proof fn lemma_two_providers_on_one_chain(a: ProviderConfig, b: ProviderConfig)
    requires
        a@ != b@,
    ensures
        distinct_providers(seq![a, b]) == 2,
{
    let views = provider_views(seq![a, b]);
    assert(views.no_duplicates());
    views.unique_seq_to_set();
}

/// Whether two configs are the same provider: the same chain, the same
/// trust, and the same endpoint.
pub fn same_provider(a: &ProviderConfig, b: &ProviderConfig) -> (r: bool)
    ensures
        r == (a@ == b@),
{
    let same_endpoint = match (&a.endpoint, &b.endpoint) {
        (Endpoint::Node { name: x }, Endpoint::Node { name: y }) => *x == *y,
        (Endpoint::RpcUrl { url: x }, Endpoint::RpcUrl { url: y }) => *x == *y,
        _ => false,
    };
    a.chain_id == b.chain_id && a.trusted == b.trusted && same_endpoint
}

/// Whether `provider` occurs among the first `n` providers of the list.
fn occurs_before(providers: &Vec<ProviderConfig>, n: usize, provider: &ProviderConfig) -> (r: bool)
    requires
        n <= providers@.len(),
    ensures
        r == provider_views(providers@).take(n as int).contains(provider@),
{
    let ghost views = provider_views(providers@).take(n as int);
    let mut j: usize = 0;
    while j < n
        invariant
            j <= n,
            n <= providers@.len(),
            views == provider_views(providers@).take(n as int),
            forall|m: int| 0 <= m < j ==> views[m] != provider@,
        decreases n - j,
    {
        if same_provider(&providers[j], provider) {
            assert(views[j as int] == provider@);
            return true;
        }
        j = j + 1;
    }
    false
}

/// Counts the distinct providers of a list.
pub fn count_providers(providers: &Vec<ProviderConfig>) -> (r: usize)
    ensures
        r == distinct_providers(providers@),
{
    let ghost views = provider_views(providers@);
    let mut count: usize = 0;
    let mut i: usize = 0;
    assert(views.take(0).to_set() =~= Set::<ProviderView>::empty());
    while i < providers.len()
        invariant
            i <= providers@.len(),
            views == provider_views(providers@),
            count <= i,
            count == views.take(i as int).to_set().len(),
        decreases providers@.len() - i,
    {
        let seen = occurs_before(providers, i, &providers[i]);
        proof {
            let before = views.take(i as int);
            assert(views.take(i as int + 1) =~= before.push(views[i as int]));
            before.lemma_push_to_set_commute(views[i as int]);
            vstd::seq_lib::seq_to_set_is_finite(before);
            vstd::set::axiom_set_insert_len(before.to_set(), views[i as int]);
        }
        if !seen {
            count = count + 1;
        }
        i = i + 1;
    }
    assert(views.take(i as int) =~= views);
    count
}

} // verus!
