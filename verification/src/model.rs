//! The facets of node state that a card reports, and their mathematical views.

use vstd::prelude::*;

verus! {

/// One labelled port of a directly reachable node.
#[derive(Debug, Clone, PartialEq, Eq)]
pub struct Port {
    pub label: String,
    pub number: u16,
}

/// How a node is reached: at its own address, or through routers.
#[derive(Debug, Clone, PartialEq, Eq)]
pub enum NodeRouting {
    Direct { ip: String, ports: Vec<Port> },
    Routed { router_count: u64 },
}

/// The network identity of one node at the time it was fetched.
#[derive(Debug, Clone, PartialEq, Eq)]
pub struct NodeIdentity {
    pub networking_key: String,
    pub routing: NodeRouting,
}

/// The display names of the peers that are connected now.
#[derive(Debug, Clone, PartialEq, Eq)]
pub struct PeerSummary {
    pub names: Vec<String>,
}

/// Where a provider is reached: at a node of the network, by its name, or
/// at an RPC endpoint, by its URL.
#[derive(Debug, Clone, PartialEq, Eq)]
pub enum Endpoint {
    Node { name: String },
    RpcUrl { url: String },
}

/// One configured upstream provider: the chain it serves, whether it is
/// trusted, and where it is reached. Two configs are the same provider when
/// they agree in all three.
#[derive(Debug, Clone, PartialEq, Eq)]
pub struct ProviderConfig {
    pub chain_id: u64,
    pub trusted: bool,
    pub endpoint: Endpoint,
}

/// The active subscription handles, one list for each chain, and the
/// requests that are still unanswered.
#[derive(Debug, Clone, PartialEq, Eq)]
pub struct SubscriptionState {
    pub active: Vec<Vec<u64>>,
    pub outstanding: Vec<u64>,
}

/// What the card needs of the naming service: the contract it indexes and
/// how many names it can resolve.
#[derive(Debug, Clone, PartialEq, Eq)]
pub struct NamingState {
    pub contract_address: [u8; 20],
    pub name_count: u64,
}

/// Every facet of one refresh cycle, all of them fetched.
#[derive(Debug, Clone, PartialEq, Eq)]
pub struct StatusSnapshot {
    pub identity: NodeIdentity,
    pub peers: PeerSummary,
    pub providers: Vec<ProviderConfig>,
    pub subscriptions: SubscriptionState,
    pub process_count: u64,
    pub naming: NamingState,
}

/// A routing descriptor as the report reads it.
pub enum RoutingView {
    Direct { labels: Seq<Seq<char>> },
    Routed { router_count: nat },
}

/// An endpoint as a mathematical value.
pub enum EndpointView {
    Node { name: Seq<char> },
    RpcUrl { url: Seq<char> },
}

/// A provider config as a mathematical value.
pub struct ProviderView {
    pub chain_id: u64,
    pub trusted: bool,
    pub endpoint: EndpointView,
}

/// A snapshot as the report reads it.
pub struct SnapshotView {
    pub process_count: nat,
    pub networking_key: Seq<char>,
    pub routing: RoutingView,
    /// The number of distinct providers.
    pub provider_count: nat,
    /// The chain of each provider, in the order of the providers.
    pub chain_ids: Seq<u64>,
    pub subscription_count: nat,
    pub peer_count: nat,
    pub name_count: nat,
    pub contract_address: Seq<u8>,
}

/// The labels of a list of ports, in the order of the list.
pub open spec fn port_labels(ports: Seq<Port>) -> Seq<Seq<char>> {
    Seq::new(ports.len(), |i: int| ports[i].label@)
}

/// The chain of each provider, in the order of the list.
pub open spec fn provider_chains(providers: Seq<ProviderConfig>) -> Seq<u64> {
    Seq::new(providers.len(), |i: int| providers[i].chain_id)
}

/// The view of each provider, in the order of the list.
pub open spec fn provider_views(providers: Seq<ProviderConfig>) -> Seq<ProviderView> {
    Seq::new(providers.len(), |i: int| providers[i]@)
}

/// The number of distinct providers of a list: configs that agree in chain,
/// trust and endpoint count once, however often they occur.
pub open spec fn distinct_providers(providers: Seq<ProviderConfig>) -> nat {
    provider_views(providers).to_set().len()
}

impl View for Endpoint {
    type V = EndpointView;

    open spec fn view(&self) -> EndpointView {
        match self {
            Endpoint::Node { name } => EndpointView::Node { name: name@ },
            Endpoint::RpcUrl { url } => EndpointView::RpcUrl { url: url@ },
        }
    }
}

impl View for ProviderConfig {
    type V = ProviderView;

    open spec fn view(&self) -> ProviderView {
        ProviderView { chain_id: self.chain_id, trusted: self.trusted, endpoint: self.endpoint@ }
    }
}

/// The number of handles in the first `n` lists of `active`.
pub open spec fn handles_in(active: Seq<Vec<u64>>, n: int) -> nat
    decreases n,
{
    if n <= 0 {
        0
    } else {
        handles_in(active, n - 1) + active[n - 1]@.len()
    }
}

impl View for NodeRouting {
    type V = RoutingView;

    open spec fn view(&self) -> RoutingView {
        match self {
            NodeRouting::Direct { ip, ports } => RoutingView::Direct { labels: port_labels(ports@) },
            NodeRouting::Routed { router_count } => RoutingView::Routed {
                router_count: *router_count as nat,
            },
        }
    }
}

impl SubscriptionState {
    /// The number of active subscription handles over all chains.
    pub open spec fn total(&self) -> nat {
        handles_in(self.active@, self.active@.len() as int)
    }

    /// Counts the active subscription handles over all chains.
    pub fn active_count(&self) -> (r: u128)
        ensures
            r == self.total(),
    {
        let mut total: u128 = 0;
        let mut i: usize = 0;
        while i < self.active.len()
            invariant
                i <= self.active@.len(),
                total == handles_in(self.active@, i as int),
                total <= i * 0x1_0000_0000_0000_0000,
            decreases self.active@.len() - i,
        {
            let n: usize = self.active[i].len();
            assert(i * 0x1_0000_0000_0000_0000 + n <= (i + 1) * 0x1_0000_0000_0000_0000)
                by (nonlinear_arith)
                requires
                    n < 0x1_0000_0000_0000_0000,
            ;
            assert((i + 1) * 0x1_0000_0000_0000_0000 <= 0x1_0000_0000_0000_0000
                * 0x1_0000_0000_0000_0000) by (nonlinear_arith)
                requires
                    i + 1 <= 0x1_0000_0000_0000_0000,
            ;
            total = total + n as u128;
            i = i + 1;
        }
        total
    }

    /// Counts the requests that are still unanswered.
    pub fn outstanding_count(&self) -> (r: usize)
        ensures
            r == self.outstanding@.len(),
    {
        self.outstanding.len()
    }
}

impl View for StatusSnapshot {
    type V = SnapshotView;

    open spec fn view(&self) -> SnapshotView {
        SnapshotView {
            process_count: self.process_count as nat,
            networking_key: self.identity.networking_key@,
            routing: self.identity.routing@,
            provider_count: distinct_providers(self.providers@),
            chain_ids: provider_chains(self.providers@),
            subscription_count: self.subscriptions.total(),
            peer_count: self.peers.names@.len(),
            name_count: self.naming.name_count as nat,
            contract_address: self.naming.contract_address@,
        }
    }
}

} // verus!
