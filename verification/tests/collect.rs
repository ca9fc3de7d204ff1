use kcard::collect::{
    garbled_failure, identity_outcome, peers_outcome, process_count_outcome, providers_outcome,
    settle, silent_failure, subscriptions_outcome, Aggregation, Collector, Facet, FailureKind,
    FetchError, Reply, Step, COLLECTOR_TIMEOUT,
};
use kcard::model::{
    Endpoint, NamingState, NodeIdentity, NodeRouting, PeerSummary, ProviderConfig, StatusSnapshot,
    SubscriptionState,
};

const ORDER: [Collector; 6] = [
    Collector::Identity,
    Collector::Peers,
    Collector::Providers,
    Collector::Subscriptions,
    Collector::ProcessCount,
    Collector::Naming,
];

fn provider(chain_id: u64) -> ProviderConfig {
    ProviderConfig { chain_id, trusted: true, endpoint: Endpoint::Node { name: "provider.os".to_string() } }
}

fn identity() -> NodeIdentity {
    NodeIdentity { networking_key: "0xkey".to_string(), routing: NodeRouting::Routed { router_count: 3 } }
}

fn sample() -> StatusSnapshot {
    StatusSnapshot {
        identity: identity(),
        peers: PeerSummary { names: vec!["a.os".to_string(), "b.os".to_string()] },
        providers: vec![provider(1)],
        subscriptions: SubscriptionState { active: vec![vec![4, 5]], outstanding: vec![9] },
        process_count: 12,
        naming: NamingState { contract_address: [7u8; 20], name_count: 5 },
    }
}

fn facet(collector: Collector, of: &StatusSnapshot) -> Facet {
    match collector {
        Collector::Identity => Facet::Identity(of.identity.clone()),
        Collector::Peers => Facet::Peers(of.peers.clone()),
        Collector::Providers => Facet::Providers(of.providers.clone()),
        Collector::Subscriptions => Facet::Subscriptions(of.subscriptions.clone()),
        Collector::ProcessCount => Facet::ProcessCount(of.process_count),
        Collector::Naming => Facet::Naming(of.naming.clone()),
    }
}

fn failure(kind: FailureKind, source: Collector, message: &str) -> FetchError {
    FetchError { kind, source, message: message.to_string() }
}

#[test]
fn collectors_wait_sixty_seconds() {
    assert_eq!(COLLECTOR_TIMEOUT, 60);
}

#[test]
fn messages_of_silent_collectors() {
    let expected = [
        "failed to get response from net (GetPeer)",
        "failed to get response from net (GetPeers)",
        "failed to get response from eth (GetProviders)",
        "failed to get response from eth (GetState)",
        "failed to get response from kernel",
        "failed to get response from kns-indexer (GetState)",
    ];
    for (collector, message) in ORDER.iter().zip(expected) {
        assert_eq!(silent_failure(*collector), failure(FailureKind::Transport, *collector, message));
    }
}

#[test]
fn messages_of_garbled_replies() {
    let expected = [
        "got malformed response from net (GetPeer)",
        "got malformed response from net (GetPeers)",
        "failed to parse eth response (GetProviders)",
        "failed to parse eth response (GetState)",
        "failed to parse kernel response",
        "failed to parse kns-indexer response (GetState)",
    ];
    for (collector, message) in ORDER.iter().zip(expected) {
        assert_eq!(
            garbled_failure(*collector, FailureKind::Parse),
            failure(FailureKind::Parse, *collector, message)
        );
        assert_eq!(
            garbled_failure(*collector, FailureKind::NotFound),
            failure(FailureKind::NotFound, *collector, message)
        );
    }
}

#[test]
fn settle_hands_content_through() {
    assert_eq!(settle(Collector::Peers, Reply::Decoded(17u8)), Ok(17u8));
    assert_eq!(
        settle::<u8>(Collector::Peers, Reply::Silent),
        Err(failure(FailureKind::Transport, Collector::Peers, "failed to get response from net (GetPeers)"))
    );
    assert_eq!(
        settle::<u8>(Collector::ProcessCount, Reply::Garbled),
        Err(failure(FailureKind::Parse, Collector::ProcessCount, "failed to parse kernel response"))
    );
}

#[test]
fn identity_found() {
    assert_eq!(identity_outcome(Reply::Decoded(Some(identity()))), Ok(Facet::Identity(identity())));
}

#[test]
fn identity_not_registered_is_not_found() {
    assert_eq!(
        identity_outcome(Reply::Decoded(None)),
        Err(failure(
            FailureKind::NotFound,
            Collector::Identity,
            "got malformed response from net (GetPeer)"
        ))
    );
}

#[test]
fn identity_without_usable_reply() {
    assert_eq!(
        identity_outcome(Reply::Silent),
        Err(failure(
            FailureKind::Transport,
            Collector::Identity,
            "failed to get response from net (GetPeer)"
        ))
    );
    assert_eq!(
        identity_outcome(Reply::Garbled),
        Err(failure(FailureKind::Parse, Collector::Identity, "got malformed response from net (GetPeer)"))
    );
}

#[test]
fn peers_outcomes() {
    let names = vec!["a.os".to_string(), "b.os".to_string()];
    assert_eq!(
        peers_outcome(Reply::Decoded(names.clone())),
        Ok(Facet::Peers(PeerSummary { names }))
    );
    assert_eq!(peers_outcome(Reply::Silent), Err(silent_failure(Collector::Peers)));
    assert_eq!(
        peers_outcome(Reply::Garbled),
        Err(garbled_failure(Collector::Peers, FailureKind::Parse))
    );
}

#[test]
fn providers_outcomes() {
    let providers = vec![provider(10), provider(1)];
    assert_eq!(providers_outcome(Reply::Decoded(providers.clone())), Ok(Facet::Providers(providers)));
    assert_eq!(providers_outcome(Reply::Silent), Err(silent_failure(Collector::Providers)));
    assert_eq!(
        providers_outcome(Reply::Garbled),
        Err(garbled_failure(Collector::Providers, FailureKind::Parse))
    );
}

#[test]
fn subscriptions_outcomes() {
    let state = SubscriptionState { active: vec![vec![1], vec![2, 3]], outstanding: vec![4] };
    assert_eq!(
        subscriptions_outcome(Reply::Decoded(state.clone())),
        Ok(Facet::Subscriptions(state))
    );
    assert_eq!(subscriptions_outcome(Reply::Silent), Err(silent_failure(Collector::Subscriptions)));
    assert_eq!(
        subscriptions_outcome(Reply::Garbled),
        Err(garbled_failure(Collector::Subscriptions, FailureKind::Parse))
    );
}

#[test]
fn process_count_is_the_size_of_the_map() {
    let processes: Vec<String> = (0..42).map(|i| format!("p{}:pkg:sys", i)).collect();
    assert_eq!(process_count_outcome(Reply::Decoded(processes)), Ok(Facet::ProcessCount(42)));
    assert_eq!(process_count_outcome(Reply::Decoded(vec![])), Ok(Facet::ProcessCount(0)));
    assert_eq!(process_count_outcome(Reply::Silent), Err(silent_failure(Collector::ProcessCount)));
    assert_eq!(
        process_count_outcome(Reply::Garbled),
        Err(garbled_failure(Collector::ProcessCount, FailureKind::Parse))
    );
}

#[test]
fn subscription_counts() {
    let state = SubscriptionState { active: vec![vec![1, 2], vec![], vec![3, 4, 5]], outstanding: vec![8, 9] };
    assert_eq!(state.active_count(), 5);
    assert_eq!(state.outstanding_count(), 2);
    let none = SubscriptionState { active: vec![], outstanding: vec![] };
    assert_eq!(none.active_count(), 0);
    assert_eq!(none.outstanding_count(), 0);
}

#[test]
fn cycle_starts_with_the_identity_collector() {
    match Aggregation::start() {
        Step::Fetch { state, collector } => {
            assert_eq!(collector, Collector::Identity);
            assert_eq!(state.identity, None);
            assert_eq!(state.naming, None);
        }
        other => panic!("unexpected step {:?}", other),
    }
}

#[test]
fn cycle_runs_the_collectors_in_order_and_ends_with_the_snapshot() {
    let snapshot = sample();
    let mut step = Aggregation::start();
    let mut asked = Vec::new();
    while let Step::Fetch { state, collector } = step {
        asked.push(collector);
        step = state.advance(Ok(facet(collector, &snapshot)));
    }
    assert_eq!(asked, ORDER.to_vec());
    assert_eq!(step, Step::Done(snapshot));
}

#[test]
fn cycle_ends_with_the_failure_of_whichever_collector_fails() {
    let snapshot = sample();
    for failing in ORDER {
        let error = silent_failure(failing);
        let mut step = Aggregation::start();
        let mut asked = Vec::new();
        while let Step::Fetch { state, collector } = step {
            asked.push(collector);
            let outcome = if collector == failing {
                Err(error.clone())
            } else {
                Ok(facet(collector, &snapshot))
            };
            step = state.advance(outcome);
        }
        assert_eq!(step, Step::Failed(error));
        assert_eq!(asked.last(), Some(&failing));
        let position = ORDER.iter().position(|c| *c == failing).unwrap();
        assert_eq!(asked, ORDER[..=position].to_vec());
    }
}

#[test]
fn cycle_keeps_a_facet_that_comes_early_and_asks_for_the_first_missing() {
    let snapshot = sample();
    let state = match Aggregation::start() {
        Step::Fetch { state, .. } => state,
        other => panic!("unexpected step {:?}", other),
    };
    match state.advance(Ok(facet(Collector::Providers, &snapshot))) {
        Step::Fetch { state, collector } => {
            assert_eq!(collector, Collector::Identity);
            assert_eq!(state.providers, Some(snapshot.providers.clone()));
            match state.advance(Ok(facet(Collector::Identity, &snapshot))) {
                Step::Fetch { collector, .. } => assert_eq!(collector, Collector::Peers),
                other => panic!("unexpected step {:?}", other),
            }
        }
        other => panic!("unexpected step {:?}", other),
    }
}

#[test]
fn proceed_of_a_full_aggregation_is_done() {
    let s = sample();
    let full = Aggregation {
        identity: Some(s.identity.clone()),
        peers: Some(s.peers.clone()),
        providers: Some(s.providers.clone()),
        subscriptions: Some(s.subscriptions.clone()),
        process_count: Some(s.process_count),
        naming: Some(s.naming.clone()),
    };
    assert_eq!(full.proceed(), Step::Done(s));
}

#[test]
fn failure_is_described_in_one_line() {
    assert_eq!(
        silent_failure(Collector::ProcessCount).describe(),
        "error fetching card data: process count collector, no response: failed to get response from kernel"
    );
    assert_eq!(
        garbled_failure(Collector::Identity, FailureKind::NotFound).describe(),
        "error fetching card data: identity collector, not found: got malformed response from net (GetPeer)"
    );
    assert_eq!(
        garbled_failure(Collector::Identity, FailureKind::Parse).describe(),
        "error fetching card data: identity collector, unreadable response: got malformed response from net (GetPeer)"
    );
    let names = ["identity", "peers", "providers", "subscriptions", "process count", "naming"];
    for (collector, name) in ORDER.iter().zip(names) {
        assert!(silent_failure(*collector)
            .describe()
            .starts_with(&format!("error fetching card data: {} collector, no response: ", name)));
    }
}
