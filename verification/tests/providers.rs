use kcard::model::{Endpoint, ProviderConfig};
use kcard::providers::{count_providers, same_provider};

fn node(chain_id: u64, trusted: bool, name: &str) -> ProviderConfig {
    ProviderConfig { chain_id, trusted, endpoint: Endpoint::Node { name: name.to_string() } }
}

fn rpc(chain_id: u64, trusted: bool, url: &str) -> ProviderConfig {
    ProviderConfig { chain_id, trusted, endpoint: Endpoint::RpcUrl { url: url.to_string() } }
}

#[test]
fn providers_are_the_same_when_every_part_agrees() {
    assert!(same_provider(&node(1, true, "a.os"), &node(1, true, "a.os")));
    assert!(same_provider(&rpc(10, false, "wss://x"), &rpc(10, false, "wss://x")));
    assert!(!same_provider(&node(1, true, "a.os"), &node(2, true, "a.os")));
    assert!(!same_provider(&node(1, true, "a.os"), &node(1, false, "a.os")));
    assert!(!same_provider(&node(1, true, "a.os"), &node(1, true, "b.os")));
    assert!(!same_provider(&node(1, true, "x"), &rpc(1, true, "x")));
    assert!(!same_provider(&rpc(1, true, "wss://x"), &rpc(1, true, "wss://y")));
}

#[test]
fn same_provider_agrees_with_equality() {
    let all = [
        node(1, true, "a.os"),
        node(1, false, "a.os"),
        node(2, true, "a.os"),
        node(1, true, ""),
        rpc(1, true, "a.os"),
        rpc(1, true, ""),
    ];
    for a in &all {
        for b in &all {
            assert_eq!(same_provider(a, b), a == b);
        }
    }
}

#[test]
fn count_of_no_provider() {
    assert_eq!(count_providers(&vec![]), 0);
}

#[test]
fn every_distinct_provider_counts_once() {
    assert_eq!(count_providers(&vec![node(1, true, "a.os")]), 1);
    assert_eq!(count_providers(&vec![node(1, true, "a.os"), node(1, true, "a.os")]), 1);
    assert_eq!(count_providers(&vec![node(1, true, "a.os"), node(1, true, "b.os")]), 2);
    assert_eq!(
        count_providers(&vec![
            node(1, true, "a.os"),
            rpc(1, true, "wss://x"),
            node(1, true, "a.os"),
            rpc(1, false, "wss://x"),
            rpc(1, true, "wss://x"),
            node(10, true, "a.os"),
        ]),
        4
    );
}

#[test]
fn providers_on_one_chain_count_each() {
    let providers = vec![rpc(1, true, "wss://x"), rpc(1, true, "wss://y"), rpc(1, true, "wss://z")];
    assert_eq!(count_providers(&providers), 3);
}
