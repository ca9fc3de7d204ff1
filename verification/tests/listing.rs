use kcard::chains::distinct_chain_ids;
use kcard::labels::{rank_labels, sorted_labels, Rank};
use kcard::model::{Endpoint, Port, ProviderConfig};

fn providers(ids: &[u64]) -> Vec<ProviderConfig> {
    ids.iter()
        .map(|id| ProviderConfig {
            chain_id: *id,
            trusted: id % 2 == 0,
            endpoint: Endpoint::RpcUrl { url: format!("wss://{}.example", id % 3) },
        })
        .collect()
}

fn ports(labels: &[&str]) -> Vec<Port> {
    labels.iter().map(|l| Port { label: l.to_string(), number: 1 }).collect()
}

#[test]
fn chain_ids_of_no_provider() {
    assert_eq!(distinct_chain_ids(&providers(&[])), Vec::<u64>::new());
}

#[test]
fn chain_ids_each_once_in_ascending_order() {
    assert_eq!(distinct_chain_ids(&providers(&[1, 10, 1])), vec![1, 10]);
    assert_eq!(distinct_chain_ids(&providers(&[10, 8453, 1, 10, 1, 8453, 2])), vec![1, 2, 10, 8453]);
    assert_eq!(distinct_chain_ids(&providers(&[5, 5, 5])), vec![5]);
    assert_eq!(distinct_chain_ids(&providers(&[u64::MAX, 0])), vec![0, u64::MAX]);
}

#[test]
fn chain_ids_are_ordered_as_numbers_not_as_text() {
    assert_eq!(distinct_chain_ids(&providers(&[100, 9, 31337])), vec![9, 100, 31337]);
}

#[test]
fn chain_ids_do_not_depend_on_the_order_of_providers() {
    let one = distinct_chain_ids(&providers(&[3, 1, 2, 3]));
    let other = distinct_chain_ids(&providers(&[2, 3, 3, 1, 1]));
    assert_eq!(one, other);
}

#[test]
fn rank_of_labels() {
    assert_eq!(rank_labels("tcp", "ws"), Rank::Before);
    assert_eq!(rank_labels("ws", "tcp"), Rank::After);
    assert_eq!(rank_labels("ws", "ws"), Rank::Same);
    assert_eq!(rank_labels("", ""), Rank::Same);
    assert_eq!(rank_labels("", "a"), Rank::Before);
    assert_eq!(rank_labels("a", ""), Rank::After);
    assert_eq!(rank_labels("ws", "wss"), Rank::Before);
    assert_eq!(rank_labels("wss", "ws"), Rank::After);
    assert_eq!(rank_labels("Z", "a"), Rank::Before);
}

#[test]
fn rank_of_labels_agrees_with_str() {
    let samples = ["", "a", "ab", "b", "B", "é", "z", "日本", "a\u{10000}", "a\u{ffff}", "tcp", "ws"];
    for a in samples {
        for b in samples {
            let expected = match a.cmp(b) {
                std::cmp::Ordering::Less => Rank::Before,
                std::cmp::Ordering::Equal => Rank::Same,
                std::cmp::Ordering::Greater => Rank::After,
            };
            assert_eq!(rank_labels(a, b), expected, "{:?} and {:?}", a, b);
        }
    }
}

#[test]
fn labels_each_once_in_ascending_order() {
    assert_eq!(sorted_labels(&ports(&[])), Vec::<String>::new());
    assert_eq!(sorted_labels(&ports(&["ws", "tcp"])), vec!["tcp", "ws"]);
    assert_eq!(sorted_labels(&ports(&["ws", "tcp", "ws", "flat", "tcp"])), vec!["flat", "tcp", "ws"]);
    assert_eq!(sorted_labels(&ports(&["b", "", "a"])), vec!["", "a", "b"]);
}
