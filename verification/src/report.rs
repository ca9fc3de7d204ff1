//! The canonical text report of a status snapshot.

use crate::address::{address_string, address_text};
use crate::chains::{ascending_ids, distinct_chain_ids};
use crate::labels::{ascending_labels, sorted_labels};
use crate::model::{NodeRouting, RoutingView, SnapshotView, StatusSnapshot};
use crate::providers::count_providers;
use crate::text::{append_decimal, decimal, texts};
use vstd::prelude::*;
use vstd::string::StringExecFns;

verus! {

/// The pieces of `parts` with `sep` between each two neighbours.
pub open spec fn join(parts: Seq<Seq<char>>, sep: Seq<char>) -> Seq<char>
    decreases parts.len(),
{
    if parts.len() == 0 {
        Seq::empty()
    } else if parts.len() == 1 {
        parts[0]
    } else {
        join(parts.drop_last(), sep) + sep + parts.last()
    }
}

/// The decimal numeral of each identifier of a list.
pub open spec fn numerals(ids: Seq<u64>) -> Seq<Seq<char>> {
    Seq::new(ids.len(), |i: int| decimal(ids[i] as nat))
}

/// How the report describes a routing descriptor.
pub open spec fn routing_text(routing: RoutingView) -> Seq<char> {
    match routing {
        RoutingView::Direct { labels } => "direct routing on "@ + join(
            ascending_labels(labels),
            ", "@,
        ),
        RoutingView::Routed { router_count } => "indirect routing using "@ + decimal(router_count)
            + " routers"@,
    }
}

/// The first four lines of the report: the process count, the networking key
/// and the routing description, each at its place.
pub open spec fn identity_lines(s: SnapshotView) -> Seq<char> {
    "...is running "@ + decimal(s.process_count) + " processes\n...using public key\n   "@
        + s.networking_key + "\n...with "@ + routing_text(s.routing) + "\n"@
}

/// The rest of the report: the number of distinct providers and the chains
/// they serve, subscriptions, peers, known names and the contract address.
pub open spec fn service_lines(s: SnapshotView) -> Seq<char> {
    "...with "@ + decimal(s.provider_count) + " eth providers\n   for chain IDs "@
        + join(numerals(ascending_ids(s.chain_ids)), ",\n                 "@) + "\n...and has "@
        + decimal(s.subscription_count) + " active eth subscriptions.\n\nconnected to "@ + decimal(
        s.peer_count,
    ) + " peers out of "@ + decimal(s.name_count) + " known\nfrom kimap "@ + address_text(
        s.contract_address,
    ) + "\n"@
}

/// The report of a snapshot.
pub open spec fn report_text(s: SnapshotView) -> Seq<char> {
    identity_lines(s) + service_lines(s)
}

/// For every snapshot the report begins with the process count, the
/// networking key and the routing description, word for word, each at its
/// place in the first four lines.
pub proof fn lemma_report_begins_with_identity(s: SnapshotView)
    ensures
        ("...is running "@ + decimal(s.process_count)
            + " processes\n...using public key\n   "@ + s.networking_key + "\n...with "@
            + routing_text(s.routing) + "\n"@).is_prefix_of(report_text(s)),
{
    assert(report_text(s).subrange(0, identity_lines(s).len() as int) =~= identity_lines(s));
}

/// Two reports written of one snapshot are the same text, character by
/// character and byte by byte.
pub proof fn lemma_report_repeatable(snapshot: StatusSnapshot, first: String, second: String)
    requires
        first@ == report_text(snapshot@),
        second@ == report_text(snapshot@),
    ensures
        first@ == second@,
        vstd::utf8::encode_utf8(first@) == vstd::utf8::encode_utf8(second@),
{
}

/// Joins `parts` with `sep` and appends the result to `out`.
pub fn append_joined(out: &mut String, parts: &Vec<String>, sep: &str)
    ensures
        final(out)@ == old(out)@ + join(texts(parts@), sep@),
{
    let ghost all = texts(parts@);
    let mut i: usize = 0;
    while i < parts.len()
        invariant
            i <= parts@.len(),
            all == texts(parts@),
            out@ == old(out)@ + join(all.take(i as int), sep@),
        decreases parts@.len() - i,
    {
        assert(all.take(i as int + 1).drop_last() =~= all.take(i as int));
        if i > 0 {
            out.append(sep);
        }
        out.append(parts[i].as_str());
        assert(i > 0 ==> out@ =~= old(out)@ + (join(all.take(i as int), sep@) + sep@
            + parts@[i as int]@));
        i = i + 1;
    }
    assert(all.take(i as int) =~= all);
}

/// Appends the decimal numerals of `ids`, a comma and a line break with the
/// indent of the list's first line between each two.
pub fn append_id_list(out: &mut String, ids: &Vec<u64>)
    ensures
        final(out)@ == old(out)@ + join(numerals(ids@), ",\n                 "@),
{
    let ghost all = numerals(ids@);
    let ghost sep = ",\n                 "@;
    let mut i: usize = 0;
    while i < ids.len()
        invariant
            i <= ids@.len(),
            all == numerals(ids@),
            sep == ",\n                 "@,
            out@ == old(out)@ + join(all.take(i as int), sep),
        decreases ids@.len() - i,
    {
        assert(all.take(i as int + 1).drop_last() =~= all.take(i as int));
        if i > 0 {
            out.append(",\n                 ");
        }
        append_decimal(out, ids[i] as u128);
        assert(i > 0 ==> out@ =~= old(out)@ + (join(all.take(i as int), sep) + sep + decimal(
            ids@[i as int] as nat,
        )));
        i = i + 1;
    }
    assert(all.take(i as int) =~= all);
}

/// Describes how the node is reached: the labels of its ports, each once and
/// in ascending order, or the number of its routers.
pub fn routing_to_string(routing: &NodeRouting) -> (r: String)
    ensures
        r@ == routing_text(routing@),
{
    match routing {
        NodeRouting::Direct { ip, ports } => {
            let labels = sorted_labels(ports);
            let mut out = "direct routing on ".to_owned();
            append_joined(&mut out, &labels, ", ");
            out
        },
        NodeRouting::Routed { router_count } => {
            let mut out = "indirect routing using ".to_owned();
            append_decimal(&mut out, *router_count as u128);
            out.append(" routers");
            out
        },
    }
}

/// Writes the report of a snapshot.
pub fn make_text(snapshot: &StatusSnapshot) -> (text: String)
    ensures
        text@ == report_text(snapshot@),
{
    let ids = distinct_chain_ids(&snapshot.providers);
    let provider_count = count_providers(&snapshot.providers);
    let routing = routing_to_string(&snapshot.identity.routing);
    let address = address_string(&snapshot.naming.contract_address);
    let mut out = "...is running ".to_owned();
    append_decimal(&mut out, snapshot.process_count as u128);
    out.append(" processes\n...using public key\n   ");
    out.append(snapshot.identity.networking_key.as_str());
    out.append("\n...with ");
    out.append(routing.as_str());
    out.append("\n");
    let mut rest = "...with ".to_owned();
    append_decimal(&mut rest, provider_count as u128);
    rest.append(" eth providers\n   for chain IDs ");
    append_id_list(&mut rest, &ids);
    rest.append("\n...and has ");
    append_decimal(&mut rest, snapshot.subscriptions.active_count());
    rest.append(" active eth subscriptions.\n\nconnected to ");
    append_decimal(&mut rest, snapshot.peers.names.len() as u128);
    rest.append(" peers out of ");
    append_decimal(&mut rest, snapshot.naming.name_count as u128);
    rest.append(" known\nfrom kimap ");
    rest.append(address.as_str());
    rest.append("\n");
    out.append(rest.as_str());
    out
}

} // verus!
