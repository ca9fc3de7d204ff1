//! The naming collector: its request, and what its reply holds.

use crate::collect::{
    fails, garbled_failure, settle, Collector, Facet, FailureKind, FetchError, Reply,
};
use crate::json::{decoded, parse_json, Json};
use crate::model::NamingState;
use crate::text::decimal;
use vstd::prelude::*;

verus! {

/// The text that `serde_json` writes for the object with the one member
/// `tag`, whose value is the object with the one member `field`, whose value
/// is the number `value`.
pub uninterp spec fn tagged_request_bytes(tag: Seq<char>, field: Seq<char>, value: u64) -> Seq<u8>;

/// A letter or a digit of ASCII: a character that `serde_json` writes into
/// a string as it is, in one byte.
pub open spec fn is_plain(c: char) -> bool {
    let code = c as u32;
    0x30 <= code <= 0x39 || 0x41 <= code <= 0x5a || 0x61 <= code <= 0x7a
}

/// A key of letters and digits of ASCII only.
pub open spec fn plain_key(key: Seq<char>) -> bool {
    forall|i: int| 0 <= i < key.len() ==> is_plain(#[trigger] key[i])
}

/// The bytes of a text of ASCII, one for each character.
pub open spec fn ascii_bytes(text: Seq<char>) -> Seq<u8> {
    Seq::new(text.len(), |i: int| text[i] as u8)
}

/// The compact JSON text of the object with the one member `tag`, whose
/// value is the object with the one member `field`, whose value is the
/// number `value`, for keys that need no escaping.
pub open spec fn plain_request_text(tag: Seq<char>, field: Seq<char>, value: u64) -> Seq<char> {
    "{\""@ + tag + "\":{\""@ + field + "\":"@ + decimal(value as nat) + "}}"@
}

/// Builds the object `{tag: {field: value}}` as a `serde_json::Value` and
/// writes it with the value's `to_string`, which is the compact form: a
/// brace, the key in quotes, a colon, the value, a brace, the number in
/// decimal. What comes out depends on the three arguments alone. The
/// contract gives it its name, and states it for keys of letters and digits,
/// which the writer does not escape. Neither is proved.
#[verifier::external_body]
fn tagged_request(tag: &str, field: &str, value: u64) -> (r: Vec<u8>)
    ensures
        r@ == tagged_request_bytes(tag@, field@, value),
        plain_key(tag@) && plain_key(field@) ==> r@ == ascii_bytes(
            plain_request_text(tag@, field@, value),
        ),
{
    let mut inner = serde_json::Map::new();
    inner.insert(field.to_string(), serde_json::Value::from(value));
    let mut outer = serde_json::Map::new();
    outer.insert(tag.to_string(), serde_json::Value::Object(inner));
    serde_json::Value::Object(outer).to_string().into_bytes()
}

/// The request of the naming collector: the state as of block 0.
pub fn naming_request() -> (r: Vec<u8>)
    ensures
        r@ == ascii_bytes("{\"GetState\":{\"block\":0}}"@),
        r@ == tagged_request_bytes("GetState"@, "block"@, 0),
{
    proof {
        reveal_strlit("GetState");
        reveal_strlit("block");
        reveal_strlit("{\"");
        reveal_strlit("\":{\"");
        reveal_strlit("\":");
        reveal_strlit("}}");
        reveal_strlit("{\"GetState\":{\"block\":0}}");
        assert(plain_key("GetState"@));
        assert(plain_key("block"@));
        assert(decimal(0) =~= seq!['0']);
        assert(plain_request_text("GetState"@, "block"@, 0) =~= "{\"GetState\":{\"block\":0}}"@);
    }
    tagged_request("GetState", "block", 0)
}

/// The state that a reply of the naming service carries: the member
/// `GetState` of the document.
pub open spec fn state_of(doc: Json) -> Option<Json> {
    doc.member("GetState"@)
}

/// The items of the member `contract_address` of a state, where that member
/// is an array of twenty items.
pub open spec fn address_items(state: Json) -> Option<Seq<Json>> {
    match state.member("contract_address"@) {
        Some(address) => match address.items() {
            Some(items) => if items.len() == 20 {
                Some(items)
            } else {
                None
            },
            None => None,
        },
        None => None,
    }
}

/// The byte that an item of the address stands for: a whole number counts
/// by its lowest eight bits, anything else as zero.
pub open spec fn address_byte(item: Json) -> u8 {
    match item.number() {
        Some(n) => (n % 256) as u8,
        None => 0,
    }
}

/// The number of resolvable names of a state: the length of its member
/// `nodes` where that is an array, and zero otherwise.
pub open spec fn name_count_of(state: Json) -> nat {
    match state.member("nodes"@) {
        Some(nodes) => match nodes.items() {
            Some(items) => items.len(),
            None => 0,
        },
        None => 0,
    }
}

/// The document holds a naming state: it has a member `GetState` with a
/// contract address of twenty items.
pub open spec fn holds_naming(doc: Json) -> bool {
    state_of(doc) matches Some(state) && address_items(state) is Some
}

/// `naming` is what the document says: the address byte by byte, and the
/// number of resolvable names.
pub open spec fn is_naming_of(naming: NamingState, doc: Json) -> bool {
    &&& state_of(doc) matches Some(state)
    &&& address_items(state) matches Some(items)
    &&& forall|i: int| 0 <= i < 20 ==> naming.contract_address@[i] == address_byte(#[trigger] items[i])
    &&& naming.name_count == name_count_of(state)
}

/// Counts the resolvable names of a state.
pub fn count_names(state: &Json) -> (r: u64)
    ensures
        r == name_count_of(*state),
{
    match state.get("nodes") {
        Some(nodes) => match nodes.as_array() {
            Some(items) => items.len() as u64,
            None => 0,
        },
        None => 0,
    }
}

/// Reads the contract address of a state.
pub fn read_address(state: &Json) -> (r: Option<[u8; 20]>)
    ensures
        match r {
            Some(bytes) => address_items(*state) matches Some(items) && forall|i: int|
                0 <= i < 20 ==> bytes@[i] == address_byte(#[trigger] items[i]),
            None => address_items(*state) is None,
        },
{
    let items = match state.get("contract_address") {
        Some(address) => match address.as_array() {
            Some(items) => items,
            None => {
                return None;
            },
        },
        None => {
            return None;
        },
    };
    if items.len() != 20 {
        return None;
    }
    let mut bytes: [u8; 20] = [0u8; 20];
    let mut i: usize = 0;
    while i < 20
        invariant
            i <= 20,
            items@.len() == 20,
            forall|j: int| 0 <= j < i ==> bytes@[j] == address_byte(#[trigger] items@[j]),
        decreases 20 - i,
    {
        let byte: u8 = match items[i].as_u64() {
            Some(n) => (n % 256) as u8,
            None => 0,
        };
        bytes[i] = byte;
        i = i + 1;
    }
    Some(bytes)
}

/// Reads the naming state out of a reply document, where it holds one.
pub fn naming_from_json(doc: &Json) -> (r: Option<NamingState>)
    ensures
        match r {
            Some(naming) => is_naming_of(naming, *doc),
            None => !holds_naming(*doc),
        },
{
    match doc.get("GetState") {
        Some(state) => match read_address(state) {
            Some(contract_address) => Some(
                NamingState { contract_address, name_count: count_names(state) },
            ),
            None => None,
        },
        None => None,
    }
}

/// The outcome of the naming collector, which asks the naming service for
/// its state. The reply carries the body of the response as it came; a body
/// that is no JSON document, or a document that holds no naming state, is a
/// failure of kind `Parse`.
pub fn naming_outcome(reply: Reply<Vec<u8>>) -> (r: Result<Facet, FetchError>)
    ensures
        match reply {
            Reply::Silent => fails(r, FailureKind::Transport, Collector::Naming),
            Reply::Garbled => fails(r, FailureKind::Parse, Collector::Naming),
            Reply::Decoded(body) => match decoded(body@) {
                Some(doc) => if holds_naming(doc) {
                    r matches Ok(Facet::Naming(naming)) && is_naming_of(naming, doc)
                } else {
                    fails(r, FailureKind::Parse, Collector::Naming)
                },
                None => fails(r, FailureKind::Parse, Collector::Naming),
            },
        },
{
    let body = match settle(Collector::Naming, reply) {
        Err(e) => {
            return Err(e);
        },
        Ok(body) => body,
    };
    match parse_json(body.as_slice()) {
        Some(doc) => match naming_from_json(&doc) {
            Some(naming) => Ok(Facet::Naming(naming)),
            None => Err(garbled_failure(Collector::Naming, FailureKind::Parse)),
        },
        None => Err(garbled_failure(Collector::Naming, FailureKind::Parse)),
    }
}

} // verus!
