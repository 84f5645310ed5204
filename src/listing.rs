//! Reading the backend's key listing: a JSON array of objects with an alias,
//! an algorithm, a size in bits and the public components in hex.
use vstd::prelude::*;
use vstd::utf8::encode_utf8;

use crate::identity::{parsed_algorithm, Algorithm, Curve};
use crate::key::{EcKey, Key, RsaKey, MAX_MODULUS_LEN};
use crate::wire::{opt_bytes, push_bytes};

verus! {

/// One entry of the backend's key listing, with the members this library
/// reads; a member that is absent or of another JSON type is `None`.
pub struct ListingEntry {
    pub alias: Option<String>,
    pub algorithm: Option<String>,
    pub size: Option<u64>,
    pub modulus: Option<String>,
    pub exponent: Option<String>,
    pub x: Option<String>,
    pub y: Option<String>,
}

/// What the JSON crate reads from a listing: the entries of the top-level
/// array, or nothing where the text is not JSON or not an array.
pub uninterp spec fn json_key_listing(text: Seq<char>) -> Option<Seq<ListingEntry>>;

/// Relies on serde_json::from_str, Value::as_array, Value::get, Value::as_str
/// and Value::as_u64: parses the listing and picks each entry's members.
#[verifier::external_body]
fn read_listing(json: &str) -> (r: Option<Vec<ListingEntry>>)
    ensures
        r is Some <==> json_key_listing(json@) is Some,
        r matches Some(v) ==> json_key_listing(json@) == Some(v@),
{
    let value: serde_json::Value = serde_json::from_str(json).ok()?;
    let text = |e: &serde_json::Value, k: &str| e.get(k).and_then(|v| v.as_str()).map(String::from);
    Some(value.as_array()?.iter().map(|e| ListingEntry {
        alias: text(e, "alias"), algorithm: text(e, "algorithm"),
        size: e.get("size").and_then(|v| v.as_u64()),
        modulus: text(e, "modulus"), exponent: text(e, "exponent"),
        x: text(e, "x"), y: text(e, "y"),
    }).collect())
}

pub open spec fn is_hex_digit(b: u8) -> bool {
    (0x30 <= b <= 0x39) || (0x41 <= b <= 0x46) || (0x61 <= b <= 0x66)
}

pub open spec fn hex_digit_value(b: u8) -> nat {
    if b <= 0x39 {
        (b - 0x30) as nat
    } else if b <= 0x46 {
        (b - 0x41 + 10) as nat
    } else {
        (b - 0x61 + 10) as nat
    }
}

/// Pairs of hex digits, in either case, read as bytes; anything else fails.
pub open spec fn hex_decoding(s: Seq<u8>) -> Option<Seq<u8>> {
    if s.len() % 2 == 0 && forall|i: int| 0 <= i < s.len() ==> is_hex_digit(#[trigger] s[i]) {
        Some(
            Seq::new(
                s.len() / 2,
                |i: int| (16 * hex_digit_value(s[2 * i]) + hex_digit_value(s[2 * i + 1])) as u8,
            ),
        )
    } else {
        None
    }
}

/// Relies on hex::decode: two hex digits of either case for each byte; an odd
/// length or another character is an error.
#[verifier::external_body]
fn hex_decode(digits: &[u8]) -> (r: Option<Vec<u8>>)
    ensures
        opt_bytes(&r) == hex_decoding(digits@),
{
    hex::decode(digits).ok()
}

/// A hex number of any length as bytes: an odd number of digits is read as
/// if a `0` stood in front.
pub open spec fn hex_number(s: Seq<char>) -> Option<Seq<u8>> {
    let b = encode_utf8(s);
    if b.len() % 2 == 1 {
        hex_decoding(seq![0x30u8] + b)
    } else {
        hex_decoding(b)
    }
}

/// A member of an entry read as a hex number.
pub open spec fn hex_member(m: Option<String>) -> Option<Seq<u8>> {
    match m {
        Some(s) => hex_number(s@),
        None => None,
    }
}

/// Reads a hex number, prepending a zero digit to an odd number of digits.
pub fn as_hex(value: &str) -> (r: Option<Vec<u8>>)
    ensures
        opt_bytes(&r) == hex_number(value@),
{
    let digits = value.as_bytes();
    if digits.len() % 2 == 1 {
        let mut padded: Vec<u8> = vec![0x30u8];
        push_bytes(&mut padded, digits);
        assert(padded@ =~= seq![0x30u8] + encode_utf8(value@));
        hex_decode(padded.as_slice())
    } else {
        hex_decode(digits)
    }
}

fn member_as_hex(m: &Option<String>) -> (r: Option<Vec<u8>>)
    ensures
        opt_bytes(&r) == hex_member(*m),
{
    match m {
        Some(s) => as_hex(s.as_str()),
        None => None,
    }
}

/// Whether an entry describes a key this library can hold: an alias, a size,
/// and either "RSA" with a modulus and an exponent, or "EC" of a known size
/// with coordinates no longer than the curve's parameter length.
pub open spec fn entry_is_usable(e: ListingEntry) -> bool {
    &&& e.alias is Some
    &&& e.size is Some
    &&& e.algorithm is Some
    &&& match parsed_algorithm(e.algorithm->0@, e.size->0) {
        Some(Algorithm::Rsa) => {
            &&& hex_member(e.modulus) matches Some(m) && m.len() <= MAX_MODULUS_LEN
            &&& hex_member(e.exponent) is Some
        },
        Some(Algorithm::Ec(c)) => {
            &&& hex_member(e.x) matches Some(x) && x.len() <= c.spec_param_length()
            &&& hex_member(e.y) matches Some(y) && y.len() <= c.spec_param_length()
        },
        None => false,
    }
}

/// Whether `k` holds what the entry lists.
pub open spec fn key_of_entry(k: Key, e: ListingEntry) -> bool {
    &&& e.alias matches Some(a) && k.spec_label() == a@
    &&& e.algorithm is Some && e.size is Some
    &&& match k {
        Key::Rsa(r) => {
            &&& parsed_algorithm(e.algorithm->0@, e.size->0) == Some(Algorithm::Rsa)
            &&& hex_member(e.modulus) == Some(r.spec_modulus())
            &&& hex_member(e.exponent) == Some(r.spec_exponent())
        },
        Key::Ec(c) => {
            &&& parsed_algorithm(e.algorithm->0@, e.size->0) == Some(
                Algorithm::Ec(Curve::spec_from_ec_curve(c.spec_curve())),
            )
            &&& hex_member(e.x) == Some(c.spec_x())
            &&& hex_member(e.y) == Some(c.spec_y())
        },
    }
}

/// Whether `k` is a well-formed key holding what the entry lists.
pub open spec fn parsed_from(k: Key, e: ListingEntry) -> bool {
    k.wf() && key_of_entry(k, e)
}

/// Parses a single entry of the listing.
pub fn parse_key(entry: &ListingEntry) -> (r: Option<Key>)
    ensures
        r is Some <==> entry_is_usable(*entry),
        r matches Some(k) ==> parsed_from(k, *entry),
{
    let alias = match &entry.alias {
        Some(a) => a,
        None => return None,
    };
    let algorithm = match &entry.algorithm {
        Some(a) => a,
        None => return None,
    };
    let size = match entry.size {
        Some(s) => s,
        None => return None,
    };
    match Algorithm::parse(algorithm.as_str(), size) {
        Some(Algorithm::Rsa) => {
            let modulus = match member_as_hex(&entry.modulus) {
                Some(m) => m,
                None => return None,
            };
            let exponent = match member_as_hex(&entry.exponent) {
                Some(x) => x,
                None => return None,
            };
            match RsaKey::new(alias.clone(), modulus, exponent) {
                Some(k) => Some(Key::Rsa(k)),
                None => None,
            }
        },
        Some(Algorithm::Ec(c)) => {
            let x = match member_as_hex(&entry.x) {
                Some(x) => x,
                None => return None,
            };
            let y = match member_as_hex(&entry.y) {
                Some(y) => y,
                None => return None,
            };
            match EcKey::new(alias.clone(), c.ec_curve(), x, y) {
                Some(k) => Some(Key::Ec(k)),
                None => None,
            }
        },
        None => None,
    }
}

/// The usable entries, in listing order.
pub open spec fn usable_entries(entries: Seq<ListingEntry>) -> Seq<ListingEntry> {
    entries.filter(|e: ListingEntry| entry_is_usable(e))
}

/// Turns the entries of a listing into keys, skipping those that cannot be
/// used; the keys keep the listing's order.
pub fn keys_from_entries(entries: &Vec<ListingEntry>) -> (r: Vec<Key>)
    ensures
        r@.len() == usable_entries(entries@).len(),
        forall|i: int|
            0 <= i < r@.len() ==> parsed_from(#[trigger] r@[i], usable_entries(entries@)[i]),
{
    let mut keys: Vec<Key> = Vec::new();
    let mut i: usize = 0;
    while i < entries.len()
        invariant
            0 <= i <= entries@.len(),
            keys@.len() == usable_entries(entries@.subrange(0, i as int)).len(),
            forall|j: int|
                0 <= j < keys@.len() ==> parsed_from(
                    #[trigger] keys@[j],
                    usable_entries(entries@.subrange(0, i as int))[j],
                ),
        decreases entries@.len() - i,
    {
        let ghost before = entries@.subrange(0, i as int);
        let ghost after = entries@.subrange(0, i + 1);
        assert(after.drop_last() =~= before);
        assert(after.last() == entries@[i as int]);
        proof {
            reveal(Seq::filter);
        }
        let ghost old_keys = keys@;
        let parsed = parse_key(&entries[i]);
        match parsed {
            Some(k) => {
                assert(usable_entries(after) == usable_entries(before).push(entries@[i as int]));
                keys.push(k);
            },
            None => {
                assert(usable_entries(after) == usable_entries(before));
            },
        }
        assert forall|j: int| 0 <= j < keys@.len() implies parsed_from(
            #[trigger] keys@[j],
            usable_entries(after)[j],
        ) by {
            if j < old_keys.len() {
                assert(keys@[j] == old_keys[j]);
            }
        }
        i = i + 1;
        assert(entries@.subrange(0, i as int) == after);
    }
    assert(entries@.subrange(0, i as int) =~= entries@);
    keys
}

/// Converts a listing to keys. Returns `None` where the text is not a JSON
/// array; skips the entries that cannot be used.
pub fn to_list(json: &str) -> (r: Option<Vec<Key>>)
    ensures
        r is Some <==> json_key_listing(json@) is Some,
        r matches Some(keys) ==> keys@.len() == usable_entries(json_key_listing(json@)->0).len()
            && forall|i: int|
            0 <= i < keys@.len() ==> parsed_from(
                #[trigger] keys@[i],
                usable_entries(json_key_listing(json@)->0)[i],
            ),
{
    match read_listing(json) {
        Some(entries) => Some(keys_from_entries(&entries)),
        None => None,
    }
}

} // verus!
