//! The token interface's decisions, on plain values: which slot and session
//! flags are accepted, what each attribute of a key reads, how a search
//! template sets the search, which mechanism fits which key, and how a
//! signature is handed to the caller's buffer.
use vstd::prelude::*;
use vstd::utf8::{decode_utf8, valid_utf8};

use crate::asn1::{
    curve_oid, der_integer_pair, der_object_identifier, der_octet_string, token_signature,
};
use crate::identity::{blob_of, ec_blob, rsa_blob, Curve};
use crate::key::Key;
use crate::pkcs11::{KeyType, ObjectClass, ReturnValue};
use crate::state::{cursor_after, labels, lemma_run_snoc, next_match, opt_label, search_run, State};
use crate::wire::{left_pad, opt_bytes, push_bytes};

verus! {

/// The id of the token's only slot.
pub const SLOT_ID: u64 = 10;

/// The session flag that every session must carry.
pub const SERIAL_SESSION: u64 = 0x4;

pub const CKA_CLASS: u64 = 0x0000;

pub const CKA_LABEL: u64 = 0x0003;

pub const CKA_KEY_TYPE: u64 = 0x0100;

pub const CKA_ID: u64 = 0x0102;

pub const CKA_SIGN: u64 = 0x0108;

pub const CKA_MODULUS: u64 = 0x0120;

pub const CKA_PUBLIC_EXPONENT: u64 = 0x0122;

pub const CKA_EC_PARAMS: u64 = 0x0180;

pub const CKA_EC_POINT: u64 = 0x0181;

pub const CKA_ALWAYS_AUTHENTICATE: u64 = 0x0202;

pub const CKM_RSA_PKCS: u64 = 0x0001;

pub const CKM_ECDSA: u64 = 0x1041;

/// The length that marks an attribute whose value is not available.
pub const UNAVAILABLE_INFORMATION: u64 = 0xffff_ffff_ffff_ffff;

/// Status of a call naming a slot.
pub fn check_slot(slot_id: u64) -> (r: ReturnValue)
    ensures
        r == (if slot_id == SLOT_ID {
            ReturnValue::Success
        } else {
            ReturnValue::SlotIdInvalid
        }),
{
    if slot_id == SLOT_ID {
        ReturnValue::Success
    } else {
        ReturnValue::SlotIdInvalid
    }
}

/// Status of a request to open a session, before the backend is asked for
/// keys: the slot must be the token's and the session must be serial.
pub open spec fn open_session_status(slot_id: u64, flags: u64) -> ReturnValue {
    if slot_id != SLOT_ID {
        ReturnValue::SlotIdInvalid
    } else if flags & SERIAL_SESSION == 0 {
        ReturnValue::SessionParallelNotSupported
    } else {
        ReturnValue::Success
    }
}

pub fn check_open_session(slot_id: u64, flags: u64) -> (r: ReturnValue)
    ensures
        r == open_session_status(slot_id, flags),
{
    if slot_id != SLOT_ID {
        ReturnValue::SlotIdInvalid
    } else if flags & SERIAL_SESSION == 0 {
        ReturnValue::SessionParallelNotSupported
    } else {
        ReturnValue::Success
    }
}

/// The value of one attribute.
pub enum AttributeValue {
    Bytes(Vec<u8>),
    Ulong(u64),
    Bool(bool),
    /// The attribute does not apply to the key or is not known.
    Unavailable,
}

/// An attribute value as contracts see it.
pub enum AttributeView {
    Bytes(Seq<u8>),
    Ulong(u64),
    Bool(bool),
    Unavailable,
}

impl View for AttributeValue {
    type V = AttributeView;

    open spec fn view(&self) -> AttributeView {
        match self {
            AttributeValue::Bytes(b) => AttributeView::Bytes(b@),
            AttributeValue::Ulong(n) => AttributeView::Ulong(*n),
            AttributeValue::Bool(b) => AttributeView::Bool(*b),
            AttributeValue::Unavailable => AttributeView::Unavailable,
        }
    }
}

/// The value of an attribute of a key: its type, its label (also its id), the
/// RSA modulus and exponent, the EC point and curve in DER, and "always
/// authenticate", which is false.
pub open spec fn attribute_of(key: Key, attribute: u64) -> AttributeView {
    if attribute == CKA_KEY_TYPE {
        match key {
            Key::Rsa(_) => AttributeView::Ulong(KeyType::Rsa.spec_code()),
            Key::Ec(_) => AttributeView::Ulong(KeyType::Ec.spec_code()),
        }
    } else if attribute == CKA_LABEL || attribute == CKA_ID {
        AttributeView::Bytes(vstd::utf8::encode_utf8(key.spec_label()))
    } else if attribute == CKA_MODULUS {
        match key {
            Key::Rsa(k) => AttributeView::Bytes(k.spec_modulus()),
            Key::Ec(_) => AttributeView::Unavailable,
        }
    } else if attribute == CKA_PUBLIC_EXPONENT {
        match key {
            Key::Rsa(k) => AttributeView::Bytes(k.spec_exponent()),
            Key::Ec(_) => AttributeView::Unavailable,
        }
    } else if attribute == CKA_EC_POINT {
        match key {
            Key::Ec(k) => AttributeView::Bytes(der_octet_string(k.spec_point())),
            Key::Rsa(_) => AttributeView::Unavailable,
        }
    } else if attribute == CKA_EC_PARAMS {
        match key {
            Key::Ec(k) => AttributeView::Bytes(der_object_identifier(curve_oid(k.spec_curve()))),
            Key::Rsa(_) => AttributeView::Unavailable,
        }
    } else if attribute == CKA_ALWAYS_AUTHENTICATE {
        AttributeView::Bool(false)
    } else {
        AttributeView::Unavailable
    }
}

fn copy_bytes(s: &[u8]) -> (r: Vec<u8>)
    ensures
        r@ == s@,
{
    let mut r: Vec<u8> = Vec::new();
    push_bytes(&mut r, s);
    r
}

/// Reads one attribute of a key.
pub fn attribute_value(key: &Key, attribute: u64) -> (r: AttributeValue)
    requires
        key.wf(),
    ensures
        r@ == attribute_of(*key, attribute),
{
    if attribute == CKA_KEY_TYPE {
        match key {
            Key::Rsa(_) => AttributeValue::Ulong(KeyType::Rsa.code()),
            Key::Ec(_) => AttributeValue::Ulong(KeyType::Ec.code()),
        }
    } else if attribute == CKA_LABEL || attribute == CKA_ID {
        AttributeValue::Bytes(copy_bytes(key.label().as_bytes()))
    } else if attribute == CKA_MODULUS {
        match key {
            Key::Rsa(k) => AttributeValue::Bytes(copy_bytes(k.modulus())),
            Key::Ec(_) => AttributeValue::Unavailable,
        }
    } else if attribute == CKA_PUBLIC_EXPONENT {
        match key {
            Key::Rsa(k) => AttributeValue::Bytes(copy_bytes(k.exponent())),
            Key::Ec(_) => AttributeValue::Unavailable,
        }
    } else if attribute == CKA_EC_POINT {
        match key {
            Key::Ec(k) => AttributeValue::Bytes(k.point_as_asn1()),
            Key::Rsa(_) => AttributeValue::Unavailable,
        }
    } else if attribute == CKA_EC_PARAMS {
        match key {
            Key::Ec(k) => AttributeValue::Bytes(k.params_as_asn1()),
            Key::Rsa(_) => AttributeValue::Unavailable,
        }
    } else if attribute == CKA_ALWAYS_AUTHENTICATE {
        AttributeValue::Bool(false)
    } else {
        AttributeValue::Unavailable
    }
}

/// Reads every requested attribute of a key. Every attribute that can be read
/// is; the status is `AttributeTypeInvalid` where at least one could not be,
/// `Success` otherwise.
pub fn get_attribute_values(key: &Key, attributes: &Vec<u64>) -> (r: (
    Vec<AttributeValue>,
    ReturnValue,
))
    requires
        key.wf(),
    ensures
        r.0@.len() == attributes@.len(),
        forall|i: int|
            0 <= i < attributes@.len() ==> (#[trigger] r.0@[i])@ == attribute_of(
                *key,
                attributes@[i],
            ),
        r.1 == (if exists|i: int|
            0 <= i < attributes@.len() && #[trigger] attribute_of(*key, attributes@[i])
                is Unavailable {
            ReturnValue::AttributeTypeInvalid
        } else {
            ReturnValue::Success
        }),
{
    let mut values: Vec<AttributeValue> = Vec::new();
    let mut invalid = false;
    let mut i: usize = 0;
    while i < attributes.len()
        invariant
            key.wf(),
            0 <= i <= attributes@.len(),
            values@.len() == i,
            forall|j: int|
                0 <= j < i ==> (#[trigger] values@[j])@ == attribute_of(*key, attributes@[j]),
            invalid == exists|j: int|
                0 <= j < i && #[trigger] attribute_of(*key, attributes@[j]) is Unavailable,
        decreases attributes@.len() - i,
    {
        let v = attribute_value(key, attributes[i]);
        if let AttributeValue::Unavailable = v {
            invalid = true;
        }
        values.push(v);
        i = i + 1;
    }
    (values, if invalid {
        ReturnValue::AttributeTypeInvalid
    } else {
        ReturnValue::Success
    })
}

/// How one attribute value reaches the caller's buffer.
pub struct Placement {
    /// The length to report for the attribute.
    pub length: u64,
    /// Whether the value is copied into the buffer.
    pub copy: bool,
    /// Whether the buffer was too small for the value.
    pub too_small: bool,
}

/// Places a value of `length` bytes: with no buffer only the length is
/// reported; a buffer smaller than the value gets the unavailable length and
/// nothing copied; otherwise the value is copied and its length reported.
pub fn place_attribute(length: u64, buffer: Option<u64>) -> (r: Placement)
    ensures
        buffer is None ==> r.length == length && !r.copy && !r.too_small,
        buffer matches Some(c) && c < length ==> r.length == UNAVAILABLE_INFORMATION && !r.copy
            && r.too_small,
        buffer matches Some(c) && c >= length ==> r.length == length && r.copy && !r.too_small,
{
    match buffer {
        None => Placement { length, copy: false, too_small: false },
        Some(capacity) => {
            if capacity < length {
                Placement { length: UNAVAILABLE_INFORMATION, copy: false, too_small: true }
            } else {
                Placement { length, copy: true, too_small: false }
            }
        },
    }
}

/// Status of a call that reads attributes: an attribute that could not be
/// read outweighs a buffer that was too small.
pub fn attributes_status(status: ReturnValue, too_small: bool) -> (r: ReturnValue)
    ensures
        r == (if status != ReturnValue::Success {
            status
        } else if too_small {
            ReturnValue::BufferTooSmall
        } else {
            ReturnValue::Success
        }),
{
    if status != ReturnValue::Success {
        status
    } else if too_small {
        ReturnValue::BufferTooSmall
    } else {
        ReturnValue::Success
    }
}

/// The token path and the SSH path carry the same public components of a
/// key: the RSA modulus (and an exponent of 65537), or the EC point.
pub proof fn public_components_agree(key: Key)
    requires
        key.wf(),
    ensures
        key matches Key::Rsa(k) ==> {
            &&& attribute_of(key, CKA_MODULUS) == AttributeView::Bytes(k.spec_modulus())
            &&& blob_of(key) == rsa_blob(k.spec_modulus())
            &&& k.spec_exponent() == seq![1u8, 0, 1] ==> attribute_of(key, CKA_PUBLIC_EXPONENT)
                == AttributeView::Bytes(seq![1u8, 0, 1])
        },
        key matches Key::Ec(k) ==> {
            &&& attribute_of(key, CKA_EC_POINT) == AttributeView::Bytes(
                der_octet_string(k.spec_point()),
            )
            &&& blob_of(key) == crate::wire::prefixed(
                crate::identity::ecdsa_prefix() + crate::identity::curve_name(
                    Curve::spec_from_ec_curve(k.spec_curve()),
                ),
            ) + crate::wire::prefixed(
                crate::identity::curve_name(Curve::spec_from_ec_curve(k.spec_curve())),
            ) + crate::wire::prefixed(k.spec_point())
        },
{
    if let Key::Ec(k) = key {
        let c = Curve::spec_from_ec_curve(k.spec_curve());
        assert(c.spec_param_length() == k.spec_curve().spec_param_length());
        assert(ec_blob(c, k.spec_x(), k.spec_y()) == crate::wire::prefixed(
            crate::identity::ecdsa_prefix() + crate::identity::curve_name(c),
        ) + crate::wire::prefixed(crate::identity::curve_name(c)) + crate::wire::prefixed(
            k.spec_point(),
        ));
    }
}

/// Relies on std::str::from_utf8: the text that the bytes encode, where they
/// are valid UTF-8.
#[verifier::external_body]
fn text_from_utf8(bytes: &[u8]) -> (r: Option<String>)
    ensures
        r is Some <==> valid_utf8(bytes@),
        r matches Some(s) ==> s@ == decode_utf8(bytes@),
{
    std::str::from_utf8(bytes).ok().map(String::from)
}

/// One attribute of a search template: its type and its value's bytes.
pub struct TemplateAttribute {
    pub kind: u64,
    pub value: Vec<u8>,
}

/// A little-endian integer of eight bytes.
pub open spec fn le64(b: Seq<u8>) -> nat {
    b[0] as nat + 0x100 * (b[1] as nat + 0x100 * (b[2] as nat + 0x100 * (b[3] as nat + 0x100 * (
    b[4] as nat + 0x100 * (b[5] as nat + 0x100 * (b[6] as nat + 0x100 * (b[7] as nat)))))))
}

/// Whether an object class value names public or private keys.
pub open spec fn is_key_class(value: Seq<u8>) -> bool {
    value.len() == 8 && (le64(value) == ObjectClass::PublicKey.spec_code() || le64(value)
        == ObjectClass::PrivateKey.spec_code())
}

/// How a template sets a search: the status, and where it is `Success`,
/// whether keys are searched for and the label asked for. The class must be
/// that of public or private keys; the id must be UTF-8; the "sign" attribute
/// is accepted and ignored; any other attribute aborts.
pub open spec fn template_search(t: Seq<TemplateAttribute>) -> (ReturnValue, bool, Option<Seq<char>>)
    decreases t.len(),
{
    if t.len() == 0 {
        (ReturnValue::Success, false, None)
    } else {
        let rest = template_search(t.drop_last());
        let a = t.last();
        if rest.0 != ReturnValue::Success {
            rest
        } else if a.kind == CKA_CLASS {
            if is_key_class(a.value@) {
                (ReturnValue::Success, true, rest.2)
            } else {
                (ReturnValue::AttributeValueInvalid, false, None)
            }
        } else if a.kind == CKA_ID {
            if valid_utf8(a.value@) {
                (ReturnValue::Success, rest.1, Some(decode_utf8(a.value@)))
            } else {
                (ReturnValue::AttributeValueInvalid, false, None)
            }
        } else if a.kind == CKA_SIGN {
            rest
        } else {
            (ReturnValue::AttributeTypeInvalid, false, None)
        }
    }
}

fn read_le64(b: &[u8]) -> (r: u64)
    requires
        b@.len() == 8,
    ensures
        r as nat == le64(b@),
{
    let mut r: u64 = 0;
    let mut i: usize = 8;
    while i > 0
        invariant
            0 <= i <= 8,
            b@.len() == 8,
            r as nat == le64_suffix(b@, i as nat),
        decreases i,
    {
        i = i - 1;
        proof {
            lemma_le64_suffix_bound(b@, (i + 1) as nat);
            reveal_with_fuel(le64_limit, 8);
        }
        r = r * 0x100 + b[i] as u64;
    }
    proof {
        reveal_with_fuel(le64_suffix, 9);
    }
    r
}

/// The little-endian value of the bytes from `i` on, of eight.
spec fn le64_suffix(b: Seq<u8>, i: nat) -> nat
    decreases 8 - i,
{
    if i >= 8 {
        0
    } else {
        b[i as int] as nat + 0x100 * le64_suffix(b, i + 1)
    }
}

spec fn le64_limit(i: nat) -> nat
    decreases 8 - i,
{
    if i >= 8 {
        1
    } else {
        0x100 * le64_limit(i + 1)
    }
}

proof fn lemma_le64_suffix_bound(b: Seq<u8>, i: nat)
    requires
        i <= 8,
        b.len() == 8,
    ensures
        le64_suffix(b, i) < le64_limit(i),
    decreases 8 - i,
{
    if i < 8 {
        lemma_le64_suffix_bound(b, i + 1);
        let s = le64_suffix(b, i + 1);
        let l = le64_limit(i + 1);
        let d = b[i as int] as nat;
        assert(d + 0x100 * s < 0x100 * l) by (nonlinear_arith)
            requires
                d < 0x100,
                s < l,
        ;
    }
}

/// Starts a search as a template asks. Where the template is refused, the
/// session's search is left as it was.
pub fn find_objects_init(state: &mut State, template: &Vec<TemplateAttribute>) -> (r: ReturnValue)
    requires
        old(state).wf(),
    ensures
        final(state).wf(),
        r == template_search(template@).0,
        r != ReturnValue::Success ==> *final(state) == *old(state),
        r == ReturnValue::Success ==> {
            &&& final(state).spec_keys() == old(state).spec_keys()
            &&& final(state).spec_sign_index() == old(state).spec_sign_index()
            &&& final(state).spec_cursor() == 0
            &&& final(state).spec_want_keys() == template_search(template@).1
            &&& final(state).spec_search_id() == template_search(template@).2
        },
{
    let mut find_keys = false;
    let mut find_id: Option<String> = None;
    let mut i: usize = 0;
    while i < template.len()
        invariant
            *state == *old(state),
            old(state).wf(),
            0 <= i <= template@.len(),
            template_search(template@.subrange(0, i as int)).0 == ReturnValue::Success,
            template_search(template@.subrange(0, i as int)).1 == find_keys,
            template_search(template@.subrange(0, i as int)).2 == opt_label(find_id),
        decreases template@.len() - i,
    {
        let ghost before = template@.subrange(0, i as int);
        let ghost after = template@.subrange(0, i + 1);
        assert(after.drop_last() =~= before);
        assert(after.last() == template@[i as int]);
        let a = &template[i];
        if a.kind == CKA_CLASS {
            let is_key = if a.value.len() == 8 {
                let class = read_le64(a.value.as_slice());
                class == ObjectClass::PublicKey.code() || class == ObjectClass::PrivateKey.code()
            } else {
                false
            };
            if !is_key {
                proof {
                    lemma_template_stops(template@, i as int);
                }
                return ReturnValue::AttributeValueInvalid;
            }
            find_keys = true;
        } else if a.kind == CKA_ID {
            match text_from_utf8(a.value.as_slice()) {
                Some(id) => {
                    find_id = Some(id);
                },
                None => {
                    proof {
                        lemma_template_stops(template@, i as int);
                    }
                    return ReturnValue::AttributeValueInvalid;
                },
            }
        } else if a.kind == CKA_SIGN {
        } else {
            proof {
                lemma_template_stops(template@, i as int);
            }
            return ReturnValue::AttributeTypeInvalid;
        }
        i = i + 1;
    }
    assert(template@.subrange(0, i as int) =~= template@);
    state.find_init(find_keys, find_id);
    ReturnValue::Success
}

proof fn lemma_template_stops(t: Seq<TemplateAttribute>, i: int)
    requires
        0 <= i < t.len(),
        template_search(t.subrange(0, i + 1)).0 != ReturnValue::Success,
    ensures
        template_search(t) == template_search(t.subrange(0, i + 1)),
    decreases t.len() - i,
{
    if i + 1 < t.len() {
        assert(t.subrange(0, i + 2).drop_last() =~= t.subrange(0, i + 1));
        lemma_template_stops(t, i + 1);
    } else {
        assert(t.subrange(0, i + 1) =~= t);
    }
}

/// Continues a search: up to `max` more matches, fewer where the search runs
/// out. The indices are those that as many calls of `find_next` return.
pub fn find_objects(state: &mut State, max: usize) -> (r: Vec<usize>)
    requires
        old(state).wf(),
    ensures
        final(state).wf(),
        r@.len() <= max,
        final(state).spec_keys() == old(state).spec_keys(),
        final(state).spec_sign_index() == old(state).spec_sign_index(),
        final(state).spec_want_keys() == old(state).spec_want_keys(),
        final(state).spec_search_id() == old(state).spec_search_id(),
        final(state).spec_cursor() == cursor_after(
            labels(old(state).spec_keys()),
            old(state).spec_want_keys(),
            old(state).spec_search_id(),
            old(state).spec_cursor(),
            r@.len(),
        ),
        forall|i: int|
            0 <= i < r@.len() ==> search_run(
                labels(old(state).spec_keys()),
                old(state).spec_want_keys(),
                old(state).spec_search_id(),
                old(state).spec_cursor(),
                r@.len(),
            )[i] == Some(#[trigger] r@[i] as nat),
        r@.len() < max ==> next_match(
            labels(old(state).spec_keys()),
            old(state).spec_want_keys(),
            old(state).spec_search_id(),
            final(state).spec_cursor(),
        ) is None,
{
    let ghost ls = labels(state.spec_keys());
    let ghost want = state.spec_want_keys();
    let ghost id = state.spec_search_id();
    let ghost start = state.spec_cursor();
    let mut found: Vec<usize> = Vec::new();
    while found.len() < max
        invariant
            state.wf(),
            found@.len() <= max,
            state.spec_keys() == old(state).spec_keys(),
            state.spec_sign_index() == old(state).spec_sign_index(),
            state.spec_want_keys() == want,
            state.spec_search_id() == id,
            ls == labels(state.spec_keys()),
            want == old(state).spec_want_keys(),
            id == old(state).spec_search_id(),
            start == old(state).spec_cursor(),
            state.spec_cursor() == cursor_after(ls, want, id, start, found@.len() as nat),
            forall|i: int|
                0 <= i < found@.len() ==> search_run(ls, want, id, start, found@.len() as nat)[i]
                    == Some(#[trigger] found@[i] as nat),
        decreases max - found@.len(),
    {
        let ghost k = found@.len() as nat;
        proof {
            lemma_run_snoc(ls, want, id, start, k);
        }
        match state.find_next() {
            Some(index) => {
                found.push(index);
                assert forall|i: int| 0 <= i < found@.len() implies search_run(
                    ls,
                    want,
                    id,
                    start,
                    found@.len() as nat,
                )[i] == Some(#[trigger] found@[i] as nat) by {
                    if i < k {
                        assert(search_run(ls, want, id, start, k + 1)[i] == search_run(
                            ls,
                            want,
                            id,
                            start,
                            k,
                        )[i]);
                    }
                }
            },
            None => {
                return found;
            },
        }
    }
    found
}

/// Status of choosing a key and mechanism for signing: the key must exist,
/// and ECDSA needs an EC key, RSA PKCS #1 an RSA key; other mechanisms are
/// refused.
pub open spec fn sign_init_status(keys: Seq<Key>, mechanism: u64, key: u64) -> ReturnValue {
    if key >= keys.len() {
        ReturnValue::KeyHandleInvalid
    } else if mechanism == CKM_ECDSA {
        if keys[key as int] is Ec {
            ReturnValue::Success
        } else {
            ReturnValue::KeyTypeInconsistent
        }
    } else if mechanism == CKM_RSA_PKCS {
        if keys[key as int] is Rsa {
            ReturnValue::Success
        } else {
            ReturnValue::KeyTypeInconsistent
        }
    } else {
        ReturnValue::MechanismInvalid
    }
}

/// Starts a sign operation. Where the status is not `Success` the session is
/// left as it was; the backend is never called here.
pub fn sign_init(state: &mut State, mechanism: u64, key: u64) -> (r: ReturnValue)
    requires
        old(state).wf(),
    ensures
        final(state).wf(),
        r == sign_init_status(old(state).spec_keys(), mechanism, key),
        r != ReturnValue::Success ==> *final(state) == *old(state),
        r == ReturnValue::Success ==> {
            &&& final(state).spec_sign_index() == Some(key as nat)
            &&& final(state).spec_keys() == old(state).spec_keys()
            &&& final(state).spec_cursor() == old(state).spec_cursor()
            &&& final(state).spec_want_keys() == old(state).spec_want_keys()
            &&& final(state).spec_search_id() == old(state).spec_search_id()
        },
{
    if key >= state.key_count() as u64 {
        return ReturnValue::KeyHandleInvalid;
    }
    let index = key as usize;
    let fits = match state.get_key(index) {
        Some(k) => {
            if mechanism == CKM_ECDSA {
                match k {
                    Key::Ec(_) => ReturnValue::Success,
                    Key::Rsa(_) => ReturnValue::KeyTypeInconsistent,
                }
            } else if mechanism == CKM_RSA_PKCS {
                match k {
                    Key::Rsa(_) => ReturnValue::Success,
                    Key::Ec(_) => ReturnValue::KeyTypeInconsistent,
                }
            } else {
                ReturnValue::MechanismInvalid
            }
        },
        None => ReturnValue::KeyHandleInvalid,
    };
    if fits == ReturnValue::Success {
        state.sign_init(index);
    }
    fits
}

/// The signature a sign call produces for the caller, given what the backend
/// returned (`None` where it declined or failed): nothing where the backend
/// gave nothing, the key's conversion failed, or the signature is empty.
pub open spec fn token_sign_output(key: Key, backend: Option<Seq<u8>>) -> Option<Seq<u8>> {
    match backend {
        Some(raw) => match token_signature(key, raw) {
            Some(s) => if s.len() > 0 {
                Some(s)
            } else {
                None
            },
            None => None,
        },
        None => None,
    }
}

/// What a sign call answers, given the backend's result and the caller's
/// buffer (`None` for a null buffer): the status, the length reported, and
/// the bytes to copy.
pub open spec fn sign_answer_of(key: Key, backend: Option<Seq<u8>>, buffer: Option<u64>) -> (
    ReturnValue,
    nat,
    Option<Seq<u8>>,
) {
    match token_sign_output(key, backend) {
        None => (ReturnValue::GeneralError, 0, None),
        Some(s) => match buffer {
            None => (ReturnValue::Success, s.len(), None),
            Some(capacity) => if capacity < s.len() {
                (ReturnValue::BufferTooSmall, s.len(), None)
            } else {
                (ReturnValue::Success, s.len(), Some(s))
            },
        },
    }
}

/// The answer to a sign call.
pub struct SignAnswer {
    pub status: ReturnValue,
    /// The signature's length: what the caller needs, or what was copied.
    pub length: u64,
    /// The bytes to copy into the caller's buffer.
    pub signature: Option<Vec<u8>>,
}

/// Answers a sign call. With a null buffer only the length is returned; with
/// a buffer that is too small, `BufferTooSmall` and the length, and the
/// pending operation stays as it is.
pub fn sign_answer(key: &Key, backend: &Option<Vec<u8>>, buffer: Option<u64>) -> (r: SignAnswer)
    ensures
        (r.status, r.length as nat, opt_bytes(&r.signature)) == sign_answer_of(
            *key,
            opt_bytes(backend),
            buffer,
        ),
{
    let signature = match backend {
        Some(raw) => match key.sign(raw.as_slice()) {
            Some(s) => {
                if s.len() == 0 {
                    return SignAnswer { status: ReturnValue::GeneralError, length: 0, signature: None };
                }
                s
            },
            None => {
                return SignAnswer { status: ReturnValue::GeneralError, length: 0, signature: None };
            },
        },
        None => {
            return SignAnswer { status: ReturnValue::GeneralError, length: 0, signature: None };
        },
    };
    let length = signature.len() as u64;
    match buffer {
        None => SignAnswer { status: ReturnValue::Success, length, signature: None },
        Some(capacity) => {
            if capacity < length {
                SignAnswer { status: ReturnValue::BufferTooSmall, length, signature: None }
            } else {
                SignAnswer { status: ReturnValue::Success, length, signature: Some(signature) }
            }
        },
    }
}

/// A sign call with a null buffer reports the length that a call with a large
/// enough buffer then fills: for the same backend result, for an RSA key
/// whenever the backend's two signatures have the same length, and for an EC
/// key for any two results, since its signatures are padded to a fixed width.
pub proof fn null_buffer_length_matches(
    key: Key,
    first: Option<Seq<u8>>,
    second: Option<Seq<u8>>,
    capacity: u64,
)
    requires
        sign_answer_of(key, first, None).0 == ReturnValue::Success,
        sign_answer_of(key, second, Some(capacity)).0 == ReturnValue::Success,
        first == second || key is Ec || (key is Rsa && first is Some && second is Some
            && first->0.len() == second->0.len()),
    ensures
        sign_answer_of(key, first, None).1 == sign_answer_of(key, second, Some(capacity)).1,
        sign_answer_of(key, second, Some(capacity)).2 matches Some(s) && s.len() == sign_answer_of(
            key,
            first,
            None,
        ).1,
{
    if let Key::Ec(e) = key {
        let l = e.spec_curve().spec_param_length();
        if let Some((r, s)) = der_integer_pair(first->0) {
            assert(left_pad(r, l).len() == l && left_pad(s, l).len() == l);
        }
        if let Some((r, s)) = der_integer_pair(second->0) {
            assert(left_pad(r, l).len() == l && left_pad(s, l).len() == l);
        }
    }
}

} // verus!
