//! ASN.1 DER encodings of EC keys and signatures. Every call into the
//! ASN.1 crate goes through this module.
use vstd::prelude::*;

use simple_asn1::ASN1Block;

use crate::key::{EcCurve, EcKey, Key};
use crate::wire::{left_pad, opt_bytes};

verus! {

/// The DER length octets of a length below 65536.
pub open spec fn der_length(n: nat) -> Seq<u8> {
    if n < 0x80 {
        seq![n as u8]
    } else if n < 0x100 {
        seq![0x81u8, n as u8]
    } else {
        seq![0x82u8, (n / 0x100) as u8, (n % 0x100) as u8]
    }
}

/// The DER encoding of an OCTET STRING holding `content`.
pub open spec fn der_octet_string(content: Seq<u8>) -> Seq<u8> {
    seq![0x04u8] + der_length(content.len()) + content
}

/// Base-128 digits of `n` but the last, each with the high bit set.
pub open spec fn base128_leading(n: nat) -> Seq<u8>
    decreases n,
{
    if n == 0 {
        seq![]
    } else {
        base128_leading(n / 0x80) + seq![(0x80 + n % 0x80) as u8]
    }
}

/// One arc of an object identifier in base 128, high bit set on all digits
/// but the last.
pub open spec fn base128(n: nat) -> Seq<u8> {
    base128_leading(n / 0x80) + seq![(n % 0x80) as u8]
}

/// The arcs after the first two, one after another in base 128.
pub open spec fn oid_arcs(arcs: Seq<u64>) -> Seq<u8>
    decreases arcs.len(),
{
    if arcs.len() == 0 {
        seq![]
    } else {
        base128(arcs[0] as nat) + oid_arcs(arcs.drop_first())
    }
}

/// The content octets of an object identifier: the first two arcs in one
/// byte, then the others.
pub open spec fn oid_content(arcs: Seq<u64>) -> Seq<u8> {
    seq![(40 * arcs[0] + arcs[1]) as u8] + oid_arcs(arcs.subrange(2, arcs.len() as int))
}

/// The DER encoding of the OBJECT IDENTIFIER with these arcs.
pub open spec fn der_object_identifier(arcs: Seq<u64>) -> Seq<u8> {
    seq![0x06u8] + der_length(oid_content(arcs).len()) + oid_content(arcs)
}

/// One decoded DER block, with what a signature needs of it: an INTEGER's
/// big-endian magnitude, or a SEQUENCE with the magnitude of each member that
/// is an INTEGER (`None` for the others).
pub enum DerBlock {
    Integer(Vec<u8>),
    Sequence(Vec<Option<Vec<u8>>>),
    Other,
}

/// A decoded DER block as contracts see it.
pub enum DerItem {
    Integer(Seq<u8>),
    Sequence(Seq<Option<Seq<u8>>>),
    Other,
}

impl View for DerBlock {
    type V = DerItem;

    open spec fn view(&self) -> DerItem {
        match self {
            DerBlock::Integer(n) => DerItem::Integer(n@),
            DerBlock::Sequence(items) => DerItem::Sequence(
                items@.map_values(|i: Option<Vec<u8>>| opt_bytes(&i)),
            ),
            DerBlock::Other => DerItem::Other,
        }
    }
}

/// What the ASN.1 crate decodes from DER bytes: the top-level blocks, or
/// nothing where the bytes are not DER.
pub uninterp spec fn der_blocks(der: Seq<u8>) -> Option<Seq<DerItem>>;

/// The two integers of an ECDSA signature: there must be exactly one block,
/// a SEQUENCE of exactly two INTEGERs.
pub open spec fn integer_pair_of(blocks: Seq<DerItem>) -> Option<(Seq<u8>, Seq<u8>)> {
    if blocks.len() == 1 {
        match blocks[0] {
            DerItem::Sequence(items) => if items.len() == 2 && items[0] is Some && items[1] is Some {
                Some((items[0]->0, items[1]->0))
            } else {
                None
            },
            _ => None,
        }
    } else {
        None
    }
}

/// The magnitudes of r and s in a DER signature `SEQUENCE { INTEGER r, INTEGER s }`.
pub open spec fn der_integer_pair(der: Seq<u8>) -> Option<(Seq<u8>, Seq<u8>)> {
    match der_blocks(der) {
        Some(blocks) => integer_pair_of(blocks),
        None => None,
    }
}

/// Relies on simple_asn1::to_der for an `OctetString` block: the tag 0x04,
/// the length in short form below 128 and in long form above, the content.
#[verifier::external_body]
fn encode_octet_string(content: &Vec<u8>) -> (r: Option<Vec<u8>>)
    requires
        content@.len() < 0x1_0000,
    ensures
        r is Some,
        r->0@ == der_octet_string(content@),
{
    simple_asn1::to_der(&ASN1Block::OctetString(0, content.clone())).ok()
}

/// Relies on simple_asn1::to_der for an `ObjectIdentifier` block: the tag
/// 0x06, the length, the first two arcs as `40 * a + b`, the others in base 128.
#[verifier::external_body]
fn encode_object_identifier(arcs: &Vec<u64>) -> (r: Option<Vec<u8>>)
    requires
        arcs@.len() >= 2,
        arcs@[0] <= 1,
        arcs@[1] <= 39,
        oid_content(arcs@).len() < 0x1_0000,
    ensures
        r is Some,
        r->0@ == der_object_identifier(arcs@),
{
    let arcs = arcs.iter().map(|a| simple_asn1::BigUint::from(*a)).collect();
    simple_asn1::to_der(&ASN1Block::ObjectIdentifier(0, simple_asn1::OID::new(arcs))).ok()
}

/// Relies on simple_asn1::from_der and BigInt::to_bytes_be: the top-level
/// blocks of DER bytes, INTEGERs as their magnitudes.
#[verifier::external_body]
fn decode_der(der: &[u8]) -> (r: Option<Vec<DerBlock>>)
    ensures
        r is Some <==> der_blocks(der@) is Some,
        r matches Some(v) ==> der_blocks(der@) == Some(v@.map_values(|b: DerBlock| b@)),
{
    let item = |b: &ASN1Block| match b {
        ASN1Block::Integer(_, n) => Some(n.to_bytes_be().1),
        _ => None,
    };
    Some(simple_asn1::from_der(der).ok()?.iter().map(|b| match b {
        ASN1Block::Integer(_, n) => DerBlock::Integer(n.to_bytes_be().1),
        ASN1Block::Sequence(_, items) => DerBlock::Sequence(items.iter().map(item).collect()),
        _ => DerBlock::Other,
    }).collect())
}

fn copy_bytes(s: &[u8]) -> (r: Vec<u8>)
    ensures
        r@ == s@,
{
    let mut r: Vec<u8> = Vec::new();
    crate::wire::push_bytes(&mut r, s);
    r
}

/// Picks r and s from the decoded blocks of an ECDSA signature: exactly one
/// block, a SEQUENCE of exactly two INTEGERs; anything else gives `None`.
pub fn integer_pair(blocks: &Vec<DerBlock>) -> (r: Option<(Vec<u8>, Vec<u8>)>)
    ensures
        r is Some <==> integer_pair_of(blocks@.map_values(|b: DerBlock| b@)) is Some,
        r matches Some(p) ==> integer_pair_of(blocks@.map_values(|b: DerBlock| b@)) == Some(
            (p.0@, p.1@),
        ),
{
    let ghost items_view = blocks@.map_values(|b: DerBlock| b@);
    if blocks.len() != 1 {
        return None;
    }
    assert(items_view[0] == blocks@[0]@);
    match &blocks[0] {
        DerBlock::Sequence(items) => {
            if items.len() != 2 {
                return None;
            }
            let ghost iv = items@.map_values(|i: Option<Vec<u8>>| opt_bytes(&i));
            assert(iv[0] == opt_bytes(&items@[0]));
            assert(iv[1] == opt_bytes(&items@[1]));
            match (&items[0], &items[1]) {
                (Some(r), Some(s)) => Some((copy_bytes(r.as_slice()), copy_bytes(s.as_slice()))),
                _ => None,
            }
        },
        _ => None,
    }
}

/// The magnitudes of r and s in a DER signature, or `None` where it is not
/// exactly `SEQUENCE { INTEGER r, INTEGER s }`.
pub(crate) fn decode_integer_pair(der: &[u8]) -> (r: Option<(Vec<u8>, Vec<u8>)>)
    ensures
        r matches Some(p) ==> der_integer_pair(der@) == Some((p.0@, p.1@)),
        r is None ==> der_integer_pair(der@) is None,
{
    match decode_der(der) {
        Some(blocks) => integer_pair(&blocks),
        None => None,
    }
}

/// The arcs of the curve's object identifier.
pub open spec fn curve_oid(curve: EcCurve) -> Seq<u64> {
    match curve {
        EcCurve::P256 => seq![1u64, 2, 840, 10045, 3, 1, 7],
        EcCurve::P384 => seq![1u64, 3, 132, 0, 34],
        EcCurve::P521 => seq![1u64, 3, 132, 0, 35],
    }
}

/// The signature `r ‖ s` with both halves padded to `l` bytes, where neither is
/// longer than that.
pub open spec fn fixed_width_signature(pair: Option<(Seq<u8>, Seq<u8>)>, l: nat) -> Option<
    Seq<u8>,
> {
    match pair {
        Some((r, s)) => if r.len() <= l && s.len() <= l {
            Some(left_pad(r, l) + left_pad(s, l))
        } else {
            None
        },
        None => None,
    }
}

fn curve_oid_arcs(curve: EcCurve) -> (r: Vec<u64>)
    ensures
        r@ == curve_oid(curve),
{
    match curve {
        EcCurve::P256 => vec![1u64, 2, 840, 10045, 3, 1, 7],
        EcCurve::P384 => vec![1u64, 3, 132, 0, 34],
        EcCurve::P521 => vec![1u64, 3, 132, 0, 35],
    }
}

/// Appends `s` preceded by zeros up to `l` bytes.
fn push_padded(out: &mut Vec<u8>, s: &[u8], l: usize)
    requires
        s@.len() <= l,
    ensures
        final(out)@ == old(out)@ + left_pad(s@, l as nat),
{
    crate::wire::push_zeros(out, l - s.len());
    crate::wire::push_bytes(out, s);
    assert(final(out)@ =~= old(out)@ + left_pad(s@, l as nat));
}

proof fn lemma_base128_short(n: nat)
    requires
        n < 0x4000,
    ensures
        base128(n).len() <= 3,
{
    assert(n / 0x80 / 0x80 == 0) by (nonlinear_arith)
        requires
            n < 0x4000,
    ;
    reveal_with_fuel(base128_leading, 3);
}

proof fn lemma_oid_arcs_short(arcs: Seq<u64>)
    requires
        forall|i: int| 0 <= i < arcs.len() ==> arcs[i] < 0x4000,
    ensures
        oid_arcs(arcs).len() <= 3 * arcs.len(),
    decreases arcs.len(),
{
    if arcs.len() > 0 {
        lemma_base128_short(arcs[0] as nat);
        lemma_oid_arcs_short(arcs.drop_first());
    }
}

proof fn lemma_oid_lengths(curve: EcCurve)
    ensures
        oid_content(curve_oid(curve)).len() < 0x1_0000,
{
    let arcs = curve_oid(curve);
    lemma_oid_arcs_short(arcs.subrange(2, arcs.len() as int));
}

impl EcKey {
    /// Returns the point (`0x04 ‖ X ‖ Y`, coordinates padded), which is the public
    /// key of this EC key, as a DER OCTET STRING.
    pub fn point_as_asn1(&self) -> (r: Vec<u8>)
        requires
            self.wf(),
        ensures
            r@ == der_octet_string(self.spec_point()),
    {
        let l = self.curve().param_length();
        let mut point: Vec<u8> = Vec::new();
        point.push(4u8);
        push_padded(&mut point, self.x(), l);
        push_padded(&mut point, self.y(), l);
        assert(point@ =~= self.spec_point());
        match encode_octet_string(&point) {
            Some(der) => der,
            None => Vec::new(),
        }
    }

    /// Returns the params of this EC key, the object identifier of its curve, as
    /// DER.
    pub fn params_as_asn1(&self) -> (r: Vec<u8>)
        ensures
            r@ == der_object_identifier(curve_oid(self.spec_curve())),
    {
        let arcs = curve_oid_arcs(self.curve());
        proof {
            lemma_oid_lengths(self.spec_curve());
        }
        match encode_object_identifier(&arcs) {
            Some(der) => der,
            None => Vec::new(),
        }
    }

    /// Reads a DER signature and returns `r ‖ s`, each padded to the curve's
    /// parameter length.
    pub fn signature_from_asn1(&self, signature: &[u8]) -> (r: Option<Vec<u8>>)
        ensures
            opt_bytes(&r) == fixed_width_signature(
                der_integer_pair(signature@),
                self.spec_curve().spec_param_length(),
            ),
    {
        let l = self.curve().param_length();
        match decode_integer_pair(signature) {
            Some((r, s)) => {
                if r.len() <= l && s.len() <= l {
                    let mut out: Vec<u8> = Vec::new();
                    push_padded(&mut out, r.as_slice(), l);
                    push_padded(&mut out, s.as_slice(), l);
                    assert(out@ =~= left_pad(r@, l as nat) + left_pad(s@, l as nat));
                    Some(out)
                } else {
                    None
                }
            },
            None => None,
        }
    }
}

impl EcKey {
    /// Turns what the backend returned for this key (a DER signature) into the
    /// signature reported to the token's caller: `r ‖ s`, each padded.
    pub fn sign(&self, raw: &[u8]) -> (r: Option<Vec<u8>>)
        ensures
            opt_bytes(&r) == fixed_width_signature(
                der_integer_pair(raw@),
                self.spec_curve().spec_param_length(),
            ),
    {
        self.signature_from_asn1(raw)
    }
}

/// The signature reported to the token's caller, given what the backend
/// returned for the key.
pub open spec fn token_signature(key: Key, raw: Seq<u8>) -> Option<Seq<u8>> {
    match key {
        Key::Rsa(_) => Some(raw),
        Key::Ec(e) => fixed_width_signature(der_integer_pair(raw), e.spec_curve().spec_param_length()),
    }
}

impl Key {
    /// Turns what the backend returned for this key into the signature reported
    /// to the token's caller.
    pub fn sign(&self, raw: &[u8]) -> (r: Option<Vec<u8>>)
        ensures
            opt_bytes(&r) == token_signature(*self, raw@),
    {
        match self {
            Key::Rsa(key) => key.sign(raw),
            Key::Ec(key) => key.sign(raw),
        }
    }
}

} // verus!
