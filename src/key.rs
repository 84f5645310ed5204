//! The public half of a key held by the backend, as the token interface
//! reports it.
use vstd::prelude::*;

use crate::wire::left_pad;

verus! {

/// Longest RSA modulus this library holds: in the SSH blob a zero byte and
/// the modulus stand under one 32-bit length.
pub const MAX_MODULUS_LEN: usize = 0xffff_fffe;

/// An EC key must use one of these curves.
#[derive(Clone, Copy, Debug, PartialEq, Eq, Structural)]
pub enum EcCurve {
    P256,
    P384,
    P521,
}

impl EcCurve {
    /// Byte length of each coordinate and signature half on this curve.
    pub open spec fn spec_param_length(self) -> nat {
        match self {
            EcCurve::P256 => 32,
            EcCurve::P384 => 48,
            EcCurve::P521 => 66,
        }
    }

    /// Returns the required parameter length for this curve. All values
    /// (x, y, r and s) are prepended with zeroes to this length.
    pub fn param_length(&self) -> (r: usize)
        ensures
            r == self.spec_param_length(),
    {
        match self {
            EcCurve::P256 => 32,
            EcCurve::P384 => 48,
            EcCurve::P521 => 66,
        }
    }
}

/// A public RSA key.
pub struct RsaKey {
    label: String,
    modulus: Vec<u8>,
    exponent: Vec<u8>,
}

/// A public EC key.
pub struct EcKey {
    label: String,
    curve: EcCurve,
    x: Vec<u8>,
    y: Vec<u8>,
}

/// A public key.
pub enum Key {
    Rsa(RsaKey),
    Ec(EcKey),
}

impl RsaKey {
    pub closed spec fn spec_label(&self) -> Seq<char> {
        self.label@
    }

    pub closed spec fn spec_modulus(&self) -> Seq<u8> {
        self.modulus@
    }

    pub closed spec fn spec_exponent(&self) -> Seq<u8> {
        self.exponent@
    }

    pub open spec fn wf(&self) -> bool {
        self.spec_modulus().len() <= MAX_MODULUS_LEN
    }

    /// A key with the given components, or `None` where the modulus is longer
    /// than `MAX_MODULUS_LEN`.
    pub fn new(label: String, modulus: Vec<u8>, exponent: Vec<u8>) -> (r: Option<RsaKey>)
        ensures
            r is Some <==> modulus@.len() <= MAX_MODULUS_LEN,
            r matches Some(k) ==> k.wf() && k.spec_label() == label@ && k.spec_modulus()
                == modulus@ && k.spec_exponent() == exponent@,
    {
        if modulus.len() <= MAX_MODULUS_LEN {
            Some(RsaKey { label, modulus, exponent })
        } else {
            None
        }
    }

    /// Returns the modulus of this key. Its size equals the key length.
    pub fn modulus(&self) -> (r: &[u8])
        ensures
            r@ == self.spec_modulus(),
    {
        self.modulus.as_slice()
    }

    /// Returns the exponent of this key, usually 65537.
    pub fn exponent(&self) -> (r: &[u8])
        ensures
            r@ == self.spec_exponent(),
    {
        self.exponent.as_slice()
    }

    /// Turns what the backend returned for this key into the signature
    /// reported to the token's caller: for RSA it is passed on unchanged.
    pub fn sign(&self, raw: &[u8]) -> (r: Option<Vec<u8>>)
        ensures
            r matches Some(s) && s@ == raw@,
    {
        let mut out: Vec<u8> = Vec::new();
        crate::wire::push_bytes(&mut out, raw);
        Some(out)
    }
}

impl EcKey {
    pub closed spec fn spec_label(&self) -> Seq<char> {
        self.label@
    }

    pub closed spec fn spec_curve(&self) -> EcCurve {
        self.curve
    }

    pub closed spec fn spec_x(&self) -> Seq<u8> {
        self.x@
    }

    pub closed spec fn spec_y(&self) -> Seq<u8> {
        self.y@
    }

    pub open spec fn wf(&self) -> bool {
        &&& self.spec_x().len() <= self.spec_curve().spec_param_length()
        &&& self.spec_y().len() <= self.spec_curve().spec_param_length()
    }

    /// The uncompressed point `0x04 ‖ X ‖ Y`, each coordinate padded to the
    /// curve's parameter length.
    pub open spec fn spec_point(&self) -> Seq<u8> {
        let l = self.spec_curve().spec_param_length();
        seq![4u8] + left_pad(self.spec_x(), l) + left_pad(self.spec_y(), l)
    }

    /// A key with the given point, or `None` where a coordinate is longer than
    /// the curve's parameter length.
    pub fn new(label: String, curve: EcCurve, x: Vec<u8>, y: Vec<u8>) -> (r: Option<EcKey>)
        ensures
            r is Some <==> (x@.len() <= curve.spec_param_length() && y@.len()
                <= curve.spec_param_length()),
            r matches Some(k) ==> k.wf() && k.spec_label() == label@ && k.spec_curve() == curve
                && k.spec_x() == x@ && k.spec_y() == y@,
    {
        let l = curve.param_length();
        if x.len() <= l && y.len() <= l {
            Some(EcKey { label, curve, x, y })
        } else {
            None
        }
    }

    /// The curve of this key.
    pub fn curve(&self) -> (r: EcCurve)
        ensures
            r == self.spec_curve(),
    {
        self.curve
    }

    /// The x coordinate, as the backend listed it.
    pub fn x(&self) -> (r: &[u8])
        ensures
            r@ == self.spec_x(),
    {
        self.x.as_slice()
    }

    /// The y coordinate, as the backend listed it.
    pub fn y(&self) -> (r: &[u8])
        ensures
            r@ == self.spec_y(),
    {
        self.y.as_slice()
    }
}

impl Key {
    pub open spec fn spec_label(&self) -> Seq<char> {
        match self {
            Key::Rsa(k) => k.spec_label(),
            Key::Ec(k) => k.spec_label(),
        }
    }

    pub open spec fn wf(&self) -> bool {
        match self {
            Key::Rsa(k) => k.wf(),
            Key::Ec(k) => k.wf(),
        }
    }

    /// Returns the human-readable label of this key.
    pub fn label(&self) -> (r: &str)
        ensures
            r@ == self.spec_label(),
    {
        match self {
            Key::Rsa(key) => key.label.as_str(),
            Key::Ec(key) => key.label.as_str(),
        }
    }

    /// The signature algorithm the backend is asked for: the token's callers
    /// hand over data that is already hashed and padded.
    pub fn backend_algorithm(&self) -> (r: &'static str)
        ensures
            self is Rsa ==> r@ == "NONEwithRSA"@,
            self is Ec ==> r@ == "NONEwithECDSA"@,
    {
        match self {
            Key::Rsa(_) => "NONEwithRSA",
            Key::Ec(_) => "NONEwithECDSA",
        }
    }
}

} // verus!
