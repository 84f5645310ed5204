//! Keys as the SSH agent shows them: an algorithm, an alias, and the public
//! key blob in SSH wire format.
use vstd::prelude::*;
use vstd::string::StringExecFns;

use crate::key::{EcCurve, Key as PublicKey, MAX_MODULUS_LEN};
use crate::wire::{left_pad, prefixed, push_bytes, push_prefixed, push_u32, push_zeros};

verus! {

/// Available elliptic curves, each a NIST P curve.
#[derive(Clone, Copy, Debug, PartialEq, Eq, Structural)]
pub enum Curve {
    P256,
    P384,
    P521,
}

#[derive(Clone, Copy, Debug, PartialEq, Eq, Structural)]
pub enum Algorithm {
    Rsa,
    Ec(Curve),
}

/// A key stored in the backend, as the agent names it.
pub struct Key {
    pub algorithm: Algorithm,
    pub alias: String,
}

/// The algorithm that a listing's algorithm name and size in bits stand for.
pub open spec fn parsed_algorithm(name: Seq<char>, size: u64) -> Option<Algorithm> {
    if name == "RSA"@ {
        Some(Algorithm::Rsa)
    } else if name == "EC"@ {
        if size == 256 {
            Some(Algorithm::Ec(Curve::P256))
        } else if size == 384 {
            Some(Algorithm::Ec(Curve::P384))
        } else if size == 521 {
            Some(Algorithm::Ec(Curve::P521))
        } else {
            None
        }
    } else {
        None
    }
}

impl Algorithm {
    /// Finds the algorithm for the fields of a listing entry. Returns `None`
    /// where the algorithm is unknown or the size does not fit it. RSA keys of
    /// every size share one algorithm.
    pub fn parse(algorithm: &str, size: u64) -> (r: Option<Algorithm>)
        ensures
            r == parsed_algorithm(algorithm@, size),
    {
        let name = String::from_str(algorithm);
        if name == String::from_str("RSA") {
            Some(Algorithm::Rsa)
        } else if name == String::from_str("EC") {
            if size == 256 {
                Some(Algorithm::Ec(Curve::P256))
            } else if size == 384 {
                Some(Algorithm::Ec(Curve::P384))
            } else if size == 521 {
                Some(Algorithm::Ec(Curve::P521))
            } else {
                None
            }
        } else {
            None
        }
    }
}

/// The bytes of "nistp256", "nistp384" or "nistp521".
pub open spec fn curve_name(c: Curve) -> Seq<u8> {
    match c {
        Curve::P256 => seq![0x6eu8, 0x69, 0x73, 0x74, 0x70, 0x32, 0x35, 0x36],
        Curve::P384 => seq![0x6eu8, 0x69, 0x73, 0x74, 0x70, 0x33, 0x38, 0x34],
        Curve::P521 => seq![0x6eu8, 0x69, 0x73, 0x74, 0x70, 0x35, 0x32, 0x31],
    }
}

/// The bytes of "ecdsa-sha2-".
pub open spec fn ecdsa_prefix() -> Seq<u8> {
    seq![0x65u8, 0x63, 0x64, 0x73, 0x61, 0x2d, 0x73, 0x68, 0x61, 0x32, 0x2d]
}

/// The bytes of "ssh-rsa".
pub open spec fn ssh_rsa() -> Seq<u8> {
    seq![0x73u8, 0x73, 0x68, 0x2d, 0x72, 0x73, 0x61]
}

impl Curve {
    pub open spec fn spec_param_length(self) -> nat {
        match self {
            Curve::P256 => 32,
            Curve::P384 => 48,
            Curve::P521 => 66,
        }
    }

    /// Returns the full curve name, e.g. "nistp256".
    pub fn name(&self) -> (r: &'static str)
        ensures
            *self == Curve::P256 ==> r@ == "nistp256"@,
            *self == Curve::P384 ==> r@ == "nistp384"@,
            *self == Curve::P521 ==> r@ == "nistp521"@,
    {
        match self {
            Curve::P256 => "nistp256",
            Curve::P384 => "nistp384",
            Curve::P521 => "nistp521",
        }
    }

    /// The curve name as bytes.
    pub fn name_bytes(&self) -> (r: Vec<u8>)
        ensures
            r@ == curve_name(*self),
    {
        match self {
            Curve::P256 => vec![0x6eu8, 0x69, 0x73, 0x74, 0x70, 0x32, 0x35, 0x36],
            Curve::P384 => vec![0x6eu8, 0x69, 0x73, 0x74, 0x70, 0x33, 0x38, 0x34],
            Curve::P521 => vec![0x6eu8, 0x69, 0x73, 0x74, 0x70, 0x35, 0x32, 0x31],
        }
    }

    /// The curve as the key model names it.
    pub open spec fn spec_ec_curve(self) -> EcCurve {
        match self {
            Curve::P256 => EcCurve::P256,
            Curve::P384 => EcCurve::P384,
            Curve::P521 => EcCurve::P521,
        }
    }

    pub fn ec_curve(&self) -> (r: EcCurve)
        ensures
            r == self.spec_ec_curve(),
            r.spec_param_length() == self.spec_param_length(),
    {
        match self {
            Curve::P256 => EcCurve::P256,
            Curve::P384 => EcCurve::P384,
            Curve::P521 => EcCurve::P521,
        }
    }

    pub open spec fn spec_from_ec_curve(c: EcCurve) -> Curve {
        match c {
            EcCurve::P256 => Curve::P256,
            EcCurve::P384 => Curve::P384,
            EcCurve::P521 => Curve::P521,
        }
    }

    pub fn from_ec_curve(c: EcCurve) -> (r: Curve)
        ensures
            r == Self::spec_from_ec_curve(c),
            r.spec_param_length() == c.spec_param_length(),
    {
        match c {
            EcCurve::P256 => Curve::P256,
            EcCurve::P384 => Curve::P384,
            EcCurve::P521 => Curve::P521,
        }
    }
}

/// The SSH wire blob of an RSA key: the name "ssh-rsa", the exponent 65537,
/// and the modulus with a zero byte always put in front of it.
pub open spec fn rsa_blob(modulus: Seq<u8>) -> Seq<u8> {
    prefixed(ssh_rsa()) + prefixed(seq![1u8, 0, 1]) + prefixed(seq![0u8] + modulus)
}

/// The SSH wire blob of an EC key: "ecdsa-sha2-" and the curve name, the
/// curve name, and the uncompressed point with both coordinates padded.
pub open spec fn ec_blob(curve: Curve, x: Seq<u8>, y: Seq<u8>) -> Seq<u8> {
    let l = curve.spec_param_length();
    prefixed(ecdsa_prefix() + curve_name(curve)) + prefixed(curve_name(curve)) + prefixed(
        seq![4u8] + left_pad(x, l) + left_pad(y, l),
    )
}

/// Creates the RSA key blob for the given modulus. The exponent is always
/// written as 65537.
pub fn from_rsa(modulus: &[u8]) -> (r: Vec<u8>)
    requires
        modulus@.len() <= MAX_MODULUS_LEN,
    ensures
        r@ == rsa_blob(modulus@),
{
    let mut blob: Vec<u8> = Vec::new();
    let name: Vec<u8> = vec![0x73u8, 0x73, 0x68, 0x2d, 0x72, 0x73, 0x61];
    push_prefixed(&mut blob, name.as_slice());
    let exponent: Vec<u8> = vec![1u8, 0, 1];
    push_prefixed(&mut blob, exponent.as_slice());
    push_u32(&mut blob, (modulus.len() + 1) as u32);
    blob.push(0u8);
    push_bytes(&mut blob, modulus);
    assert(blob@ =~= rsa_blob(modulus@));
    blob
}

/// Creates the EC key blob for the given curve and point.
pub fn from_ec(curve: Curve, x: &[u8], y: &[u8]) -> (r: Vec<u8>)
    requires
        x@.len() <= curve.spec_param_length(),
        y@.len() <= curve.spec_param_length(),
    ensures
        r@ == ec_blob(curve, x@, y@),
{
    let l: usize = match curve {
        Curve::P256 => 32,
        Curve::P384 => 48,
        Curve::P521 => 66,
    };
    let name = curve.name_bytes();
    let mut algorithm: Vec<u8> = vec![0x65u8, 0x63, 0x64, 0x73, 0x61, 0x2d, 0x73, 0x68, 0x61, 0x32, 0x2d];
    push_bytes(&mut algorithm, name.as_slice());
    let mut blob: Vec<u8> = Vec::new();
    push_prefixed(&mut blob, algorithm.as_slice());
    push_prefixed(&mut blob, name.as_slice());
    push_u32(&mut blob, (2 * l + 1) as u32);
    blob.push(4u8);
    push_zeros(&mut blob, l - x.len());
    push_bytes(&mut blob, x);
    push_zeros(&mut blob, l - y.len());
    push_bytes(&mut blob, y);
    assert(left_pad(x@, l as nat) =~= crate::wire::zeros((l - x@.len()) as nat) + x@);
    assert(left_pad(y@, l as nat) =~= crate::wire::zeros((l - y@.len()) as nat) + y@);
    assert(blob@ =~= ec_blob(curve, x@, y@));
    blob
}

/// The blob of a key of the key model.
pub open spec fn blob_of(k: PublicKey) -> Seq<u8> {
    match k {
        PublicKey::Rsa(r) => rsa_blob(r.spec_modulus()),
        PublicKey::Ec(e) => ec_blob(Curve::spec_from_ec_curve(e.spec_curve()), e.spec_x(), e.spec_y()),
    }
}

/// The algorithm of a key of the key model.
pub open spec fn algorithm_of(k: PublicKey) -> Algorithm {
    match k {
        PublicKey::Rsa(_) => Algorithm::Rsa,
        PublicKey::Ec(e) => Algorithm::Ec(Curve::spec_from_ec_curve(e.spec_curve())),
    }
}

/// The SSH wire blob of a key.
pub fn blob(key: &PublicKey) -> (r: Vec<u8>)
    requires
        key.wf(),
    ensures
        r@ == blob_of(*key),
{
    match key {
        PublicKey::Rsa(k) => from_rsa(k.modulus()),
        PublicKey::Ec(k) => from_ec(Curve::from_ec_curve(k.curve()), k.x(), k.y()),
    }
}

/// The key as the agent names it.
pub fn identity(key: &PublicKey) -> (r: Key)
    ensures
        r.algorithm == algorithm_of(*key),
        r.alias@ == key.spec_label(),
{
    let algorithm = match key {
        PublicKey::Rsa(_) => Algorithm::Rsa,
        PublicKey::Ec(k) => Algorithm::Ec(Curve::from_ec_curve(k.curve())),
    };
    Key { algorithm, alias: String::from_str(key.label()) }
}

} // verus!
