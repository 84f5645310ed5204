//! The SSH agent protocol: the identity cache, the identities answer, sign
//! requests and sign responses. Every message is `[length][type][payload]`
//! with big-endian integers; the length counts the type byte and the payload.
use vstd::prelude::*;
use vstd::utf8::encode_utf8;

use crate::asn1::der_integer_pair;
use crate::identity::{
    blob, ec_blob, identity, parsed_algorithm, rsa_blob, Algorithm, Curve, Key,
};
use crate::listing::{
    hex_member, json_key_listing, parsed_from, to_list, usable_entries, ListingEntry,
};
use crate::wire::{
    be32, be32_value, opt_bytes, prefixed, push_bytes, push_prefixed, push_u32, read_u32,
};

verus! {

pub const SSH_AGENTC_REQUEST_IDENTITIES: u8 = 11;

pub const SSH_AGENTC_SIGN_REQUEST: u8 = 13;

pub const SSH_AGENT_FAILURE: u8 = 5;

pub const SSH_AGENT_IDENTITIES_ANSWER: u8 = 12;

pub const SSH_AGENT_SIGN_RESPONSE: u8 = 14;

/// Flag of a sign request asking for an RSA signature with SHA-256.
pub const SSH_AGENT_RSA_SHA2_256: u32 = 2;

/// Flag of a sign request asking for an RSA signature with SHA-512.
pub const SSH_AGENT_RSA_SHA2_512: u32 = 4;

/// One entry of the identity cache, as contracts see it: the blob, the
/// algorithm and the alias.
pub type IdentityView = (Seq<u8>, Algorithm, Seq<char>);

/// The identities known to the agent, with their blobs, in listing order.
pub struct IdentityCache {
    entries: Vec<(Vec<u8>, Key)>,
}

pub open spec fn identity_view(e: (Vec<u8>, Key)) -> IdentityView {
    (e.0@, e.1.algorithm, e.1.alias@)
}

impl View for IdentityCache {
    type V = Seq<IdentityView>;

    closed spec fn view(&self) -> Seq<IdentityView> {
        self.entries@.map_values(|e: (Vec<u8>, Key)| identity_view(e))
    }
}

/// The cache entry for a usable listing entry.
pub open spec fn entry_identity(e: ListingEntry) -> IdentityView {
    let algorithm = parsed_algorithm(e.algorithm->0@, e.size->0)->0;
    let blob = match algorithm {
        Algorithm::Rsa => rsa_blob(hex_member(e.modulus)->0),
        Algorithm::Ec(c) => ec_blob(c, hex_member(e.x)->0, hex_member(e.y)->0),
    };
    (blob, algorithm, e.alias->0@)
}

/// The first entry with the given blob.
pub open spec fn lookup(cache: Seq<IdentityView>, blob: Seq<u8>) -> Option<IdentityView> {
    if exists|i: int| 0 <= i < cache.len() && cache[i].0 == blob {
        let i = choose|i: int|
            0 <= i < cache.len() && cache[i].0 == blob && forall|j: int|
                0 <= j < i ==> cache[j].0 != blob;
        Some(cache[i])
    } else {
        None
    }
}

/// The UTF-8 bytes of a text.
#[verifier::opaque]
pub open spec fn utf8_bytes(s: Seq<char>) -> Seq<u8> {
    encode_utf8(s)
}

/// The records of an identities answer: each blob and alias, length-prefixed.
pub open spec fn identity_records(es: Seq<IdentityView>) -> Seq<u8>
    decreases es.len(),
{
    if es.len() == 0 {
        seq![]
    } else {
        identity_records(es.drop_last()) + prefixed(es.last().0) + prefixed(utf8_bytes(es.last().2))
    }
}

/// Whether an identities answer for these entries fits the protocol's
/// 32-bit lengths.
pub open spec fn answer_fits(es: Seq<IdentityView>) -> bool {
    es.len() <= u32::MAX && 5 + identity_records(es).len() <= u32::MAX
}

/// The identities answer: the type, the number of keys, and the records.
pub open spec fn identities_answer(es: Seq<IdentityView>) -> Seq<u8> {
    prefixed(seq![SSH_AGENT_IDENTITIES_ANSWER] + be32(es.len()) + identity_records(es))
}

/// The fixed failure frame.
pub open spec fn failure() -> Seq<u8> {
    seq![0u8, 0, 0, 1, SSH_AGENT_FAILURE]
}

/// Returns the fixed failure frame.
pub fn failure_frame() -> (r: Vec<u8>)
    ensures
        r@ == failure(),
{
    let r: Vec<u8> = vec![0u8, 0, 0, 1, SSH_AGENT_FAILURE];
    assert(r@ =~= failure());
    r
}

proof fn lemma_records_grow(es: Seq<IdentityView>, i: int)
    requires
        0 <= i <= es.len(),
    ensures
        identity_records(es.subrange(0, i)).len() <= identity_records(es).len(),
    decreases es.len() - i,
{
    if i < es.len() {
        lemma_records_grow(es, i + 1);
        assert(es.subrange(0, i + 1).drop_last() =~= es.subrange(0, i));
    } else {
        assert(es.subrange(0, i) =~= es);
    }
}

proof fn lemma_record_step(es: Seq<IdentityView>, i: int, b: Seq<u8>, alias: Seq<u8>)
    requires
        0 <= i < es.len(),
        b == es[i].0,
        alias == encode_utf8(es[i].2),
    ensures
        identity_records(es.subrange(0, i + 1)) == identity_records(es.subrange(0, i)) + prefixed(b)
            + prefixed(alias),
{
    reveal(utf8_bytes);
    assert(es.subrange(0, i + 1).drop_last() =~= es.subrange(0, i));
}

/// Whether two byte strings are equal.
pub fn bytes_equal(a: &[u8], b: &[u8]) -> (r: bool)
    ensures
        r == (a@ == b@),
{
    if a.len() != b.len() {
        return false;
    }
    let mut i: usize = 0;
    while i < a.len()
        invariant
            a@.len() == b@.len(),
            0 <= i <= a@.len(),
            forall|j: int| 0 <= j < i ==> a@[j] == b@[j],
        decreases a@.len() - i,
    {
        if a[i] != b[i] {
            return false;
        }
        i = i + 1;
    }
    assert(a@ =~= b@);
    true
}

impl IdentityCache {
    /// An empty cache.
    pub fn new() -> (r: IdentityCache)
        ensures
            r@ == Seq::<IdentityView>::empty(),
    {
        let r = IdentityCache { entries: Vec::new() };
        assert(r@ =~= Seq::<IdentityView>::empty());
        r
    }

    /// The number of identities.
    pub fn len(&self) -> (r: usize)
        ensures
            r == self@.len(),
    {
        self.entries.len()
    }

    /// The index of the first identity with the given blob.
    pub fn find(&self, key_blob: &[u8]) -> (r: Option<usize>)
        ensures
            r is None <==> lookup(self@, key_blob@) is None,
            r matches Some(i) ==> i < self@.len() && lookup(self@, key_blob@) == Some(self@[i as int]),
    {
        let mut i: usize = 0;
        while i < self.entries.len()
            invariant
                0 <= i <= self@.len(),
                self@.len() == self.entries@.len(),
                forall|j: int| 0 <= j < i ==> (#[trigger] self@[j]).0 != key_blob@,
            decreases self@.len() - i,
        {
            assert(self@[i as int] == identity_view(self.entries@[i as int]));
            if bytes_equal(self.entries[i].0.as_slice(), key_blob) {
                assert(self@[i as int].0 == key_blob@);
                let ghost c = self@;
                let ghost b = key_blob@;
                assert(forall|j: int| 0 <= j < i ==> c[j].0 != b);
                let ghost w = choose|w: int|
                    0 <= w < c.len() && c[w].0 == b && forall|j: int| 0 <= j < w ==> c[j].0 != b;
                assert(w == i) by {
                    if w < i {
                        assert(c[w].0 != b);
                    } else if w > i {
                        assert(c[i as int].0 != b);
                    }
                }
                return Some(i);
            }
            i = i + 1;
        }
        None
    }
}

/// Removes all the identities and fills the cache again from a listing.
/// Returns false, leaving the cache as it was, where the listing is not a
/// JSON array; entries that cannot be used are skipped.
pub fn load_all(cache: &mut IdentityCache, json: &str) -> (ok: bool)
    ensures
        ok == (json_key_listing(json@) is Some),
        !ok ==> final(cache)@ == old(cache)@,
        ok ==> final(cache)@ == usable_entries(json_key_listing(json@)->0).map_values(
            |e: ListingEntry| entry_identity(e),
        ),
{
    let keys = match to_list(json) {
        Some(keys) => keys,
        None => return false,
    };
    let ghost usable = usable_entries(json_key_listing(json@)->0);
    let mut entries: Vec<(Vec<u8>, Key)> = Vec::new();
    let mut i: usize = 0;
    while i < keys.len()
        invariant
            0 <= i <= keys@.len(),
            keys@.len() == usable.len(),
            forall|j: int| 0 <= j < keys@.len() ==> parsed_from(#[trigger] keys@[j], usable[j]),
            entries@.len() == i,
            forall|j: int|
                0 <= j < i ==> identity_view(#[trigger] entries@[j]) == entry_identity(
                    usable[j],
                ),
        decreases keys@.len() - i,
    {
        assert(parsed_from(keys@[i as int], usable[i as int]));
        let b = blob(&keys[i]);
        let k = identity(&keys[i]);
        entries.push((b, k));
        assert(identity_view(entries@[i as int]) == entry_identity(usable[i as int]));
        i = i + 1;
    }
    cache.entries = entries;
    assert(cache@ =~= usable.map_values(|e: ListingEntry| entry_identity(e)));
    true
}

/// Writes the identities answer: the type, the number of keys, and each
/// blob and alias. Returns `None` where it would not fit the protocol's
/// 32-bit lengths.
#[verifier::rlimit(50)]
pub fn write_list_response(cache: &IdentityCache) -> (r: Option<Vec<u8>>)
    ensures
        r is Some <==> answer_fits(cache@),
        r matches Some(v) ==> v@ == identities_answer(cache@),
{
    if cache.entries.len() > u32::MAX as usize {
        return None;
    }
    let ghost es = cache@;
    let mut records: Vec<u8> = Vec::new();
    let mut i: usize = 0;
    while i < cache.entries.len()
        invariant
            0 <= i <= es.len(),
            es == cache@,
            es.len() == cache.entries@.len(),
            forall|j: int| 0 <= j < es.len() ==> es[j] == identity_view(#[trigger] cache.entries@[j]),
            records@ == identity_records(es.subrange(0, i as int)),
            5 + records@.len() <= u32::MAX,
        decreases es.len() - i,
    {
        let b = cache.entries[i].0.as_slice();
        let alias = cache.entries[i].1.alias.as_str().as_bytes();
        proof {
            lemma_record_step(es, i as int, b@, alias@);
        }
        if b.len() > u32::MAX as usize || alias.len() > u32::MAX as usize || records.len() as u64
            + 13 + b.len() as u64 + alias.len() as u64 > u32::MAX as u64 {
            proof {
                lemma_records_grow(es, i + 1);
            }
            return None;
        }
        push_prefixed(&mut records, b);
        push_prefixed(&mut records, alias);
        i = i + 1;
    }
    assert(es.subrange(0, i as int) =~= es);
    let mut body: Vec<u8> = vec![SSH_AGENT_IDENTITIES_ANSWER];
    push_u32(&mut body, cache.entries.len() as u32);
    push_bytes(&mut body, records.as_slice());
    let mut frame: Vec<u8> = Vec::new();
    push_prefixed(&mut frame, body.as_slice());
    assert(body@ =~= seq![SSH_AGENT_IDENTITIES_ANSWER] + be32(cache@.len()) + identity_records(
        cache@,
    ));
    Some(frame)
}

/// The blob, data and flags of a sign request's payload: a length-prefixed
/// key blob, length-prefixed data, and four bytes of flags. Bytes after the
/// flags are not read.
pub open spec fn sign_payload(p: Seq<u8>) -> Option<(Seq<u8>, Seq<u8>, u32)> {
    if p.len() < 4 {
        None
    } else {
        let bl = be32_value(p.subrange(0, 4)) as int;
        if p.len() < 8 + bl {
            None
        } else {
            let dl = be32_value(p.subrange(4 + bl, 8 + bl)) as int;
            if p.len() < 12 + bl + dl {
                None
            } else {
                Some(
                    (
                        p.subrange(4, 4 + bl),
                        p.subrange(8 + bl, 8 + bl + dl),
                        be32_value(p.subrange(8 + bl + dl, 12 + bl + dl)) as u32,
                    ),
                )
            }
        }
    }
}

/// The names for the backend and for the SSH client of the signature
/// algorithm that a key and the request's flags ask for.
pub open spec fn signature_names(a: Algorithm, flags: u32) -> (Seq<char>, Seq<char>) {
    match a {
        Algorithm::Rsa => if flags & SSH_AGENT_RSA_SHA2_256 != 0 {
            ("SHA256withRSA"@, "rsa-sha2-256"@)
        } else if flags & SSH_AGENT_RSA_SHA2_512 != 0 {
            ("SHA512withRSA"@, "rsa-sha2-512"@)
        } else {
            ("SHA1withRSA"@, "ssh-rsa"@)
        },
        Algorithm::Ec(Curve::P256) => ("SHA256withECDSA"@, "ecdsa-sha2-nistp256"@),
        Algorithm::Ec(Curve::P384) => ("SHA384withECDSA"@, "ecdsa-sha2-nistp384"@),
        Algorithm::Ec(Curve::P521) => ("SHA512withECDSA"@, "ecdsa-sha2-nistp521"@),
    }
}

/// The SSH name of the signature algorithm, as bytes.
pub open spec fn ssh_name_bytes(a: Algorithm, flags: u32) -> Seq<u8> {
    match a {
        Algorithm::Rsa => if flags & SSH_AGENT_RSA_SHA2_256 != 0 {
            seq![0x72u8, 0x73, 0x61, 0x2d, 0x73, 0x68, 0x61, 0x32, 0x2d, 0x32, 0x35, 0x36]
        } else if flags & SSH_AGENT_RSA_SHA2_512 != 0 {
            seq![0x72u8, 0x73, 0x61, 0x2d, 0x73, 0x68, 0x61, 0x32, 0x2d, 0x35, 0x31, 0x32]
        } else {
            seq![0x73u8, 0x73, 0x68, 0x2d, 0x72, 0x73, 0x61]
        },
        Algorithm::Ec(c) => crate::identity::ecdsa_prefix() + crate::identity::curve_name(c),
    }
}

/// A request to sign some data, sent by a client.
pub struct SignRequest {
    key: Key,
    data: Vec<u8>,
    flags: u32,
}

impl SignRequest {
    pub closed spec fn spec_algorithm(&self) -> Algorithm {
        self.key.algorithm
    }

    pub closed spec fn spec_alias(&self) -> Seq<char> {
        self.key.alias@
    }

    pub closed spec fn spec_data(&self) -> Seq<u8> {
        self.data@
    }

    pub closed spec fn spec_flags(&self) -> u32 {
        self.flags
    }

    pub fn new(key: &Key, data: Vec<u8>, flags: u32) -> (r: SignRequest)
        ensures
            r.spec_algorithm() == key.algorithm,
            r.spec_alias() == key.alias@,
            r.spec_data() == data@,
            r.spec_flags() == flags,
    {
        SignRequest { key: Key { algorithm: key.algorithm, alias: key.alias.clone() }, data, flags }
    }

    pub fn key(&self) -> (r: &Key)
        ensures
            r.algorithm == self.spec_algorithm(),
            r.alias@ == self.spec_alias(),
    {
        &self.key
    }

    pub fn data(&self) -> (r: &[u8])
        ensures
            r@ == self.spec_data(),
    {
        self.data.as_slice()
    }

    /// Returns the pair of backend name and SSH name for this request.
    fn name(&self) -> (r: (&'static str, &'static str))
        ensures
            (r.0@, r.1@) == signature_names(self.spec_algorithm(), self.spec_flags()),
    {
        match self.key.algorithm {
            Algorithm::Rsa => {
                if self.flags & SSH_AGENT_RSA_SHA2_256 != 0 {
                    ("SHA256withRSA", "rsa-sha2-256")
                } else if self.flags & SSH_AGENT_RSA_SHA2_512 != 0 {
                    ("SHA512withRSA", "rsa-sha2-512")
                } else {
                    ("SHA1withRSA", "ssh-rsa")
                }
            },
            Algorithm::Ec(Curve::P256) => ("SHA256withECDSA", "ecdsa-sha2-nistp256"),
            Algorithm::Ec(Curve::P384) => ("SHA384withECDSA", "ecdsa-sha2-nistp384"),
            Algorithm::Ec(Curve::P521) => ("SHA512withECDSA", "ecdsa-sha2-nistp521"),
        }
    }

    /// Returns the name to use with the backend.
    pub fn keystore_name(&self) -> (r: &'static str)
        ensures
            r@ == signature_names(self.spec_algorithm(), self.spec_flags()).0,
    {
        self.name().0
    }

    /// Returns the name to use with the SSH client.
    pub fn ssh_name(&self) -> (r: &'static str)
        ensures
            r@ == signature_names(self.spec_algorithm(), self.spec_flags()).1,
    {
        self.name().1
    }

    fn ssh_name_bytes(&self) -> (r: Vec<u8>)
        ensures
            r@ == ssh_name_bytes(self.spec_algorithm(), self.spec_flags()),
    {
        match self.key.algorithm {
            Algorithm::Rsa => {
                if self.flags & SSH_AGENT_RSA_SHA2_256 != 0 {
                    vec![0x72u8, 0x73, 0x61, 0x2d, 0x73, 0x68, 0x61, 0x32, 0x2d, 0x32, 0x35, 0x36]
                } else if self.flags & SSH_AGENT_RSA_SHA2_512 != 0 {
                    vec![0x72u8, 0x73, 0x61, 0x2d, 0x73, 0x68, 0x61, 0x32, 0x2d, 0x35, 0x31, 0x32]
                } else {
                    vec![0x73u8, 0x73, 0x68, 0x2d, 0x72, 0x73, 0x61]
                }
            },
            Algorithm::Ec(c) => {
                let mut name: Vec<u8> = vec![0x65u8, 0x63, 0x64, 0x73, 0x61, 0x2d, 0x73, 0x68, 0x61, 0x32, 0x2d];
                let curve = c.name_bytes();
                push_bytes(&mut name, curve.as_slice());
                assert(name@ =~= crate::identity::ecdsa_prefix() + crate::identity::curve_name(c));
                name
            },
        }
    }
}

/// Splits the payload of a sign request into key blob, data and flags.
fn split_sign_payload(payload: &[u8]) -> (r: Option<(Vec<u8>, Vec<u8>, u32)>)
    ensures
        r is Some <==> sign_payload(payload@) is Some,
        r matches Some(p) ==> sign_payload(payload@) == Some((p.0@, p.1@, p.2)),
{
    let n = payload.len();
    if n < 4 {
        return None;
    }
    let bl = read_u32(payload, 0) as usize;
    if n - 4 < bl || n - 4 - bl < 4 {
        return None;
    }
    let dl = read_u32(payload, 4 + bl) as usize;
    if n - 8 - bl < dl || n - 8 - bl - dl < 4 {
        return None;
    }
    let flags = read_u32(payload, 8 + bl + dl);
    let blob_end: usize = 4 + bl;
    let data_end: usize = 8 + bl + dl;
    let mut key_blob: Vec<u8> = Vec::new();
    let mut data: Vec<u8> = Vec::new();
    let mut i: usize = 4;
    while i < blob_end
        invariant
            blob_end == 4 + bl,
            4 <= i <= 4 + bl <= payload@.len(),
            key_blob@ == payload@.subrange(4, i as int),
        decreases 4 + bl - i,
    {
        key_blob.push(payload[i]);
        i = i + 1;
        assert(key_blob@ =~= payload@.subrange(4, i as int));
    }
    let mut j: usize = 8 + bl;
    while j < data_end
        invariant
            data_end == 8 + bl + dl,
            8 + bl <= j <= 8 + bl + dl <= payload@.len(),
            data@ == payload@.subrange(8 + bl, j as int),
        decreases 8 + bl + dl - j,
    {
        data.push(payload[j]);
        j = j + 1;
        assert(data@ =~= payload@.subrange(8 + bl, j as int));
    }
    Some((key_blob, data, flags))
}

/// Reads the payload of a sign request and finds its key in the cache.
/// Returns `None` where the payload is cut short or no identity has the blob.
pub fn read_request(cache: &IdentityCache, payload: &[u8]) -> (r: Option<SignRequest>)
    ensures
        r is Some <==> (sign_payload(payload@) matches Some(p) && lookup(cache@, p.0) is Some),
        r matches Some(req) ==> {
            let p = sign_payload(payload@)->0;
            let id = lookup(cache@, p.0)->0;
            &&& req.spec_algorithm() == id.1
            &&& req.spec_alias() == id.2
            &&& req.spec_data() == p.1
            &&& req.spec_flags() == p.2
        },
{
    let (key_blob, data, flags) = match split_sign_payload(payload) {
        Some(p) => p,
        None => return None,
    };
    match cache.find(key_blob.as_slice()) {
        Some(index) => {
            assert(cache@[index as int] == identity_view(cache.entries@[index as int]));
            Some(SignRequest::new(&cache.entries[index].1, data, flags))
        },
        None => None,
    }
}

/// A big-endian magnitude as an SSH mpint: a zero byte in front where the
/// top bit is set, so that the number reads as positive.
pub open spec fn mpint(m: Seq<u8>) -> Seq<u8> {
    if m.len() > 0 && m[0] >= 0x80 {
        seq![0u8] + m
    } else {
        m
    }
}

/// A sign response: the type, then the signature algorithm's name and the
/// signature, each length-prefixed, together length-prefixed.
pub open spec fn sign_response_frame(name: Seq<u8>, signature: Seq<u8>) -> Seq<u8> {
    prefixed(seq![SSH_AGENT_SIGN_RESPONSE] + prefixed(prefixed(name) + prefixed(signature)))
}

/// Whether a sign response with this name and signature fits the protocol's
/// 32-bit lengths.
pub open spec fn frame_fits(name: Seq<u8>, signature: Seq<u8>) -> bool {
    13 + name.len() + signature.len() <= u32::MAX
}

/// The SSH form of an ECDSA signature given as DER: r and s as mpints, each
/// length-prefixed.
pub open spec fn ec_signature_blob(der: Seq<u8>) -> Option<Seq<u8>> {
    match der_integer_pair(der) {
        Some((r, s)) => Some(prefixed(mpint(r)) + prefixed(mpint(s))),
        None => None,
    }
}

/// The response to a sign request for a key of the given algorithm, given
/// what the backend returned: nothing for an empty signature, for an EC
/// signature that is not a DER pair of integers, or where the frame would not
/// fit 32-bit lengths.
pub open spec fn sign_response(a: Algorithm, flags: u32, signature: Seq<u8>) -> Option<Seq<u8>> {
    let blob = match a {
        Algorithm::Rsa => Some(signature),
        Algorithm::Ec(_) => ec_signature_blob(signature),
    };
    if signature.len() == 0 {
        None
    } else {
        match blob {
            Some(b) => if frame_fits(ssh_name_bytes(a, flags), b) {
                Some(sign_response_frame(ssh_name_bytes(a, flags), b))
            } else {
                None
            },
            None => None,
        }
    }
}

fn push_mpint(out: &mut Vec<u8>, m: &[u8])
    requires
        m@.len() < u32::MAX,
    ensures
        final(out)@ == old(out)@ + prefixed(mpint(m@)),
{
    if m.len() > 0 && m[0] >= 0x80 {
        let mut padded: Vec<u8> = vec![0u8];
        push_bytes(&mut padded, m);
        assert(padded@ =~= mpint(m@));
        push_prefixed(out, padded.as_slice());
    } else {
        push_prefixed(out, m);
    }
}

/// Writes an RSA sign response. The signature from the backend is passed on
/// as it is.
pub fn write_rsa_response(name: &[u8], signature: &[u8]) -> (r: Vec<u8>)
    requires
        frame_fits(name@, signature@),
    ensures
        r@ == sign_response_frame(name@, signature@),
{
    let mut inner: Vec<u8> = Vec::new();
    push_prefixed(&mut inner, name);
    push_prefixed(&mut inner, signature);
    let mut body: Vec<u8> = vec![SSH_AGENT_SIGN_RESPONSE];
    push_prefixed(&mut body, inner.as_slice());
    let mut frame: Vec<u8> = Vec::new();
    push_prefixed(&mut frame, body.as_slice());
    assert(body@ =~= seq![SSH_AGENT_SIGN_RESPONSE] + prefixed(prefixed(name@) + prefixed(
        signature@,
    )));
    frame
}

/// Whether a frame fits, tested on the lengths.
fn fits(name: &[u8], signature: &[u8]) -> (r: bool)
    ensures
        r == frame_fits(name@, signature@),
{
    if name.len() > u32::MAX as usize || signature.len() > u32::MAX as usize {
        return false;
    }
    13 + name.len() as u64 + signature.len() as u64 <= u32::MAX as u64
}

/// Writes an EC sign response. The backend's signature is DER; r and s are
/// taken from it and written as SSH mpints, not padded to a fixed width.
pub fn write_ec_response(name: &[u8], signature: &[u8]) -> (r: Option<Vec<u8>>)
    ensures
        r is Some <==> (ec_signature_blob(signature@) matches Some(b) && frame_fits(name@, b)),
        r matches Some(v) ==> v@ == sign_response_frame(name@, ec_signature_blob(signature@)->0),
{
    let (r, s) = match crate::asn1::decode_integer_pair(signature) {
        Some(p) => p,
        None => return None,
    };
    if r.len() >= u32::MAX as usize || s.len() >= u32::MAX as usize {
        assert(!frame_fits(name@, ec_signature_blob(signature@)->0));
        return None;
    }
    let mut values: Vec<u8> = Vec::new();
    push_mpint(&mut values, r.as_slice());
    push_mpint(&mut values, s.as_slice());
    if !fits(name, values.as_slice()) {
        return None;
    }
    Some(write_rsa_response(name, values.as_slice()))
}

/// Writes the response to a sign request given the backend's signature.
/// Returns `None` where the signature is empty, for an EC key not a DER pair
/// of integers, or too long for the protocol's lengths.
pub fn write_response(request: &SignRequest, signature: &[u8]) -> (r: Option<Vec<u8>>)
    ensures
        opt_bytes(&r) == sign_response(
            request.spec_algorithm(),
            request.spec_flags(),
            signature@,
        ),
{
    if signature.len() == 0 {
        return None;
    }
    let name = request.ssh_name_bytes();
    match request.key.algorithm {
        Algorithm::Rsa => {
            if fits(name.as_slice(), signature) {
                Some(write_rsa_response(name.as_slice(), signature))
            } else {
                None
            }
        },
        Algorithm::Ec(_) => write_ec_response(name.as_slice(), signature),
    }
}

/// What the agent does with an inbound message type.
#[derive(Clone, Copy, Debug, PartialEq, Eq, Structural)]
pub enum Request {
    /// Refresh the identity cache and answer with it.
    ListIdentities,
    /// Read a sign request.
    Sign,
    /// Answer with the failure frame.
    Unsupported,
}

/// Classifies an inbound message type.
pub fn message_kind(message_type: u8) -> (r: Request)
    ensures
        message_type == SSH_AGENTC_REQUEST_IDENTITIES ==> r == Request::ListIdentities,
        message_type == SSH_AGENTC_SIGN_REQUEST ==> r == Request::Sign,
        message_type != SSH_AGENTC_REQUEST_IDENTITIES && message_type != SSH_AGENTC_SIGN_REQUEST
            ==> r == Request::Unsupported,
{
    if message_type == SSH_AGENTC_REQUEST_IDENTITIES {
        Request::ListIdentities
    } else if message_type == SSH_AGENTC_SIGN_REQUEST {
        Request::Sign
    } else {
        Request::Unsupported
    }
}

/// The first step of answering a sign request: either the frame to send at
/// once, or the request to take to the backend.
pub enum SignStart {
    Reply(Vec<u8>),
    Ask(SignRequest),
}

/// Reads a sign request. Where its payload is cut short or its key is not in
/// the cache, the answer is the failure frame and the backend is not asked.
pub fn begin_sign(cache: &IdentityCache, payload: &[u8]) -> (r: SignStart)
    ensures
        (sign_payload(payload@) matches Some(p) && lookup(cache@, p.0) is Some) <==> r is Ask,
        r matches SignStart::Reply(f) ==> f@ == failure(),
        r matches SignStart::Ask(req) ==> {
            let p = sign_payload(payload@)->0;
            let id = lookup(cache@, p.0)->0;
            &&& req.spec_algorithm() == id.1
            &&& req.spec_alias() == id.2
            &&& req.spec_data() == p.1
            &&& req.spec_flags() == p.2
        },
{
    match read_request(cache, payload) {
        Some(req) => SignStart::Ask(req),
        None => SignStart::Reply(failure_frame()),
    }
}

/// The frame that answers a sign request once the backend is done: the sign
/// response, or the failure frame where the backend gave nothing usable.
pub open spec fn sign_reply(a: Algorithm, flags: u32, signature: Option<Seq<u8>>) -> Seq<u8> {
    match signature {
        Some(s) => match sign_response(a, flags, s) {
            Some(f) => f,
            None => failure(),
        },
        None => failure(),
    }
}

/// Answers a sign request given what the backend returned (`None` where it
/// declined or failed).
pub fn finish_sign(request: &SignRequest, signature: &Option<Vec<u8>>) -> (r: Vec<u8>)
    ensures
        r@ == sign_reply(request.spec_algorithm(), request.spec_flags(), opt_bytes(signature)),
{
    match signature {
        Some(s) => match write_response(request, s.as_slice()) {
            Some(f) => f,
            None => failure_frame(),
        },
        None => failure_frame(),
    }
}

} // verus!
