//! Big-endian integers and length-prefixed byte strings, as the SSH agent
//! protocol writes them.
use vstd::prelude::*;

verus! {

/// The four big-endian bytes of `n` (taken modulo 2^32).
pub open spec fn be32(n: nat) -> Seq<u8> {
    seq![
        ((n / 0x100_0000) % 0x100) as u8,
        ((n / 0x1_0000) % 0x100) as u8,
        ((n / 0x100) % 0x100) as u8,
        (n % 0x100) as u8,
    ]
}

/// The integer that four big-endian bytes stand for.
pub open spec fn be32_value(b: Seq<u8>) -> nat
    recommends
        b.len() == 4,
{
    (b[0] as nat) * 0x100_0000 + (b[1] as nat) * 0x1_0000 + (b[2] as nat) * 0x100 + (b[3] as nat)
}

/// A byte string preceded by its length as four big-endian bytes.
pub open spec fn prefixed(s: Seq<u8>) -> Seq<u8> {
    be32(s.len()) + s
}

/// The bytes an optional vector holds.
pub open spec fn opt_bytes(r: &Option<Vec<u8>>) -> Option<Seq<u8>> {
    match r {
        Some(v) => Some(v@),
        None => None,
    }
}

/// `n` zero bytes.
pub open spec fn zeros(n: nat) -> Seq<u8> {
    Seq::new(n, |i: int| 0u8)
}

/// `s` preceded by zero bytes up to length `l` (unchanged where it is longer).
pub open spec fn left_pad(s: Seq<u8>, l: nat) -> Seq<u8> {
    if s.len() >= l {
        s
    } else {
        zeros((l - s.len()) as nat) + s
    }
}

/// Appends the four big-endian bytes of `n`.
pub fn push_u32(out: &mut Vec<u8>, n: u32)
    ensures
        final(out)@ == old(out)@ + be32(n as nat),
{
    let b0: u32 = n / 0x100_0000;
    let b1: u32 = (n / 0x1_0000) % 0x100;
    let b2: u32 = (n / 0x100) % 0x100;
    let b3: u32 = n % 0x100;
    out.push(b0 as u8);
    out.push(b1 as u8);
    out.push(b2 as u8);
    out.push(b3 as u8);
    assert(final(out)@ =~= old(out)@ + be32(n as nat));
}

/// Appends every byte of `s`.
pub fn push_bytes(out: &mut Vec<u8>, s: &[u8])
    ensures
        final(out)@ == old(out)@ + s@,
{
    let ghost start = out@;
    let mut i: usize = 0;
    while i < s.len()
        invariant
            0 <= i <= s@.len(),
            out@ == start + s@.subrange(0, i as int),
        decreases s@.len() - i,
    {
        out.push(s[i]);
        i = i + 1;
        assert(out@ =~= start + s@.subrange(0, i as int));
    }
    assert(s@.subrange(0, i as int) =~= s@);
}

/// Appends `n` zero bytes.
pub fn push_zeros(out: &mut Vec<u8>, n: usize)
    ensures
        final(out)@ == old(out)@ + zeros(n as nat),
{
    let ghost start = out@;
    let mut i: usize = 0;
    while i < n
        invariant
            0 <= i <= n,
            out@ == start + zeros(i as nat),
        decreases n - i,
    {
        out.push(0u8);
        i = i + 1;
        assert(out@ =~= start + zeros(i as nat));
    }
}

/// Appends `s` preceded by its length.
pub fn push_prefixed(out: &mut Vec<u8>, s: &[u8])
    requires
        s@.len() < 0x1_0000_0000,
    ensures
        final(out)@ == old(out)@ + prefixed(s@),
{
    push_u32(out, s.len() as u32);
    push_bytes(out, s);
    assert(final(out)@ =~= old(out)@ + prefixed(s@));
}

/// Reads four big-endian bytes at `at`.
pub fn read_u32(b: &[u8], at: usize) -> (r: u32)
    requires
        at + 4 <= b@.len(),
    ensures
        r as nat == be32_value(b@.subrange(at as int, at + 4)),
{
    let r: u32 = (b[at] as u32) * 0x100_0000 + (b[at + 1] as u32) * 0x1_0000 + (b[at + 2] as u32)
        * 0x100 + (b[at + 3] as u32);
    r
}

} // verus!
