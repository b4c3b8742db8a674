use vstd::prelude::*;

verus! {

/// An account identity (a public key or a program id) as its 32 bytes.
pub type Address = [u8; 32];

/// The little-endian value of the first eight bytes of `s`.
pub open spec fn u64_from_le(s: Seq<u8>) -> u64 {
    (s[0] as u64) | ((s[1] as u64) << 8u64) | ((s[2] as u64) << 16u64) | ((s[3] as u64) << 24u64)
        | ((s[4] as u64) << 32u64) | ((s[5] as u64) << 40u64) | ((s[6] as u64) << 48u64)
        | ((s[7] as u64) << 56u64)
}

/// The eight little-endian bytes of `v`.
pub open spec fn u64_to_le(v: u64) -> Seq<u8> {
    seq![
        (v & 0xff) as u8,
        ((v >> 8u64) & 0xff) as u8,
        ((v >> 16u64) & 0xff) as u8,
        ((v >> 24u64) & 0xff) as u8,
        ((v >> 32u64) & 0xff) as u8,
        ((v >> 40u64) & 0xff) as u8,
        ((v >> 48u64) & 0xff) as u8,
        ((v >> 56u64) & 0xff) as u8,
    ]
}

/// Reading back the eight bytes written for `v` gives `v`.
pub proof fn lemma_u64_le_round_trip(v: u64)
    ensures
        u64_to_le(v).len() == 8,
        u64_from_le(u64_to_le(v)) == v,
{
    let s = u64_to_le(v);
    assert(s[0] == (v & 0xff) as u8);
    assert(s[7] == ((v >> 56u64) & 0xff) as u8);
    assert(u64_from_le(s) == (((v & 0xff) as u8) as u64) | (((((v >> 8u64) & 0xff) as u8) as u64)
        << 8u64) | (((((v >> 16u64) & 0xff) as u8) as u64) << 16u64) | (((((v >> 24u64) & 0xff)
        as u8) as u64) << 24u64) | (((((v >> 32u64) & 0xff) as u8) as u64) << 32u64) | (((((v
        >> 40u64) & 0xff) as u8) as u64) << 40u64) | (((((v >> 48u64) & 0xff) as u8) as u64)
        << 48u64) | (((((v >> 56u64) & 0xff) as u8) as u64) << 56u64));
    assert((((v & 0xff) as u8) as u64) | (((((v >> 8u64) & 0xff) as u8) as u64) << 8u64) | (((((v
        >> 16u64) & 0xff) as u8) as u64) << 16u64) | (((((v >> 24u64) & 0xff) as u8) as u64)
        << 24u64) | (((((v >> 32u64) & 0xff) as u8) as u64) << 32u64) | (((((v >> 40u64) & 0xff)
        as u8) as u64) << 40u64) | (((((v >> 48u64) & 0xff) as u8) as u64) << 48u64) | (((((v
        >> 56u64) & 0xff) as u8) as u64) << 56u64) == v) by (bit_vector);
}

/// Reads the little-endian `u64` that starts at `off`.
pub fn read_u64_le(s: &[u8], off: usize) -> (r: u64)
    requires
        off + 8 <= s@.len(),
    ensures
        r == u64_from_le(s@.subrange(off as int, off + 8)),
{
    (s[off] as u64) | ((s[off + 1] as u64) << 8u64) | ((s[off + 2] as u64) << 16u64) | ((s[off
        + 3] as u64) << 24u64) | ((s[off + 4] as u64) << 32u64) | ((s[off + 5] as u64) << 40u64)
        | ((s[off + 6] as u64) << 48u64) | ((s[off + 7] as u64) << 56u64)
}

/// Appends the eight little-endian bytes of `v`.
pub fn push_u64_le(out: &mut Vec<u8>, v: u64)
    ensures
        final(out)@ == old(out)@ + u64_to_le(v),
{
    out.push((v & 0xff) as u8);
    out.push(((v >> 8u64) & 0xff) as u8);
    out.push(((v >> 16u64) & 0xff) as u8);
    out.push(((v >> 24u64) & 0xff) as u8);
    out.push(((v >> 32u64) & 0xff) as u8);
    out.push(((v >> 40u64) & 0xff) as u8);
    out.push(((v >> 48u64) & 0xff) as u8);
    out.push(((v >> 56u64) & 0xff) as u8);
    assert(final(out)@ =~= old(out)@ + u64_to_le(v));
}

/// Copies the 32 bytes that start at `off` into an address.
pub fn read_address(s: &[u8], off: usize) -> (r: Address)
    requires
        off + 32 <= s@.len(),
    ensures
        r@ == s@.subrange(off as int, off + 32),
{
    let n: usize = s.len();
    let mut r: Address = [0u8; 32];
    let mut i: usize = 0;
    while i < 32
        invariant
            off + 32 <= s@.len(),
            n == s@.len(),
            r@.len() == 32,
            0 <= i <= 32,
            forall|j: int| 0 <= j < i ==> r@[j] == s@[off + j],
        decreases 32 - i,
    {
        r[i] = s[off + i];
        i = i + 1;
    }
    assert(r@ =~= s@.subrange(off as int, off + 32));
    r
}

/// Appends the 32 bytes of an address.
pub fn push_address(out: &mut Vec<u8>, a: &Address)
    ensures
        final(out)@ == old(out)@ + a@,
{
    let mut i: usize = 0;
    while i < 32
        invariant
            a@.len() == 32,
            0 <= i <= 32,
            out@ == old(out)@ + a@.subrange(0, i as int),
        decreases 32 - i,
    {
        out.push(a[i]);
        i = i + 1;
        assert(out@ =~= old(out)@ + a@.subrange(0, i as int));
    }
    assert(a@.subrange(0, 32) =~= a@);
}

/// Whether two addresses hold the same bytes.
pub fn same_address(a: &Address, b: &Address) -> (r: bool)
    ensures
        r == (a@ == b@),
        r == (*a == *b),
{
    let mut i: usize = 0;
    while i < 32
        invariant
            a@.len() == 32,
            b@.len() == 32,
            0 <= i <= 32,
            forall|j: int| 0 <= j < i ==> a@[j] == b@[j],
        decreases 32 - i,
    {
        if a[i] != b[i] {
            assert(a@[i as int] != b@[i as int]);
            return false;
        }
        i = i + 1;
    }
    assert(a@ =~= b@);
    assert(*a =~= *b);
    true
}

} // verus!
