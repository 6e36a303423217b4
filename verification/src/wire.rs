//! Byte-level helpers: network byte order for the multi-byte integers of
//! the packet, and moving bytes between buffers and fixed-size fields.

use vstd::arithmetic::div_mod::lemma_fundamental_div_mod_converse;
use vstd::prelude::*;

verus! {

/// The value that four bytes denote when read most significant byte first.
pub open spec fn be_u32(b: Seq<u8>) -> int
    recommends
        b.len() == 4,
{
    b[0] * 0x100_0000 + b[1] * 0x1_0000 + b[2] * 0x100 + b[3]
}

/// The four bytes of `v`, most significant first.
pub open spec fn be_bytes_u32(v: u32) -> Seq<u8> {
    seq![
        (v / 0x100_0000) as u8,
        (v / 0x1_0000 % 0x100) as u8,
        (v / 0x100 % 0x100) as u8,
        (v % 0x100) as u8,
    ]
}

/// Reading back the bytes of a value gives the value.
pub proof fn lemma_be_u32_of_bytes(v: u32)
    ensures
        be_bytes_u32(v).len() == 4,
        be_u32(be_bytes_u32(v)) == v,
{
}

/// Writing the value of four bytes gives the same four bytes.
pub proof fn lemma_be_bytes_of_u32(b: Seq<u8>)
    requires
        b.len() == 4,
    ensures
        0 <= be_u32(b) <= u32::MAX,
        be_bytes_u32(be_u32(b) as u32) == b,
{
    let b0: int = b[0] as int;
    let b1: int = b[1] as int;
    let b2: int = b[2] as int;
    let b3: int = b[3] as int;
    let x: int = be_u32(b);
    lemma_fundamental_div_mod_converse(x, 0x100_0000, b0, b1 * 0x1_0000 + b2 * 0x100 + b3);
    lemma_fundamental_div_mod_converse(x, 0x1_0000, b0 * 0x100 + b1, b2 * 0x100 + b3);
    lemma_fundamental_div_mod_converse(b0 * 0x100 + b1, 0x100, b0, b1);
    lemma_fundamental_div_mod_converse(x, 0x100, b0 * 0x1_0000 + b1 * 0x100 + b2, b3);
    lemma_fundamental_div_mod_converse(b0 * 0x1_0000 + b1 * 0x100 + b2, 0x100, b0 * 0x100 + b1, b2);
    assert(be_bytes_u32(x as u32) =~= b);
}

/// Reads a big-endian `u32`.
pub fn u32_from_be(b: &[u8; 4]) -> (v: u32)
    ensures
        v == be_u32(b@),
{
    let b0: u32 = b[0] as u32;
    let b1: u32 = b[1] as u32;
    let b2: u32 = b[2] as u32;
    let b3: u32 = b[3] as u32;
    b0 * 0x100_0000 + b1 * 0x1_0000 + b2 * 0x100 + b3
}

/// Writes a `u32` in big-endian order.
pub fn u32_to_be(v: u32) -> (b: [u8; 4])
    ensures
        b@ == be_bytes_u32(v),
{
    let b: [u8; 4] = [
        (v / 0x100_0000) as u8,
        (v / 0x1_0000 % 0x100) as u8,
        (v / 0x100 % 0x100) as u8,
        (v % 0x100) as u8,
    ];
    assert(b@ =~= be_bytes_u32(v));
    b
}

/// `n` zero bytes.
pub open spec fn zeros(n: nat) -> Seq<u8> {
    Seq::new(n, |i: int| 0u8)
}

/// `bytes` followed by as many zero bytes as it takes to fill `n` bytes.
pub open spec fn zero_padded(bytes: Seq<u8>, n: nat) -> Seq<u8>
    recommends
        bytes.len() <= n,
{
    bytes + zeros((n - bytes.len()) as nat)
}

/// The array of `N` bytes that holds `s`.
pub open spec fn array_of<const N: usize>(s: Seq<u8>) -> [u8; N]
    recommends
        s.len() == N,
{
    choose|a: [u8; N]| a@ == s
}

/// An array whose first `k` bytes are those of `s`.
proof fn lemma_array_prefix<const N: usize>(s: Seq<u8>, k: nat) -> (a: [u8; N])
    requires
        s.len() == N,
        k <= N,
    ensures
        forall|j: int| 0 <= j < k ==> a@[j] == s[j],
    decreases k,
{
    if k == 0 {
        vstd::array::spec_array_fill_for_copy_type::<u8, N>(0u8)
    } else {
        let before = lemma_array_prefix::<N>(s, (k - 1) as nat);
        vstd::array::spec_array_update(before, k - 1, s[k - 1])
    }
}

/// Every sequence of `N` bytes is the content of an array, and of one only.
pub proof fn lemma_array_of<const N: usize>(s: Seq<u8>)
    requires
        s.len() == N,
    ensures
        array_of::<N>(s)@ == s,
        forall|a: [u8; N]| a@ == s ==> a == array_of::<N>(s),
{
    let witness = lemma_array_prefix::<N>(s, N as nat);
    assert(witness@ =~= s);
    assert forall|a: [u8; N]| a@ == s implies a == array_of::<N>(s) by {
        assert(a =~= array_of::<N>(s));
    }
}

/// Copies `N` bytes out of `bytes`, from `start` on.
pub(crate) fn read_array<const N: usize>(bytes: &[u8], start: usize) -> (a: [u8; N])
    requires
        start + N <= bytes@.len(),
    ensures
        a@ == bytes@.subrange(start as int, start + N),
{
    let total: usize = bytes.len();
    let mut a: [u8; N] = [0u8; N];
    let mut i: usize = 0;
    while i < N
        invariant
            0 <= i <= N,
            start + N <= total,
            total == bytes@.len(),
            forall|j: int| 0 <= j < i ==> a@[j] == bytes@[start + j],
        decreases N - i,
    {
        a[i] = bytes[start + i];
        i += 1;
    }
    assert(a@ =~= bytes@.subrange(start as int, start + N));
    a
}

/// Appends `src` to `out`.
pub fn append_bytes(out: &mut Vec<u8>, src: &[u8])
    ensures
        final(out)@ == old(out)@ + src@,
{
    let mut i: usize = 0;
    while i < src.len()
        invariant
            0 <= i <= src@.len(),
            out@ == old(out)@ + src@.subrange(0, i as int),
        decreases src@.len() - i,
    {
        out.push(src[i]);
        i += 1;
        assert(out@ =~= old(out)@ + src@.subrange(0, i as int));
    }
    assert(src@.subrange(0, i as int) =~= src@);
}

/// A copy of `src` as a vector.
pub fn bytes_of(src: &[u8]) -> (out: Vec<u8>)
    ensures
        out@ == src@,
{
    let mut out: Vec<u8> = Vec::new();
    append_bytes(&mut out, src);
    assert(out@ =~= src@);
    out
}

/// An array that starts with `bytes` and is zero from there on.
pub(crate) fn padded_array<const N: usize>(bytes: &[u8]) -> (a: [u8; N])
    requires
        bytes@.len() <= N,
    ensures
        a@ == zero_padded(bytes@, N as nat),
{
    let total: usize = bytes.len();
    let mut a: [u8; N] = [0u8; N];
    let mut i: usize = 0;
    while i < total
        invariant
            0 <= i <= total,
            total == bytes@.len(),
            total <= N,
            forall|j: int| 0 <= j < i ==> a@[j] == bytes@[j],
            forall|j: int| i <= j < N ==> a@[j] == 0,
        decreases total - i,
    {
        a[i] = bytes[i];
        i += 1;
    }
    assert(a@ =~= zero_padded(bytes@, N as nat));
    a
}

} // verus!
