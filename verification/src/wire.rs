//! Big-endian integers on the wire: what they are as sequences of bytes, and
//! the reading and writing of them.

use byteorder::{BigEndian, ByteOrder, WriteBytesExt};
use vstd::prelude::*;
use vstd::slice::slice_subrange;

verus! {

/// The 16-bit big-endian integer at offset `i` of `b`.
pub open spec fn spec_u16_at(b: Seq<u8>, i: int) -> u16 {
    (b[i] as int * 0x100 + b[i + 1] as int) as u16
}

/// The 32-bit big-endian integer at offset `i` of `b`.
pub open spec fn spec_u32_at(b: Seq<u8>, i: int) -> u32 {
    (b[i] as int * 0x100_0000 + b[i + 1] as int * 0x1_0000 + b[i + 2] as int * 0x100 + b[i
        + 3] as int) as u32
}

/// The 64-bit big-endian integer at offset `i` of `b`.
pub open spec fn spec_u64_at(b: Seq<u8>, i: int) -> u64 {
    (spec_u32_at(b, i) as int * 0x1_0000_0000 + spec_u32_at(b, i + 4) as int) as u64
}

/// The two bytes of `x`, most significant first.
pub open spec fn spec_u16_bytes(x: u16) -> Seq<u8> {
    seq![(x / 0x100) as u8, (x % 0x100) as u8]
}

/// The four bytes of `x`, most significant first.
pub open spec fn spec_u32_bytes(x: u32) -> Seq<u8> {
    seq![
        (x / 0x100_0000) as u8,
        ((x / 0x1_0000) % 0x100) as u8,
        ((x / 0x100) % 0x100) as u8,
        (x % 0x100) as u8,
    ]
}

/// The eight bytes of `x`, most significant first.
pub open spec fn spec_u64_bytes(x: u64) -> Seq<u8> {
    spec_u32_bytes((x / 0x1_0000_0000) as u32) + spec_u32_bytes((x % 0x1_0000_0000) as u32)
}

/// `n` zero bytes.
pub open spec fn zeros(n: int) -> Seq<u8> {
    Seq::new(n as nat, |i: int| 0u8)
}

/// The number of zero bytes that bring a block of `len` bytes to the next
/// multiple of eight.
pub open spec fn spec_pad_len(len: int) -> int {
    (8 - len % 8) % 8
}

/// `x` as a 64-bit value.
pub open spec fn spec_widen_u8(x: u8) -> u64 {
    x as u64
}

/// `x` as a 64-bit value.
pub fn widen_u8(x: u8) -> (r: u64)
    ensures
        r == spec_widen_u8(x),
{
    x as u64
}

/// The length of `b` as a machine integer.
pub open spec fn spec_len(b: Seq<u8>) -> usize {
    b.len() as usize
}

/// `byteorder::BigEndian::read_u16`: the first two bytes of `buf`, read as a
/// big-endian integer. It panics on a shorter slice.
#[verifier::external_body]
fn be_read_u16(buf: &[u8]) -> (r: u16)
    requires
        buf@.len() >= 2,
    ensures
        r == spec_u16_at(buf@, 0),
{
    BigEndian::read_u16(buf)
}

/// `byteorder::BigEndian::read_u32`: the first four bytes of `buf`, read as a
/// big-endian integer. It panics on a shorter slice.
#[verifier::external_body]
fn be_read_u32(buf: &[u8]) -> (r: u32)
    requires
        buf@.len() >= 4,
    ensures
        r == spec_u32_at(buf@, 0),
{
    BigEndian::read_u32(buf)
}

/// `byteorder::BigEndian::read_u64`: the first eight bytes of `buf`, read as
/// a big-endian integer. It panics on a shorter slice.
#[verifier::external_body]
fn be_read_u64(buf: &[u8]) -> (r: u64)
    requires
        buf@.len() >= 8,
    ensures
        r == spec_u64_at(buf@, 0),
{
    BigEndian::read_u64(buf)
}

/// `byteorder::WriteBytesExt::write_u16` with `BigEndian` on a `Vec<u8>`:
/// the two bytes of `x` are appended, most significant first. Writing to a
/// vector does not fail.
#[verifier::external_body]
pub(crate) fn put_u16(out: &mut Vec<u8>, x: u16)
    ensures
        final(out)@ == old(out)@ + spec_u16_bytes(x),
{
    let _ = out.write_u16::<BigEndian>(x);
}

/// `byteorder::WriteBytesExt::write_u32` with `BigEndian` on a `Vec<u8>`:
/// the four bytes of `x` are appended, most significant first.
#[verifier::external_body]
pub(crate) fn put_u32(out: &mut Vec<u8>, x: u32)
    ensures
        final(out)@ == old(out)@ + spec_u32_bytes(x),
{
    let _ = out.write_u32::<BigEndian>(x);
}

/// `byteorder::WriteBytesExt::write_u64` with `BigEndian` on a `Vec<u8>`:
/// the eight bytes of `x` are appended, most significant first.
#[verifier::external_body]
pub(crate) fn put_u64(out: &mut Vec<u8>, x: u64)
    ensures
        final(out)@ == old(out)@ + spec_u64_bytes(x),
{
    let _ = out.write_u64::<BigEndian>(x);
}

/// Reads the big-endian `u16` at `pos`.
pub fn get_u16(b: &[u8], pos: usize) -> (r: u16)
    requires
        pos + 2 <= b@.len(),
    ensures
        r == spec_u16_at(b@, pos as int),
{
    let n: usize = b.len();
    assert(pos + 2 <= n);
    be_read_u16(slice_subrange(b, pos, pos + 2))
}

/// Reads the big-endian `u32` at `pos`.
pub fn get_u32(b: &[u8], pos: usize) -> (r: u32)
    requires
        pos + 4 <= b@.len(),
    ensures
        r == spec_u32_at(b@, pos as int),
{
    let n: usize = b.len();
    assert(pos + 4 <= n);
    be_read_u32(slice_subrange(b, pos, pos + 4))
}

/// Reads the big-endian `u64` at `pos`.
pub fn get_u64(b: &[u8], pos: usize) -> (r: u64)
    requires
        pos + 8 <= b@.len(),
    ensures
        r == spec_u64_at(b@, pos as int),
{
    let n: usize = b.len();
    assert(pos + 8 <= n);
    be_read_u64(slice_subrange(b, pos, pos + 8))
}

/// Appends `n` zero bytes.
pub fn put_zeros(out: &mut Vec<u8>, n: usize)
    ensures
        final(out)@ == old(out)@ + zeros(n as int),
{
    let mut i: usize = 0;
    while i < n
        invariant
            i <= n,
            out@ == old(out)@ + zeros(i as int),
        decreases n - i,
    {
        out.push(0u8);
        i = i + 1;
        assert(out@ =~= old(out)@ + zeros(i as int));
    }
    assert(out@ =~= old(out)@ + zeros(n as int));
}

/// Appends the bytes of `s`.
pub fn put_bytes(out: &mut Vec<u8>, s: &[u8])
    ensures
        final(out)@ == old(out)@ + s@,
{
    out.extend_from_slice(s);
}

/// The number of zero bytes that bring a block of `len` bytes to the next
/// multiple of eight.
pub fn pad_len(len: usize) -> (r: usize)
    ensures
        r == spec_pad_len(len as int),
        r < 8,
        (len + r) % 8 == 0,
{
    (8 - len % 8) % 8
}

/// The two bytes of a `u16` are its quotient and remainder by 256, and they
/// give it back.
proof fn lemma_u16_split(x: u16, hi: u8, lo: u8)
    ensures
        (hi == (x / 0x100) as u8 && lo == (x % 0x100) as u8) <==> x == hi * 0x100 + lo,
{
    assert((hi == (x / 0x100) as u8 && lo == (x % 0x100) as u8) <==> x == hi * 0x100 + lo)
        by (bit_vector);
}

/// The four bytes of a `u32` are its base-256 digits, and they give it back.
proof fn lemma_u32_split(x: u32, b0: u8, b1: u8, b2: u8, b3: u8)
    ensures
        (b0 == (x / 0x100_0000) as u8 && b1 == ((x / 0x1_0000) % 0x100) as u8 && b2 == ((x / 0x100)
            % 0x100) as u8 && b3 == (x % 0x100) as u8) <==> x == b0 * 0x100_0000 + b1 * 0x1_0000
            + b2 * 0x100 + b3,
{
    assert((b0 == (x / 0x100_0000) as u8 && b1 == ((x / 0x1_0000) % 0x100) as u8 && b2 == ((x
        / 0x100) % 0x100) as u8 && b3 == (x % 0x100) as u8) <==> x == b0 * 0x100_0000 + b1
        * 0x1_0000 + b2 * 0x100 + b3) by (bit_vector);
}

/// A big-endian `u16` that was written is read back.
pub proof fn lemma_u16_roundtrip(x: u16)
    ensures
        spec_u16_bytes(x).len() == 2,
        spec_u16_at(spec_u16_bytes(x), 0) == x,
{
    lemma_u16_at_bytes(spec_u16_bytes(x), 0, x);
}

/// A big-endian `u32` that was written is read back.
pub proof fn lemma_u32_roundtrip(x: u32)
    ensures
        spec_u32_bytes(x).len() == 4,
        spec_u32_at(spec_u32_bytes(x), 0) == x,
{
    lemma_u32_at_bytes(spec_u32_bytes(x), 0, x);
}

/// A big-endian `u64` that was written is read back.
pub proof fn lemma_u64_roundtrip(x: u64)
    ensures
        spec_u64_bytes(x).len() == 8,
        spec_u64_at(spec_u64_bytes(x), 0) == x,
{
    lemma_u64_at_bytes(spec_u64_bytes(x), 0, x);
}

/// Where `x` was written at offset `off` of `w`, it is read there.
pub proof fn lemma_u16_at_bytes(w: Seq<u8>, off: int, x: u16)
    requires
        0 <= off,
        off + 2 <= w.len(),
        w.subrange(off, off + 2) =~= spec_u16_bytes(x),
    ensures
        spec_u16_at(w, off) == x,
{
    let s = w.subrange(off, off + 2);
    assert(s[0] == w[off] && s[1] == w[off + 1]);
    lemma_u16_split(x, w[off], w[off + 1]);
}

/// Where `x` was written at offset `off` of `w`, it is read there.
pub proof fn lemma_u32_at_bytes(w: Seq<u8>, off: int, x: u32)
    requires
        0 <= off,
        off + 4 <= w.len(),
        w.subrange(off, off + 4) =~= spec_u32_bytes(x),
    ensures
        spec_u32_at(w, off) == x,
{
    let s = w.subrange(off, off + 4);
    assert(s[0] == w[off] && s[1] == w[off + 1] && s[2] == w[off + 2] && s[3] == w[off + 3]);
    lemma_u32_split(x, w[off], w[off + 1], w[off + 2], w[off + 3]);
}

/// Where `x` was written at offset `off` of `w`, it is read there.
pub proof fn lemma_u64_at_bytes(w: Seq<u8>, off: int, x: u64)
    requires
        0 <= off,
        off + 8 <= w.len(),
        w.subrange(off, off + 8) =~= spec_u64_bytes(x),
    ensures
        spec_u64_at(w, off) == x,
{
    let s = w.subrange(off, off + 8);
    let hi = (x / 0x1_0000_0000) as u32;
    let lo = (x % 0x1_0000_0000) as u32;
    assert(w.subrange(off, off + 4) =~= spec_u32_bytes(hi)) by {
        assert forall|i: int| 0 <= i < 4 implies w.subrange(off, off + 4)[i] == spec_u32_bytes(
            hi,
        )[i] by {
            assert(w[off + i] == s[i]);
            assert(spec_u64_bytes(x)[i] == spec_u32_bytes(hi)[i]);
        }
    }
    assert(w.subrange(off + 4, off + 8) =~= spec_u32_bytes(lo)) by {
        assert forall|i: int| 0 <= i < 4 implies w.subrange(off + 4, off + 8)[i] == spec_u32_bytes(
            lo,
        )[i] by {
            assert(w[off + 4 + i] == s[4 + i]);
            assert(spec_u64_bytes(x)[4 + i] == spec_u32_bytes(lo)[i]);
        }
    }
    lemma_u32_at_bytes(w, off, hi);
    lemma_u32_at_bytes(w, off + 4, lo);
    assert(x == hi * 0x1_0000_0000 + lo) by (bit_vector)
        requires
            hi == (x / 0x1_0000_0000) as u32,
            lo == (x % 0x1_0000_0000) as u32,
    ;
}

/// The bytes of the `u16` that is read at offset `i` of `b` are the two bytes
/// that `b` holds there.
pub proof fn lemma_u16_bytes_at(b: Seq<u8>, i: int)
    requires
        0 <= i,
        i + 2 <= b.len(),
    ensures
        spec_u16_bytes(spec_u16_at(b, i)) == b.subrange(i, i + 2),
{
    let x = spec_u16_at(b, i);
    lemma_u16_split(x, b[i], b[i + 1]);
    assert(spec_u16_bytes(x) =~= b.subrange(i, i + 2));
}

/// The bytes of the `u32` that is read at offset `i` of `b` are the four
/// bytes that `b` holds there.
pub proof fn lemma_u32_bytes_at(b: Seq<u8>, i: int)
    requires
        0 <= i,
        i + 4 <= b.len(),
    ensures
        spec_u32_bytes(spec_u32_at(b, i)) == b.subrange(i, i + 4),
{
    let x = spec_u32_at(b, i);
    lemma_u32_split(x, b[i], b[i + 1], b[i + 2], b[i + 3]);
    assert(spec_u32_bytes(x) =~= b.subrange(i, i + 4));
}

/// The bytes of the `u64` that is read at offset `i` of `b` are the eight
/// bytes that `b` holds there.
pub proof fn lemma_u64_bytes_at(b: Seq<u8>, i: int)
    requires
        0 <= i,
        i + 8 <= b.len(),
    ensures
        spec_u64_bytes(spec_u64_at(b, i)) == b.subrange(i, i + 8),
{
    let x = spec_u64_at(b, i);
    let hi = spec_u32_at(b, i);
    let lo = spec_u32_at(b, i + 4);
    assert(x == hi * 0x1_0000_0000 + lo);
    assert((x / 0x1_0000_0000) as u32 == hi && (x % 0x1_0000_0000) as u32 == lo) by (bit_vector)
        requires
            x == hi * 0x1_0000_0000 + lo,
    ;
    lemma_u32_bytes_at(b, i);
    lemma_u32_bytes_at(b, i + 4);
    assert(spec_u64_bytes(x) =~= b.subrange(i, i + 4) + b.subrange(i + 4, i + 8));
    assert(b.subrange(i, i + 4) + b.subrange(i + 4, i + 8) =~= b.subrange(i, i + 8));
}

} // verus!
