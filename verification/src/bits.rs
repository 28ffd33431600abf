//! Scalars, vectors and matrices as carried on the wire.
//!
//! GPU-bound attribute data is made of IEEE-754 single-precision scalars.
//! This crate never computes with such scalars; it only arranges them, so
//! each one is carried as its 32-bit pattern in a `u32`. That makes every
//! byte-layout contract exact: a buffer handed to the GPU is a sequence of
//! little-endian 32-bit words, which is the encoding the GPU consumes
//! regardless of the host's own byte order.

use vstd::prelude::*;

verus! {

/// Bit pattern of `1.0_f32`.
pub const F32_ONE_BITS: u32 = 0x3F80_0000;

/// Bit pattern of `0.0_f32`.
pub const F32_ZERO_BITS: u32 = 0;

/// A two-component vector of scalar bit patterns.
#[derive(Clone, Copy, PartialEq, Eq, Structural, Debug)]
pub struct Vec2Bits {
    pub x: u32,
    pub y: u32,
}

/// A three-component vector of scalar bit patterns.
#[derive(Clone, Copy, PartialEq, Eq, Structural, Debug)]
pub struct Vec3Bits {
    pub x: u32,
    pub y: u32,
    pub z: u32,
}

/// A four-component vector of scalar bit patterns.
#[derive(Clone, Copy, PartialEq, Eq, Structural, Debug)]
pub struct Vec4Bits {
    pub x: u32,
    pub y: u32,
    pub z: u32,
    pub w: u32,
}

/// A 3x3 matrix of scalar bit patterns, stored as three columns.
#[derive(Clone, Copy, PartialEq, Eq, Structural, Debug)]
pub struct Mat3Bits {
    pub c0: Vec3Bits,
    pub c1: Vec3Bits,
    pub c2: Vec3Bits,
}

/// A 4x4 matrix of scalar bit patterns, stored as four columns.
#[derive(Clone, Copy, PartialEq, Eq, Structural, Debug)]
pub struct Mat4Bits {
    pub c0: Vec4Bits,
    pub c1: Vec4Bits,
    pub c2: Vec4Bits,
    pub c3: Vec4Bits,
}

/// The little-endian encoding of one 32-bit word.
pub open spec fn le4(x: u32) -> Seq<u8> {
    seq![
        (x & 0xff) as u8,
        ((x >> 8) & 0xff) as u8,
        ((x >> 16) & 0xff) as u8,
        ((x >> 24) & 0xff) as u8,
    ]
}

/// The little-endian encoding of a sequence of 32-bit words.
pub open spec fn le_words(ws: Seq<u32>) -> Seq<u8>
    decreases ws.len(),
{
    if ws.len() == 0 {
        Seq::empty()
    } else {
        le_words(ws.drop_last()) + le4(ws.last())
    }
}

/// Encoding words is length-homogeneous: four bytes per word.
pub proof fn lemma_le_words_len(ws: Seq<u32>)
    ensures
        le_words(ws).len() == 4 * ws.len(),
    decreases ws.len(),
{
    if ws.len() > 0 {
        lemma_le_words_len(ws.drop_last());
    }
}

/// Encoding commutes with appending one word.
pub proof fn lemma_le_words_push(ws: Seq<u32>, x: u32)
    ensures
        le_words(ws.push(x)) == le_words(ws) + le4(x),
{
    assert(ws.push(x).drop_last() =~= ws);
    assert(ws.push(x).last() == x);
}

/// Encoding distributes over concatenation.
pub proof fn lemma_le_words_concat(a: Seq<u32>, b: Seq<u32>)
    ensures
        le_words(a + b) == le_words(a) + le_words(b),
    decreases b.len(),
{
    if b.len() == 0 {
        assert(a + b =~= a);
        assert(le_words(a) + le_words(b) =~= le_words(a));
    } else {
        lemma_le_words_concat(a, b.drop_last());
        assert((a + b).drop_last() =~= a + b.drop_last());
        assert((a + b).last() == b.last());
        assert(le_words(a) + le_words(b) =~= (le_words(a) + le_words(b.drop_last())) + le4(
            b.last(),
        ));
    }
}

/// A word-aligned byte range of an encoded sequence is the encoding of
/// the corresponding word range.
pub proof fn lemma_le_words_subrange(ws: Seq<u32>, a: int, b: int)
    requires
        0 <= a <= b <= ws.len(),
    ensures
        le_words(ws).len() == 4 * ws.len(),
        le_words(ws).subrange(4 * a, 4 * b) == le_words(ws.subrange(a, b)),
{
    let lo = ws.subrange(0, a);
    let mid = ws.subrange(a, b);
    let hi = ws.subrange(b, ws.len() as int);
    assert(ws =~= (lo + mid) + hi);
    lemma_le_words_concat(lo, mid);
    lemma_le_words_concat(lo + mid, hi);
    lemma_le_words_len(ws);
    lemma_le_words_len(lo);
    lemma_le_words_len(mid);
    lemma_le_words_len(hi);
    assert(le_words(ws).subrange(4 * a, 4 * b) =~= le_words(mid));
}

/// Append the little-endian bytes of one word to an output buffer.
pub fn push_u32_le(out: &mut Vec<u8>, x: u32)
    ensures
        final(out)@ == old(out)@ + le4(x),
{
    out.push((x & 0xff) as u8);
    out.push(((x >> 8) & 0xff) as u8);
    out.push(((x >> 16) & 0xff) as u8);
    out.push(((x >> 24) & 0xff) as u8);
    assert(final(out)@ =~= old(out)@ + le4(x));
}

/// Encode a buffer of 32-bit words as little-endian bytes, four per word.
/// This is the form in which an index buffer reaches the GPU.
pub fn words_to_le_bytes(words: &Vec<u32>) -> (r: Vec<u8>)
    ensures
        r@ == le_words(words@),
        r@.len() == 4 * words@.len(),
{
    let mut r: Vec<u8> = Vec::new();
    let mut i: usize = 0;
    while i < words.len()
        invariant
            0 <= i <= words@.len(),
            r@ == le_words(words@.take(i as int)),
        decreases words@.len() - i,
    {
        push_u32_le(&mut r, words[i]);
        proof {
            let t = words@.take(i + 1 as int);
            assert(t.drop_last() =~= words@.take(i as int));
            assert(t.last() == words@[i as int]);
        }
        i = i + 1;
    }
    proof {
        assert(words@.take(words@.len() as int) =~= words@);
        lemma_le_words_len(words@);
    }
    r
}

} // verus!
