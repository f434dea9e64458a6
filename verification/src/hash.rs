//! The small stable string hash used for cache file names.

use vstd::prelude::*;
use vstd::string::*;

verus! {

/// FNV-1a 64-bit offset basis.
pub const FNV_OFFSET: u64 = 0xcbf29ce484222325;

/// FNV-1a 64-bit prime.
pub const FNV_PRIME: u64 = 0x100000001b3;

/// FNV-1a over a byte sequence: start from the offset basis; for each byte,
/// xor it in, then multiply by the prime modulo 2^64.
pub open spec fn fnv1a(bytes: Seq<u8>) -> u64
    decreases bytes.len(),
{
    if bytes.len() == 0 {
        FNV_OFFSET
    } else {
        (fnv1a(bytes.drop_last()) ^ (bytes.last() as u64)).wrapping_mul(FNV_PRIME)
    }
}

/// FNV-1a continued from the state `h` over more bytes.
pub open spec fn fnv1a_from(h: u64, bytes: Seq<u8>) -> u64
    decreases bytes.len(),
{
    if bytes.len() == 0 {
        h
    } else {
        (fnv1a_from(h, bytes.drop_last()) ^ (bytes.last() as u64)).wrapping_mul(FNV_PRIME)
    }
}

/// FNV-1a is its continuation from the offset basis.
pub proof fn lemma_fnv1a_is_continuation(bytes: Seq<u8>)
    ensures
        fnv1a(bytes) == fnv1a_from(FNV_OFFSET, bytes),
    decreases bytes.len(),
{
    if bytes.len() > 0 {
        lemma_fnv1a_is_continuation(bytes.drop_last());
    }
}

/// Hashing `a + b` continues from the state after `a`.
pub proof fn lemma_fnv1a_from_concat(h: u64, a: Seq<u8>, b: Seq<u8>)
    ensures
        fnv1a_from(h, a + b) == fnv1a_from(fnv1a_from(h, a), b),
    decreases b.len(),
{
    if b.len() == 0 {
        assert(a + b =~= a);
    } else {
        lemma_fnv1a_from_concat(h, a, b.drop_last());
        assert((a + b).drop_last() =~= a + b.drop_last());
        assert((a + b).last() == b.last());
    }
}

/// The UTF-8 encoding of two strings end to end is their encodings end to end.
pub proof fn lemma_utf8_concat(s: Seq<char>, t: Seq<char>)
    ensures
        crate::text::utf8_of(s + t) == crate::text::utf8_of(s) + crate::text::utf8_of(t),
    decreases s.len(),
{
    if s.len() > 0 {
        lemma_utf8_concat(s.drop_first(), t);
        assert((s + t).drop_first() =~= s.drop_first() + t);
        assert((s + t)[0] == s[0]);
        assert(vstd::utf8::encode_utf8(s + t) =~= vstd::utf8::encode_scalar(s[0] as u32)
            + (vstd::utf8::encode_utf8(s.drop_first()) + vstd::utf8::encode_utf8(t)));
    } else {
        assert(s + t =~= t);
    }
}

/// The hash of a string followed by more text continues from the hash of
/// the string over the bytes of the rest: it depends only on the bytes,
/// one at a time.
pub proof fn lemma_fxhash_continues(s: Seq<char>, t: Seq<char>)
    ensures
        fnv1a(crate::text::utf8_of(s + t)) == fnv1a_from(
            fnv1a(crate::text::utf8_of(s)),
            crate::text::utf8_of(t),
        ),
{
    let a = crate::text::utf8_of(s);
    let b = crate::text::utf8_of(t);
    lemma_utf8_concat(s, t);
    lemma_fnv1a_is_continuation(a + b);
    lemma_fnv1a_is_continuation(a);
    lemma_fnv1a_from_concat(FNV_OFFSET, a, b);
}

/// Tiny stable hash of the UTF-8 bytes of `s`; only used for cache file names.
pub fn fxhash(s: &str) -> (h: u64)
    ensures
        h == fnv1a(s.spec_bytes()),
{
    let bytes = s.as_bytes();
    let mut h: u64 = FNV_OFFSET;
    let mut i: usize = 0;
    while i < bytes.len()
        invariant
            i <= bytes@.len(),
            bytes@ == s.spec_bytes(),
            h == fnv1a(bytes@.take(i as int)),
        decreases bytes@.len() - i,
    {
        let b: u8 = bytes[i];
        assert(bytes@.take(i + 1).drop_last() =~= bytes@.take(i as int));
        h = (h ^ (b as u64)).wrapping_mul(FNV_PRIME);
        i = i + 1;
    }
    assert(bytes@.take(i as int) =~= bytes@);
    h
}

} // verus!
