//! Proof steps for the bitmask immediates of 64-bit logical instructions.

use vstd::prelude::*;
use crate::logical::{pop32, pop64, rol32, rol64, element_size, bit_mask_valid, bit_mask_value, decode_logical_32, decode_logical_64, canonical_32, canonical_64, lemma_decoded_periodic_32};

verus! {

/// The encoder's fields for a value with a single 64-bit element decode
/// back to it.
#[verifier::rlimit(100)]
pub(crate) proof fn lemma_encode_64_e64(
    v: u64,
    t: u64,
    pt: u64,
    elem: u64,
    ones: u64,
    tz1: u64,
    tz2: u64,
    immr: u64,
    imms: u64,
)
    by (bit_vector)
    requires
        t == v ^ ((v >> 1u64) | (v << 63u64)),
        pt == pop64(t),
        pt == 2,
        elem == v,
        ones == pop64(elem),
        tz1 < 64 ==> ((!elem) >> tz1) & 1 == 1,
        tz1 <= 64,
        (!elem) << ((64 - tz1) as u64) == 0,
        (tz1 == 64) == (!elem == 0),
        tz2 < 64 ==> (elem >> tz2) & 1 == 1,
        tz2 <= 64,
        elem << ((64 - tz2) as u64) == 0,
        (tz2 == 64) == (elem == 0),
        immr == (if elem & 1 != 0 {
            (ones - tz1) as u64
        } else {
            (64 - tz2) as u64
        }),
        imms == (ones - 1) as u64,
    ensures
        ones >= 1,
        elem & 1 != 0 ==> tz1 <= ones,
        elem & 1 == 0 ==> tz2 <= 64,
        immr < 64,
        imms < 64,
        element_size(1, imms) == 64,
        bit_mask_valid(1, immr, imms),
        bit_mask_value(1, immr, imms) == v,
{
}

/// A rotation changes an even number of bits, so the transitions of a
/// value never number one.
pub(crate) proof fn lemma_transitions_not_one(v: u64)
    by (bit_vector)
    ensures
        pop64(v ^ ((v >> 1u64) | (v << 63u64))) != 1,
        v & 0xFFFF_FFFF_FFFF_FFFF == v,
{
}

/// A value that repeats under a rotation by less than 64 bits consists of
/// two equal words, and its low word repeats under the same rotation.
#[verifier::rlimit(100)]
pub(crate) proof fn lemma_periodic_halves(v: u64, e: u32)
    by (bit_vector)
    requires
        1 <= e <= 63,
        v == rol64(v, e),
    ensures
        v == ((v as u32) as u64) | (((v as u32) as u64) << 32u64),
        v as u32 == rol32(v as u32, e),
{
}

/// The 64-bit value whose two words are `w`.
pub open spec fn doubled(w: u32) -> u64 {
    (w as u64) | ((w as u64) << 32u64)
}

/// A value of two equal words has the transitions and rotations of its
/// low word, twice, and both of its words are that word; widening a word
/// adds no set bits.
pub(crate) proof fn lemma_doubled(w: u32, k: u32)
    by (bit_vector)
    ensures
        doubled(w) ^ ((doubled(w) >> 1u64) | (doubled(w) << 63u64)) == doubled(
            w ^ ((w >> 1u32) | (w << 31u32)),
        ),
        rol64(doubled(w), k) == doubled(rol32(w, k)),
        doubled(w) as u32 == w,
        (doubled(w) >> 32u64) as u32 == w,
        (w as u64) as u32 == w,
        ((w as u64) >> 32u64) as u32 == 0,
        pop32(0) == 0,
        pop32(w) <= 32,
{
}

/// An element of at most 32 bits taken from a value of two equal words is
/// the same element taken from the word.
pub(crate) proof fn lemma_doubled_element(w: u32, e: u32)
    by (bit_vector)
    requires
        2 <= e <= 32,
    ensures
        doubled(w) & ((1u64 << e) - 1) as u64 == ((w & (if e >= 32 {
            0xFFFF_FFFFu32
        } else {
            ((1u32 << e) - 1) as u32
        })) as u64),
{
}

/// The element size computed from twice as many transitions over twice the
/// width is the same.
pub(crate) proof fn lemma_doubled_size(p: u32)
    by (nonlinear_arith)
    requires
        1 <= p <= 32,
    ensures
        128u32 / (2 * p) as u32 == 64u32 / p,
{
}

/// Trailing zeros and trailing ones of a word are those of its widening,
/// unless the word is all zeros or all ones.
pub(crate) proof fn lemma_tz_widen(
    x: u32,
    y: u64,
    a32: u32,
    b32: u32,
    a64: u32,
    b64: u32,
)
    by (bit_vector)
    requires
        y == x as u64,
        x != 0,
        x != 0xFFFF_FFFF,
        a32 < 32 ==> (x >> a32) & 1 == 1,
        a32 <= 32,
        x << ((32 - a32) as u32) == 0,
        b32 < 32 ==> ((!x) >> b32) & 1 == 1,
        b32 <= 32,
        (!x) << ((32 - b32) as u32) == 0,
        a64 < 64 ==> (y >> (a64 as u64)) & 1 == 1,
        a64 <= 64,
        y << ((64 - a64) as u64) == 0,
        b64 < 64 ==> ((!y) >> (b64 as u64)) & 1 == 1,
        b64 <= 64,
        (!y) << ((64 - b64) as u64) == 0,
    ensures
        a64 == a32,
        b64 == b32,
{
}

/// The `imms` the 64-bit encoder computes: for a 64-bit element the `N`
/// test bit is clear and the run length is kept; for smaller elements the
/// bit is set and the low six bits are those of the 32-bit encoder.
pub(crate) proof fn lemma_imms_64(e: u32, x: u32)
    by (bit_vector)
    requires
        2 <= e <= 64,
        x < e,
    ensures
        e == 64 ==> ((!(((e << 1u32) - 1) as u32) & 0x7F) | x) & 0x40 == 0,
        e == 64 ==> ((!(((e << 1u32) - 1) as u32) & 0x7F) | x) & 0x3F == x,
        e <= 32 ==> ((!(((e << 1u32) - 1) as u32) & 0x7F) | x) & 0x40 != 0,
        e <= 32 ==> ((!(((e << 1u32) - 1) as u32) & 0x7F) | x) & 0x3F == (!(((e << 1u32) - 1)
            as u32) & 0x3F) | x,
        e << 1u32 >= 4,
        e < 64 ==> 1u64 << e >= 1,
{
}

/// Packing `N`, `immr` and the low six bits of `imms` into a 13-bit field
/// and taking it apart again gives them back.
pub(crate) proof fn lemma_pack_13(n: u16, immr: u32, imms: u32)
    by (bit_vector)
    requires
        n <= 1,
        immr < 64,
    ensures
        ((((n << 12u16) | ((immr as u16) << 6u16)) | ((imms & 0x3F) as u16)) >> 12u16) & 1 == n,
        ((((n << 12u16) | ((immr as u16) << 6u16)) | ((imms & 0x3F) as u16)) >> 6u16) & 0x3F
            == immr,
        (((n << 12u16) | ((immr as u16) << 6u16)) | ((imms & 0x3F) as u16)) & 0x3F == imms & 0x3F,
        (((n << 12u16) | ((immr as u16) << 6u16)) | ((imms & 0x3F) as u16)) < 0x2000,
{
}

/// The value of a bitmask immediate with `N` = 0 consists of two equal words;
/// one with `N` = 1 has exactly two transitions.
#[verifier::rlimit(100)]
pub(crate) proof fn lemma_decoded_shapes(enc: u16, n: u64, immr: u64, imms: u64, v: u64)
    by (bit_vector)
    requires
        n == ((enc >> 12u16) & 1) as u64,
        immr == ((enc >> 6u16) & 0x3F) as u64,
        imms == (enc & 0x3F) as u64,
        bit_mask_valid(n, immr, imms),
        v == bit_mask_value(n, immr, imms),
    ensures
        n == 0 || n == 1,
        n == 0 ==> v == doubled(v as u32),
        n == 1 ==> pop64(v ^ ((v >> 1u64) | (v << 63u64))) == 2,
{
}

/// A value that fails the encoder's checks is the value of no 64-bit
/// bitmask immediate.
pub(crate) proof fn lemma_no_encoding_64(v: u64)
    requires
        ({
            let t = v ^ ((v >> 1u64) | (v << 63u64));
            pop64(t) == 0 || v != rol64(v, 128u32 / (pop64(t) as u32))
        }),
    ensures
        forall|enc: u16| decode_logical_64(enc) != Some(v),
{
    assert forall|enc: u16| decode_logical_64(enc) != Some(v) by {
        if decode_logical_64(enc) == Some(v) {
            let n = ((enc >> 12u16) & 1) as u64;
            let immr = ((enc >> 6u16) & 0x3F) as u64;
            let imms = (enc & 0x3F) as u64;
            let t = v ^ ((v >> 1u64) | (v << 63u64));
            lemma_decoded_shapes(enc, n, immr, imms, v);
            if n == 1 {
                assert(pop64(t) == 2);
                assert((pop64(t) as u32) == 2);
                assert(128u32 / 2u32 == 64);
                assert(v == rol64(v, 64));
            } else {
                let w = v as u32;
                let t32 = w ^ ((w >> 1u32) | (w << 31u32));
                let p = pop32(t32);
                lemma_doubled(t32, 0);
                lemma_decoded_periodic_32(enc, immr, imms, w, t32, p);
                lemma_doubled(w, 64u32 / p);
                lemma_doubled_size(p);
                assert(pop64(t) == 2 * p);
                assert(rol64(v, 64u32 / p) == v);
            }
        }
    }
}

/// Two canonical `immr:imms` fields with `N` = 0 that stand for the same
/// 32-bit value are the same field.
#[verifier::rlimit(100)]
proof fn lemma_fields_unique_32(a: u16, b: u16)
    by (bit_vector)
    requires
        a < 0x1000,
        b < 0x1000,
        bit_mask_valid(0, ((a >> 6u16) & 0x3F) as u64, (a & 0x3F) as u64),
        bit_mask_valid(0, ((b >> 6u16) & 0x3F) as u64, (b & 0x3F) as u64),
        canonical_32(a),
        canonical_32(b),
        bit_mask_value(0, ((a >> 6u16) & 0x3F) as u64, (a & 0x3F) as u64) as u32
            == bit_mask_value(0, ((b >> 6u16) & 0x3F) as u64, (b & 0x3F) as u64) as u32,
    ensures
        a == b,
{
}

/// The transitions of a word never number one; a field below 0x1000 has
/// `N` = 0, and a 13-bit field with `N` = 0 is below 0x1000.
proof fn lemma_word_and_field(w: u32, enc: u16)
    by (bit_vector)
    ensures
        pop32(w ^ ((w >> 1u32) | (w << 31u32))) != 1,
        enc < 0x1000 ==> ((enc >> 12u16) & 1) == 0 && enc < 0x2000,
        enc < 0x2000 && ((enc >> 12u16) & 1) == 0 ==> enc < 0x1000,
{
}

/// A 32-bit value has a canonical bitmask immediate field at most once:
/// two canonical fields that stand for the same value are equal.
pub proof fn lemma_canonical_unique_32(a: u16, b: u16)
    requires
        decode_logical_32(a) is Some,
        decode_logical_32(a) == decode_logical_32(b),
        canonical_32(a),
        canonical_32(b),
    ensures
        a == b,
{
    lemma_fields_unique_32(a, b);
}
/// A field of a 64-bit logical instruction stands, canonically, for the
/// value whose two words are `v` exactly when it is a canonical field of
/// a 32-bit logical instruction standing for `v`.
pub proof fn lemma_doubled_fields(v: u32, enc: u16)
    ensures
        (decode_logical_64(enc) == Some(doubled(v)) && canonical_64(enc)) <==> (
        decode_logical_32(enc) == Some(v) && canonical_32(enc)),
{
    let n = ((enc >> 12u16) & 1) as u64;
    let immr = ((enc >> 6u16) & 0x3F) as u64;
    let imms = (enc & 0x3F) as u64;
    lemma_word_and_field(v, enc);
    lemma_doubled(v, 0);
    if decode_logical_64(enc) == Some(doubled(v)) {
        let x = doubled(v);
        lemma_decoded_shapes(enc, n, immr, imms, x);
        if n == 1 {
            let t32 = v ^ ((v >> 1u32) | (v << 31u32));
            lemma_doubled(t32, 0);
            assert(pop64(x ^ ((x >> 1u64) | (x << 63u64))) == 2 * pop32(t32));
        }
    }
    if decode_logical_32(enc) == Some(v) {
        let x = bit_mask_value(0, immr, imms);
        lemma_decoded_shapes(enc, 0, immr, imms, x);
    }
}

/// The 64-bit encoder, given the value whose two words are `v`, answers as
/// the 32-bit encoder does for `v`: a result that meets the contract of the
/// 32-bit encoder for `v` and one that meets the contract of the 64-bit
/// encoder for that value are the same field, or both absent.
pub proof fn lemma_doubled_encoding(v: u32, r32: Option<u16>, r64: Option<u16>)
    requires
        r32 matches Some(enc) ==> decode_logical_32(enc) == Some(v) && canonical_32(enc),
        r32 is None ==> forall|enc: u16| decode_logical_32(enc) != Some(v),
        r64 matches Some(enc) ==> decode_logical_64(enc) == Some(doubled(v)) && canonical_64(enc),
        r64 is None ==> forall|enc: u16| decode_logical_64(enc) != Some(doubled(v)),
    ensures
        r64 == r32,
{
    match r32 {
        Some(e) => {
            lemma_doubled_fields(v, e);
            match r64 {
                Some(f) => {
                    lemma_doubled_fields(v, f);
                    lemma_canonical_unique_32(e, f);
                },
                None => {
                    assert(decode_logical_64(e) != Some(doubled(v)));
                },
            }
        },
        None => {
            if let Some(f) = r64 {
                lemma_doubled_fields(v, f);
                assert(decode_logical_32(f) != Some(v));
            }
        },
    }
}

} // verus!
