//! Bitmask immediates of the aarch64 logical instructions.
//!
//! A bitmask immediate is a run of ones, rotated within an element of 2, 4,
//! 8, 16, 32 or 64 bits, and the element repeated to fill the register. The
//! instructions hold it as `N:immr:imms`; `decode_bit_masks` gives the value
//! that such a field stands for.

use vstd::prelude::*;

verus! {

/// The number of set bits of `x`.
pub open spec fn pop32(x: u32) -> u32 {
    (((x >> 0u32) & 1) + ((x >> 1u32) & 1) + ((x >> 2u32) & 1) + ((x >> 3u32) & 1) + ((x >> 4u32) & 1) + ((x >> 5u32) & 1) + ((x >> 6u32) & 1) + ((x >> 7u32) & 1) + ((x >> 8u32) & 1) + ((x >> 9u32) & 1) + ((x >> 10u32) & 1) + ((x >> 11u32) & 1) + ((x >> 12u32) & 1) + ((x >> 13u32) & 1) + ((x >> 14u32) & 1) + ((x >> 15u32) & 1) + ((x >> 16u32) & 1) + ((x >> 17u32) & 1) + ((x >> 18u32) & 1) + ((x >> 19u32) & 1) + ((x >> 20u32) & 1) + ((x >> 21u32) & 1) + ((x >> 22u32) & 1) + ((x >> 23u32) & 1) + ((x >> 24u32) & 1) + ((x >> 25u32) & 1) + ((x >> 26u32) & 1) + ((x >> 27u32) & 1) + ((x >> 28u32) & 1) + ((x >> 29u32) & 1) + ((x >> 30u32) & 1) + ((x >> 31u32) & 1)) as u32
}

/// `x` rotated left by `n % 32` bits.
pub open spec fn rol32(x: u32, n: u32) -> u32 {
    let k = n % 32;
    if k == 0 {
        x
    } else {
        (x << k) | (x >> ((32 - k) as u32))
    }
}

/// The element size that `N:NOT(imms)` selects by its highest set bit, or 0
/// when no size is selected.
pub open spec fn element_size(n: u64, imms: u64) -> u64 {
    let x = (n << 6u64) | (!imms & 0x3F);
    if x & 0x40 != 0 {
        64
    } else if x & 0x20 != 0 {
        32
    } else if x & 0x10 != 0 {
        16
    } else if x & 0x8 != 0 {
        8
    } else if x & 0x4 != 0 {
        4
    } else if x & 0x2 != 0 {
        2
    } else {
        0
    }
}

/// The element `x` of `e` bits repeated to fill 64 bits.
pub open spec fn replicate(x: u64, e: u64) -> u64 {
    let r2 = if e <= 2 {
        x | (x << 2u64)
    } else {
        x
    };
    let r4 = if e <= 4 {
        r2 | (r2 << 4u64)
    } else {
        r2
    };
    let r8 = if e <= 8 {
        r4 | (r4 << 8u64)
    } else {
        r4
    };
    let r16 = if e <= 16 {
        r8 | (r8 << 16u64)
    } else {
        r8
    };
    if e <= 32 {
        r16 | (r16 << 32u64)
    } else {
        r16
    }
}

/// Whether `N:immr:imms` is a valid bitmask immediate: it selects an element
/// size, and the run of ones does not fill the whole element.
pub open spec fn bit_mask_valid(n: u64, immr: u64, imms: u64) -> bool {
    let e = element_size(n, imms);
    e >= 2 && (imms & ((e - 1) as u64)) != ((e - 1) as u64)
}

/// The 64-bit value of a valid bitmask immediate `N:immr:imms`: a run of
/// `(imms mod esize) + 1` ones, rotated right by `immr mod esize` within an
/// element of `esize` bits, repeated.
pub open spec fn bit_mask_value(n: u64, immr: u64, imms: u64) -> u64 {
    let e = element_size(n, imms);
    let levels = (e - 1) as u64;
    let s = imms & levels;
    let r = immr & levels;
    let welem = ((1u64 << ((s + 1) as u64)) - 1) as u64;
    let mask = if e == 64 {
        0xFFFF_FFFF_FFFF_FFFFu64
    } else {
        ((1u64 << e) - 1) as u64
    };
    let elem = if r == 0 {
        welem
    } else {
        ((welem >> r) | (welem << ((e - r) as u64))) & mask
    };
    replicate(elem, e)
}

/// The value a 12-bit `immr:imms` field (`N` = 0) of a 32-bit logical
/// instruction stands for, as ARM's `DecodeBitMasks` defines it.
pub open spec fn decode_logical_32(enc: u16) -> Option<u32> {
    let immr = ((enc >> 6u16) & 0x3F) as u64;
    let imms = (enc & 0x3F) as u64;
    if enc >= 0x1000 || !bit_mask_valid(0, immr, imms) {
        None
    } else {
        Some(bit_mask_value(0, immr, imms) as u32)
    }
}

/// Whether the rotation `immr` of `enc` is below the element size, so
/// that no ignored bits are set.
pub open spec fn canonical_32(enc: u16) -> bool {
    (((enc >> 6u16) & 0x3F) as u64) < element_size(0, (enc & 0x3F) as u64)
}

/// The population count of `x` by the classic divide-and-conquer steps.
pub(crate) proof fn lemma_swar_32(x: u32, a: u32, b: u32, c: u32)
    by (bit_vector)
    requires
        a == (x - ((x >> 1u32) & 0x5555_5555)) as u32,
        b == ((a & 0x3333_3333) + ((a >> 2u32) & 0x3333_3333)) as u32,
        c == ((b + (b >> 4u32)) as u32) & 0x0F0F_0F0F,
    ensures
        (x >> 1u32) & 0x5555_5555 <= x,
        (a & 0x3333_3333) + ((a >> 2u32) & 0x3333_3333) <= 0xFFFF_FFFF,
        b + (b >> 4u32) <= 0xFFFF_FFFF,
        c.wrapping_mul(0x0101_0101) >> 24u32 == pop32(x),
        pop32(x) <= 32,
{
}

/// Counts the set bits of `x`.
pub(crate) fn count_ones_32(x: u32) -> (r: u32)
    ensures
        r == pop32(x),
        r <= 32,
{
    let ghost a0 = (x - ((x >> 1u32) & 0x5555_5555)) as u32;
    let ghost b0 = ((a0 & 0x3333_3333) + ((a0 >> 2u32) & 0x3333_3333)) as u32;
    let ghost c0 = ((b0 + (b0 >> 4u32)) as u32) & 0x0F0F_0F0F;
    proof {
        lemma_swar_32(x, a0, b0, c0);
    }
    let a = x - ((x >> 1) & 0x5555_5555);
    let b = (a & 0x3333_3333) + ((a >> 2) & 0x3333_3333);
    let c = (b + (b >> 4)) & 0x0F0F_0F0F;
    c.wrapping_mul(0x0101_0101) >> 24
}

/// `x` rotated left by `n % 32` bits.
pub(crate) fn rotate_left_32(x: u32, n: u32) -> (r: u32)
    ensures
        r == rol32(x, n),
{
    let k = n % 32;
    if k == 0 {
        x
    } else {
        (x << k) | (x >> (32 - k))
    }
}

/// Packing `immr` and `imms` below 64 into a 12-bit field and taking it
/// apart again gives them back.
pub(crate) proof fn lemma_pack_12(immr: u32, imms: u32)
    by (bit_vector)
    requires
        immr < 64,
        imms < 64,
    ensures
        ((((immr as u16) << 6u16) | (imms as u16)) >> 6u16) & 0x3F == immr,
        (((immr as u16) << 6u16) | (imms as u16)) & 0x3F == imms,
        (((immr as u16) << 6u16) | (imms as u16)) < 0x1000,
{
}

/// A value that passes the period check of the encoder has one of the
/// element sizes 2 to 32, with the matching number of transitions.
#[verifier::rlimit(60)]
pub(crate) proof fn lemma_element_sizes_32(v: u32, t: u32, pt: u32, e: u32)
    by (bit_vector)
    requires
        t == v ^ ((v >> 1u32) | (v << 31u32)),
        pt == pop32(t),
        pt != 0,
        e == 64u32 / pt,
        v == rol32(v, e),
    ensures
        (pt == 2 && e == 32) || (pt == 4 && e == 16) || (pt == 8 && e == 8) || (13 <= pt <= 16 && e
            == 4) || (22 <= pt <= 32 && e == 2),
{
}

/// Every value that a valid 32-bit bitmask immediate stands for has
/// transitions and repeats with the element size the encoder computes.
#[verifier::rlimit(100)]
pub(crate) proof fn lemma_decoded_periodic_32(enc: u16, immr: u64, imms: u64, v: u32, t: u32, pt: u32)
    by (bit_vector)
    requires
        immr == ((enc >> 6u16) & 0x3F) as u64,
        imms == (enc & 0x3F) as u64,
        bit_mask_valid(0, immr, imms),
        v == bit_mask_value(0, immr, imms) as u32,
        t == v ^ ((v >> 1u32) | (v << 31u32)),
        pt == pop32(t),
    ensures
        pt != 0,
        v == rol32(v, 64u32 / pt),
{
}

/// The encoder's fields for a value with 32-bit elements decode back to it.
#[verifier::rlimit(60)]
pub(crate) proof fn lemma_encode_32_e32(
    v: u32,
    t: u32,
    pt: u32,
    e: u32,
    elem: u32,
    ones: u32,
    tz1: u32,
    tz2: u32,
    immr: u32,
    imms: u32,
)
    by (bit_vector)
    requires
        t == v ^ ((v >> 1u32) | (v << 31u32)),
        pt == pop32(t),
        pt == 2,
        e == 32,
        v == rol32(v, e),
        elem == v & (if e >= 32 {
            0xFFFF_FFFFu32
        } else {
            ((1u32 << e) - 1) as u32
        }),
        ones == pop32(elem),
        tz1 < 32 ==> ((!elem) >> tz1) & 1 == 1,
        tz1 <= 32,
        (!elem) << ((32 - tz1) as u32) == 0,
        (tz1 == 32) == (!elem == 0),
        tz2 < 32 ==> (elem >> tz2) & 1 == 1,
        tz2 <= 32,
        elem << ((32 - tz2) as u32) == 0,
        (tz2 == 32) == (elem == 0),
        immr == (if elem & 1 != 0 {
            (ones - tz1) as u32
        } else {
            (e - tz2) as u32
        }),
        imms == (!(((e << 1u32) - 1) as u32) & 0x3F) | ((ones - 1) as u32),
    ensures
        ones >= 1,
        elem & 1 != 0 ==> tz1 <= ones,
        elem & 1 == 0 ==> tz2 <= e,
        immr < e,
        imms < 64,
        ones < e,
        elem != 0,
        elem != 0xFFFF_FFFF,
        element_size(0, imms as u64) == e as u64,
        bit_mask_valid(0, immr as u64, imms as u64),
        bit_mask_value(0, immr as u64, imms as u64) == (v as u64) | ((v as u64) << 32u64),
{
}

/// The encoder's fields for a value with 16-bit elements decode back to it.
#[verifier::rlimit(60)]
pub(crate) proof fn lemma_encode_32_e16(
    v: u32,
    t: u32,
    pt: u32,
    e: u32,
    elem: u32,
    ones: u32,
    tz1: u32,
    tz2: u32,
    immr: u32,
    imms: u32,
)
    by (bit_vector)
    requires
        t == v ^ ((v >> 1u32) | (v << 31u32)),
        pt == pop32(t),
        pt == 4,
        e == 16,
        v == rol32(v, e),
        elem == v & (if e >= 32 {
            0xFFFF_FFFFu32
        } else {
            ((1u32 << e) - 1) as u32
        }),
        ones == pop32(elem),
        tz1 < 32 ==> ((!elem) >> tz1) & 1 == 1,
        tz1 <= 32,
        (!elem) << ((32 - tz1) as u32) == 0,
        (tz1 == 32) == (!elem == 0),
        tz2 < 32 ==> (elem >> tz2) & 1 == 1,
        tz2 <= 32,
        elem << ((32 - tz2) as u32) == 0,
        (tz2 == 32) == (elem == 0),
        immr == (if elem & 1 != 0 {
            (ones - tz1) as u32
        } else {
            (e - tz2) as u32
        }),
        imms == (!(((e << 1u32) - 1) as u32) & 0x3F) | ((ones - 1) as u32),
    ensures
        ones >= 1,
        elem & 1 != 0 ==> tz1 <= ones,
        elem & 1 == 0 ==> tz2 <= e,
        immr < e,
        imms < 64,
        ones < e,
        elem != 0,
        elem != 0xFFFF_FFFF,
        element_size(0, imms as u64) == e as u64,
        bit_mask_valid(0, immr as u64, imms as u64),
        bit_mask_value(0, immr as u64, imms as u64) == (v as u64) | ((v as u64) << 32u64),
{
}

/// The encoder's fields for a value with 8-bit elements decode back to it.
#[verifier::rlimit(60)]
pub(crate) proof fn lemma_encode_32_e8(
    v: u32,
    t: u32,
    pt: u32,
    e: u32,
    elem: u32,
    ones: u32,
    tz1: u32,
    tz2: u32,
    immr: u32,
    imms: u32,
)
    by (bit_vector)
    requires
        t == v ^ ((v >> 1u32) | (v << 31u32)),
        pt == pop32(t),
        pt == 8,
        e == 8,
        v == rol32(v, e),
        elem == v & (if e >= 32 {
            0xFFFF_FFFFu32
        } else {
            ((1u32 << e) - 1) as u32
        }),
        ones == pop32(elem),
        tz1 < 32 ==> ((!elem) >> tz1) & 1 == 1,
        tz1 <= 32,
        (!elem) << ((32 - tz1) as u32) == 0,
        (tz1 == 32) == (!elem == 0),
        tz2 < 32 ==> (elem >> tz2) & 1 == 1,
        tz2 <= 32,
        elem << ((32 - tz2) as u32) == 0,
        (tz2 == 32) == (elem == 0),
        immr == (if elem & 1 != 0 {
            (ones - tz1) as u32
        } else {
            (e - tz2) as u32
        }),
        imms == (!(((e << 1u32) - 1) as u32) & 0x3F) | ((ones - 1) as u32),
    ensures
        ones >= 1,
        elem & 1 != 0 ==> tz1 <= ones,
        elem & 1 == 0 ==> tz2 <= e,
        immr < e,
        imms < 64,
        ones < e,
        elem != 0,
        elem != 0xFFFF_FFFF,
        element_size(0, imms as u64) == e as u64,
        bit_mask_valid(0, immr as u64, imms as u64),
        bit_mask_value(0, immr as u64, imms as u64) == (v as u64) | ((v as u64) << 32u64),
{
}

/// The encoder's fields for a value with 4-bit elements decode back to it.
#[verifier::rlimit(60)]
pub(crate) proof fn lemma_encode_32_e4(
    v: u32,
    t: u32,
    pt: u32,
    e: u32,
    elem: u32,
    ones: u32,
    tz1: u32,
    tz2: u32,
    immr: u32,
    imms: u32,
)
    by (bit_vector)
    requires
        t == v ^ ((v >> 1u32) | (v << 31u32)),
        pt == pop32(t),
        13 <= pt <= 16,
        e == 4,
        v == rol32(v, e),
        elem == v & (if e >= 32 {
            0xFFFF_FFFFu32
        } else {
            ((1u32 << e) - 1) as u32
        }),
        ones == pop32(elem),
        tz1 < 32 ==> ((!elem) >> tz1) & 1 == 1,
        tz1 <= 32,
        (!elem) << ((32 - tz1) as u32) == 0,
        (tz1 == 32) == (!elem == 0),
        tz2 < 32 ==> (elem >> tz2) & 1 == 1,
        tz2 <= 32,
        elem << ((32 - tz2) as u32) == 0,
        (tz2 == 32) == (elem == 0),
        immr == (if elem & 1 != 0 {
            (ones - tz1) as u32
        } else {
            (e - tz2) as u32
        }),
        imms == (!(((e << 1u32) - 1) as u32) & 0x3F) | ((ones - 1) as u32),
    ensures
        ones >= 1,
        elem & 1 != 0 ==> tz1 <= ones,
        elem & 1 == 0 ==> tz2 <= e,
        immr < e,
        imms < 64,
        ones < e,
        elem != 0,
        elem != 0xFFFF_FFFF,
        element_size(0, imms as u64) == e as u64,
        bit_mask_valid(0, immr as u64, imms as u64),
        bit_mask_value(0, immr as u64, imms as u64) == (v as u64) | ((v as u64) << 32u64),
{
}

/// The encoder's fields for a value with 2-bit elements decode back to it.
#[verifier::rlimit(60)]
pub(crate) proof fn lemma_encode_32_e2(
    v: u32,
    t: u32,
    pt: u32,
    e: u32,
    elem: u32,
    ones: u32,
    tz1: u32,
    tz2: u32,
    immr: u32,
    imms: u32,
)
    by (bit_vector)
    requires
        t == v ^ ((v >> 1u32) | (v << 31u32)),
        pt == pop32(t),
        22 <= pt <= 32,
        e == 2,
        v == rol32(v, e),
        elem == v & (if e >= 32 {
            0xFFFF_FFFFu32
        } else {
            ((1u32 << e) - 1) as u32
        }),
        ones == pop32(elem),
        tz1 < 32 ==> ((!elem) >> tz1) & 1 == 1,
        tz1 <= 32,
        (!elem) << ((32 - tz1) as u32) == 0,
        (tz1 == 32) == (!elem == 0),
        tz2 < 32 ==> (elem >> tz2) & 1 == 1,
        tz2 <= 32,
        elem << ((32 - tz2) as u32) == 0,
        (tz2 == 32) == (elem == 0),
        immr == (if elem & 1 != 0 {
            (ones - tz1) as u32
        } else {
            (e - tz2) as u32
        }),
        imms == (!(((e << 1u32) - 1) as u32) & 0x3F) | ((ones - 1) as u32),
    ensures
        ones >= 1,
        elem & 1 != 0 ==> tz1 <= ones,
        elem & 1 == 0 ==> tz2 <= e,
        immr < e,
        imms < 64,
        ones < e,
        elem != 0,
        elem != 0xFFFF_FFFF,
        element_size(0, imms as u64) == e as u64,
        bit_mask_valid(0, immr as u64, imms as u64),
        bit_mask_value(0, immr as u64, imms as u64) == (v as u64) | ((v as u64) << 32u64),
{
}

/// Shifts by an element size in 2 to 32 stay in range.
pub(crate) proof fn lemma_size_shifts(e: u32)
    by (bit_vector)
    requires
        2 <= e <= 32,
    ensures
        e < 32 ==> 1u32 << e >= 1,
        e << 1u32 >= 4,
{
}

/// The low word of a value whose two words are equal.
pub(crate) proof fn lemma_low_word(x: u64, v: u32)
    by (bit_vector)
    requires
        x == (v as u64) | ((v as u64) << 32u64),
    ensures
        x as u32 == v,
{
}

/// A value that fails the encoder's checks is the value of no 32-bit
/// bitmask immediate.
pub(crate) proof fn lemma_no_encoding_32(v: u32)
    requires
        ({
            let t = v ^ ((v >> 1u32) | (v << 31u32));
            pop32(t) == 0 || v != rol32(v, 64u32 / pop32(t))
        }),
    ensures
        forall|enc: u16| decode_logical_32(enc) != Some(v),
{
    assert forall|enc: u16| decode_logical_32(enc) != Some(v) by {
        if decode_logical_32(enc) == Some(v) {
            let immr = ((enc >> 6u16) & 0x3F) as u64;
            let imms = (enc & 0x3F) as u64;
            let t = v ^ ((v >> 1u32) | (v << 31u32));
            lemma_decoded_periodic_32(enc, immr, imms, v, t, pop32(t));
        }
    }
}

/// The number of set bits of `x`: those of its low word and of its high word.
pub open spec fn pop64(x: u64) -> u64 {
    (pop32(x as u32) + pop32((x >> 32u64) as u32)) as u64
}

/// `x` rotated left by `n % 64` bits.
pub open spec fn rol64(x: u64, n: u32) -> u64 {
    let k = (n % 64) as u64;
    if k == 0 {
        x
    } else {
        (x << k) | (x >> ((64 - k) as u64))
    }
}

/// The value a 13-bit `N:immr:imms` field of a 64-bit logical instruction
/// stands for, as ARM's `DecodeBitMasks` defines it.
pub open spec fn decode_logical_64(enc: u16) -> Option<u64> {
    let n = ((enc >> 12u16) & 1) as u64;
    let immr = ((enc >> 6u16) & 0x3F) as u64;
    let imms = (enc & 0x3F) as u64;
    if enc >= 0x2000 || !bit_mask_valid(n, immr, imms) {
        None
    } else {
        Some(bit_mask_value(n, immr, imms))
    }
}

/// Whether the rotation `immr` of `enc` is below the element size, so
/// that no ignored bits are set.
pub open spec fn canonical_64(enc: u16) -> bool {
    (((enc >> 6u16) & 0x3F) as u64) < element_size(((enc >> 12u16) & 1) as u64, (enc & 0x3F) as u64)
}

/// Counts the set bits of `x`.
pub(crate) fn count_ones_64(x: u64) -> (r: u32)
    ensures
        r == pop64(x),
        r <= 64,
{
    count_ones_32(x as u32) + count_ones_32((x >> 32) as u32)
}

/// `x` rotated left by `n % 64` bits.
pub(crate) fn rotate_left_64(x: u64, n: u32) -> (r: u64)
    ensures
        r == rol64(x, n),
{
    let k = (n % 64) as u64;
    if k == 0 {
        x
    } else {
        (x << k) | (x >> (64 - k))
    }
}

} // verus!
