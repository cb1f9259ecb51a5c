//! Runtime support for the 32-bit and 64-bit RISC-V architecture assembling targets.
//!
//! The RISC-V instruction sets feature 16-bit and 32-bit wide instructions,
//! with relocations up to 20 bits in size in a single instruction, or 32 bits
//! using sequences of two instructions. The core relocation behaviour is
//! provided by [`RiscvRelocation`].

use vstd::prelude::*;
use vstd::std_specs::convert::FromSpecImpl;
use crate::Register;
use crate::message::{immediate_message, register_message, unsigned_immediate_message, signed_immediate_message, invalid_register_message};
use crate::bytes::{
    le_u16, le_u32, splice, u16_bytes, u32_bytes, read_u16, read_u32, write_u16, write_u32,
    read_u32_at, write_u32_at,
};
use crate::relocations::{
    ArchitectureRelocationEncoding, Relocation, RelocationType, RelocationSize, RelocationKind,
    RelocationEncoding, ImpossibleRelocation, fits_signed, fits_signed_bitfield, kind_of_code,
    lemma_size_bounds, sign_extend, lemma_wrapping_sub,
};

verus! {

/// The instruction-embedded relocation formats of RISC-V.
#[derive(Debug, Clone, Copy)]
pub enum RiscvRelocationEncoding {
    /// beq, bge, bgeu, blt, bltu, bne and their pseudo forms: 12 bits, 2-byte scaled.
    B,
    /// j, jal: 20 bits, 2-byte scaled.
    J,
    /// c.beqz, c.bnez: 9 bits, 2-byte scaled.
    BC,
    /// c.j, c.jal: 12 bits, 2-byte scaled.
    JC,
    /// auipc: the upper 20 bits of a 32-bit offset.
    HI20,
    /// loads, addi: the lower 12 bits of a 32-bit offset.
    LO12,
    /// stores: the lower 12 bits of a 32-bit offset.
    LO12S,
    /// pc-relative address generation and load pseudo instructions: 32 bits over two instructions.
    SPLIT32,
    /// pc-relative store pseudo instructions: 32 bits over two instructions.
    SPLIT32S,
}

impl ArchitectureRelocationEncoding for RiscvRelocationEncoding {
    open spec fn is_code(code: u8) -> bool {
        code < 9
    }

    open spec fn from_code(code: u8) -> Self {
        if code == 0 {
            RiscvRelocationEncoding::B
        } else if code == 1 {
            RiscvRelocationEncoding::J
        } else if code == 2 {
            RiscvRelocationEncoding::BC
        } else if code == 3 {
            RiscvRelocationEncoding::JC
        } else if code == 4 {
            RiscvRelocationEncoding::HI20
        } else if code == 5 {
            RiscvRelocationEncoding::LO12
        } else if code == 6 {
            RiscvRelocationEncoding::LO12S
        } else if code == 7 {
            RiscvRelocationEncoding::SPLIT32
        } else {
            RiscvRelocationEncoding::SPLIT32S
        }
    }

    fn decode(code: u8) -> (r: Self) {
        match code {
            0 => Self::B,
            1 => Self::J,
            2 => Self::BC,
            3 => Self::JC,
            4 => Self::HI20,
            5 => Self::LO12,
            6 => Self::LO12S,
            7 => Self::SPLIT32,
            _ => Self::SPLIT32S,
        }
    }
}

/// The `B`-type immediate of a conditional branch: `v[12]` to bit 31,
/// `v[10:5]` to bits 30:25, `v[4:1]` to bits 11:8 and `v[11]` to bit 7.
pub open spec fn b_imm(v: u32) -> u32 {
    (((v >> 12u32) & 0x1) << 31u32) | (((v >> 5u32) & 0x3F) << 25u32) | (((v >> 1u32) & 0xF)
        << 8u32) | (((v >> 11u32) & 0x1) << 7u32)
}

/// The `J`-type immediate of a jump: `v[20]` to bit 31, `v[10:1]` to bits
/// 30:21, `v[11]` to bit 20 and `v[19:12]` to bits 19:12.
pub open spec fn j_imm(v: u32) -> u32 {
    (((v >> 20u32) & 0x1) << 31u32) | (((v >> 1u32) & 0x3FF) << 21u32) | (((v >> 11u32) & 0x1)
        << 20u32) | (((v >> 12u32) & 0xFF) << 12u32)
}

/// The immediate of a compressed branch: `v[8]` to bit 12, `v[4:3]` to bits
/// 11:10, `v[7:6]` to bits 6:5, `v[2:1]` to bits 4:3 and `v[5]` to bit 2.
pub open spec fn bc_imm(v: u32) -> u16 {
    ((((v >> 8u32) & 0x1) as u16) << 12u16) | ((((v >> 3u32) & 0x3) as u16) << 10u16) | ((((v
        >> 6u32) & 0x3) as u16) << 5u16) | ((((v >> 1u32) & 0x3) as u16) << 3u16) | ((((v >> 5u32)
        & 0x1) as u16) << 2u16)
}

/// The immediate of a compressed jump: `v[11]` to bit 12, `v[4]` to bit 11,
/// `v[9:8]` to bits 10:9, `v[10]` to bit 8, `v[6]` to bit 7, `v[7]` to bit 6,
/// `v[3:1]` to bits 5:3 and `v[5]` to bit 2.
pub open spec fn jc_imm(v: u32) -> u16 {
    ((((v >> 11u32) & 0x1) as u16) << 12u16) | ((((v >> 4u32) & 0x1) as u16) << 11u16) | ((((v
        >> 8u32) & 0x3) as u16) << 9u16) | ((((v >> 10u32) & 0x1) as u16) << 8u16) | ((((v
        >> 6u32) & 0x1) as u16) << 7u16) | ((((v >> 7u32) & 0x1) as u16) << 6u16) | ((((v >> 1u32)
        & 0x7) as u16) << 3u16) | ((((v >> 5u32) & 0x1) as u16) << 2u16)
}

/// The `U`-type immediate of `auipc`: the upper 20 bits of `v`, rounded so
/// that adding the sign-extended lower 12 bits gives `v` back.
pub open spec fn hi20_imm(v: u32) -> u32 {
    v.wrapping_add(0x800) & 0xFFFF_F000
}

/// The `I`-type immediate: `v[11:0]` to bits 31:20.
pub open spec fn lo12_imm(v: u32) -> u32 {
    (v & 0xFFF) << 20u32
}

/// The `S`-type immediate: `v[4:0]` to bits 11:7 and `v[11:5]` to bits 31:25.
pub open spec fn lo12s_imm(v: u32) -> u32 {
    ((v & 0x1F) << 7u32) | (((v >> 5u32) & 0x7F) << 25u32)
}

/// The offset bits held by a `B`-type instruction `w`.
pub open spec fn b_unpack(w: u32) -> u32 {
    (((w >> 31u32) & 0x1) << 12u32) | (((w >> 25u32) & 0x3F) << 5u32) | (((w >> 8u32) & 0xF)
        << 1u32) | (((w >> 7u32) & 0x1) << 11u32)
}

/// The offset bits held by a `J`-type instruction `w`.
pub open spec fn j_unpack(w: u32) -> u32 {
    (((w >> 31u32) & 0x1) << 20u32) | (((w >> 21u32) & 0x3FF) << 1u32) | (((w >> 20u32) & 0x1)
        << 11u32) | (((w >> 12u32) & 0xFF) << 12u32)
}

/// The offset bits held by a compressed branch `h`.
pub open spec fn bc_unpack(h: u32) -> u32 {
    (((h >> 12u32) & 0x1) << 8u32) | (((h >> 10u32) & 0x3) << 3u32) | (((h >> 5u32) & 0x3)
        << 6u32) | (((h >> 3u32) & 0x3) << 1u32) | (((h >> 2u32) & 0x1) << 5u32)
}

/// The offset bits held by a compressed jump `h`.
pub open spec fn jc_unpack(h: u32) -> u32 {
    (((h >> 12u32) & 0x1) << 11u32) | (((h >> 11u32) & 0x1) << 4u32) | (((h >> 9u32) & 0x3)
        << 8u32) | (((h >> 8u32) & 0x1) << 10u32) | (((h >> 7u32) & 0x1) << 6u32) | (((h >> 6u32)
        & 0x1) << 7u32) | (((h >> 3u32) & 0x7) << 1u32) | (((h >> 2u32) & 0x1) << 5u32)
}

/// The upper offset bits held by a `U`-type instruction `w`.
pub open spec fn hi20_unpack(w: u32) -> u32 {
    ((w >> 12u32) & 0xFFFFF) << 12u32
}

/// The offset bits held by an `I`-type instruction `w`.
pub open spec fn lo12_unpack(w: u32) -> u32 {
    (w >> 20u32) & 0xFFF
}

/// The offset bits held by an `S`-type instruction `w`.
pub open spec fn lo12s_unpack(w: u32) -> u32 {
    ((w >> 7u32) & 0x1F) | (((w >> 25u32) & 0x7F) << 5u32)
}

/// The 12-bit value `x` sign-extended to 32 bits.
pub open spec fn sign_extend_12(x: u32) -> u32 {
    (x ^ 0x800).wrapping_sub(0x800)
}

/// The instruction bits that a `J`, `U` or upper-half relocation keeps.
pub const KEEP_UPPER: u32 = 0x0000_0FFF;

/// The instruction bits that an `I`-type relocation keeps.
pub const KEEP_I: u32 = 0x000F_FFFF;

/// The instruction bits that a `B`- or `S`-type relocation keeps.
pub const KEEP_BS: u32 = 0x01FF_F07F;

impl RiscvRelocationEncoding {
    /// The field width in bits and the scaling in bits of each format.
    spec fn bits_scaling(self) -> (u8, u8) {
        match self {
            Self::B => (12, 1),
            Self::J => (20, 1),
            Self::BC => (9, 1),
            Self::JC => (12, 1),
            Self::HI20 => (32, 0),
            Self::LO12 => (32, 0),
            Self::LO12S => (32, 0),
            Self::SPLIT32 => (32, 0),
            Self::SPLIT32S => (32, 0),
        }
    }

    /// Whether the offset `v` can be encoded. Offsets built on `auipc` are
    /// accepted from -0x8000_0000 to 0x7FFF_F7FF, the range such a pair
    /// reaches on both RV32 and RV64; the others must be even and fit their
    /// field as a signed number.
    pub open spec fn encodable(self, v: int) -> bool {
        match self {
            Self::B => v % 2 == 0 && -0x800 <= v < 0x800,
            Self::J => v % 2 == 0 && -0x8_0000 <= v < 0x8_0000,
            Self::BC => v % 2 == 0 && -0x100 <= v < 0x100,
            Self::JC => v % 2 == 0 && -0x800 <= v < 0x800,
            _ => -0x8000_0000 <= v <= 0x7FFF_F7FF,
        }
    }

    /// The number of bytes the relocation spans.
    pub open spec fn byte_len(self) -> nat {
        match self {
            Self::BC | Self::JC => 2,
            Self::SPLIT32 | Self::SPLIT32S => 8,
            _ => 4,
        }
    }

    /// The buffer after the offset `v`, truncated to 32 bits, has been placed
    /// into the instruction(s) at its start; every other bit stays.
    pub open spec fn written(self, buf: Seq<u8>, v: u32) -> Seq<u8> {
        let w = le_u32(buf);
        let h = le_u16(buf);
        let w2 = le_u32(buf.subrange(4, buf.len() as int));
        match self {
            Self::B => splice(buf, 0, u32_bytes((w & KEEP_BS) | b_imm(v))),
            Self::J => splice(buf, 0, u32_bytes((w & KEEP_UPPER) | j_imm(v))),
            Self::BC => splice(buf, 0, u16_bytes((h & 0xE383) | bc_imm(v))),
            Self::JC => splice(buf, 0, u16_bytes((h & 0xE003) | jc_imm(v))),
            Self::HI20 => splice(buf, 0, u32_bytes((w & KEEP_UPPER) | hi20_imm(v))),
            Self::LO12 => splice(buf, 0, u32_bytes((w & KEEP_I) | lo12_imm(v))),
            Self::LO12S => splice(buf, 0, u32_bytes((w & KEEP_BS) | lo12s_imm(v))),
            Self::SPLIT32 => splice(
                splice(buf, 0, u32_bytes((w & KEEP_UPPER) | hi20_imm(v))),
                4,
                u32_bytes((w2 & KEEP_I) | lo12_imm(v)),
            ),
            Self::SPLIT32S => splice(
                splice(buf, 0, u32_bytes((w & KEEP_UPPER) | hi20_imm(v))),
                4,
                u32_bytes((w2 & KEEP_BS) | lo12s_imm(v)),
            ),
        }
    }

    /// The offset bits gathered from the instruction(s) at the start of
    /// `buf`, before sign extension.
    pub open spec fn unpacked(self, buf: Seq<u8>) -> u32 {
        let w = le_u32(buf);
        let h = le_u16(buf) as u32;
        let w2 = le_u32(buf.subrange(4, buf.len() as int));
        match self {
            Self::B => b_unpack(w),
            Self::J => j_unpack(w),
            Self::BC => bc_unpack(h),
            Self::JC => jc_unpack(h),
            Self::HI20 => hi20_unpack(w),
            Self::LO12 => lo12_unpack(w),
            Self::LO12S => lo12s_unpack(w),
            Self::SPLIT32 => hi20_unpack(w).wrapping_add(sign_extend_12(lo12_unpack(w2))),
            Self::SPLIT32S => hi20_unpack(w).wrapping_add(sign_extend_12(lo12s_unpack(w2))),
        }
    }

    /// The bit width at whose top bit the unpacked offset is sign-extended.
    pub open spec fn sign_bits(self) -> u64 {
        match self {
            Self::B => 13,
            Self::J => 21,
            Self::BC => 9,
            Self::JC => 12,
            Self::HI20 => 32,
            Self::LO12 => 12,
            Self::LO12S => 12,
            Self::SPLIT32 => 32,
            Self::SPLIT32S => 32,
        }
    }

    /// The offset read back from the instruction(s) at the start of `buf`.
    pub open spec fn read(self, buf: Seq<u8>) -> i64 {
        sign_extend(self.unpacked(buf) as u64, self.sign_bits())
    }

    fn bitsize(&self) -> (r: (u8, u8))
        ensures
            r == self.bits_scaling(),
    {
        match self {
            Self::B => (12, 1),
            Self::J => (20, 1),
            Self::BC => (9, 1),
            Self::JC => (12, 1),
            Self::HI20 => (32, 0),
            Self::LO12 => (32, 0),
            Self::LO12S => (32, 0),
            Self::SPLIT32 => (32, 0),
            Self::SPLIT32S => (32, 0),
        }
    }
}

/// Setting an immediate one field at a time, as the writer does, gives
/// the template bits together with the immediate.
proof fn lemma_inserts(w: u32, h: u16, v: u32)
    by (bit_vector)
    ensures
        ((((w & 0x01FF_F07F) | (((v >> 12u32) & 0x1) << 31u32)) | (((v >> 5u32) & 0x3F) << 25u32))
            | (((v >> 1u32) & 0xF) << 8u32)) | (((v >> 11u32) & 0x1) << 7u32) == (w & KEEP_BS)
            | b_imm(v),
        ((((w & 0x0000_0FFF) | (((v >> 20u32) & 0x1) << 31u32)) | (((v >> 1u32) & 0x3FF) << 21u32))
            | (((v >> 11u32) & 0x1) << 20u32)) | (((v >> 12u32) & 0xFF) << 12u32) == (w
            & KEEP_UPPER) | j_imm(v),
        (((((h & 0xE383) | ((((v >> 8u32) & 0x1) as u16) << 12u16)) | ((((v >> 3u32) & 0x3) as u16)
            << 10u16)) | ((((v >> 6u32) & 0x3) as u16) << 5u16)) | ((((v >> 1u32) & 0x3) as u16)
            << 3u16)) | ((((v >> 5u32) & 0x1) as u16) << 2u16) == (h & 0xE383) | bc_imm(v),
        (((((((((h & 0xE003) | ((((v >> 11u32) & 0x1) as u16) << 12u16)) | ((((v >> 4u32) & 0x1)
            as u16) << 11u16)) | ((((v >> 8u32) & 0x3) as u16) << 9u16)) | ((((v >> 10u32) & 0x1)
            as u16) << 8u16)) | ((((v >> 6u32) & 0x1) as u16) << 7u16)) | ((((v >> 7u32) & 0x1)
            as u16) << 6u16)) | ((((v >> 1u32) & 0x7) as u16) << 3u16)) | ((((v >> 5u32) & 0x1)
            as u16) << 2u16)) == (h & 0xE003) | jc_imm(v),
        ((w & 0x01FF_F07F) | ((v & 0x1F) << 7u32)) | (((v >> 5u32) & 0x7F) << 25u32) == (w
            & KEEP_BS) | lo12s_imm(v),
{
}

/// Each immediate is read back from its instruction, and the bits the
/// relocation keeps are untouched.
proof fn lemma_fields(w: u32, h: u16, x: u32)
    by (bit_vector)
    ensures
        b_unpack((w & KEEP_BS) | b_imm(x)) == x & 0x1FFE,
        ((w & KEEP_BS) | b_imm(x)) & KEEP_BS == w & KEEP_BS,
        j_unpack((w & KEEP_UPPER) | j_imm(x)) == x & 0x1F_FFFE,
        ((w & KEEP_UPPER) | j_imm(x)) & KEEP_UPPER == w & KEEP_UPPER,
        bc_unpack(((h & 0xE383) | bc_imm(x)) as u32) == x & 0x1FE,
        ((h & 0xE383) | bc_imm(x)) & 0xE383 == h & 0xE383,
        jc_unpack(((h & 0xE003) | jc_imm(x)) as u32) == x & 0xFFE,
        ((h & 0xE003) | jc_imm(x)) & 0xE003 == h & 0xE003,
        hi20_unpack((w & KEEP_UPPER) | hi20_imm(x)) == hi20_imm(x),
        ((w & KEEP_UPPER) | hi20_imm(x)) & KEEP_UPPER == w & KEEP_UPPER,
        lo12_unpack((w & KEEP_I) | lo12_imm(x)) == x & 0xFFF,
        ((w & KEEP_I) | lo12_imm(x)) & KEEP_I == w & KEEP_I,
        lo12s_unpack((w & KEEP_BS) | lo12s_imm(x)) == x & 0xFFF,
        ((w & KEEP_BS) | lo12s_imm(x)) & KEEP_BS == w & KEEP_BS,
{
}

impl RiscvRelocationEncoding {
    /// The offset bits that writing the encodable offset `v` stores, as
    /// they are gathered again when reading.
    spec fn stored_bits(self, v: i64) -> u32 {
        let x = v as u32;
        match self {
            Self::B => x & 0x1FFE,
            Self::J => x & 0x1F_FFFE,
            Self::BC => x & 0x1FE,
            Self::JC => x & 0xFFE,
            Self::HI20 => hi20_imm(x),
            Self::LO12 | Self::LO12S => x & 0xFFF,
            Self::SPLIT32 | Self::SPLIT32S => hi20_imm(x).wrapping_add(sign_extend_12(x & 0xFFF)),
        }
    }

    /// The offset that reading back yields after the encodable offset `v`
    /// was written: the branches, the jumps and the 32-bit pairs give `v`
    /// back; `auipc` alone holds only the upper part, `v + 0x800` rounded
    /// down to a multiple of 4096; the lower-half formats hold only the low
    /// 12 bits of `v`, read as a signed number.
    pub open spec fn read_back(self, v: int) -> int {
        match self {
            Self::HI20 => ((v + 0x800) / 4096) * 4096,
            Self::LO12 | Self::LO12S => (v + 0x800) % 4096 - 0x800,
            _ => v,
        }
    }

    /// Sign-extending the stored bits of an encodable offset gives `read_back`.
    proof fn lemma_stored_read_back(self, v: i64)
        requires
            self.encodable(v as int),
        ensures
            sign_extend(self.stored_bits(v) as u64, self.sign_bits()) as int == self.read_back(
                v as int,
            ),
    {
        let u = self.stored_bits(v) as u64;
        let o = 1u64 << ((self.sign_bits() - 1) as u64);
        lemma_wrapping_sub(u ^ o, o);
        assert(sign_extend(u, self.sign_bits()) == ((u ^ o) - o) as u64 as i64);
        lemma_sign_cases(v);
        lemma_sign_cases_upper(v);
        lemma_sign_cases_lower(v);
    }
}

/// The bit-level facts behind writing and reading back RISC-V offsets:
/// alignment, the shift constants, the split of a 32-bit offset into an
/// `auipc` part and a sign-extended lower part, and what each format's
/// sign extension gives for the offsets it accepts.
proof fn lemma_sign_cases(v: i64)
    by (bit_vector)
    ensures
        (v & 1 == 0) <==> (v % 2 == 0),
        v & 0 == 0,
        1i64 << 1u8 == 2 && 1i64 << 0u8 == 1,
        1u64 << 12u64 == 0x1000 && 1u64 << 20u64 == 0x10_0000 && 1u64 << 11u64 == 0x800 && 1u64
            << 8u64 == 0x100 && 1u64 << 31u64 == 0x8000_0000,
        hi20_imm(v as u32).wrapping_add(sign_extend_12((v as u32) & 0xFFF)) == v as u32,
        v & 1 == 0 && -0x800 <= v < 0x800 ==> ((((v as u32) & 0x1FFE) as u64 ^ 0x1000) - 0x1000)
            as u64 as i64 == v,
        v & 1 == 0 && -0x8_0000 <= v < 0x8_0000 ==> ((((v as u32) & 0x1F_FFFE) as u64 ^ 0x10_0000)
            - 0x10_0000) as u64 as i64 == v,
        v & 1 == 0 && -0x100 <= v < 0x100 ==> ((((v as u32) & 0x1FE) as u64 ^ 0x100) - 0x100)
            as u64 as i64 == v,
        v & 1 == 0 && -0x800 <= v < 0x800 ==> ((((v as u32) & 0xFFE) as u64 ^ 0x800) - 0x800)
            as u64 as i64 == v,
        ((((v as u32) & 0x1FE) as u64 ^ 0x100) - 0x100) as u64 as i64 == v ==> v & 1 == 0 && -0x100
            <= v < 0x100,
        v & 1 == 0 && -0x800 <= v < 0x800 ==> (((((2 * v) as i64 as u32) & 0x1FFE) as u64 ^ 0x1000)
            - 0x1000) as u64 as i64 == 2 * v,
        ((((v as u32) & 0x1FFE) as u64 ^ 0x1000) - 0x1000) as u64 as i64 == v && (((((2 * v) as i64
            as u32) & 0x1FFE) as u64 ^ 0x1000) - 0x1000) as u64 as i64 == 2 * v ==> v & 1 == 0
            && -0x800 <= v < 0x800,
        v & 1 == 0 && -0x8_0000 <= v < 0x8_0000 ==> (((((2 * v) as i64 as u32) & 0x1F_FFFE) as u64
            ^ 0x10_0000) - 0x10_0000) as u64 as i64 == 2 * v,
        ((((v as u32) & 0x1F_FFFE) as u64 ^ 0x10_0000) - 0x10_0000) as u64 as i64 == v && (((((2
            * v) as i64 as u32) & 0x1F_FFFE) as u64 ^ 0x10_0000) - 0x10_0000) as u64 as i64 == 2 * v
            ==> v & 1 == 0 && -0x8_0000 <= v < 0x8_0000,
        ((((v as u32) & 0xFFE) as u64 ^ 0x800) - 0x800) as u64 as i64 == v ==> v & 1 == 0 && -0x800
            <= v < 0x800,
{
}

/// What sign extension at bit 31 gives for the upper part of an offset and
/// for a whole 32-bit offset, over the range the `auipc` formats accept.
proof fn lemma_sign_cases_upper(v: i64)
    by (bit_vector)
    ensures
        -0x8000_0000 <= v <= 0x7FFF_F7FF ==> (((hi20_imm(v as u32) as u64) ^ 0x8000_0000)
            - 0x8000_0000) as u64 as i64 as int == ((v + 0x800) / 4096) * 4096,
        -0x8000_0000 <= v <= 0x7FFF_F7FF ==> ((((v as u32) as u64) ^ 0x8000_0000) - 0x8000_0000)
            as u64 as i64 == v,
        ((((v as u32) as u64) ^ 0x8000_0000) - 0x8000_0000) as u64 as i64 == v <==> -0x8000_0000 <= v
            < 0x8000_0000,
{
}

/// Sign extension of the low 12 bits of an offset.
proof fn lemma_sign_cases_lower(v: i64)
    by (bit_vector)
    ensures
        ((((v as u32) & 0xFFF) as u64 ^ 0x800) - 0x800) as u64 as i64 as int == (v + 0x800) % 4096
            - 0x800,
{
}

impl RiscvRelocationEncoding {
    /// Whether `new` holds the same instruction bits as `old` outside the
    /// immediate fields of this format.
    pub open spec fn keeps_template(self, old: Seq<u8>, new: Seq<u8>) -> bool {
        let w = le_u32(old);
        let nw = le_u32(new);
        let w2 = le_u32(old.subrange(4, old.len() as int));
        let nw2 = le_u32(new.subrange(4, new.len() as int));
        match self {
            Self::B | Self::LO12S => nw & KEEP_BS == w & KEEP_BS,
            Self::J | Self::HI20 => nw & KEEP_UPPER == w & KEEP_UPPER,
            Self::LO12 => nw & KEEP_I == w & KEEP_I,
            Self::BC => le_u16(new) & 0xE383 == le_u16(old) & 0xE383,
            Self::JC => le_u16(new) & 0xE003 == le_u16(old) & 0xE003,
            Self::SPLIT32 => nw & KEEP_UPPER == w & KEEP_UPPER && nw2 & KEEP_I == w2 & KEEP_I,
            Self::SPLIT32S => nw & KEEP_UPPER == w & KEEP_UPPER && nw2 & KEEP_BS == w2 & KEEP_BS,
        }
    }

    /// Writing an encodable offset and reading it back gives `read_back`;
    /// the write keeps the template bits, the length of the buffer and every
    /// byte past the relocation.
    proof fn lemma_write_read(self, buf: Seq<u8>, v: i64)
        requires
            self.encodable(v as int),
            buf.len() >= self.byte_len(),
        ensures
            self.read(self.written(buf, v as u32)) as int == self.read_back(v as int),
            self.keeps_template(buf, self.written(buf, v as u32)),
            self.written(buf, v as u32).len() == buf.len(),
            self.written(buf, v as u32).subrange(self.byte_len() as int, buf.len() as int)
                =~= buf.subrange(self.byte_len() as int, buf.len() as int),
    {
        self.lemma_written_fields(buf, v);
        self.lemma_stored_read_back(v);
    }

    /// Writing any offset stores its `stored_bits`, and keeps the template
    /// bits, the length of the buffer and every byte past the relocation.
    proof fn lemma_written_fields(self, buf: Seq<u8>, v: i64)
        requires
            buf.len() >= self.byte_len(),
        ensures
            self.unpacked(self.written(buf, v as u32)) == self.stored_bits(v),
            self.keeps_template(buf, self.written(buf, v as u32)),
            self.written(buf, v as u32).len() == buf.len(),
            self.written(buf, v as u32).subrange(self.byte_len() as int, buf.len() as int)
                =~= buf.subrange(self.byte_len() as int, buf.len() as int),
    {
        let x = v as u32;
        let n = self.written(buf, x);
        let w = le_u32(buf);
        let h = le_u16(buf);
        let rest4 = buf.subrange(4, buf.len() as int);
        let w2 = le_u32(rest4);
        lemma_fields(w, h, x);
        lemma_fields(w2, h, x);
        match self {
            Self::BC | Self::JC => {
                let nh = if self is BC {
                    (h & 0xE383) | bc_imm(x)
                } else {
                    (h & 0xE003) | jc_imm(x)
                };
                let rest = buf.subrange(2, buf.len() as int);
                assert(n =~= u16_bytes(nh) + rest);
                crate::bytes::lemma_u16_roundtrip(nh, rest);
            },
            Self::SPLIT32 | Self::SPLIT32S => {
                let nw = (w & KEEP_UPPER) | hi20_imm(x);
                let nw2 = if self is SPLIT32 {
                    (w2 & KEEP_I) | lo12_imm(x)
                } else {
                    (w2 & KEEP_BS) | lo12s_imm(x)
                };
                let rest = buf.subrange(8, buf.len() as int);
                assert(n =~= u32_bytes(nw) + (u32_bytes(nw2) + rest));
                assert(n.subrange(4, n.len() as int) =~= u32_bytes(nw2) + rest);
                crate::bytes::lemma_u32_roundtrip(nw, u32_bytes(nw2) + rest);
                crate::bytes::lemma_u32_roundtrip(nw2, rest);
            },
            _ => {
                let nw = match self {
                    Self::B => (w & KEEP_BS) | b_imm(x),
                    Self::J => (w & KEEP_UPPER) | j_imm(x),
                    Self::HI20 => (w & KEEP_UPPER) | hi20_imm(x),
                    Self::LO12 => (w & KEEP_I) | lo12_imm(x),
                    _ => (w & KEEP_BS) | lo12s_imm(x),
                };
                assert(n =~= u32_bytes(nw) + rest4);
                crate::bytes::lemma_u32_roundtrip(nw, rest4);
            },
        }
    }
}

impl RiscvRelocationEncoding {
    /// An offset that a compressed branch or jump gives back unchanged after
    /// it was written is one the format accepts.
    proof fn lemma_holds_only_accepted(self, buf: Seq<u8>, v: i64)
        requires
            self is BC || self is JC,
            buf.len() >= self.byte_len(),
            self.read(self.written(buf, v as u32)) == v,
        ensures
            self.encodable(v as int),
    {
        self.lemma_written_fields(buf, v);
        lemma_sign_cases(v);
        let u = self.stored_bits(v) as u64;
        let o = 1u64 << ((self.sign_bits() - 1) as u64);
        lemma_wrapping_sub(u ^ o, o);
    }

    /// A conditional branch or a jump accepts half of what its field holds:
    /// exactly the offsets `v` that come back unchanged after writing them
    /// and for which `2 * v` does too.
    pub proof fn lemma_branch_offsets(self, buf: Seq<u8>, v: int)
        requires
            self is B || self is J,
            buf.len() >= 4,
            i64::MIN <= v <= i64::MAX,
        ensures
            self.encodable(v) <==> (self.read(self.written(buf, v as i64 as u32)) == v && self.read(
                self.written(buf, (2 * v) as i64 as u32),
            ) == 2 * v),
    {
        let x = v as i64;
        let y = (2 * v) as i64;
        self.lemma_written_fields(buf, x);
        self.lemma_written_fields(buf, y);
        lemma_sign_cases(x);
        let o = 1u64 << ((self.sign_bits() - 1) as u64);
        let u = self.stored_bits(x) as u64;
        let u2 = self.stored_bits(y) as u64;
        lemma_wrapping_sub(u ^ o, o);
        lemma_wrapping_sub(u2 ^ o, o);
    }

    /// The formats built on `auipc` accept the same offsets: exactly those
    /// that a two-instruction pair gives back unchanged after writing them
    /// (the RV32 limit) and whose upper part, `v + 0x800` rounded down to a
    /// multiple of 4096, stays below 2^31, so that the sign extension of
    /// `auipc` on RV64 leaves it as it is.
    pub proof fn lemma_auipc_offsets(self, pair: Self, buf: Seq<u8>, v: int)
        requires
            self is HI20 || self is LO12 || self is LO12S || self is SPLIT32 || self is SPLIT32S,
            pair is SPLIT32 || pair is SPLIT32S,
            buf.len() >= 8,
            i64::MIN <= v <= i64::MAX,
        ensures
            self.encodable(v) <==> (pair.read(pair.written(buf, v as i64 as u32)) == v && ((v
                + 0x800) / 4096) * 4096 < 0x8000_0000),
    {
        let x = v as i64;
        pair.lemma_written_fields(buf, x);
        lemma_sign_cases(x);
        lemma_sign_cases_upper(x);
        let u = pair.stored_bits(x) as u64;
        lemma_wrapping_sub(u ^ 0x8000_0000, 0x8000_0000);
    }
}

/// Relocation implementation for the RV32 and RV64 architectures.
#[derive(Debug, Clone, Copy)]
pub struct RiscvRelocation(RelocationType<RiscvRelocationEncoding>);

impl RiscvRelocation {
    /// The format this relocation writes: a plain little-endian integer of
    /// some size, or one of the instruction formats.
    pub closed spec fn encoding(self) -> RelocationEncoding<RiscvRelocationEncoding> {
        self.0.encoding
    }

    /// The kind of this relocation.
    pub closed spec fn riscv_kind(self) -> RelocationKind {
        self.0.kind
    }

    /// The value that reading this relocation back yields once `value` has
    /// been written: `value` itself for plain integers, branches, jumps and
    /// the two-instruction formats; for `auipc` alone `value + 0x800` rounded
    /// down to a multiple of 4096; for the lower-half formats the
    /// sign-extended low 12 bits of `value`.
    pub open spec fn read_back(self, value: int) -> int {
        match self.encoding() {
            RelocationEncoding::Simple(_) => value,
            RelocationEncoding::ArchSpecific(c) => c.read_back(value),
        }
    }

    /// Whether `new` keeps every instruction bit of `old` outside the
    /// immediate fields this relocation writes (always, for plain integers).
    pub open spec fn keeps_template(self, old: Seq<u8>, new: Seq<u8>) -> bool {
        match self.encoding() {
            RelocationEncoding::Simple(_) => true,
            RelocationEncoding::ArchSpecific(c) => c.keeps_template(old, new),
        }
    }

    /// Reading a relocation back after writing an encodable value gives
    /// `read_back` of that value: the value itself, unless the relocation
    /// holds only one half of an `auipc` pair.
    pub proof fn lemma_write_read(self, buf: Seq<u8>, value: int)
        requires
            buf.len() >= self.byte_len(),
            self.encodable(value),
        ensures
            self.read(self.written(buf, value)) == self.read_back(value),
            !(self.encoding() matches RelocationEncoding::ArchSpecific(c) && (c is HI20 || c is LO12
                || c is LO12S)) ==> self.read(self.written(buf, value)) == value,
    {
        match self.0.encoding {
            RelocationEncoding::Simple(s) => {
                s.lemma_write_read(buf, value);
            },
            RelocationEncoding::ArchSpecific(c) => {
                c.lemma_write_read(buf, value as i64);
            },
        }
    }

    /// A plain integer, a compressed branch or a compressed jump accepts
    /// exactly the values that come back unchanged when written and read
    /// again: every offset its field can hold, and no other.
    pub proof fn lemma_accepts_what_it_holds(self, buf: Seq<u8>, value: int)
        requires
            buf.len() >= self.byte_len(),
            self.encoding() is Simple || (self.encoding() matches RelocationEncoding::ArchSpecific(c)
                && (c is BC || c is JC)),
        ensures
            self.encodable(value) <==> self.read(self.written(buf, value)) == value,
    {
        match self.0.encoding {
            RelocationEncoding::Simple(s) => {
                s.lemma_accepts_what_it_holds(buf, value);
            },
            RelocationEncoding::ArchSpecific(c) => {
                if self.encodable(value) {
                    c.lemma_write_read(buf, value as i64);
                }
                if self.read(self.written(buf, value)) == value {
                    c.lemma_holds_only_accepted(buf, value as i64);
                }
            },
        }
    }

    /// Writing keeps the length of the buffer, every byte past the
    /// relocation, and every instruction bit outside the immediate fields.
    pub proof fn lemma_write_keeps(self, buf: Seq<u8>, value: int)
        requires
            buf.len() >= self.byte_len(),
            self.encodable(value),
        ensures
            self.written(buf, value).len() == buf.len(),
            self.written(buf, value).subrange(self.byte_len() as int, buf.len() as int)
                =~= buf.subrange(self.byte_len() as int, buf.len() as int),
            self.keeps_template(buf, self.written(buf, value)),
    {
        match self.0.encoding {
            RelocationEncoding::Simple(s) => {
                s.lemma_write_keeps_rest(buf, value);
            },
            RelocationEncoding::ArchSpecific(c) => {
                c.lemma_write_read(buf, value as i64);
            },
        }
    }
}

impl Relocation for RiscvRelocation {
    open spec fn decodable(encoding: u8) -> bool {
        encoding % 64 < 13
    }

    closed spec fn decoded(encoding: u8) -> Self {
        RiscvRelocation(RelocationType::decoded(encoding))
    }

    closed spec fn sized(kind: RelocationKind, size: RelocationSize) -> Self {
        RiscvRelocation(RelocationType { kind, encoding: RelocationEncoding::Simple(size) })
    }

    open spec fn byte_len(&self) -> nat {
        match self.encoding() {
            RelocationEncoding::Simple(s) => s.bytes(),
            RelocationEncoding::ArchSpecific(c) => c.byte_len(),
        }
    }

    open spec fn encodable(&self, value: int) -> bool {
        match self.encoding() {
            RelocationEncoding::Simple(s) => s.encodable(value),
            RelocationEncoding::ArchSpecific(c) => c.encodable(value),
        }
    }

    open spec fn written(&self, buf: Seq<u8>, value: int) -> Seq<u8> {
        match self.encoding() {
            RelocationEncoding::Simple(s) => s.written(buf, value),
            RelocationEncoding::ArchSpecific(c) => c.written(buf, value as i64 as u32),
        }
    }

    open spec fn read(&self, buf: Seq<u8>) -> i64 {
        match self.encoding() {
            RelocationEncoding::Simple(s) => s.read(buf),
            RelocationEncoding::ArchSpecific(c) => c.read(buf),
        }
    }

    open spec fn relocation_kind(&self) -> RelocationKind {
        self.riscv_kind()
    }

    open spec fn page_bytes() -> nat {
        4096
    }

    proof fn lemma_sized(kind: RelocationKind, size: RelocationSize, buf: Seq<u8>, value: int) {
    }

    fn from_encoding(encoding: u8) -> (r: Self)
        ensures
            r.riscv_kind() == kind_of_code(encoding),
            r.encoding() == RelocationType::<RiscvRelocationEncoding>::decoded(encoding).encoding,
    {
        RiscvRelocation(RelocationType::decode(encoding))
    }

    fn from_size(kind: RelocationKind, size: RelocationSize) -> (r: Self)
        ensures
            r.riscv_kind() == kind,
            r.encoding() == RelocationEncoding::<RiscvRelocationEncoding>::Simple(size),
    {
        RiscvRelocation(RelocationType::from_size(kind, size))
    }

    fn size(&self) -> (r: usize) {
        match self.0.encoding {
            RelocationEncoding::Simple(s) => s.size(),
            RelocationEncoding::ArchSpecific(c) => match c {
                RiscvRelocationEncoding::BC | RiscvRelocationEncoding::JC => 2,
                RiscvRelocationEncoding::B
                | RiscvRelocationEncoding::J
                | RiscvRelocationEncoding::HI20
                | RiscvRelocationEncoding::LO12
                | RiscvRelocationEncoding::LO12S => 4,
                RiscvRelocationEncoding::SPLIT32 | RiscvRelocationEncoding::SPLIT32S => 8,
            },
        }
    }

    fn write_value(&self, buf: &mut [u8], value: isize) -> (r: Result<(), ImpossibleRelocation>) {
        match self.0.encoding {
            RelocationEncoding::Simple(s) => s.write_value(buf, value),
            RelocationEncoding::ArchSpecific(c) => {
                // determine if the value fits
                let value = value as i64;
                let (bits, scaling) = c.bitsize();
                proof {
                    lemma_size_bounds();
                    vstd::arithmetic::power2::lemma2_to64();
                    lemma_sign_cases(value);
                }
                let mask = (1i64 << scaling) - 1;
                // The 32-bit AUIPC-based offsets range from -0x8000_0800 to
                // 0x7FFF_F7FF on RV64 due to how sign extension interacts
                // between the two halves, and span the full 32 bits on RV32;
                // the accepted range, -0x8000_0000 to 0x7FFF_F7FF, lies in both.
                match c {
                    RiscvRelocationEncoding::HI20
                    | RiscvRelocationEncoding::LO12
                    | RiscvRelocationEncoding::LO12S
                    | RiscvRelocationEncoding::SPLIT32
                    | RiscvRelocationEncoding::SPLIT32S => {
                        if value < -0x8000_0000 || value > 0x7FFF_F7FF {
                            return Err(ImpossibleRelocation {});
                        }
                    },
                    _ => {
                        if !fits_signed_bitfield(value, bits) || (value & mask) != 0 {
                            return Err(ImpossibleRelocation {});
                        }
                    },
                }

                // no bit above the 31st is ever encoded
                let val_cast = value as u32;
                match c {
                    RiscvRelocationEncoding::B => {
                        let mut instr = read_u32(buf);
                        instr &= 0x01FF_F07F;
                        instr |= ((val_cast >> 12) & 0x1) << 31;
                        instr |= ((val_cast >> 5) & 0x3F) << 25;
                        instr |= ((val_cast >> 1) & 0xF) << 8;
                        instr |= ((val_cast >> 11) & 0x1) << 7;
                        proof { lemma_inserts(le_u32(buf@), le_u16(buf@), val_cast); }
                        write_u32(buf, instr);
                    },
                    RiscvRelocationEncoding::J => {
                        let mut instr = read_u32(buf);
                        instr &= 0x0000_0FFF;
                        instr |= ((val_cast >> 20) & 0x1) << 31;
                        instr |= ((val_cast >> 1) & 0x3FF) << 21;
                        instr |= ((val_cast >> 11) & 0x1) << 20;
                        instr |= ((val_cast >> 12) & 0xFF) << 12;
                        proof { lemma_inserts(le_u32(buf@), le_u16(buf@), val_cast); }
                        write_u32(buf, instr);
                    },
                    RiscvRelocationEncoding::BC => {
                        let mut instr = read_u16(buf);
                        instr &= 0xE383;
                        instr |= (((val_cast >> 8) & 0x1) as u16) << 12;
                        instr |= (((val_cast >> 3) & 0x3) as u16) << 10;
                        instr |= (((val_cast >> 6) & 0x3) as u16) << 5;
                        instr |= (((val_cast >> 1) & 0x3) as u16) << 3;
                        instr |= (((val_cast >> 5) & 0x1) as u16) << 2;
                        proof { lemma_inserts(le_u32(buf@), le_u16(buf@), val_cast); }
                        write_u16(buf, instr);
                    },
                    RiscvRelocationEncoding::JC => {
                        let mut instr = read_u16(buf);
                        instr &= 0xE003;
                        instr |= (((val_cast >> 11) & 0x1) as u16) << 12;
                        instr |= (((val_cast >> 4) & 0x1) as u16) << 11;
                        instr |= (((val_cast >> 8) & 0x3) as u16) << 9;
                        instr |= (((val_cast >> 10) & 0x1) as u16) << 8;
                        instr |= (((val_cast >> 6) & 0x1) as u16) << 7;
                        instr |= (((val_cast >> 7) & 0x1) as u16) << 6;
                        instr |= (((val_cast >> 1) & 0x7) as u16) << 3;
                        instr |= (((val_cast >> 5) & 0x1) as u16) << 2;
                        proof { lemma_inserts(le_u32(buf@), le_u16(buf@), val_cast); }
                        write_u16(buf, instr);
                    },
                    RiscvRelocationEncoding::HI20 => {
                        let mut instr = read_u32(buf);
                        instr &= 0x0000_0FFF;
                        let val_round: u32 = val_cast.wrapping_add(0x800);
                        instr |= val_round & 0xFFFF_F000;
                        write_u32(buf, instr);
                    },
                    RiscvRelocationEncoding::LO12 => {
                        let mut instr = read_u32(buf);
                        instr &= 0x000F_FFFF;
                        instr |= (val_cast & 0xFFF) << 20;
                        write_u32(buf, instr);
                    },
                    RiscvRelocationEncoding::LO12S => {
                        let mut instr = read_u32(buf);
                        instr &= 0x01FF_F07F;
                        instr |= (val_cast & 0x1F) << 7;
                        instr |= ((val_cast >> 5) & 0x7F) << 25;
                        proof { lemma_inserts(le_u32(buf@), le_u16(buf@), val_cast); }
                        write_u32(buf, instr);
                    },
                    RiscvRelocationEncoding::SPLIT32 => {
                        let mut instr1 = read_u32(buf);
                        let mut instr2 = read_u32_at(buf, 4);
                        instr1 &= 0x0000_0FFF;
                        instr2 &= 0x000F_FFFF;
                        let val_round: u32 = val_cast.wrapping_add(0x800);
                        instr1 |= val_round & 0xFFFF_F000;
                        instr2 |= (val_cast & 0xFFF) << 20;
                        write_u32(buf, instr1);
                        write_u32_at(buf, 4, instr2);
                    },
                    RiscvRelocationEncoding::SPLIT32S => {
                        let mut instr1 = read_u32(buf);
                        let mut instr2 = read_u32_at(buf, 4);
                        instr1 &= 0x0000_0FFF;
                        instr2 &= 0x01FF_F07F;
                        let val_round: u32 = val_cast.wrapping_add(0x800);
                        instr1 |= val_round & 0xFFFF_F000;
                        instr2 |= (val_cast & 0x1F) << 7;
                        instr2 |= ((val_cast >> 5) & 0x7F) << 25;
                        proof { lemma_inserts(le_u32(old(buf)@.subrange(4, old(buf)@.len() as int)), 0, val_cast); }
                        write_u32(buf, instr1);
                        write_u32_at(buf, 4, instr2);
                    },
                }
                Ok(())
            },
        }
    }

    fn read_value(&self, buf: &[u8]) -> (r: isize) {
        match self.0.encoding {
            RelocationEncoding::Simple(s) => s.read_value(buf),
            RelocationEncoding::ArchSpecific(c) => {
                let bits: u64;
                let mut unpacked: u32;
                match c {
                    RiscvRelocationEncoding::B => {
                        bits = 13;
                        let instr = read_u32(buf);
                        unpacked = ((instr >> 31) & 0x1) << 12;
                        unpacked |= ((instr >> 25) & 0x3F) << 5;
                        unpacked |= ((instr >> 8) & 0xF) << 1;
                        unpacked |= ((instr >> 7) & 0x1) << 11;
                    },
                    RiscvRelocationEncoding::J => {
                        bits = 21;
                        let instr = read_u32(buf);
                        unpacked = ((instr >> 31) & 0x1) << 20;
                        unpacked |= ((instr >> 21) & 0x3FF) << 1;
                        unpacked |= ((instr >> 20) & 0x1) << 11;
                        unpacked |= ((instr >> 12) & 0xFF) << 12;
                    },
                    RiscvRelocationEncoding::BC => {
                        bits = 9;
                        let instr = read_u16(buf) as u32;
                        unpacked = ((instr >> 12) & 0x1) << 8;
                        unpacked |= ((instr >> 10) & 0x3) << 3;
                        unpacked |= ((instr >> 5) & 0x3) << 6;
                        unpacked |= ((instr >> 3) & 0x3) << 1;
                        unpacked |= ((instr >> 2) & 0x1) << 5;
                    },
                    RiscvRelocationEncoding::JC => {
                        bits = 12;
                        let instr = read_u16(buf) as u32;
                        unpacked = ((instr >> 12) & 0x1) << 11;
                        unpacked |= ((instr >> 11) & 0x1) << 4;
                        unpacked |= ((instr >> 9) & 0x3) << 8;
                        unpacked |= ((instr >> 8) & 0x1) << 10;
                        unpacked |= ((instr >> 7) & 0x1) << 6;
                        unpacked |= ((instr >> 6) & 0x1) << 7;
                        unpacked |= ((instr >> 3) & 0x7) << 1;
                        unpacked |= ((instr >> 2) & 0x1) << 5;
                    },
                    RiscvRelocationEncoding::HI20 => {
                        bits = 32;
                        let instr = read_u32(buf);
                        // The lower bits of the offset are not known here; they
                        // would only matter if this relocation were adjusted,
                        // and RISC-V relocations are all relative.
                        unpacked = ((instr >> 12) & 0xFFFFF) << 12;
                    },
                    RiscvRelocationEncoding::LO12 => {
                        bits = 12;
                        let instr = read_u32(buf);
                        unpacked = (instr >> 20) & 0xFFF;
                    },
                    RiscvRelocationEncoding::LO12S => {
                        bits = 12;
                        let instr = read_u32(buf);
                        unpacked = (instr >> 7) & 0x1F;
                        unpacked |= ((instr >> 25) & 0x7F) << 5;
                    },
                    RiscvRelocationEncoding::SPLIT32 => {
                        bits = 32;
                        let instr1 = read_u32(buf);
                        let instr2 = read_u32_at(buf, 4);
                        unpacked = ((instr1 >> 12) & 0xFFFFF) << 12;
                        let mut lower: u32 = (instr2 >> 20) & 0xFFF;
                        // sign extend the lower part and then add them
                        lower = (lower ^ 0x800).wrapping_sub(0x800);
                        unpacked = unpacked.wrapping_add(lower);
                    },
                    RiscvRelocationEncoding::SPLIT32S => {
                        bits = 32;
                        let instr1 = read_u32(buf);
                        let instr2 = read_u32_at(buf, 4);
                        unpacked = ((instr1 >> 12) & 0xFFFFF) << 12;
                        let mut lower: u32 = (instr2 >> 7) & 0x1F;
                        lower |= ((instr2 >> 25) & 0x7F) << 5;
                        // sign extend the lower part and then add them
                        lower = (lower ^ 0x800).wrapping_sub(0x800);
                        unpacked = unpacked.wrapping_add(lower);
                    },
                }
                assert(unpacked == c.unpacked(buf@));
                assert(bits == c.sign_bits());
                // sign extension
                let offset = 1u64 << (bits - 1);
                let value: u64 = (unpacked as u64 ^ offset).wrapping_sub(offset);
                value as i64 as isize
            },
        }
    }

    fn kind(&self) -> (r: RelocationKind)
        ensures
            r == self.riscv_kind(),
    {
        self.0.kind
    }

    fn page_size() -> (r: usize)
        ensures
            r == 4096,
    {
        4096
    }
}

/// 4 or 8-byte general purpose registers, where X0 is the zero register.
/// When using the RV32/64E profile, only the first 16 registers are valid.
#[allow(missing_docs)]
#[derive(Debug, Clone, Copy, PartialEq, Eq, Hash, Structural)]
pub enum RX {
    X0, X1, X2, X3,
    X4, X5, X6, X7,
    X8, X9, X10, X11,
    X12, X13, X14, X15,
    X16, X17, X18, X19,
    X20, X21, X22, X23,
    X24, X25, X26, X27,
    X28, X29, X30, X31,
}

impl Register for RX {
    open spec fn number(&self) -> u8 {
        match self {
            RX::X0 => 0,
            RX::X1 => 1,
            RX::X2 => 2,
            RX::X3 => 3,
            RX::X4 => 4,
            RX::X5 => 5,
            RX::X6 => 6,
            RX::X7 => 7,
            RX::X8 => 8,
            RX::X9 => 9,
            RX::X10 => 10,
            RX::X11 => 11,
            RX::X12 => 12,
            RX::X13 => 13,
            RX::X14 => 14,
            RX::X15 => 15,
            RX::X16 => 16,
            RX::X17 => 17,
            RX::X18 => 18,
            RX::X19 => 19,
            RX::X20 => 20,
            RX::X21 => 21,
            RX::X22 => 22,
            RX::X23 => 23,
            RX::X24 => 24,
            RX::X25 => 25,
            RX::X26 => 26,
            RX::X27 => 27,
            RX::X28 => 28,
            RX::X29 => 29,
            RX::X30 => 30,
            RX::X31 => 31,
        }
    }

    fn code(&self) -> (r: u8) {
        match self {
            RX::X0 => 0,
            RX::X1 => 1,
            RX::X2 => 2,
            RX::X3 => 3,
            RX::X4 => 4,
            RX::X5 => 5,
            RX::X6 => 6,
            RX::X7 => 7,
            RX::X8 => 8,
            RX::X9 => 9,
            RX::X10 => 10,
            RX::X11 => 11,
            RX::X12 => 12,
            RX::X13 => 13,
            RX::X14 => 14,
            RX::X15 => 15,
            RX::X16 => 16,
            RX::X17 => 17,
            RX::X18 => 18,
            RX::X19 => 19,
            RX::X20 => 20,
            RX::X21 => 21,
            RX::X22 => 22,
            RX::X23 => 23,
            RX::X24 => 24,
            RX::X25 => 25,
            RX::X26 => 26,
            RX::X27 => 27,
            RX::X28 => 28,
            RX::X29 => 29,
            RX::X30 => 30,
            RX::X31 => 31,
        }
    }
}

impl RX {
    /// The register `Xn`, for `n` below 32.
    pub open spec fn named(n: u8) -> RX {
        match n {
            0 => RX::X0,
            1 => RX::X1,
            2 => RX::X2,
            3 => RX::X3,
            4 => RX::X4,
            5 => RX::X5,
            6 => RX::X6,
            7 => RX::X7,
            8 => RX::X8,
            9 => RX::X9,
            10 => RX::X10,
            11 => RX::X11,
            12 => RX::X12,
            13 => RX::X13,
            14 => RX::X14,
            15 => RX::X15,
            16 => RX::X16,
            17 => RX::X17,
            18 => RX::X18,
            19 => RX::X19,
            20 => RX::X20,
            21 => RX::X21,
            22 => RX::X22,
            23 => RX::X23,
            24 => RX::X24,
            25 => RX::X25,
            26 => RX::X26,
            27 => RX::X27,
            28 => RX::X28,
            29 => RX::X29,
            30 => RX::X30,
            _ => RX::X31,
        }
    }

    /// The code of a register is the index its name carries: `named(n)` has
    /// code `n`, for every `n` below 32.
    pub proof fn lemma_code_is_name_index(n: u8)
        requires
            n < 32,
        ensures
            RX::named(n).number() == n,
    {
    }

    /// Every register has a 5-bit code, and no two registers share one.
    pub proof fn lemma_codes(a: RX, b: RX)
        ensures
            a.number() < 32,
            a.number() == b.number() ==> a == b,
    {
    }
}

impl From<RX> for u8 {
    fn from(reg: RX) -> (r: u8) {
        reg.code()
    }
}

impl FromSpecImpl<RX> for u8 {
    open spec fn obeys_from_spec() -> bool {
        true
    }

    open spec fn from_spec(reg: RX) -> u8 {
        reg.number()
    }
}
/// 4, 8 or 16-byte floating point registers.
#[allow(missing_docs)]
#[derive(Debug, Clone, Copy, PartialEq, Eq, Hash, Structural)]
pub enum RF {
    F0, F1, F2, F3,
    F4, F5, F6, F7,
    F8, F9, F10, F11,
    F12, F13, F14, F15,
    F16, F17, F18, F19,
    F20, F21, F22, F23,
    F24, F25, F26, F27,
    F28, F29, F30, F31,
}

impl Register for RF {
    open spec fn number(&self) -> u8 {
        match self {
            RF::F0 => 0,
            RF::F1 => 1,
            RF::F2 => 2,
            RF::F3 => 3,
            RF::F4 => 4,
            RF::F5 => 5,
            RF::F6 => 6,
            RF::F7 => 7,
            RF::F8 => 8,
            RF::F9 => 9,
            RF::F10 => 10,
            RF::F11 => 11,
            RF::F12 => 12,
            RF::F13 => 13,
            RF::F14 => 14,
            RF::F15 => 15,
            RF::F16 => 16,
            RF::F17 => 17,
            RF::F18 => 18,
            RF::F19 => 19,
            RF::F20 => 20,
            RF::F21 => 21,
            RF::F22 => 22,
            RF::F23 => 23,
            RF::F24 => 24,
            RF::F25 => 25,
            RF::F26 => 26,
            RF::F27 => 27,
            RF::F28 => 28,
            RF::F29 => 29,
            RF::F30 => 30,
            RF::F31 => 31,
        }
    }

    fn code(&self) -> (r: u8) {
        match self {
            RF::F0 => 0,
            RF::F1 => 1,
            RF::F2 => 2,
            RF::F3 => 3,
            RF::F4 => 4,
            RF::F5 => 5,
            RF::F6 => 6,
            RF::F7 => 7,
            RF::F8 => 8,
            RF::F9 => 9,
            RF::F10 => 10,
            RF::F11 => 11,
            RF::F12 => 12,
            RF::F13 => 13,
            RF::F14 => 14,
            RF::F15 => 15,
            RF::F16 => 16,
            RF::F17 => 17,
            RF::F18 => 18,
            RF::F19 => 19,
            RF::F20 => 20,
            RF::F21 => 21,
            RF::F22 => 22,
            RF::F23 => 23,
            RF::F24 => 24,
            RF::F25 => 25,
            RF::F26 => 26,
            RF::F27 => 27,
            RF::F28 => 28,
            RF::F29 => 29,
            RF::F30 => 30,
            RF::F31 => 31,
        }
    }
}

impl RF {
    /// The register `Fn`, for `n` below 32.
    pub open spec fn named(n: u8) -> RF {
        match n {
            0 => RF::F0,
            1 => RF::F1,
            2 => RF::F2,
            3 => RF::F3,
            4 => RF::F4,
            5 => RF::F5,
            6 => RF::F6,
            7 => RF::F7,
            8 => RF::F8,
            9 => RF::F9,
            10 => RF::F10,
            11 => RF::F11,
            12 => RF::F12,
            13 => RF::F13,
            14 => RF::F14,
            15 => RF::F15,
            16 => RF::F16,
            17 => RF::F17,
            18 => RF::F18,
            19 => RF::F19,
            20 => RF::F20,
            21 => RF::F21,
            22 => RF::F22,
            23 => RF::F23,
            24 => RF::F24,
            25 => RF::F25,
            26 => RF::F26,
            27 => RF::F27,
            28 => RF::F28,
            29 => RF::F29,
            30 => RF::F30,
            _ => RF::F31,
        }
    }

    /// The code of a register is the index its name carries: `named(n)` has
    /// code `n`, for every `n` below 32.
    pub proof fn lemma_code_is_name_index(n: u8)
        requires
            n < 32,
        ensures
            RF::named(n).number() == n,
    {
    }

    /// Every register has a 5-bit code, and no two registers share one.
    pub proof fn lemma_codes(a: RF, b: RF)
        ensures
            a.number() < 32,
            a.number() == b.number() ==> a == b,
    {
    }
}

impl From<RF> for u8 {
    fn from(reg: RF) -> (r: u8) {
        reg.code()
    }
}

impl FromSpecImpl<RF> for u8 {
    open spec fn obeys_from_spec() -> bool {
        true
    }

    open spec fn from_spec(reg: RF) -> u8 {
        reg.number()
    }
}
/// The message for an out-of-range `u32` RISC-V immediate. The panicking
/// handler that generated code calls is a thin shell around it.
pub fn immediate_out_of_range_unsigned_32(immediate: u32) -> (r: String)
    ensures
        r@ == immediate_message("RISC-V"@, immediate as int),
{
    unsigned_immediate_message("RISC-V", immediate as u64)
}

/// The message for an out-of-range `i32` RISC-V immediate.
pub fn immediate_out_of_range_signed_32(immediate: i32) -> (r: String)
    ensures
        r@ == immediate_message("RISC-V"@, immediate as int),
{
    signed_immediate_message("RISC-V", immediate as i64)
}

/// The message for an out-of-range `u64` RISC-V immediate.
pub fn immediate_out_of_range_unsigned_64(immediate: u64) -> (r: String)
    ensures
        r@ == immediate_message("RISC-V"@, immediate as int),
{
    unsigned_immediate_message("RISC-V", immediate)
}

/// The message for an out-of-range `i64` RISC-V immediate.
pub fn immediate_out_of_range_signed_64(immediate: i64) -> (r: String)
    ensures
        r@ == immediate_message("RISC-V"@, immediate as int),
{
    signed_immediate_message("RISC-V", immediate)
}

/// The message for a RISC-V register that cannot be encoded.
pub fn invalid_register(register: u8) -> (r: String)
    ensures
        r@ == register_message("RISC-V"@, register as int),
{
    invalid_register_message("RISC-V", register)
}

} // verus!
