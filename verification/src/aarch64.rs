//! Runtime support for the aarch64 architecture assembling target.
//!
//! The aarch64 instruction set features fixed-width 32-bit instructions and
//! relative relocations up to 28 bits in size. The core relocation behaviour
//! is provided by [`Aarch64Relocation`].
//!
//! The aarch64 architecture allows encoding several special types of
//! immediates. The encoders for these immediate types return `Some(encoding)`
//! only if the given value can be encoded losslessly in that immediate type.

use vstd::prelude::*;
use vstd::std_specs::convert::FromSpecImpl;
use crate::Register;
use crate::logical::{decode_logical_32, canonical_32, count_ones_32, rotate_left_32, lemma_element_sizes_32, lemma_encode_32_e32, lemma_encode_32_e16, lemma_encode_32_e8, lemma_encode_32_e4, lemma_encode_32_e2, lemma_pack_12, lemma_no_encoding_32, lemma_low_word, lemma_size_shifts, decode_logical_64, canonical_64, count_ones_64, rotate_left_64, pop32};
use crate::logical64::{lemma_no_encoding_64, lemma_transitions_not_one, lemma_periodic_halves, lemma_doubled, lemma_doubled_element, lemma_doubled_size, lemma_imms_64, lemma_encode_64_e64, lemma_tz_widen, lemma_pack_13};
use crate::message::{immediate_message, unsigned_immediate_message, signed_immediate_message};
use vstd::arithmetic::power2::pow2;
use crate::bytes::{le_u32, splice, u32_bytes, read_u32, write_u32};
use crate::relocations::{
    ArchitectureRelocationEncoding, Relocation, RelocationType, RelocationSize, RelocationKind,
    RelocationEncoding, ImpossibleRelocation, fits_signed, fits_signed_bitfield, kind_of_code,
    lemma_size_bounds, sign_extend, lemma_wrapping_sub,
};

verus! {

/// The instruction-embedded relocation formats of aarch64.
#[derive(Debug, Clone, Copy)]
pub enum Aarch64RelocationEncoding {
    /// b, bl: 26 bits, word aligned.
    B,
    /// b.cond, cbnz, cbz, ldr, ldrsw, prfm: 19 bits, word aligned.
    BCOND,
    /// adr: split 21 bits, byte aligned.
    ADR,
    /// adrp: split 21 bits, 4096-byte aligned.
    ADRP,
    /// tbnz, tbz: 14 bits, word aligned.
    TBZ,
}

impl ArchitectureRelocationEncoding for Aarch64RelocationEncoding {
    open spec fn is_code(code: u8) -> bool {
        code < 5
    }

    open spec fn from_code(code: u8) -> Self {
        if code == 0 {
            Aarch64RelocationEncoding::B
        } else if code == 1 {
            Aarch64RelocationEncoding::BCOND
        } else if code == 2 {
            Aarch64RelocationEncoding::ADR
        } else if code == 3 {
            Aarch64RelocationEncoding::ADRP
        } else {
            Aarch64RelocationEncoding::TBZ
        }
    }

    fn decode(code: u8) -> (r: Self) {
        match code {
            0 => Self::B,
            1 => Self::BCOND,
            2 => Self::ADR,
            3 => Self::ADRP,
            _ => Self::TBZ,
        }
    }
}

impl Aarch64RelocationEncoding {
    /// The bits of the instruction word that are not part of the immediate.
    pub open spec fn mask(self) -> u32 {
        match self {
            Self::B => 0xFC00_0000,
            Self::BCOND => 0xFF00_001F,
            Self::ADR => 0x9F00_001F,
            Self::ADRP => 0x9F00_001F,
            Self::TBZ => 0xFFF8_001F,
        }
    }

    /// Whether the offset `v` can be encoded: branches need a word-aligned
    /// offset that fits their field once divided by four, `adr` a 21-bit
    /// offset, and `adrp` an offset whose 4096-byte page, rounded up, fits 21 bits.
    pub open spec fn encodable(self, v: int) -> bool {
        match self {
            Self::B => v % 4 == 0 && -0x800_0000 <= v < 0x800_0000,
            Self::BCOND => v % 4 == 0 && -0x10_0000 <= v < 0x10_0000,
            Self::ADR => -0x10_0000 <= v < 0x10_0000,
            Self::ADRP => -0x1_0000_0FFF <= v < 0xFFFF_F001,
            Self::TBZ => v % 4 == 0 && -0x8000 <= v < 0x8000,
        }
    }

    /// The immediate bits for the offset `v`, placed where the instruction holds them:
    /// `b` keeps `v[27:2]` in bits 25:0, `b.cond` keeps `v[20:2]` in bits 23:5,
    /// `tbz` keeps `v[15:2]` in bits 18:5, `adr` keeps `v[1:0]` in bits 30:29 and
    /// `v[20:2]` in bits 23:5, and `adrp` does the same with the page number
    /// `(v + 0xFFF) >> 12`.
    pub open spec fn field(self, v: i64) -> u32 {
        match self {
            Self::B => ((v >> 2i64) as u32) & 0x3FF_FFFF,
            Self::BCOND => (((v >> 2i64) as u32) & 0x7FFFF) << 5u32,
            Self::ADR => ((((v >> 2i64) as u32) & 0x7FFFF) << 5u32) | (((v as u32) & 3) << 29u32),
            Self::ADRP => {
                let p = (v + 0xFFF) as i64 >> 12i64;
                ((((p >> 2i64) as u32) & 0x7FFFF) << 5u32) | (((p as u32) & 3) << 29u32)
            },
            Self::TBZ => (((v >> 2i64) as u32) & 0x3FFF) << 5u32,
        }
    }

    /// The offset bits gathered from the instruction word `w`, before sign extension.
    pub open spec fn unpacked(self, w: u32) -> u64 {
        let m = !self.mask();
        match self {
            Self::B => ((w & m) as u64) << 2u64,
            Self::BCOND => (((w & m) >> 5u32) as u64) << 2u64,
            Self::ADR => ((((w >> 5u32) & 0x7FFFF) << 2u32) | ((w >> 29u32) & 3)) as u64,
            Self::ADRP => (((((w >> 5u32) & 0x7FFFF) << 2u32) | ((w >> 29u32) & 3)) as u64)
                << 12u64,
            Self::TBZ => (((w & m) >> 5u32) as u64) << 2u64,
        }
    }

    /// The bit width at whose top bit the unpacked offset is sign-extended.
    pub open spec fn sign_bits(self) -> u64 {
        match self {
            Self::B => 28,
            Self::BCOND => 21,
            Self::ADR => 21,
            Self::ADRP => 33,
            Self::TBZ => 16,
        }
    }

    /// The offset read back from the instruction word `w`.
    pub open spec fn read_word(self, w: u32) -> i64 {
        sign_extend(self.unpacked(w), self.sign_bits())
    }

    fn op_mask(&self) -> (r: u32)
        ensures
            r == self.mask(),
    {
        match self {
            Self::B => 0xFC00_0000,
            Self::BCOND => 0xFF00_001F,
            Self::ADR => 0x9F00_001F,
            Self::ADRP => 0x9F00_001F,
            Self::TBZ => 0xFFF8_001F,
        }
    }

    fn encode(&self, value: isize) -> (r: Result<u32, ImpossibleRelocation>)
        ensures
            r is Ok <==> self.encodable(value as int),
            r matches Ok(f) ==> f == self.field(value as i64) && f & self.mask() == 0,
    {
        let value = value as i64;
        proof {
            lemma_size_bounds();
            vstd::arithmetic::power2::lemma2_to64();
            lemma_encode_ranges(value, (value + 0xFFF) as i64);
            self.lemma_field_disjoint(value);
        }
        match self {
            Self::B => {
                if value & 3 != 0 || !fits_signed_bitfield(value >> 2, 26) {
                    return Err(ImpossibleRelocation {});
                }
                let value = (value >> 2) as u32;
                Ok(value & 0x3FF_FFFF)
            },
            Self::BCOND => {
                if value & 3 != 0 || !fits_signed_bitfield(value >> 2, 19) {
                    return Err(ImpossibleRelocation {});
                }
                let value = (value >> 2) as u32;
                Ok((value & 0x7FFFF) << 5)
            },
            Self::ADR => {
                if !fits_signed_bitfield(value, 21) {
                    return Err(ImpossibleRelocation {});
                }
                let low = value as u32;
                let high = (value >> 2) as u32;
                Ok(((high & 0x7FFFF) << 5) | ((low & 3) << 29))
            },
            Self::ADRP => {
                // an offset this close to the top of the range is far beyond
                // what the page field holds; rounding it up would overflow
                if value > i64::MAX - 0xFFF {
                    return Err(ImpossibleRelocation {});
                }
                let value = value + 0xFFF;
                if !fits_signed_bitfield(value >> 12, 21) {
                    return Err(ImpossibleRelocation {});
                }
                let low = (value >> 12) as u32;
                let high = (value >> 14) as u32;
                Ok(((high & 0x7FFFF) << 5) | ((low & 3) << 29))
            },
            Self::TBZ => {
                if value & 3 != 0 || !fits_signed_bitfield(value >> 2, 14) {
                    return Err(ImpossibleRelocation {});
                }
                let value = (value >> 2) as u32;
                Ok((value & 0x3FFF) << 5)
            },
        }
    }
}

/// Relocation implementation for the aarch64 architecture.
#[derive(Debug, Clone, Copy)]
pub struct Aarch64Relocation(RelocationType<Aarch64RelocationEncoding>);

impl Aarch64Relocation {
    /// The format this relocation writes: a plain little-endian integer of
    /// some size, or one of the instruction formats.
    pub closed spec fn encoding(self) -> RelocationEncoding<Aarch64RelocationEncoding> {
        self.0.encoding
    }

    /// The instruction bits that writing a value keeps: those outside the
    /// immediate field for instruction relocations, none for plain integers.
    pub open spec fn kept_bits(self) -> u32 {
        match self.encoding() {
            RelocationEncoding::Simple(_) => 0,
            RelocationEncoding::ArchSpecific(c) => c.mask(),
        }
    }

    /// The kind of this relocation.
    pub closed spec fn aarch64_kind(self) -> RelocationKind {
        self.0.kind
    }

    /// The value that reading this relocation back yields once `value` has
    /// been written: `value` itself for plain integers, the branches and
    /// `adr`; `value` rounded up to a multiple of 4096 for `adrp`.
    pub open spec fn read_back(self, value: int) -> int {
        match self.encoding() {
            RelocationEncoding::Simple(_) => value,
            RelocationEncoding::ArchSpecific(c) => c.read_back(value),
        }
    }

    /// Reading a relocation back after writing an encodable value gives
    /// `read_back` of that value: the value itself, unless it is an `adrp`.
    pub proof fn lemma_write_read(self, buf: Seq<u8>, value: int)
        requires
            buf.len() >= self.byte_len(),
            self.encodable(value),
        ensures
            self.read(self.written(buf, value)) == self.read_back(value),
            !(self.encoding() matches RelocationEncoding::ArchSpecific(c) && c is ADRP) ==> self.read(
                self.written(buf, value),
            ) == value,
    {
        match self.0.encoding {
            RelocationEncoding::Simple(s) => {
                s.lemma_write_read(buf, value);
            },
            RelocationEncoding::ArchSpecific(c) => {
                let t = le_u32(buf);
                let x = (t & c.mask()) | c.field(value as i64);
                crate::bytes::lemma_u32_roundtrip(x, buf.subrange(4, buf.len() as int));
                assert(self.written(buf, value) == u32_bytes(x) + buf.subrange(4, buf.len() as int));
                c.lemma_read_field(t, value as i64);
            },
        }
    }

    /// A relocation accepts exactly the values that come back as they were
    /// written (for `adrp`, which holds a page number, rounded up to their
    /// page): every offset its field can hold, and no other.
    pub proof fn lemma_accepts_what_it_holds(self, buf: Seq<u8>, value: int)
        requires
            buf.len() >= self.byte_len(),
            i64::MIN <= value <= i64::MAX,
        ensures
            self.encodable(value) <==> self.read(self.written(buf, value)) == self.read_back(value),
            !(self.encoding() matches RelocationEncoding::ArchSpecific(c) && c is ADRP) ==> (
            self.encodable(value) <==> self.read(self.written(buf, value)) == value),
    {
        match self.0.encoding {
            RelocationEncoding::Simple(s) => {
                s.lemma_accepts_what_it_holds(buf, value);
            },
            RelocationEncoding::ArchSpecific(c) => {
                let t = le_u32(buf);
                let x = (t & c.mask()) | c.field(value as i64);
                crate::bytes::lemma_u32_roundtrip(x, buf.subrange(4, buf.len() as int));
                assert(self.written(buf, value) == u32_bytes(x) + buf.subrange(4, buf.len() as int));
                if self.encodable(value) {
                    c.lemma_read_field(t, value as i64);
                }
                if self.read(self.written(buf, value)) == self.read_back(value) {
                    c.lemma_holds_only_accepted(t, value as i64);
                }
            },
        }
    }

    /// Writing keeps the length of the buffer, every byte past the
    /// relocation, and, within an instruction, every bit outside the
    /// immediate field.
    pub proof fn lemma_write_keeps(self, buf: Seq<u8>, value: int)
        requires
            buf.len() >= self.byte_len(),
            self.encodable(value),
        ensures
            self.written(buf, value).len() == buf.len(),
            self.written(buf, value).subrange(self.byte_len() as int, buf.len() as int)
                =~= buf.subrange(self.byte_len() as int, buf.len() as int),
            self.byte_len() == 4 ==> le_u32(self.written(buf, value)) & self.kept_bits() == le_u32(
                buf,
            ) & self.kept_bits(),
    {
        match self.0.encoding {
            RelocationEncoding::Simple(s) => {
                s.lemma_write_keeps_rest(buf, value);
                lemma_keep_masked(0, 0, 0, le_u32(self.written(buf, value)), le_u32(buf));
            },
            RelocationEncoding::ArchSpecific(c) => {
                let t = le_u32(buf);
                let f = c.field(value as i64);
                let m = c.mask();
                let x = (t & m) | f;
                crate::bytes::lemma_u32_roundtrip(x, buf.subrange(4, buf.len() as int));
                assert(self.written(buf, value) == u32_bytes(x) + buf.subrange(4, buf.len() as int));
                c.lemma_field_disjoint(value as i64);
                lemma_keep_masked(t, f, m, 0, 0);
            },
        }
    }
}

impl Relocation for Aarch64Relocation {
    open spec fn decodable(encoding: u8) -> bool {
        encoding % 64 < 9
    }

    closed spec fn decoded(encoding: u8) -> Self {
        Aarch64Relocation(RelocationType::decoded(encoding))
    }

    closed spec fn sized(kind: RelocationKind, size: RelocationSize) -> Self {
        Aarch64Relocation(RelocationType { kind, encoding: RelocationEncoding::Simple(size) })
    }

    open spec fn byte_len(&self) -> nat {
        match self.encoding() {
            RelocationEncoding::Simple(s) => s.bytes(),
            RelocationEncoding::ArchSpecific(_) => 4,
        }
    }

    open spec fn encodable(&self, value: int) -> bool {
        match self.encoding() {
            RelocationEncoding::Simple(s) => s.encodable(value),
            RelocationEncoding::ArchSpecific(c) => c.encodable(value),
        }
    }

    open spec fn written(&self, buf: Seq<u8>, value: int) -> Seq<u8> {
        match self.encoding() {
            RelocationEncoding::Simple(s) => s.written(buf, value),
            RelocationEncoding::ArchSpecific(c) => splice(
                buf,
                0,
                u32_bytes((le_u32(buf) & c.mask()) | c.field(value as i64)),
            ),
        }
    }

    open spec fn read(&self, buf: Seq<u8>) -> i64 {
        match self.encoding() {
            RelocationEncoding::Simple(s) => s.read(buf),
            RelocationEncoding::ArchSpecific(c) => c.read_word(le_u32(buf)),
        }
    }

    open spec fn relocation_kind(&self) -> RelocationKind {
        self.aarch64_kind()
    }

    open spec fn page_bytes() -> nat {
        4096
    }

    proof fn lemma_sized(kind: RelocationKind, size: RelocationSize, buf: Seq<u8>, value: int) {
    }

    fn from_encoding(encoding: u8) -> (r: Self)
        ensures
            r.aarch64_kind() == kind_of_code(encoding),
            r.encoding() == RelocationType::<Aarch64RelocationEncoding>::decoded(encoding).encoding,
    {
        Aarch64Relocation(RelocationType::decode(encoding))
    }

    fn from_size(kind: RelocationKind, size: RelocationSize) -> (r: Self)
        ensures
            r.aarch64_kind() == kind,
            r.encoding() == RelocationEncoding::<Aarch64RelocationEncoding>::Simple(size),
    {
        Aarch64Relocation(RelocationType::from_size(kind, size))
    }

    fn size(&self) -> (r: usize) {
        match self.0.encoding {
            RelocationEncoding::Simple(s) => s.size(),
            RelocationEncoding::ArchSpecific(_) => 4,
        }
    }

    fn write_value(&self, buf: &mut [u8], value: isize) -> (r: Result<(), ImpossibleRelocation>) {
        match self.0.encoding {
            RelocationEncoding::Simple(s) => s.write_value(buf, value),
            RelocationEncoding::ArchSpecific(c) => {
                let mask = c.op_mask();
                let template = read_u32(buf) & mask;
                match c.encode(value) {
                    Ok(packed) => {
                        write_u32(buf, template | packed);
                        Ok(())
                    },
                    Err(e) => Err(e),
                }
            },
        }
    }

    fn read_value(&self, buf: &[u8]) -> (r: isize) {
        match self.0.encoding {
            RelocationEncoding::Simple(s) => s.read_value(buf),
            RelocationEncoding::ArchSpecific(c) => {
                let mask = !c.op_mask();
                let value = read_u32(buf);
                let unpacked: u64 = match c {
                    Aarch64RelocationEncoding::B => ((value & mask) as u64) << 2,
                    Aarch64RelocationEncoding::BCOND => (((value & mask) >> 5) as u64) << 2,
                    Aarch64RelocationEncoding::ADR => ((((value >> 5) & 0x7FFFF) << 2) | ((value
                        >> 29) & 3)) as u64,
                    Aarch64RelocationEncoding::ADRP => (((((value >> 5) & 0x7FFFF) << 2) | ((value
                        >> 29) & 3)) as u64) << 12,
                    Aarch64RelocationEncoding::TBZ => (((value & mask) >> 5) as u64) << 2,
                };
                // Sign extend.
                let bits: u64 = match c {
                    Aarch64RelocationEncoding::B => 28,
                    Aarch64RelocationEncoding::BCOND => 21,
                    Aarch64RelocationEncoding::ADR => 21,
                    Aarch64RelocationEncoding::ADRP => 33,
                    Aarch64RelocationEncoding::TBZ => 16,
                };
                assert(unpacked == c.unpacked(value));
                assert(bits == c.sign_bits());
                let offset = 1u64 << (bits - 1);
                let value: u64 = (unpacked ^ offset).wrapping_sub(offset);
                assert(value as i64 == sign_extend(unpacked, bits));
                value as i64 as isize
            },
        }
    }

    fn kind(&self) -> (r: RelocationKind)
        ensures
            r == self.aarch64_kind(),
    {
        self.0.kind
    }

    fn page_size() -> (r: usize)
        ensures
            r == 4096,
    {
        4096
    }
}

impl Aarch64RelocationEncoding {
    /// The offset that reading the instruction back yields after the
    /// encodable offset `v` was written: `v` itself for the branches and
    /// `adr`; `adrp` holds a page number, so it gives `v` rounded up to a
    /// multiple of 4096.
    pub open spec fn read_back(self, v: int) -> int {
        match self {
            Self::ADRP => ((v + 0xFFF) / 4096) * 4096,
            _ => v,
        }
    }

    /// The packed immediate field of any offset never touches the bits of
    /// the instruction template that writing keeps.
    pub proof fn lemma_field_disjoint(self, v: i64)
        ensures
            self.field(v) & self.mask() == 0,
    {
        lemma_fields_disjoint(v, (v + 0xFFF) as i64 >> 12i64);
    }

    /// An offset that an instruction gives back as `read_back` of it after
    /// it was written is one the format accepts.
    proof fn lemma_holds_only_accepted(self, t: u32, v: i64)
        requires
            self.read_word((t & self.mask()) | self.field(v)) as int == self.read_back(v as int),
        ensures
            self.encodable(v as int),
    {
        let w = (t & self.mask()) | self.field(v);
        let u = self.unpacked(w);
        let o = 1u64 << ((self.sign_bits() - 1) as u64);
        lemma_wrapping_sub(u ^ o, o);
        lemma_encode_ranges(v, 0);
        lemma_shift_constants();
        lemma_read_exact(
            t,
            v,
            (t & 0xFC00_0000) | (((v >> 2i64) as u32) & 0x3FF_FFFF),
            (t & 0xFF00_001F) | ((((v >> 2i64) as u32) & 0x7FFFF) << 5u32),
            (t & 0x9F00_001F) | (((((v >> 2i64) as u32) & 0x7FFFF) << 5u32) | (((v as u32) & 3)
                << 29u32)),
            (t & 0xFFF8_001F) | ((((v >> 2i64) as u32) & 0x3FFF) << 5u32),
            (v + 0xFFF) as i64 >> 12i64,
            (t & 0x9F00_001F) | ((((((v + 0xFFF) as i64 >> 12i64) >> 2i64) as u32 & 0x7FFFF)
                << 5u32) | ((((v + 0xFFF) as i64 >> 12i64) as u32 & 3) << 29u32)),
        );
        assert(self.read_word(w) == ((u ^ o) - o) as u64 as i64);
        match self {
            Self::B => {
                assert(w == (t & 0xFC00_0000) | (((v >> 2i64) as u32) & 0x3FF_FFFF));
                assert(u == ((w & !0xFC00_0000u32) as u64) << 2u64);
            },
            Self::BCOND => {
                assert(w == (t & 0xFF00_001F) | ((((v >> 2i64) as u32) & 0x7FFFF) << 5u32));
                assert(u == (((w & !0xFF00_001Fu32) >> 5u32) as u64) << 2u64);
            },
            Self::ADR => {
                assert(w == (t & 0x9F00_001F) | (((((v >> 2i64) as u32) & 0x7FFFF) << 5u32) | (((v
                    as u32) & 3) << 29u32)));
                assert(u == ((((w >> 5u32) & 0x7FFFF) << 2u32) | ((w >> 29u32) & 3)) as u64);
            },
            Self::ADRP => {
                let p = (v + 0xFFF) as i64 >> 12i64;
                assert(w == (t & 0x9F00_001F) | (((((p >> 2i64) as u32) & 0x7FFFF) << 5u32) | (((p
                    as u32) & 3) << 29u32)));
                assert(u == (((((w >> 5u32) & 0x7FFFF) << 2u32) | ((w >> 29u32) & 3)) as u64)
                    << 12u64);
            },
            Self::TBZ => {
                assert(w == (t & 0xFFF8_001F) | ((((v >> 2i64) as u32) & 0x3FFF) << 5u32));
                assert(u == (((w & !0xFFF8_001Fu32) >> 5u32) as u64) << 2u64);
            },
        }
    }

    /// Reading the instruction after writing an encodable offset gives `read_back`.
    proof fn lemma_read_field(self, t: u32, v: i64)
        requires
            self.encodable(v as int),
        ensures
            self.read_word((t & self.mask()) | self.field(v)) as int == self.read_back(v as int),
    {
        let w = (t & self.mask()) | self.field(v);
        let u = self.unpacked(w);
        let o = 1u64 << ((self.sign_bits() - 1) as u64);
        lemma_wrapping_sub(u ^ o, o);
        lemma_encode_ranges(v, 0);
        lemma_shift_constants();
        assert(self.read_word(w) == ((u ^ o) - o) as u64 as i64);
        match self {
            Self::B => {
                assert(w == (t & 0xFC00_0000) | (((v >> 2i64) as u32) & 0x3FF_FFFF));
                assert(u == ((w & !0xFC00_0000u32) as u64) << 2u64);
                lemma_read_b(t, v, w, u);
            },
            Self::BCOND => {
                assert(w == (t & 0xFF00_001F) | ((((v >> 2i64) as u32) & 0x7FFFF) << 5u32));
                assert(u == (((w & !0xFF00_001Fu32) >> 5u32) as u64) << 2u64);
                lemma_read_bcond(t, v, w, u);
            },
            Self::ADR => {
                assert(w == (t & 0x9F00_001F) | (((((v >> 2i64) as u32) & 0x7FFFF) << 5u32) | (((v
                    as u32) & 3) << 29u32)));
                assert(u == ((((w >> 5u32) & 0x7FFFF) << 2u32) | ((w >> 29u32) & 3)) as u64);
                lemma_read_adr(t, v, w, u);
            },
            Self::ADRP => {
                let p = (v + 0xFFF) as i64 >> 12i64;
                assert(w == (t & 0x9F00_001F) | (((((p >> 2i64) as u32) & 0x7FFFF) << 5u32) | (((p
                    as u32) & 3) << 29u32)));
                assert(u == (((((w >> 5u32) & 0x7FFFF) << 2u32) | ((w >> 29u32) & 3)) as u64)
                    << 12u64);
                lemma_read_adrp(t, v, p, w, u);
            },
            Self::TBZ => {
                assert(w == (t & 0xFFF8_001F) | ((((v >> 2i64) as u32) & 0x3FFF) << 5u32));
                assert(u == (((w & !0xFFF8_001Fu32) >> 5u32) as u64) << 2u64);
                lemma_read_tbz(t, v, w, u);
            },
        }
    }
}

/// An offset that comes back unchanged from a `b`, `b.cond`, `adr` or
/// `tbz` instruction, or rounded up to its page from an `adrp`
/// instruction, is one the format accepts.
#[verifier::rlimit(100)]
proof fn lemma_read_exact(t: u32, v: i64, wb: u32, wc: u32, wa: u32, wt: u32, p: i64, wp: u32)
    by (bit_vector)
    requires
        p == (v + 0xFFF) as i64 >> 12i64,
        wp == (t & 0x9F00_001F) | (((((p >> 2i64) as u32) & 0x7FFFF) << 5u32) | (((p as u32) & 3)
            << 29u32)),
        wb == (t & 0xFC00_0000) | (((v >> 2i64) as u32) & 0x3FF_FFFF),
        wc == (t & 0xFF00_001F) | ((((v >> 2i64) as u32) & 0x7FFFF) << 5u32),
        wa == (t & 0x9F00_001F) | (((((v >> 2i64) as u32) & 0x7FFFF) << 5u32) | (((v as u32) & 3)
            << 29u32)),
        wt == (t & 0xFFF8_001F) | ((((v >> 2i64) as u32) & 0x3FFF) << 5u32),
    ensures
        ((((wb & !0xFC00_0000u32) as u64) << 2u64 ^ 0x800_0000) - 0x800_0000) as u64 as i64 == v
            ==> v & 3 == 0 && -0x800_0000 <= v < 0x800_0000,
        (((((wc & !0xFF00_001Fu32) >> 5u32) as u64) << 2u64 ^ 0x10_0000) - 0x10_0000) as u64 as i64
            == v ==> v & 3 == 0 && -0x10_0000 <= v < 0x10_0000,
        ((((((wa >> 5u32) & 0x7FFFF) << 2u32) | ((wa >> 29u32) & 3)) as u64 ^ 0x10_0000) - 0x10_0000)
            as u64 as i64 == v ==> -0x10_0000 <= v < 0x10_0000,
        (((((wt & !0xFFF8_001Fu32) >> 5u32) as u64) << 2u64 ^ 0x8000) - 0x8000) as u64 as i64 == v
            ==> v & 3 == 0 && -0x8000 <= v < 0x8000,
        ((((((((wp >> 5u32) & 0x7FFFF) << 2u32) | ((wp >> 29u32) & 3)) as u64) << 12u64)
            ^ 0x1_0000_0000) - 0x1_0000_0000) as u64 as i64 as int == ((v + 0xFFF) / 4096) * 4096
            ==> -0x1_0000_0FFF <= v < 0xFFFF_F001,
{
}

/// No immediate field overlaps the template bits of its format.
proof fn lemma_fields_disjoint(v: i64, p: i64)
    by (bit_vector)
    ensures
        ((((v >> 2i64) as u32) & 0x3FF_FFFF) & 0xFC00_0000) == 0,
        (((((v >> 2i64) as u32) & 0x7FFFF) << 5u32) & 0xFF00_001F) == 0,
        (((((v >> 2i64) as u32) & 0x7FFFF) << 5u32) | (((v as u32) & 3) << 29u32)) & 0x9F00_001F
            == 0,
        (((((p >> 2i64) as u32) & 0x7FFFF) << 5u32) | (((p as u32) & 3) << 29u32)) & 0x9F00_001F
            == 0,
        (((((v >> 2i64) as u32) & 0x3FFF) << 5u32) & 0xFFF8_001F) == 0,
{
}

/// Or-ing in bits outside a mask keeps the masked bits.
proof fn lemma_keep_masked(t: u32, f: u32, m: u32, a: u32, b: u32)
    by (bit_vector)
    ensures
        f & m == 0 ==> ((t & m) | f) & m == t & m,
        a & 0 == b & 0,
{
}

/// The shift constants at which the formats sign-extend.
proof fn lemma_shift_constants()
    by (bit_vector)
    ensures
        1u64 << 27u64 == 0x800_0000,
        1u64 << 20u64 == 0x10_0000,
        1u64 << 32u64 == 0x1_0000_0000,
        1u64 << 15u64 == 0x8000,
{
}

/// Reading back a `b` instruction.
proof fn lemma_read_b(t: u32, v: i64, w: u32, u: u64)
    by (bit_vector)
    requires
        v & 3 == 0,
        -0x800_0000 <= v < 0x800_0000,
        w == (t & 0xFC00_0000) | (((v >> 2i64) as u32) & 0x3FF_FFFF),
        u == ((w & !0xFC00_0000u32) as u64) << 2u64,
    ensures
        ((u ^ 0x800_0000) - 0x800_0000) as u64 as i64 == v,
{
}

/// Reading back a `b.cond` instruction.
proof fn lemma_read_bcond(t: u32, v: i64, w: u32, u: u64)
    by (bit_vector)
    requires
        v & 3 == 0,
        -0x10_0000 <= v < 0x10_0000,
        w == (t & 0xFF00_001F) | ((((v >> 2i64) as u32) & 0x7FFFF) << 5u32),
        u == (((w & !0xFF00_001Fu32) >> 5u32) as u64) << 2u64,
    ensures
        ((u ^ 0x10_0000) - 0x10_0000) as u64 as i64 == v,
{
}

/// Reading back an `adr` instruction.
proof fn lemma_read_adr(t: u32, v: i64, w: u32, u: u64)
    by (bit_vector)
    requires
        -0x10_0000 <= v < 0x10_0000,
        w == (t & 0x9F00_001F) | (((((v >> 2i64) as u32) & 0x7FFFF) << 5u32) | (((v as u32) & 3)
            << 29u32)),
        u == ((((w >> 5u32) & 0x7FFFF) << 2u32) | ((w >> 29u32) & 3)) as u64,
    ensures
        ((u ^ 0x10_0000) - 0x10_0000) as u64 as i64 == v,
{
}

/// Reading back an `adrp` instruction.
proof fn lemma_read_adrp(t: u32, v: i64, p: i64, w: u32, u: u64)
    by (bit_vector)
    requires
        -0x1_0000_0FFF <= v < 0xFFFF_F001,
        p == (v + 0xFFF) as i64 >> 12i64,
        w == (t & 0x9F00_001F) | (((((p >> 2i64) as u32) & 0x7FFFF) << 5u32) | (((p as u32) & 3)
            << 29u32)),
        u == (((((w >> 5u32) & 0x7FFFF) << 2u32) | ((w >> 29u32) & 3)) as u64) << 12u64,
    ensures
        ((u ^ 0x1_0000_0000) - 0x1_0000_0000) as u64 as i64 as int == ((v + 0xFFF) / 4096) * 4096,
{
}

/// Reading back a `tbz` instruction.
proof fn lemma_read_tbz(t: u32, v: i64, w: u32, u: u64)
    by (bit_vector)
    requires
        v & 3 == 0,
        -0x8000 <= v < 0x8000,
        w == (t & 0xFFF8_001F) | ((((v >> 2i64) as u32) & 0x3FFF) << 5u32),
        u == (((w & !0xFFF8_001Fu32) >> 5u32) as u64) << 2u64,
    ensures
        ((u ^ 0x8000) - 0x8000) as u64 as i64 == v,
{
}

/// The range facts behind the encoder: alignment is the low two bits
/// being zero; for an aligned `v`, `v >> 2` lies in `[-half, half)` exactly
/// when `v` lies in `[-4 * half, 4 * half)`; the page number `x >> 12` fits
/// 21 bits exactly when `x` fits 33 bits; shifting the page number by two
/// more bits equals shifting `x` by 14.
proof fn lemma_encode_ranges(v: i64, x: i64)
    by (bit_vector)
    ensures
        (v & 3 == 0) <==> (v % 4 == 0),
        v & 3 == 0 ==> ((-0x200_0000 <= (v >> 2i64) && (v >> 2i64) < 0x200_0000) <==> (-0x800_0000
            <= v && v < 0x800_0000)),
        v & 3 == 0 ==> ((-0x4_0000 <= (v >> 2i64) && (v >> 2i64) < 0x4_0000) <==> (-0x10_0000 <= v
            && v < 0x10_0000)),
        v & 3 == 0 ==> ((-0x2000 <= (v >> 2i64) && (v >> 2i64) < 0x2000) <==> (-0x8000 <= v && v
            < 0x8000)),
        (-0x10_0000 <= (x >> 12i64) && (x >> 12i64) < 0x10_0000) <==> (-0x1_0000_0000 <= x && x
            < 0x1_0000_0000),
        (x >> 12i64) >> 2i64 == x >> 14i64,
{
}


/// 4 or 8-byte general purpose registers, where X31 is the zero register.
#[allow(missing_docs)]
#[derive(Debug, Clone, Copy, PartialEq, Eq, Hash, Structural)]
pub enum RX {
    X0, X1, X2, X3,
    X4, X5, X6, X7,
    X8, X9, X10, X11,
    X12, X13, X14, X15,
    X16, X17, X18, X19,
    X20, X21, X22, X23,
    X24, X25, X26, X27,
    X28, X29, X30, XZR,
}

impl Register for RX {
    open spec fn number(&self) -> u8 {
        match self {
            RX::X0 => 0,
            RX::X1 => 1,
            RX::X2 => 2,
            RX::X3 => 3,
            RX::X4 => 4,
            RX::X5 => 5,
            RX::X6 => 6,
            RX::X7 => 7,
            RX::X8 => 8,
            RX::X9 => 9,
            RX::X10 => 10,
            RX::X11 => 11,
            RX::X12 => 12,
            RX::X13 => 13,
            RX::X14 => 14,
            RX::X15 => 15,
            RX::X16 => 16,
            RX::X17 => 17,
            RX::X18 => 18,
            RX::X19 => 19,
            RX::X20 => 20,
            RX::X21 => 21,
            RX::X22 => 22,
            RX::X23 => 23,
            RX::X24 => 24,
            RX::X25 => 25,
            RX::X26 => 26,
            RX::X27 => 27,
            RX::X28 => 28,
            RX::X29 => 29,
            RX::X30 => 30,
            RX::XZR => 31,
        }
    }

    fn code(&self) -> (r: u8) {
        match self {
            RX::X0 => 0,
            RX::X1 => 1,
            RX::X2 => 2,
            RX::X3 => 3,
            RX::X4 => 4,
            RX::X5 => 5,
            RX::X6 => 6,
            RX::X7 => 7,
            RX::X8 => 8,
            RX::X9 => 9,
            RX::X10 => 10,
            RX::X11 => 11,
            RX::X12 => 12,
            RX::X13 => 13,
            RX::X14 => 14,
            RX::X15 => 15,
            RX::X16 => 16,
            RX::X17 => 17,
            RX::X18 => 18,
            RX::X19 => 19,
            RX::X20 => 20,
            RX::X21 => 21,
            RX::X22 => 22,
            RX::X23 => 23,
            RX::X24 => 24,
            RX::X25 => 25,
            RX::X26 => 26,
            RX::X27 => 27,
            RX::X28 => 28,
            RX::X29 => 29,
            RX::X30 => 30,
            RX::XZR => 31,
        }
    }
}

impl RX {
    /// The register whose name carries the index `n`: `Xn` for `n` below 31, `XZR` for 31.
    pub open spec fn named(n: u8) -> RX {
        match n {
            0 => RX::X0,
            1 => RX::X1,
            2 => RX::X2,
            3 => RX::X3,
            4 => RX::X4,
            5 => RX::X5,
            6 => RX::X6,
            7 => RX::X7,
            8 => RX::X8,
            9 => RX::X9,
            10 => RX::X10,
            11 => RX::X11,
            12 => RX::X12,
            13 => RX::X13,
            14 => RX::X14,
            15 => RX::X15,
            16 => RX::X16,
            17 => RX::X17,
            18 => RX::X18,
            19 => RX::X19,
            20 => RX::X20,
            21 => RX::X21,
            22 => RX::X22,
            23 => RX::X23,
            24 => RX::X24,
            25 => RX::X25,
            26 => RX::X26,
            27 => RX::X27,
            28 => RX::X28,
            29 => RX::X29,
            30 => RX::X30,
            _ => RX::XZR,
        }
    }

    /// The code of a register is the index its name carries: `named(n)` has
    /// code `n`, for every `n` below 32.
    pub proof fn lemma_code_is_name_index(n: u8)
        requires
            n < 32,
        ensures
            RX::named(n).number() == n,
    {
    }

    /// Every register has a 5-bit code, and no two registers share one.
    pub proof fn lemma_codes(a: RX, b: RX)
        ensures
            a.number() < 32,
            a.number() == b.number() ==> a == b,
    {
    }
}

impl From<RX> for u8 {
    fn from(reg: RX) -> (r: u8) {
        reg.code()
    }
}

impl FromSpecImpl<RX> for u8 {
    open spec fn obeys_from_spec() -> bool {
        true
    }

    open spec fn from_spec(reg: RX) -> u8 {
        reg.number()
    }
}
/// 0x1F addresses both XZR and SP (disambiguated by context). This enum is a
/// mirror of `RX` with SP in place of XZR.
#[allow(missing_docs)]
#[derive(Debug, Clone, Copy, PartialEq, Eq, Hash, Structural)]
pub enum RXSP {
    X0, X1, X2, X3,
    X4, X5, X6, X7,
    X8, X9, X10, X11,
    X12, X13, X14, X15,
    X16, X17, X18, X19,
    X20, X21, X22, X23,
    X24, X25, X26, X27,
    X28, X29, X30, SP,
}

impl Register for RXSP {
    open spec fn number(&self) -> u8 {
        match self {
            RXSP::X0 => 0,
            RXSP::X1 => 1,
            RXSP::X2 => 2,
            RXSP::X3 => 3,
            RXSP::X4 => 4,
            RXSP::X5 => 5,
            RXSP::X6 => 6,
            RXSP::X7 => 7,
            RXSP::X8 => 8,
            RXSP::X9 => 9,
            RXSP::X10 => 10,
            RXSP::X11 => 11,
            RXSP::X12 => 12,
            RXSP::X13 => 13,
            RXSP::X14 => 14,
            RXSP::X15 => 15,
            RXSP::X16 => 16,
            RXSP::X17 => 17,
            RXSP::X18 => 18,
            RXSP::X19 => 19,
            RXSP::X20 => 20,
            RXSP::X21 => 21,
            RXSP::X22 => 22,
            RXSP::X23 => 23,
            RXSP::X24 => 24,
            RXSP::X25 => 25,
            RXSP::X26 => 26,
            RXSP::X27 => 27,
            RXSP::X28 => 28,
            RXSP::X29 => 29,
            RXSP::X30 => 30,
            RXSP::SP => 31,
        }
    }

    fn code(&self) -> (r: u8) {
        match self {
            RXSP::X0 => 0,
            RXSP::X1 => 1,
            RXSP::X2 => 2,
            RXSP::X3 => 3,
            RXSP::X4 => 4,
            RXSP::X5 => 5,
            RXSP::X6 => 6,
            RXSP::X7 => 7,
            RXSP::X8 => 8,
            RXSP::X9 => 9,
            RXSP::X10 => 10,
            RXSP::X11 => 11,
            RXSP::X12 => 12,
            RXSP::X13 => 13,
            RXSP::X14 => 14,
            RXSP::X15 => 15,
            RXSP::X16 => 16,
            RXSP::X17 => 17,
            RXSP::X18 => 18,
            RXSP::X19 => 19,
            RXSP::X20 => 20,
            RXSP::X21 => 21,
            RXSP::X22 => 22,
            RXSP::X23 => 23,
            RXSP::X24 => 24,
            RXSP::X25 => 25,
            RXSP::X26 => 26,
            RXSP::X27 => 27,
            RXSP::X28 => 28,
            RXSP::X29 => 29,
            RXSP::X30 => 30,
            RXSP::SP => 31,
        }
    }
}

impl RXSP {
    /// The register whose name carries the index `n`: `Xn` for `n` below 31, `SP` for 31.
    pub open spec fn named(n: u8) -> RXSP {
        match n {
            0 => RXSP::X0,
            1 => RXSP::X1,
            2 => RXSP::X2,
            3 => RXSP::X3,
            4 => RXSP::X4,
            5 => RXSP::X5,
            6 => RXSP::X6,
            7 => RXSP::X7,
            8 => RXSP::X8,
            9 => RXSP::X9,
            10 => RXSP::X10,
            11 => RXSP::X11,
            12 => RXSP::X12,
            13 => RXSP::X13,
            14 => RXSP::X14,
            15 => RXSP::X15,
            16 => RXSP::X16,
            17 => RXSP::X17,
            18 => RXSP::X18,
            19 => RXSP::X19,
            20 => RXSP::X20,
            21 => RXSP::X21,
            22 => RXSP::X22,
            23 => RXSP::X23,
            24 => RXSP::X24,
            25 => RXSP::X25,
            26 => RXSP::X26,
            27 => RXSP::X27,
            28 => RXSP::X28,
            29 => RXSP::X29,
            30 => RXSP::X30,
            _ => RXSP::SP,
        }
    }

    /// The code of a register is the index its name carries: `named(n)` has
    /// code `n`, for every `n` below 32.
    pub proof fn lemma_code_is_name_index(n: u8)
        requires
            n < 32,
        ensures
            RXSP::named(n).number() == n,
    {
    }

    /// Every register has a 5-bit code, and no two registers share one.
    pub proof fn lemma_codes(a: RXSP, b: RXSP)
        ensures
            a.number() < 32,
            a.number() == b.number() ==> a == b,
    {
    }
}

impl From<RXSP> for u8 {
    fn from(reg: RXSP) -> (r: u8) {
        reg.code()
    }
}

impl FromSpecImpl<RXSP> for u8 {
    open spec fn obeys_from_spec() -> bool {
        true
    }

    open spec fn from_spec(reg: RXSP) -> u8 {
        reg.number()
    }
}
/// 1, 2, 4, 8 or 16-byte scalar FP / vector SIMD registers.
#[allow(missing_docs)]
#[derive(Debug, Clone, Copy, PartialEq, Eq, Hash, Structural)]
pub enum RV {
    V0, V1, V2, V3,
    V4, V5, V6, V7,
    V8, V9, V10, V11,
    V12, V13, V14, V15,
    V16, V17, V18, V19,
    V20, V21, V22, V23,
    V24, V25, V26, V27,
    V28, V29, V30, V31,
}

impl Register for RV {
    open spec fn number(&self) -> u8 {
        match self {
            RV::V0 => 0,
            RV::V1 => 1,
            RV::V2 => 2,
            RV::V3 => 3,
            RV::V4 => 4,
            RV::V5 => 5,
            RV::V6 => 6,
            RV::V7 => 7,
            RV::V8 => 8,
            RV::V9 => 9,
            RV::V10 => 10,
            RV::V11 => 11,
            RV::V12 => 12,
            RV::V13 => 13,
            RV::V14 => 14,
            RV::V15 => 15,
            RV::V16 => 16,
            RV::V17 => 17,
            RV::V18 => 18,
            RV::V19 => 19,
            RV::V20 => 20,
            RV::V21 => 21,
            RV::V22 => 22,
            RV::V23 => 23,
            RV::V24 => 24,
            RV::V25 => 25,
            RV::V26 => 26,
            RV::V27 => 27,
            RV::V28 => 28,
            RV::V29 => 29,
            RV::V30 => 30,
            RV::V31 => 31,
        }
    }

    fn code(&self) -> (r: u8) {
        match self {
            RV::V0 => 0,
            RV::V1 => 1,
            RV::V2 => 2,
            RV::V3 => 3,
            RV::V4 => 4,
            RV::V5 => 5,
            RV::V6 => 6,
            RV::V7 => 7,
            RV::V8 => 8,
            RV::V9 => 9,
            RV::V10 => 10,
            RV::V11 => 11,
            RV::V12 => 12,
            RV::V13 => 13,
            RV::V14 => 14,
            RV::V15 => 15,
            RV::V16 => 16,
            RV::V17 => 17,
            RV::V18 => 18,
            RV::V19 => 19,
            RV::V20 => 20,
            RV::V21 => 21,
            RV::V22 => 22,
            RV::V23 => 23,
            RV::V24 => 24,
            RV::V25 => 25,
            RV::V26 => 26,
            RV::V27 => 27,
            RV::V28 => 28,
            RV::V29 => 29,
            RV::V30 => 30,
            RV::V31 => 31,
        }
    }
}

impl RV {
    /// The register `Vn`, for `n` below 32.
    pub open spec fn named(n: u8) -> RV {
        match n {
            0 => RV::V0,
            1 => RV::V1,
            2 => RV::V2,
            3 => RV::V3,
            4 => RV::V4,
            5 => RV::V5,
            6 => RV::V6,
            7 => RV::V7,
            8 => RV::V8,
            9 => RV::V9,
            10 => RV::V10,
            11 => RV::V11,
            12 => RV::V12,
            13 => RV::V13,
            14 => RV::V14,
            15 => RV::V15,
            16 => RV::V16,
            17 => RV::V17,
            18 => RV::V18,
            19 => RV::V19,
            20 => RV::V20,
            21 => RV::V21,
            22 => RV::V22,
            23 => RV::V23,
            24 => RV::V24,
            25 => RV::V25,
            26 => RV::V26,
            27 => RV::V27,
            28 => RV::V28,
            29 => RV::V29,
            30 => RV::V30,
            _ => RV::V31,
        }
    }

    /// The code of a register is the index its name carries: `named(n)` has
    /// code `n`, for every `n` below 32.
    pub proof fn lemma_code_is_name_index(n: u8)
        requires
            n < 32,
        ensures
            RV::named(n).number() == n,
    {
    }

    /// Every register has a 5-bit code, and no two registers share one.
    pub proof fn lemma_codes(a: RV, b: RV)
        ensures
            a.number() < 32,
            a.number() == b.number() ==> a == b,
    {
    }
}

impl From<RV> for u8 {
    fn from(reg: RV) -> (r: u8) {
        reg.code()
    }
}

impl FromSpecImpl<RV> for u8 {
    open spec fn obeys_from_spec() -> bool {
        true
    }

    open spec fn from_spec(reg: RV) -> u8 {
        reg.number()
    }
}
/// The message for an out-of-range `u64` aarch64 immediate. The panicking
/// handler that generated code calls is a thin shell around it.
pub fn immediate_out_of_range_unsigned_64(immediate: u64) -> (r: String)
    ensures
        r@ == immediate_message("Aarch64"@, immediate as int),
{
    unsigned_immediate_message("Aarch64", immediate)
}

/// The message for an out-of-range `u32` aarch64 immediate.
pub fn immediate_out_of_range_unsigned_32(immediate: u32) -> (r: String)
    ensures
        r@ == immediate_message("Aarch64"@, immediate as int),
{
    unsigned_immediate_message("Aarch64", immediate as u64)
}

/// The message for an out-of-range `i32` aarch64 immediate.
pub fn immediate_out_of_range_signed_32(immediate: i32) -> (r: String)
    ensures
        r@ == immediate_message("Aarch64"@, immediate as int),
{
    signed_immediate_message("Aarch64", immediate as i64)
}

/// The single-precision value that the 8-bit floating point immediate
/// `abcdefgh` stands for: sign `a`, exponent `NOT(b):b:b:b:b:b:c:d`, fraction
/// `efgh` followed by zeros.
pub open spec fn expand_fp_immediate(imm8: u8) -> u32 {
    let a = (imm8 >> 7u8) as u32;
    let b = ((imm8 >> 6u8) & 1) as u32;
    (a << 31u32) | ((b ^ 1) << 30u32) | (if b == 1 {
        0x3E00_0000u32
    } else {
        0u32
    }) | (((imm8 & 0x3F) as u32) << 19u32)
}

/// Encodes the single-precision value with bit pattern `bits` as a floating
/// point immediate, if it is one of the values such an immediate stands for.
pub fn encode_floating_point_immediate_bits(bits: u32) -> (r: Option<u8>)
    ensures
        r matches Some(imm8) ==> expand_fp_immediate(imm8) == bits,
        r is None ==> forall|imm8: u8| expand_fp_immediate(imm8) != bits,
{
    // floating point immediates are encoded as
    // abcdefgh => aBbbbbbc defgh000 00000000 00000000
    // where B = !b, so "a" and "bcdefgh" are sliced out once the rest is
    // known to be of that form
    let check = (bits >> 25) & 0x3F;
    if (check == 0b10_0000 || check == 0b01_1111) && (bits & 0x7_FFFF) == 0 {
        let imm8 = (((bits >> 24) & 0x80) | ((bits >> 19) & 0x7F)) as u8;
        assert(expand_fp_immediate(imm8) == bits) by (bit_vector)
            requires
                check == (bits >> 25u32) & 0x3F,
                check == 0x20 || check == 0x1F,
                bits & 0x7_FFFF == 0,
                imm8 == (((bits >> 24u32) & 0x80) | ((bits >> 19u32) & 0x7F)) as u8,
        ;
        Some(imm8)
    } else {
        assert(forall|imm8: u8| expand_fp_immediate(imm8) != bits) by (bit_vector)
            requires
                check == (bits >> 25u32) & 0x3F,
                !((check == 0x20 || check == 0x1F) && bits & 0x7_FFFF == 0),
        ;
        None
    }
}

/// Encodes `value` as the `immr:imms` field of a 32-bit logical
/// instruction, if it is a bitmask immediate.
pub fn encode_logical_immediate_32bit(value: u32) -> (r: Option<u16>)
    ensures
        r matches Some(enc) ==> decode_logical_32(enc) == Some(value) && canonical_32(enc),
        r is None ==> forall|enc: u16| decode_logical_32(enc) != Some(value),
{
    let transitions = value ^ ((value >> 1) | (value << 31));
    let count = count_ones_32(transitions);
    let element_size = match 64u32.checked_div(count) {
        Some(e) => e,
        None => {
            proof {
                lemma_no_encoding_32(value);
            }
            return None;
        },
    };
    // confirm that the elements are identical
    if value != rotate_left_32(value, element_size) {
        proof {
            lemma_no_encoding_32(value);
        }
        return None;
    }
    proof {
        lemma_element_sizes_32(value, transitions, count, element_size);
        lemma_size_shifts(element_size);
    }
    let element = value & if element_size < 32 {
        (1u32 << element_size) - 1
    } else {
        0xFFFF_FFFFu32
    };
    let ones = count_ones_32(element);
    let ghost tz1 = (!element).trailing_zeros();
    let ghost tz2 = element.trailing_zeros();
    let ghost immr_s = if element & 1 != 0 {
        (ones - tz1) as u32
    } else {
        (element_size - tz2) as u32
    };
    let ghost imms_s = (!(((element_size << 1u32) - 1) as u32) & 0x3F) | ((ones - 1) as u32);
    proof {
        vstd::std_specs::bits::axiom_u32_trailing_zeros(!element);
        vstd::std_specs::bits::axiom_u32_trailing_zeros(element);
        if element_size == 32 {
            lemma_encode_32_e32(value, transitions, count, element_size, element, ones, tz1, tz2, immr_s, imms_s);
        } else if element_size == 16 {
            lemma_encode_32_e16(value, transitions, count, element_size, element, ones, tz1, tz2, immr_s, imms_s);
        } else if element_size == 8 {
            lemma_encode_32_e8(value, transitions, count, element_size, element, ones, tz1, tz2, immr_s, imms_s);
        } else if element_size == 4 {
            lemma_encode_32_e4(value, transitions, count, element_size, element, ones, tz1, tz2, immr_s, imms_s);
        } else {
            lemma_encode_32_e2(value, transitions, count, element_size, element, ones, tz1, tz2, immr_s, imms_s);
        }
    }
    let imms = (!((element_size << 1) - 1) & 0x3F) | (ones - 1);
    let immr = if (element & 1) != 0 {
        ones - (!element).trailing_zeros()
    } else {
        element_size - element.trailing_zeros()
    };
    proof {
        lemma_pack_12(immr, imms);
        lemma_low_word((value as u64) | ((value as u64) << 32u64), value);
    }
    Some(((immr as u16) << 6) | (imms as u16))
}

/// Encodes `value` as the `N:immr:imms` field of a 64-bit logical
/// instruction, if it is a bitmask immediate.
pub fn encode_logical_immediate_64bit(value: u64) -> (r: Option<u16>)
    ensures
        r matches Some(enc) ==> decode_logical_64(enc) == Some(value) && canonical_64(enc),
        r is None ==> forall|enc: u16| decode_logical_64(enc) != Some(value),
{
    let transitions = value ^ ((value >> 1) | (value << 63));
    let count = count_ones_64(transitions);
    let element_size = match 128u32.checked_div(count) {
        Some(e) => e,
        None => {
            proof {
                lemma_no_encoding_64(value);
            }
            return None;
        },
    };
    // confirm that the elements are identical
    if value != rotate_left_64(value, element_size) {
        proof {
            lemma_no_encoding_64(value);
        }
        return None;
    }
    proof {
        lemma_transitions_not_one(value);
        if count == 2 {
            assert(element_size == 64);
        } else {
            assert(2 <= 128u32 / count <= 42) by (nonlinear_arith)
                requires
                    3 <= count <= 64,
            ;
        }
    }
    let ghost w = value as u32;
    let ghost t32 = w ^ ((w >> 1u32) | (w << 31u32));
    let ghost p = pop32(t32);
    proof {
        if count != 2 {
            lemma_periodic_halves(value, element_size);
            lemma_doubled(t32, 0);
            lemma_doubled(w, element_size);
            assert(count == 2 * p);
            lemma_doubled_size(p);
            lemma_element_sizes_32(w, t32, p, element_size);
            lemma_doubled_element(w, element_size);
        }
        lemma_imms_64(element_size, 1);
    }
    let element = value & if element_size < 64 {
        (1u64 << element_size) - 1
    } else {
        0xFFFF_FFFF_FFFF_FFFFu64
    };
    let ones = count_ones_64(element);
    let ghost tz1 = (!element).trailing_zeros();
    let ghost tz2 = element.trailing_zeros();
    proof {
        vstd::std_specs::bits::axiom_u64_trailing_zeros(!element);
        vstd::std_specs::bits::axiom_u64_trailing_zeros(element);
        if element_size == 64 {
            lemma_encode_64_e64(
                value,
                transitions,
                count as u64,
                element,
                ones as u64,
                tz1 as u64,
                tz2 as u64,
                (if element & 1 != 0 {
                    (ones - tz1) as u64
                } else {
                    (64 - tz2) as u64
                }),
                (ones - 1) as u64,
            );
            lemma_imms_64(element_size, (ones - 1) as u32);
        } else {
            let elem32 = w & (if element_size >= 32 {
                0xFFFF_FFFFu32
            } else {
                ((1u32 << element_size) - 1) as u32
            });
            let ta = (!elem32).trailing_zeros();
            let tb = elem32.trailing_zeros();
            vstd::std_specs::bits::axiom_u32_trailing_zeros(!elem32);
            vstd::std_specs::bits::axiom_u32_trailing_zeros(elem32);
            lemma_doubled(elem32, 0);
            let ones32 = pop32(elem32);
            let immr32 = if elem32 & 1 != 0 {
                (ones32 - ta) as u32
            } else {
                (element_size - tb) as u32
            };
            let imms32 = (!(((element_size << 1u32) - 1) as u32) & 0x3F) | ((ones32 - 1) as u32);
            if element_size == 32 {
                lemma_encode_32_e32(w, t32, p, element_size, elem32, ones32, ta, tb, immr32, imms32);
            } else if element_size == 16 {
                lemma_encode_32_e16(w, t32, p, element_size, elem32, ones32, ta, tb, immr32, imms32);
            } else if element_size == 8 {
                lemma_encode_32_e8(w, t32, p, element_size, elem32, ones32, ta, tb, immr32, imms32);
            } else if element_size == 4 {
                lemma_encode_32_e4(w, t32, p, element_size, elem32, ones32, ta, tb, immr32, imms32);
            } else {
                lemma_encode_32_e2(w, t32, p, element_size, elem32, ones32, ta, tb, immr32, imms32);
            }
            lemma_tz_widen(elem32, element, tb, ta, tz2, tz1);
            lemma_imms_64(element_size, (ones - 1) as u32);
        }
    }
    let imms = (!((element_size << 1) - 1) & 0x7F) | (ones - 1);
    let immr = if (element & 1) != 0 {
        ones - (!element).trailing_zeros()
    } else {
        element_size - element.trailing_zeros()
    };
    let n = imms & 0x40 == 0;
    proof {
        lemma_pack_13(n as u16, immr, imms);
    }
    let imms = imms & 0x3F;
    Some(((n as u16) << 12) | ((immr as u16) << 6) | (imms as u16))
}

} // verus!
