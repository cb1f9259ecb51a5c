//! The `Relocation` trait and the architecture-independent relocation types.
//!
//! A relocation is packed by the assembler into a single byte: the upper two
//! bits give the [`RelocationKind`], the lower six bits the encoding, where
//! the codes 0 to 3 are plain little-endian integers of 1, 2, 4 and 8 bytes
//! and every larger code is an architecture-specific encoding.

use vstd::prelude::*;
use vstd::arithmetic::power2::pow2;
use crate::bytes::{lemma_u16_roundtrip, lemma_u32_roundtrip, lemma_u64_roundtrip, le_u16, le_u32, le_u64, splice, u16_bytes, u32_bytes, u64_bytes, read_i16, read_i32, read_i64, write_i16, write_i32, write_i64};

verus! {

/// Error returned when encoding a relocation failed.
#[derive(Debug)]
pub struct ImpossibleRelocation {}

/// Whether `value` is representable as a two's complement integer of `bits`
/// bits; widths beyond 64 bits count as 64.
pub open spec fn fits_signed(value: int, bits: nat) -> bool {
    let b: nat = if bits >= 64 { 64 } else { bits };
    -(pow2((b - 1) as nat) as int) <= value && value < pow2((b - 1) as nat)
}

/// Decides `fits_signed(value, bits)`.
pub(crate) fn fits_signed_bitfield(value: i64, bits: u8) -> (r: bool)
    requires
        bits >= 1,
    ensures
        r == fits_signed(value as int, bits as nat),
{
    if bits >= 64 {
        proof {
            lemma_size_bounds();
        }
        return true;
    }
    let shift: u8 = bits - 1;
    let half = 1i64 << shift;
    proof {
        lemma_one_shl_i64(shift);
    }
    value < half && value >= -half
}

/// `1i64 << k` is `2^k` for shifts that keep the sign bit clear.
proof fn lemma_one_shl_i64(k: u8)
    requires
        k < 63,
    ensures
        (1i64 << k) as int == pow2(k as nat),
        pow2(k as nat) <= 0x4000_0000_0000_0000,
{
    let ku = k as u64;
    assert((1i64 << k) as int == (1u64 << ku) as int) by (bit_vector)
        requires
            k < 63,
            ku == k as u64,
    ;
    vstd::bits::lemma_u64_pow2_no_overflow(ku as nat);
    vstd::bits::lemma_u64_shl_is_mul(1u64, ku);
    vstd::arithmetic::power2::lemma_pow2_strictly_increases(k as nat, 63);
    vstd::arithmetic::power2::lemma2_to64();
    vstd::arithmetic::power2::lemma2_to64_rest();
    if k < 62 {
        vstd::arithmetic::power2::lemma_pow2_strictly_increases(k as nat, 62);
    }
}

/// Trait that handles the decoding of architecture-specific relocation
/// encodings, so that the relocation machinery can be generic over it.
pub trait ArchitectureRelocationEncoding: Clone + Copy + core::fmt::Debug + Sized {
    /// Whether `code` names an encoding of this architecture.
    spec fn is_code(code: u8) -> bool;

    /// The encoding that `code` names.
    spec fn from_code(code: u8) -> Self;

    /// Decodes this custom relocation encoding from the bitfield in the relocation code.
    fn decode(code: u8) -> (r: Self)
        requires
            Self::is_code(code),
        ensures
            r == Self::from_code(code),
    ;
}

/// Used to inform assemblers on how to implement relocations for each
/// architecture. When implementing a new architecture, one simply has to
/// implement this trait for the architecture's relocation definition.
pub trait Relocation: Sized {
    /// Whether `encoding` is a packed relocation code of this architecture.
    spec fn decodable(encoding: u8) -> bool;

    /// The relocation that the packed code `encoding` stands for.
    spec fn decoded(encoding: u8) -> Self;

    /// The simple relocation of the given kind and size.
    spec fn sized(kind: RelocationKind, size: RelocationSize) -> Self;

    /// The number of bytes this relocation affects.
    spec fn byte_len(&self) -> nat;

    /// Whether `value` can be encoded by this relocation.
    spec fn encodable(&self, value: int) -> bool;

    /// The buffer `buf` after `value` has been encoded into it.
    spec fn written(&self, buf: Seq<u8>, value: int) -> Seq<u8>;

    /// The value this relocation reads from `buf`.
    spec fn read(&self, buf: Seq<u8>) -> i64;

    /// The kind of this relocation.
    spec fn relocation_kind(&self) -> RelocationKind;

    /// The default page size of the platform.
    spec fn page_bytes() -> nat;

    /// A relocation made from a plain size spans, accepts, writes and reads
    /// exactly what a plain integer of that size does, and has the kind it
    /// was made with.
    proof fn lemma_sized(kind: RelocationKind, size: RelocationSize, buf: Seq<u8>, value: int)
        ensures
            Self::sized(kind, size).byte_len() == size.bytes(),
            Self::sized(kind, size).encodable(value) == size.encodable(value),
            Self::sized(kind, size).written(buf, value) == size.written(buf, value),
            Self::sized(kind, size).read(buf) == size.read(buf),
            Self::sized(kind, size).relocation_kind() == kind,
    ;

    /// Constructs this relocation from an encoded representation.
    fn from_encoding(encoding: u8) -> (r: Self)
        requires
            Self::decodable(encoding),
        ensures
            r == Self::decoded(encoding),
    ;

    /// Constructs this relocation from a simple size. This is used to implement
    /// relocations in directives and literal pools.
    fn from_size(kind: RelocationKind, size: RelocationSize) -> (r: Self)
        ensures
            r == Self::sized(kind, size),
    ;

    /// The size of the slice of bytes affected by this relocation.
    fn size(&self) -> (r: usize)
        ensures
            r == self.byte_len(),
    ;

    /// Writes a value into a buffer of size `self.size()` in the format of this
    /// relocation. Any bits not part of the relocation are preserved.
    fn write_value(&self, buf: &mut [u8], value: isize) -> (r: Result<(), ImpossibleRelocation>)
        requires
            old(buf)@.len() >= self.byte_len(),
        ensures
            r is Ok <==> self.encodable(value as int),
            r is Ok ==> final(buf)@ == self.written(old(buf)@, value as int),
            r is Err ==> final(buf)@ == old(buf)@,
    ;

    /// Reads a value from a buffer of size `self.size()` in the format of this relocation.
    fn read_value(&self, buf: &[u8]) -> (r: isize)
        requires
            buf@.len() >= self.byte_len(),
        ensures
            r == self.read(buf@) as isize,
    ;

    /// Specifies what kind of relocation this relocation instance is.
    fn kind(&self) -> (r: RelocationKind)
        ensures
            r == self.relocation_kind(),
    ;

    /// Specifies the default page size on this platform.
    fn page_size() -> (r: usize)
        ensures
            r == Self::page_bytes(),
    ;
}

/// Specifies if/how relocations should be adapted if the assembling buffer is moved.
#[derive(Clone, Copy, Debug)]
pub enum RelocationKind {
    /// A simple, PC-relative relocation. These can be encoded once and do not need
    /// to be adjusted when the executable buffer is moved.
    Relative,
    /// An absolute relocation to a relative address, i.e. trying to put the
    /// address of a dynasm x86 function in a register. This means adjustment is
    /// necessary when the executable buffer is moved.
    AbsToRel,
    /// A relative relocation to an absolute address, i.e. trying to call a Rust
    /// function with a dynasm x86 call. This means adjustment is necessary when
    /// the executable buffer is moved.
    RelToAbs,
    /// An absolute relocation to an absolute address.
    Absolute,
}

/// Specifies how a certain relocation is encoded.
#[derive(Clone, Copy, Debug)]
pub enum RelocationEncoding<A: ArchitectureRelocationEncoding> {
    /// This relocation is just some bytes of data.
    Simple(RelocationSize),
    /// This relocation is complex and requires architecture-specific decoding logic.
    ArchSpecific(A),
}

/// All information needed to describe how a relocation should be performed by the runtime.
#[derive(Clone, Copy, Debug)]
pub struct RelocationType<A: ArchitectureRelocationEncoding> {
    /// How this relocation should be adapted if the buffer gets moved.
    pub kind: RelocationKind,
    /// The way this relocation is to be encoded.
    pub encoding: RelocationEncoding<A>,
}

/// The position of a kind in the declaration of `RelocationKind`, from 0.
pub open spec fn kind_position(k: RelocationKind) -> int {
    match k {
        RelocationKind::Relative => 0,
        RelocationKind::AbsToRel => 1,
        RelocationKind::RelToAbs => 2,
        RelocationKind::Absolute => 3,
    }
}

/// The kind held in the upper two bits of a packed relocation code.
pub open spec fn kind_of_code(code: u8) -> RelocationKind {
    let k = code / 64;
    if k == 0 {
        RelocationKind::Relative
    } else if k == 1 {
        RelocationKind::AbsToRel
    } else if k == 2 {
        RelocationKind::RelToAbs
    } else {
        RelocationKind::Absolute
    }
}

/// The size that the simple encodings 0 to 3 stand for.
pub open spec fn size_of_code(c: u8) -> RelocationSize {
    if c == 0 {
        RelocationSize::Byte
    } else if c == 1 {
        RelocationSize::Word
    } else if c == 2 {
        RelocationSize::DWord
    } else {
        RelocationSize::QWord
    }
}

impl<A: ArchitectureRelocationEncoding> RelocationType<A> {
    /// Whether the packed code `code` can be decoded: its encoding is simple
    /// or names an encoding of the architecture.
    pub open spec fn decodable(code: u8) -> bool {
        code % 64 < 4 || A::is_code((code % 64 - 4) as u8)
    }

    /// The relocation type that the packed code `code` stands for.
    pub open spec fn decoded(code: u8) -> Self {
        let c = (code % 64) as u8;
        RelocationType {
            kind: kind_of_code(code),
            encoding: if c < 4 {
                RelocationEncoding::Simple(size_of_code(c))
            } else {
                RelocationEncoding::ArchSpecific(A::from_code((c - 4) as u8))
            },
        }
    }

    /// Decodes the packed representation emitted by the assembler.
    pub fn decode(code: u8) -> (r: Self)
        requires
            Self::decodable(code),
        ensures
            r == Self::decoded(code),
    {
        let k = code >> 6;
        assert(k == code / 64) by (bit_vector)
            requires
                k == code >> 6,
        ;
        let kind = if k == 0 {
            RelocationKind::Relative
        } else if k == 1 {
            RelocationKind::AbsToRel
        } else if k == 2 {
            RelocationKind::RelToAbs
        } else {
            RelocationKind::Absolute
        };
        let c = code & 0x3F;
        assert(c == code % 64) by (bit_vector)
            requires
                c == code & 0x3F,
        ;
        let encoding = if c == 0 {
            RelocationEncoding::Simple(RelocationSize::Byte)
        } else if c == 1 {
            RelocationEncoding::Simple(RelocationSize::Word)
        } else if c == 2 {
            RelocationEncoding::Simple(RelocationSize::DWord)
        } else if c == 3 {
            RelocationEncoding::Simple(RelocationSize::QWord)
        } else {
            RelocationEncoding::ArchSpecific(A::decode(c - 4))
        };
        RelocationType { kind, encoding }
    }

    /// How a packed code is read: the upper two bits give the position of
    /// the kind in the declaration of `RelocationKind` (so every kind has one
    /// code prefix and codes below 64 are `Relative`), and a low part `k`
    /// below 4 is a plain integer of `2^k` bytes; the low part alone decides
    /// the encoding.
    pub proof fn lemma_decoded_fields(code: u8, other: u8)
        ensures
            kind_position(Self::decoded(code).kind) == code / 64,
            code % 64 < 4 ==> (Self::decoded(code).encoding matches RelocationEncoding::Simple(s)
                && s.bytes() == pow2((code % 64) as nat)),
            code % 64 == other % 64 ==> Self::decoded(code).encoding == Self::decoded(other).encoding,
    {
        vstd::arithmetic::power2::lemma2_to64();
    }

    /// Manually creates a `RelocationType` for a simple size-based relocation.
    pub fn from_size(kind: RelocationKind, size: RelocationSize) -> (r: Self)
        ensures
            r == (RelocationType::<A> { kind, encoding: RelocationEncoding::Simple(size) }),
    {
        RelocationType { kind, encoding: RelocationEncoding::Simple(size) }
    }
}

/// A simple size-based relocation descriptor for relocations in data directives.
/// Can be converted to a relocation for any kind of architecture using `Relocation::from_size`.
#[derive(Clone, Copy, Debug, PartialEq, Eq, Hash)]
pub enum RelocationSize {
    /// A byte-sized relocation.
    Byte,
    /// A two-byte relocation.
    Word,
    /// A four-byte sized relocation.
    DWord,
    /// An 8-byte sized relocation.
    QWord,
}

impl RelocationSize {
    /// The number of bytes of this size.
    pub open spec fn bytes(self) -> nat {
        match self {
            RelocationSize::Byte => 1,
            RelocationSize::Word => 2,
            RelocationSize::DWord => 4,
            RelocationSize::QWord => 8,
        }
    }

    /// Whether `value` fits this size as a two's complement integer.
    pub open spec fn encodable(self, value: int) -> bool {
        fits_signed(value, 8 * self.bytes())
    }

    /// The buffer `buf` after `value` was written to its start as a
    /// little-endian two's complement integer of this size.
    pub open spec fn written(self, buf: Seq<u8>, value: int) -> Seq<u8> {
        match self {
            RelocationSize::Byte => buf.update(0, value as i8 as u8),
            RelocationSize::Word => splice(buf, 0, u16_bytes(value as i16 as u16)),
            RelocationSize::DWord => splice(buf, 0, u32_bytes(value as i32 as u32)),
            RelocationSize::QWord => splice(buf, 0, u64_bytes(value as i64 as u64)),
        }
    }

    /// The little-endian two's complement integer of this size at the start of `buf`.
    pub open spec fn read(self, buf: Seq<u8>) -> i64 {
        match self {
            RelocationSize::Byte => buf[0] as i8 as i64,
            RelocationSize::Word => le_u16(buf) as i16 as i64,
            RelocationSize::DWord => le_u32(buf) as i32 as i64,
            RelocationSize::QWord => le_u64(buf) as i64,
        }
    }

    /// The size of this size-based relocation in bytes.
    pub fn size(&self) -> (r: usize)
        ensures
            r == self.bytes(),
    {
        match self {
            RelocationSize::Byte => 1,
            RelocationSize::Word => 2,
            RelocationSize::DWord => 4,
            RelocationSize::QWord => 8,
        }
    }

    /// Packs `value` into this relocation size and formats it into `buf`.
    pub fn write_value(&self, buf: &mut [u8], value: isize) -> (r: Result<(), ImpossibleRelocation>)
        requires
            old(buf)@.len() >= self.bytes(),
        ensures
            r is Ok <==> self.encodable(value as int),
            r is Ok ==> final(buf)@ == self.written(old(buf)@, value as int),
            r is Err ==> final(buf)@ == old(buf)@,
    {
        let v = value as i64;
        proof {
            lemma_size_bounds();
        }
        match self {
            RelocationSize::Byte => {
                if v < -0x80 || v > 0x7F {
                    return Err(ImpossibleRelocation {});
                }
                buf[0] = v as i8 as u8;
            },
            RelocationSize::Word => {
                if v < -0x8000 || v > 0x7FFF {
                    return Err(ImpossibleRelocation {});
                }
                write_i16(buf, v as i16);
            },
            RelocationSize::DWord => {
                if v < -0x8000_0000 || v > 0x7FFF_FFFF {
                    return Err(ImpossibleRelocation {});
                }
                write_i32(buf, v as i32);
            },
            RelocationSize::QWord => {
                write_i64(buf, v);
            },
        }
        Ok(())
    }

    /// Extracts a value of this size from `buf`.
    pub fn read_value(&self, buf: &[u8]) -> (r: isize)
        requires
            buf@.len() >= self.bytes(),
        ensures
            r == self.read(buf@) as isize,
    {
        match self {
            RelocationSize::Byte => buf[0] as i8 as isize,
            RelocationSize::Word => read_i16(buf) as isize,
            RelocationSize::DWord => read_i32(buf) as isize,
            RelocationSize::QWord => read_i64(buf) as isize,
        }
    }
}

impl RelocationSize {
    /// Reading back a value that was written gives that value.
    pub proof fn lemma_write_read(self, buf: Seq<u8>, value: int)
        requires
            buf.len() >= self.bytes(),
            self.encodable(value),
        ensures
            self.read(self.written(buf, value)) == value,
    {
        self.lemma_accepts_what_it_holds(buf, value);
    }

    /// A size accepts exactly the values that come back unchanged when
    /// written and read again: those its integer can hold, and no other.
    pub proof fn lemma_accepts_what_it_holds(self, buf: Seq<u8>, value: int)
        requires
            buf.len() >= self.bytes(),
        ensures
            self.encodable(value) <==> self.read(self.written(buf, value)) == value,
    {
        lemma_size_bounds();
        let w = self.written(buf, value);
        match self {
            RelocationSize::Byte => {
                let b = value as i8;
                lemma_cast_roundtrips(b, 0, 0, 0);
                assert(self.read(w) == b);
            },
            RelocationSize::Word => {
                let h = value as i16;
                let rest = buf.subrange(2, buf.len() as int);
                assert(w == u16_bytes(h as u16) + rest);
                lemma_u16_roundtrip(h as u16, rest);
                lemma_cast_roundtrips(0, h, 0, 0);
                assert(self.read(w) == h);
            },
            RelocationSize::DWord => {
                let h = value as i32;
                let rest = buf.subrange(4, buf.len() as int);
                assert(w == u32_bytes(h as u32) + rest);
                lemma_u32_roundtrip(h as u32, rest);
                lemma_cast_roundtrips(0, 0, h, 0);
                assert(self.read(w) == h);
            },
            RelocationSize::QWord => {
                let h = value as i64;
                let rest = buf.subrange(8, buf.len() as int);
                assert(w == u64_bytes(h as u64) + rest);
                lemma_u64_roundtrip(h as u64, rest);
                lemma_cast_roundtrips(0, 0, 0, h);
                assert(self.read(w) == h);
            },
        }
    }

    /// Writing a value keeps the length of the buffer and every byte past the
    /// first `self.bytes()`.
    pub proof fn lemma_write_keeps_rest(self, buf: Seq<u8>, value: int)
        requires
            buf.len() >= self.bytes(),
        ensures
            self.written(buf, value).len() == buf.len(),
            self.written(buf, value).subrange(self.bytes() as int, buf.len() as int)
                =~= buf.subrange(self.bytes() as int, buf.len() as int),
    {
    }
}

/// The encoding type of architectures without complex relocations. No code
/// decodes to it, and the invariant of `SimpleRelocation` keeps it out of
/// every simple relocation.
#[derive(Copy, Clone, Debug)]
struct NoComplexRelocationEncodings;

impl ArchitectureRelocationEncoding for NoComplexRelocationEncodings {
    open spec fn is_code(code: u8) -> bool {
        false
    }

    open spec fn from_code(code: u8) -> Self {
        arbitrary()
    }

    fn decode(code: u8) -> (r: Self) {
        unreached()
    }
}

/// A simple relocation type for relocations that do not need complex bitpacking.
#[derive(Debug, Clone, Copy)]
pub struct SimpleRelocation(RelocationType<NoComplexRelocationEncodings>);

impl SimpleRelocation {
    /// A simple relocation only ever holds a simple encoding.
    #[verifier::type_invariant]
    closed spec fn is_simple(self) -> bool {
        self.0.encoding is Simple
    }

    /// The size of the integer this relocation encodes.
    pub closed spec fn simple_size(self) -> RelocationSize {
        match self.0.encoding {
            RelocationEncoding::Simple(s) => s,
            RelocationEncoding::ArchSpecific(_) => arbitrary(),
        }
    }

    /// The kind of this relocation.
    pub closed spec fn simple_kind(self) -> RelocationKind {
        self.0.kind
    }

    /// Reading a simple relocation back after writing an encodable value
    /// gives that value.
    pub proof fn lemma_write_read(self, buf: Seq<u8>, value: int)
        requires
            buf.len() >= self.byte_len(),
            self.encodable(value),
        ensures
            self.read(self.written(buf, value)) == value,
    {
        self.simple_size().lemma_write_read(buf, value);
    }

    /// A simple relocation accepts exactly the values that come back
    /// unchanged when written and read again.
    pub proof fn lemma_accepts_what_it_holds(self, buf: Seq<u8>, value: int)
        requires
            buf.len() >= self.byte_len(),
        ensures
            self.encodable(value) <==> self.read(self.written(buf, value)) == value,
    {
        self.simple_size().lemma_accepts_what_it_holds(buf, value);
    }

    /// Writing keeps the length of the buffer and every byte past the relocation.
    pub proof fn lemma_write_keeps(self, buf: Seq<u8>, value: int)
        requires
            buf.len() >= self.byte_len(),
        ensures
            self.written(buf, value).len() == buf.len(),
            self.written(buf, value).subrange(self.byte_len() as int, buf.len() as int)
                =~= buf.subrange(self.byte_len() as int, buf.len() as int),
    {
        self.simple_size().lemma_write_keeps_rest(buf, value);
    }
}

/// A relocation that has no architecture-specific encoding/decoding logic.
impl Relocation for SimpleRelocation {
    open spec fn decodable(encoding: u8) -> bool {
        encoding % 64 < 4
    }

    closed spec fn decoded(encoding: u8) -> Self {
        SimpleRelocation(RelocationType::decoded(encoding))
    }

    closed spec fn sized(kind: RelocationKind, size: RelocationSize) -> Self {
        SimpleRelocation(RelocationType { kind, encoding: RelocationEncoding::Simple(size) })
    }

    open spec fn byte_len(&self) -> nat {
        self.simple_size().bytes()
    }

    open spec fn encodable(&self, value: int) -> bool {
        self.simple_size().encodable(value)
    }

    open spec fn written(&self, buf: Seq<u8>, value: int) -> Seq<u8> {
        self.simple_size().written(buf, value)
    }

    open spec fn read(&self, buf: Seq<u8>) -> i64 {
        self.simple_size().read(buf)
    }

    open spec fn relocation_kind(&self) -> RelocationKind {
        self.simple_kind()
    }

    open spec fn page_bytes() -> nat {
        4096
    }

    proof fn lemma_sized(kind: RelocationKind, size: RelocationSize, buf: Seq<u8>, value: int) {
    }

    fn from_encoding(encoding: u8) -> (r: Self)
        ensures
            r.simple_kind() == kind_of_code(encoding),
            r.simple_size() == size_of_code(encoding % 64),
    {
        SimpleRelocation(RelocationType::decode(encoding))
    }

    fn from_size(kind: RelocationKind, size: RelocationSize) -> (r: Self)
        ensures
            r.simple_kind() == kind,
            r.simple_size() == size,
    {
        SimpleRelocation(RelocationType::from_size(kind, size))
    }

    fn size(&self) -> (r: usize)
        ensures
            r == self.simple_size().bytes(),
    {
        match self.0.encoding {
            RelocationEncoding::Simple(s) => s.size(),
            RelocationEncoding::ArchSpecific(_) => {
                proof {
                    use_type_invariant(self);
                }
                unreached()
            },
        }
    }

    fn write_value(&self, buf: &mut [u8], value: isize) -> (r: Result<(), ImpossibleRelocation>) {
        match self.0.encoding {
            RelocationEncoding::Simple(s) => s.write_value(buf, value),
            RelocationEncoding::ArchSpecific(_) => {
                proof {
                    use_type_invariant(self);
                }
                unreached()
            },
        }
    }

    fn read_value(&self, buf: &[u8]) -> (r: isize) {
        match self.0.encoding {
            RelocationEncoding::Simple(s) => s.read_value(buf),
            RelocationEncoding::ArchSpecific(_) => {
                proof {
                    use_type_invariant(self);
                }
                unreached()
            },
        }
    }

    fn kind(&self) -> (r: RelocationKind)
        ensures
            r == self.simple_kind(),
    {
        self.0.kind
    }

    fn page_size() -> (r: usize)
        ensures
            r == 4096,
    {
        4096
    }
}

/// Wrapping subtraction is subtraction modulo 2^64.
pub(crate) proof fn lemma_wrapping_sub(x: u64, y: u64)
    ensures
        x.wrapping_sub(y) == (x - y) as u64,
{
    assert(x.wrapping_sub(y) == (x - y) as u64) by (bit_vector);
}

/// `x` read as a two's complement number of `bits` bits, by flipping the top
/// bit and subtracting it again.
pub open spec fn sign_extend(x: u64, bits: u64) -> i64 {
    let offset = 1u64 << ((bits - 1) as u64);
    (x ^ offset).wrapping_sub(offset) as i64
}

/// Reinterpreting a signed integer as unsigned and back gives it back.
proof fn lemma_cast_roundtrips(a: i8, b: i16, c: i32, d: i64)
    by (bit_vector)
    ensures
        (a as u8) as i8 == a,
        (b as u16) as i16 == b,
        (c as u32) as i32 == c,
        (d as u64) as i64 == d,
{
}

/// The powers of two that bound the simple sizes.
pub(crate) proof fn lemma_size_bounds()
    ensures
        pow2(7) == 0x80,
        pow2(15) == 0x8000,
        pow2(31) == 0x8000_0000,
        pow2(63) == 0x8000_0000_0000_0000,
{
    vstd::arithmetic::power2::lemma2_to64();
    vstd::arithmetic::power2::lemma2_to64_rest();
}

} // verus!
