//! Little-endian byte access, backed by the `byteorder` crate.
//!
//! Every function here that makes an outside call is a trusted wrapper: its
//! contract restates what `byteorder`'s `LittleEndian` implementation does.

use vstd::prelude::*;
use byteorder::{ByteOrder, LittleEndian};

verus! {

/// The 16-bit unsigned value stored little-endian in the first two bytes of `b`.
pub open spec fn le_u16(b: Seq<u8>) -> u16 {
    (b[0] as u16) | ((b[1] as u16) << 8u16)
}

/// The 32-bit unsigned value stored little-endian in the first four bytes of `b`.
pub open spec fn le_u32(b: Seq<u8>) -> u32 {
    (b[0] as u32) | ((b[1] as u32) << 8u32) | ((b[2] as u32) << 16u32) | ((b[3] as u32) << 24u32)
}

/// The 64-bit unsigned value stored little-endian in the first eight bytes of `b`.
pub open spec fn le_u64(b: Seq<u8>) -> u64 {
    (b[0] as u64) | ((b[1] as u64) << 8u64) | ((b[2] as u64) << 16u64) | ((b[3] as u64) << 24u64)
        | ((b[4] as u64) << 32u64) | ((b[5] as u64) << 40u64) | ((b[6] as u64) << 48u64) | ((
    b[7] as u64) << 56u64)
}

/// The two little-endian bytes of `n`.
pub open spec fn u16_bytes(n: u16) -> Seq<u8> {
    seq![n as u8, (n >> 8u16) as u8]
}

/// The four little-endian bytes of `n`.
pub open spec fn u32_bytes(n: u32) -> Seq<u8> {
    seq![n as u8, (n >> 8u32) as u8, (n >> 16u32) as u8, (n >> 24u32) as u8]
}

/// The eight little-endian bytes of `n`.
pub open spec fn u64_bytes(n: u64) -> Seq<u8> {
    seq![
        n as u8,
        (n >> 8u64) as u8,
        (n >> 16u64) as u8,
        (n >> 24u64) as u8,
        (n >> 32u64) as u8,
        (n >> 40u64) as u8,
        (n >> 48u64) as u8,
        (n >> 56u64) as u8,
    ]
}

/// `buf` with the bytes starting at `at` replaced by `bytes`.
pub open spec fn splice(buf: Seq<u8>, at: int, bytes: Seq<u8>) -> Seq<u8> {
    buf.subrange(0, at) + bytes + buf.subrange(at + bytes.len(), buf.len() as int)
}

/// Reading back two bytes written by `u16_bytes` gives the value written.
pub proof fn lemma_u16_roundtrip(n: u16, rest: Seq<u8>)
    ensures
        le_u16(u16_bytes(n) + rest) == n,
{
    let s = u16_bytes(n) + rest;
    assert(s[0] == n as u8 && s[1] == (n >> 8u16) as u8);
    let b0 = n as u8;
    let b1 = (n >> 8u16) as u8;
    assert((b0 as u16) | ((b1 as u16) << 8u16) == n) by (bit_vector)
        requires
            b0 == n as u8,
            b1 == (n >> 8u16) as u8,
    ;
}

/// Reading back four bytes written by `u32_bytes` gives the value written.
pub proof fn lemma_u32_roundtrip(n: u32, rest: Seq<u8>)
    ensures
        le_u32(u32_bytes(n) + rest) == n,
{
    let s = u32_bytes(n) + rest;
    let b0 = n as u8;
    let b1 = (n >> 8u32) as u8;
    let b2 = (n >> 16u32) as u8;
    let b3 = (n >> 24u32) as u8;
    assert(s[0] == b0 && s[1] == b1 && s[2] == b2 && s[3] == b3);
    assert((b0 as u32) | ((b1 as u32) << 8u32) | ((b2 as u32) << 16u32) | ((b3 as u32) << 24u32)
        == n) by (bit_vector)
        requires
            b0 == n as u8,
            b1 == (n >> 8u32) as u8,
            b2 == (n >> 16u32) as u8,
            b3 == (n >> 24u32) as u8,
    ;
}

/// Reading back eight bytes written by `u64_bytes` gives the value written.
pub proof fn lemma_u64_roundtrip(n: u64, rest: Seq<u8>)
    ensures
        le_u64(u64_bytes(n) + rest) == n,
{
    let s = u64_bytes(n) + rest;
    let b0 = n as u8;
    let b1 = (n >> 8u64) as u8;
    let b2 = (n >> 16u64) as u8;
    let b3 = (n >> 24u64) as u8;
    let b4 = (n >> 32u64) as u8;
    let b5 = (n >> 40u64) as u8;
    let b6 = (n >> 48u64) as u8;
    let b7 = (n >> 56u64) as u8;
    assert(s[0] == b0 && s[1] == b1 && s[2] == b2 && s[3] == b3);
    assert(s[4] == b4 && s[5] == b5 && s[6] == b6 && s[7] == b7);
    assert((b0 as u64) | ((b1 as u64) << 8u64) | ((b2 as u64) << 16u64) | ((b3 as u64) << 24u64)
        | ((b4 as u64) << 32u64) | ((b5 as u64) << 40u64) | ((b6 as u64) << 48u64) | ((
    b7 as u64) << 56u64) == n) by (bit_vector)
        requires
            b0 == n as u8,
            b1 == (n >> 8u64) as u8,
            b2 == (n >> 16u64) as u8,
            b3 == (n >> 24u64) as u8,
            b4 == (n >> 32u64) as u8,
            b5 == (n >> 40u64) as u8,
            b6 == (n >> 48u64) as u8,
            b7 == (n >> 56u64) as u8,
    ;
}

/// Calls `LittleEndian::read_u16`, which reads the first two bytes of `buf`
/// as a little-endian `u16` and panics on a shorter buffer.
#[verifier::external_body]
pub(crate) fn read_u16(buf: &[u8]) -> (r: u16)
    requires
        buf@.len() >= 2,
    ensures
        r == le_u16(buf@),
{
    LittleEndian::read_u16(buf)
}

/// Calls `LittleEndian::read_u32`, which reads the first four bytes of `buf`
/// as a little-endian `u32` and panics on a shorter buffer.
#[verifier::external_body]
pub(crate) fn read_u32(buf: &[u8]) -> (r: u32)
    requires
        buf@.len() >= 4,
    ensures
        r == le_u32(buf@),
{
    LittleEndian::read_u32(buf)
}

/// Calls `LittleEndian::read_i16`, which reinterprets `read_u16` of the
/// same buffer as a signed value.
#[verifier::external_body]
pub(crate) fn read_i16(buf: &[u8]) -> (r: i16)
    requires
        buf@.len() >= 2,
    ensures
        r == le_u16(buf@) as i16,
{
    LittleEndian::read_i16(buf)
}

/// Calls `LittleEndian::read_i32`, which reinterprets `read_u32` of the
/// same buffer as a signed value.
#[verifier::external_body]
pub(crate) fn read_i32(buf: &[u8]) -> (r: i32)
    requires
        buf@.len() >= 4,
    ensures
        r == le_u32(buf@) as i32,
{
    LittleEndian::read_i32(buf)
}

/// Calls `LittleEndian::read_i64`, which reads the first eight bytes of
/// `buf` as a little-endian value reinterpreted as signed.
#[verifier::external_body]
pub(crate) fn read_i64(buf: &[u8]) -> (r: i64)
    requires
        buf@.len() >= 8,
    ensures
        r == le_u64(buf@) as i64,
{
    LittleEndian::read_i64(buf)
}

/// Calls `LittleEndian::write_u16`, which overwrites the first two bytes of
/// `buf` with the little-endian bytes of `n` and leaves the rest alone.
#[verifier::external_body]
pub(crate) fn write_u16(buf: &mut [u8], n: u16)
    requires
        old(buf)@.len() >= 2,
    ensures
        final(buf)@ == splice(old(buf)@, 0, u16_bytes(n)),
{
    LittleEndian::write_u16(buf, n)
}

/// Calls `LittleEndian::write_u32`, which overwrites the first four bytes of
/// `buf` with the little-endian bytes of `n` and leaves the rest alone.
#[verifier::external_body]
pub(crate) fn write_u32(buf: &mut [u8], n: u32)
    requires
        old(buf)@.len() >= 4,
    ensures
        final(buf)@ == splice(old(buf)@, 0, u32_bytes(n)),
{
    LittleEndian::write_u32(buf, n)
}

/// Calls `LittleEndian::write_i16`, which writes the two's complement bytes
/// of `n` as `write_u16` does.
#[verifier::external_body]
pub(crate) fn write_i16(buf: &mut [u8], n: i16)
    requires
        old(buf)@.len() >= 2,
    ensures
        final(buf)@ == splice(old(buf)@, 0, u16_bytes(n as u16)),
{
    LittleEndian::write_i16(buf, n)
}

/// Calls `LittleEndian::write_i32`, which writes the two's complement bytes
/// of `n` as `write_u32` does.
#[verifier::external_body]
pub(crate) fn write_i32(buf: &mut [u8], n: i32)
    requires
        old(buf)@.len() >= 4,
    ensures
        final(buf)@ == splice(old(buf)@, 0, u32_bytes(n as u32)),
{
    LittleEndian::write_i32(buf, n)
}

/// Calls `LittleEndian::write_i64`, which overwrites the first eight bytes of
/// `buf` with the little-endian two's complement bytes of `n`.
#[verifier::external_body]
pub(crate) fn write_i64(buf: &mut [u8], n: i64)
    requires
        old(buf)@.len() >= 8,
    ensures
        final(buf)@ == splice(old(buf)@, 0, u64_bytes(n as u64)),
{
    LittleEndian::write_i64(buf, n)
}

/// Reads the little-endian `u32` that starts at byte `at` of `buf`.
pub(crate) fn read_u32_at(buf: &[u8], at: usize) -> (r: u32)
    requires
        at + 4 <= buf@.len(),
    ensures
        r == le_u32(buf@.subrange(at as int, buf@.len() as int)),
{
    read_u32(&buf[at..buf.len()])
}

/// Overwrites the four bytes that start at byte `at` of `buf` with the
/// little-endian bytes of `n`.
pub(crate) fn write_u32_at(buf: &mut [u8], at: usize, n: u32)
    requires
        at + 4 <= old(buf)@.len(),
    ensures
        final(buf)@ == splice(old(buf)@, at as int, u32_bytes(n)),
{
    let mut word: [u8; 4] = [buf[at], buf[at + 1], buf[at + 2], buf[at + 3]];
    write_u32(&mut word, n);
    buf[at] = word[0];
    buf[at + 1] = word[1];
    buf[at + 2] = word[2];
    buf[at + 3] = word[3];
    assert(buf@ =~= splice(old(buf)@, at as int, u32_bytes(n)));
}

} // verus!
