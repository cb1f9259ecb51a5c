use dynasmrt::aarch64::{encode_logical_immediate_32bit, encode_logical_immediate_64bit};

/// ARM's DecodeBitMasks for the 13-bit field `N:immr:imms`, giving the
/// 64-bit pattern, or None for a reserved field.
fn decode(n: u64, immr: u64, imms: u64) -> Option<u64> {
    let combined = (n << 6) | (!imms & 0x3F);
    if combined == 0 {
        return None;
    }
    let len = 63 - combined.leading_zeros() as u64;
    if len < 1 {
        return None;
    }
    let esize = 1u64 << len;
    let levels = esize - 1;
    let s = imms & levels;
    let r = immr & levels;
    if s == levels {
        return None;
    }
    let welem: u64 = (1u64 << (s + 1)) - 1;
    let mask = if esize == 64 { u64::MAX } else { (1u64 << esize) - 1 };
    let elem = if r == 0 { welem } else { ((welem >> r) | (welem << (esize - r))) & mask };
    let mut out = 0u64;
    let mut i = 0;
    while i < 64 {
        out |= elem << i;
        i += esize;
    }
    Some(out)
}

#[test]
fn logical_32_known_values() {
    assert_eq!(encode_logical_immediate_32bit(0x0000_FFFF), Some(0x00F));
    assert_eq!(encode_logical_immediate_32bit(0x5555_5555), Some(0x03C));
    assert_eq!(encode_logical_immediate_32bit(0xF000_000F), Some(0x107));
    assert_eq!(encode_logical_immediate_32bit(0x8000_0000), Some(0x040));
    assert_eq!(encode_logical_immediate_32bit(0), None);
    assert_eq!(encode_logical_immediate_32bit(0xFFFF_FFFF), None);
    assert_eq!(encode_logical_immediate_32bit(0x1234_5678), None);
    assert_eq!(encode_logical_immediate_32bit(0x0000_0005), None);
}

#[test]
fn logical_64_known_values() {
    assert_eq!(encode_logical_immediate_64bit(0x00FF_00FF_00FF_00FF), Some(0x027));
    assert_eq!(encode_logical_immediate_64bit(0x0000_0000_FFFF_FFFF), Some(0x101F));
    assert_eq!(encode_logical_immediate_64bit(0x8000_0000_0000_0000), Some(0x1040));
    assert_eq!(encode_logical_immediate_64bit(0x5555_5555_5555_5555), Some(0x03C));
    assert_eq!(encode_logical_immediate_64bit(0), None);
    assert_eq!(encode_logical_immediate_64bit(u64::MAX), None);
    assert_eq!(encode_logical_immediate_64bit(0x1234_5678_9ABC_DEF0), None);
}

#[test]
fn logical_32_every_field_round_trips() {
    for field in 0u64..0x1000 {
        let immr = (field >> 6) & 0x3F;
        let imms = field & 0x3F;
        if let Some(pattern) = decode(0, immr, imms) {
            let value = pattern as u32;
            let enc = encode_logical_immediate_32bit(value).expect("every bitmask immediate encodes");
            let e = enc as u64;
            assert!(e < 0x1000);
            assert_eq!(decode(0, (e >> 6) & 0x3F, e & 0x3F).map(|p| p as u32), Some(value));
        }
    }
}

#[test]
fn logical_64_every_field_round_trips() {
    for field in 0u64..0x2000 {
        let n = field >> 12;
        let immr = (field >> 6) & 0x3F;
        let imms = field & 0x3F;
        if let Some(value) = decode(n, immr, imms) {
            let enc = encode_logical_immediate_64bit(value).expect("every bitmask immediate encodes");
            let e = enc as u64;
            assert!(e < 0x2000);
            assert_eq!(decode(e >> 12, (e >> 6) & 0x3F, e & 0x3F), Some(value));
        }
    }
}

#[test]
fn logical_rejects_non_patterns() {
    let mut x: u64 = 0x9E37_79B9_7F4A_7C15;
    for _ in 0..2000 {
        x ^= x << 13;
        x ^= x >> 7;
        x ^= x << 17;
        let v = x;
        let decodable = (0u64..0x2000).any(|f| decode(f >> 12, (f >> 6) & 0x3F, f & 0x3F) == Some(v));
        assert_eq!(encode_logical_immediate_64bit(v).is_some(), decodable);
    }
}

#[test]
fn logical_64_of_doubled_word_matches_32() {
    let doubled = |v: u32| (v as u64) | ((v as u64) << 32);
    for &v in &[0x0000_FFFFu32, 0x5555_5555, 0xF000_000F, 0x8000_0000, 0x00FF_00FF, 0, 0xFFFF_FFFF, 0x1234_5678] {
        assert_eq!(encode_logical_immediate_64bit(doubled(v)), encode_logical_immediate_32bit(v));
    }
    assert_eq!(encode_logical_immediate_64bit(0x00FF_00FF_00FF_00FF), Some(0x027));
    assert_eq!(encode_logical_immediate_32bit(0x00FF_00FF), Some(0x027));
    let mut x: u32 = 0x7F4A_7C15;
    for _ in 0..4000 {
        x ^= x << 13;
        x ^= x >> 17;
        x ^= x << 5;
        let v = x & (x >> 3);
        assert_eq!(encode_logical_immediate_64bit(doubled(v)), encode_logical_immediate_32bit(v));
    }
    for field in 0u64..0x1000 {
        if let Some(pattern) = decode(0, (field >> 6) & 0x3F, field & 0x3F) {
            let v = pattern as u32;
            assert_eq!(encode_logical_immediate_64bit(doubled(v)), encode_logical_immediate_32bit(v));
        }
    }
}
