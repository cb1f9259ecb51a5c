use dynasmrt::aarch64::Aarch64Relocation;
use dynasmrt::relocations::{Relocation, RelocationKind, RelocationSize, SimpleRelocation};
use dynasmrt::riscv::RiscvRelocation;

fn le32(v: u32) -> Vec<u8> {
    v.to_le_bytes().to_vec()
}

fn word(buf: &[u8]) -> u32 {
    u32::from_le_bytes([buf[0], buf[1], buf[2], buf[3]])
}

#[test]
fn simple_relocation_decoding() {
    let r = SimpleRelocation::from_encoding(0x81);
    assert_eq!(r.size(), 2);
    assert!(matches!(r.kind(), RelocationKind::RelToAbs));
    let r = SimpleRelocation::from_encoding(0xC3);
    assert_eq!(r.size(), 8);
    assert!(matches!(r.kind(), RelocationKind::Absolute));
    let r = SimpleRelocation::from_encoding(0x42);
    assert_eq!(r.size(), 4);
    assert!(matches!(r.kind(), RelocationKind::AbsToRel));
    let r = SimpleRelocation::from_size(RelocationKind::Relative, RelocationSize::Byte);
    assert_eq!(r.size(), 1);
    assert!(matches!(r.kind(), RelocationKind::Relative));
    assert_eq!(SimpleRelocation::page_size(), 4096);
}

#[test]
fn simple_relocation_sizes() {
    assert_eq!(RelocationSize::Byte.size(), 1);
    assert_eq!(RelocationSize::Word.size(), 2);
    assert_eq!(RelocationSize::DWord.size(), 4);
    assert_eq!(RelocationSize::QWord.size(), 8);
}

#[test]
fn relative_relocation_limits() {
    // the limits that an 8, 16 and 32-bit relocation accepts
    let mut buf = vec![0xAAu8; 8];
    assert!(RelocationSize::Byte.write_value(&mut buf, 0x80).is_err());
    assert!(RelocationSize::Byte.write_value(&mut buf, -0x81).is_err());
    assert!(RelocationSize::Word.write_value(&mut buf, 0x8000).is_err());
    assert!(RelocationSize::Word.write_value(&mut buf, -0x8001).is_err());
    assert!(RelocationSize::DWord.write_value(&mut buf, 0x8000_0000).is_err());
    assert!(RelocationSize::DWord.write_value(&mut buf, -0x8000_0001).is_err());
    assert_eq!(buf, vec![0xAAu8; 8]);
    assert!(RelocationSize::Byte.write_value(&mut buf, 0x7F).is_ok());
    assert!(RelocationSize::Byte.write_value(&mut buf, -0x80).is_ok());
    assert!(RelocationSize::Word.write_value(&mut buf, -0x8000).is_ok());
    assert!(RelocationSize::DWord.write_value(&mut buf, 0x7FFF_FFFF).is_ok());
}

#[test]
fn simple_relocation_bytes() {
    let mut buf = vec![0xEEu8; 10];
    RelocationSize::DWord.write_value(&mut buf, 0x1122_3344).unwrap();
    assert_eq!(buf, vec![0x44, 0x33, 0x22, 0x11, 0xEE, 0xEE, 0xEE, 0xEE, 0xEE, 0xEE]);
    assert_eq!(RelocationSize::DWord.read_value(&buf), 0x1122_3344);
    RelocationSize::Word.write_value(&mut buf, -2).unwrap();
    assert_eq!(&buf[..4], &[0xFE, 0xFF, 0x22, 0x11]);
    assert_eq!(RelocationSize::Word.read_value(&buf), -2);
    RelocationSize::Byte.write_value(&mut buf, -0x80).unwrap();
    assert_eq!(buf[0], 0x80);
    assert_eq!(RelocationSize::Byte.read_value(&buf), -0x80);
    let r = SimpleRelocation::from_size(RelocationKind::Absolute, RelocationSize::QWord);
    r.write_value(&mut buf, -0x5566_7788_99AA).unwrap();
    assert_eq!(r.read_value(&buf), -0x5566_7788_99AA);
    assert_eq!(&buf[8..], &[0xEE, 0xEE]);
}

#[test]
fn aarch64_branch() {
    let b = Aarch64Relocation::from_encoding(4);
    assert_eq!(b.size(), 4);
    let mut buf = le32(0x9400_0000);
    b.write_value(&mut buf, 8).unwrap();
    assert_eq!(word(&buf), 0x9400_0002);
    assert_eq!(b.read_value(&buf), 8);
    b.write_value(&mut buf, -4).unwrap();
    assert_eq!(word(&buf), 0x97FF_FFFF);
    assert_eq!(b.read_value(&buf), -4);
    // `b .-4` as the assembler emits it
    assert_eq!(b.read_value(&[0xFF, 0xFF, 0xFF, 0x17]), -4);
    assert!(b.write_value(&mut buf, 2).is_err());
    assert!(b.write_value(&mut buf, 0x800_0000).is_err());
    assert!(b.write_value(&mut buf, -0x800_0004).is_err());
    assert_eq!(word(&buf), 0x97FF_FFFF);
    b.write_value(&mut buf, -0x800_0000).unwrap();
    assert_eq!(word(&buf), 0x9600_0000);
    assert_eq!(b.read_value(&buf), -0x800_0000);
    b.write_value(&mut buf, 0x7FF_FFFC).unwrap();
    assert_eq!(b.read_value(&buf), 0x7FF_FFFC);
}

#[test]
fn aarch64_conditional_and_test_branches() {
    let bcond = Aarch64Relocation::from_encoding(5);
    let mut buf = le32(0x5400_0001);
    bcond.write_value(&mut buf, 8).unwrap();
    assert_eq!(word(&buf), 0x5400_0041);
    assert_eq!(bcond.read_value(&buf), 8);
    assert!(bcond.write_value(&mut buf, 6).is_err());
    assert!(bcond.write_value(&mut buf, 0x10_0000).is_err());
    bcond.write_value(&mut buf, -8).unwrap();
    assert_eq!(word(&buf), 0x54FF_FFC1);
    assert_eq!(bcond.read_value(&buf), -8);
    bcond.write_value(&mut buf, -0x10_0000).unwrap();
    assert_eq!(bcond.read_value(&buf), -0x10_0000);

    let tbz = Aarch64Relocation::from_encoding(8);
    let mut buf = le32(0x3600_0000);
    tbz.write_value(&mut buf, 0x7FFC).unwrap();
    assert_eq!(word(&buf), 0x3603_FFE0);
    assert!(tbz.write_value(&mut buf, 0x8000).is_err());
    tbz.write_value(&mut buf, 0x100).unwrap();
    assert_eq!(tbz.read_value(&buf), 0x100);
    tbz.write_value(&mut buf, -4).unwrap();
    assert_eq!(word(&buf), 0x3607_FFE0);
    assert_eq!(tbz.read_value(&buf), -4);
    tbz.write_value(&mut buf, -0x8000).unwrap();
    assert_eq!(tbz.read_value(&buf), -0x8000);
}

#[test]
fn aarch64_address_generation() {
    let adr = Aarch64Relocation::from_encoding(6);
    let mut buf = le32(0x1000_0000);
    adr.write_value(&mut buf, 5).unwrap();
    assert_eq!(word(&buf), 0x3000_0020);
    assert_eq!(adr.read_value(&buf), 5);
    adr.write_value(&mut buf, -1).unwrap();
    assert_eq!(word(&buf), 0x70FF_FFE0);
    assert_eq!(adr.read_value(&buf), -1);
    assert!(adr.write_value(&mut buf, 0x10_0000).is_err());

    let adrp = Aarch64Relocation::from_encoding(0x47);
    assert!(matches!(adrp.kind(), RelocationKind::AbsToRel));
    let mut buf = le32(0x9000_0000);
    adrp.write_value(&mut buf, 0x1000).unwrap();
    assert_eq!(word(&buf), 0xB000_0000);
    assert_eq!(adrp.read_value(&buf), 0x1000);
    // offsets are rounded up to the next page
    adrp.write_value(&mut buf, 1).unwrap();
    assert_eq!(adrp.read_value(&buf), 0x1000);
    adrp.write_value(&mut buf, -0x1_0000_0000).unwrap();
    assert_eq!(adrp.read_value(&buf), -0x1_0000_0000);
    assert!(adrp.write_value(&mut buf, 0xFFFF_F001).is_err());
    assert!(adrp.write_value(&mut buf, isize::MAX).is_err());
}

#[test]
fn aarch64_simple_sizes() {
    let r = Aarch64Relocation::from_size(RelocationKind::Relative, RelocationSize::Word);
    assert_eq!(r.size(), 2);
    let mut buf = vec![0u8; 2];
    r.write_value(&mut buf, 0x1234).unwrap();
    assert_eq!(buf, vec![0x34, 0x12]);
    assert_eq!(Aarch64Relocation::page_size(), 4096);
}

#[test]
fn riscv_branches() {
    let b = RiscvRelocation::from_encoding(4);
    assert_eq!(b.size(), 4);
    let mut buf = le32(0x0000_0063);
    b.write_value(&mut buf, 8).unwrap();
    assert_eq!(word(&buf), 0x0000_0463);
    assert_eq!(b.read_value(&buf), 8);
    b.write_value(&mut buf, -2).unwrap();
    assert_eq!(word(&buf), 0xFE00_0FE3);
    assert_eq!(b.read_value(&buf), -2);
    // `beq x0, x0, -2` as the assembler emits it
    assert_eq!(b.read_value(&[0xE3, 0x0F, 0x00, 0xFE]), -2);
    b.write_value(&mut buf, -0x800).unwrap();
    assert_eq!(b.read_value(&buf), -0x800);
    assert!(b.write_value(&mut buf, 3).is_err());
    assert!(b.write_value(&mut buf, 0x800).is_err());

    let j = RiscvRelocation::from_encoding(5);
    let mut buf = le32(0x0000_006F);
    j.write_value(&mut buf, 2048).unwrap();
    assert_eq!(word(&buf), 0x0010_006F);
    assert_eq!(j.read_value(&buf), 2048);
    assert!(j.write_value(&mut buf, 0x8_0000).is_err());
    j.write_value(&mut buf, -2048).unwrap();
    assert_eq!(word(&buf), 0x801F_F06F);
    assert_eq!(j.read_value(&buf), -2048);
    j.write_value(&mut buf, -0x8_0000).unwrap();
    assert_eq!(j.read_value(&buf), -0x8_0000);
}

#[test]
fn riscv_compressed() {
    let bc = RiscvRelocation::from_encoding(6);
    assert_eq!(bc.size(), 2);
    let mut buf = vec![0x01, 0xC0, 0x99];
    bc.write_value(&mut buf, -2).unwrap();
    assert_eq!(bc.read_value(&buf), -2);
    assert_eq!(buf[2], 0x99);
    assert!(bc.write_value(&mut buf, 0x100).is_err());

    let jc = RiscvRelocation::from_encoding(7);
    let mut buf = vec![0x01, 0xA0];
    jc.write_value(&mut buf, 2046).unwrap();
    assert_eq!(jc.read_value(&buf), 2046);
    jc.write_value(&mut buf, -2048).unwrap();
    assert_eq!(jc.read_value(&buf), -2048);
    assert_eq!(u16::from_le_bytes([buf[0], buf[1]]) & 0xE003, 0xA001);
}

#[test]
fn riscv_upper_and_lower_halves() {
    let hi = RiscvRelocation::from_encoding(8);
    let mut buf = le32(0x0000_0017);
    hi.write_value(&mut buf, 0x1234_5800).unwrap();
    assert_eq!(word(&buf), 0x1234_6017);
    assert_eq!(hi.read_value(&buf), 0x1234_6000);

    let lo = RiscvRelocation::from_encoding(9);
    let mut buf = le32(0x0000_0013);
    lo.write_value(&mut buf, 0x801).unwrap();
    assert_eq!(word(&buf), 0x8010_0013);
    assert_eq!(lo.read_value(&buf), -2047);

    let los = RiscvRelocation::from_encoding(10);
    let mut buf = le32(0x0000_0023);
    los.write_value(&mut buf, 0x7FF).unwrap();
    assert_eq!(word(&buf), 0x7E00_0FA3);
    assert_eq!(los.read_value(&buf), 0x7FF);
    assert!(los.write_value(&mut buf, 0x7FFF_F800).is_err());
    assert!(hi.write_value(&mut le32(0x17), -0x8000_0001).is_err());
    let mut buf = le32(0x0000_0017);
    hi.write_value(&mut buf, -0x8000_0000).unwrap();
    assert_eq!(hi.read_value(&buf), -0x8000_0000);
}

#[test]
fn riscv_split_pairs() {
    let split = RiscvRelocation::from_encoding(11);
    assert_eq!(split.size(), 8);
    let mut buf = le32(0x0000_0017);
    buf.extend(le32(0x0000_0013));
    buf.push(0x55);
    split.write_value(&mut buf, 0x1234_5801).unwrap();
    assert_eq!(word(&buf), 0x1234_6017);
    assert_eq!(word(&buf[4..]), 0x8010_0013);
    assert_eq!(split.read_value(&buf), 0x1234_5801);
    assert_eq!(buf[8], 0x55);
    split.write_value(&mut buf, -0x8000_0000).unwrap();
    assert_eq!(split.read_value(&buf), -0x8000_0000);
    split.write_value(&mut buf, 0x7FFF_F7FF).unwrap();
    assert_eq!(split.read_value(&buf), 0x7FFF_F7FF);
    let before = buf.clone();
    assert!(split.write_value(&mut buf, -0x8000_0001).is_err());
    assert!(split.write_value(&mut buf, -0x8000_0800).is_err());
    assert!(split.write_value(&mut buf, 0x7FFF_F800).is_err());
    assert_eq!(buf, before);

    let splits = RiscvRelocation::from_encoding(12);
    let mut buf = le32(0x0000_0017);
    buf.extend(le32(0x0000_0023));
    splits.write_value(&mut buf, -5).unwrap();
    assert_eq!(splits.read_value(&buf), -5);
    assert_eq!(word(&buf[4..]) & 0x01FF_F07F, 0x23);
}

#[test]
fn relocation_from_size_writes_as_size() {
    let sizes = [RelocationSize::Byte, RelocationSize::Word, RelocationSize::DWord, RelocationSize::QWord];
    let values: [isize; 8] = [0, 1, -1, 0x7F, -0x80, 0x1234, -0x8000_0000, 0x1_0000_0000];
    for size in sizes {
        let a = Aarch64Relocation::from_size(RelocationKind::Absolute, size);
        let r = RiscvRelocation::from_size(RelocationKind::Relative, size);
        let s = SimpleRelocation::from_size(RelocationKind::AbsToRel, size);
        assert_eq!(a.size(), size.size());
        assert_eq!(r.size(), size.size());
        assert_eq!(s.size(), size.size());
        for &v in &values {
            let mut expected = vec![0xA5u8; 10];
            let plain = size.write_value(&mut expected, v).is_ok();
            for which in 0..3 {
                let mut buf = vec![0xA5u8; 10];
                let ok = match which {
                    0 => a.write_value(&mut buf, v).is_ok(),
                    1 => r.write_value(&mut buf, v).is_ok(),
                    _ => s.write_value(&mut buf, v).is_ok(),
                };
                assert_eq!(ok, plain);
                assert_eq!(buf, expected);
                let read = match which {
                    0 => a.read_value(&buf),
                    1 => r.read_value(&buf),
                    _ => s.read_value(&buf),
                };
                assert_eq!(read, size.read_value(&buf));
            }
        }
    }
}

#[test]
fn aarch64_template_bits_kept() {
    let cases: [(u8, isize, u32); 5] = [
        (4, -4, 0xFC00_0000),
        (5, -8, 0xFF00_001F),
        (6, -1, 0x9F00_001F),
        (7, -0x1000, 0x9F00_001F),
        (8, 0x7FFC, 0xFFF8_001F),
    ];
    for (code, value, template) in cases {
        let r = Aarch64Relocation::from_encoding(code);
        let mut buf = le32(0xFFFF_FFFF);
        r.write_value(&mut buf, value).unwrap();
        assert_eq!(word(&buf) & template, template);
        let mut buf = le32(0);
        r.write_value(&mut buf, value).unwrap();
        assert_eq!(word(&buf) & template, 0);
        assert_eq!(r.read_value(&buf), value);
    }
}
