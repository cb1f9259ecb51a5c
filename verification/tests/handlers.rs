use dynasmrt::aarch64;
use dynasmrt::riscv;

#[test]
fn aarch64_immediate_messages() {
    assert_eq!(
        aarch64::immediate_out_of_range_unsigned_64(18446744073709551615),
        "Cannot assemble this Aarch64 instruction. Immediate 18446744073709551615 is out of range."
    );
    assert_eq!(
        aarch64::immediate_out_of_range_unsigned_32(0),
        "Cannot assemble this Aarch64 instruction. Immediate 0 is out of range."
    );
    assert_eq!(
        aarch64::immediate_out_of_range_signed_32(-2147483648),
        "Cannot assemble this Aarch64 instruction. Immediate -2147483648 is out of range."
    );
}

#[test]
fn riscv_immediate_messages() {
    assert_eq!(
        riscv::immediate_out_of_range_unsigned_32(4096),
        "Cannot assemble this RISC-V instruction. Immediate 4096 is out of range."
    );
    assert_eq!(
        riscv::immediate_out_of_range_signed_32(-7),
        "Cannot assemble this RISC-V instruction. Immediate -7 is out of range."
    );
    assert_eq!(
        riscv::immediate_out_of_range_unsigned_64(10),
        "Cannot assemble this RISC-V instruction. Immediate 10 is out of range."
    );
    assert_eq!(
        riscv::immediate_out_of_range_signed_64(-9223372036854775808),
        "Cannot assemble this RISC-V instruction. Immediate -9223372036854775808 is out of range."
    );
    assert_eq!(
        riscv::invalid_register(32),
        "Cannot assemble this RISC-V instruction. Register x32 cannot be encoded."
    );
}

#[test]
fn messages_match_std_formatting() {
    for v in [0u64, 1, 9, 10, 99, 100, 12345, u32::MAX as u64, u64::MAX] {
        assert_eq!(
            aarch64::immediate_out_of_range_unsigned_64(v),
            format!("Cannot assemble this Aarch64 instruction. Immediate {v} is out of range.")
        );
    }
    for v in [i64::MIN, -1000, -1, 0, 1, 1000, i64::MAX] {
        assert_eq!(
            riscv::immediate_out_of_range_signed_64(v),
            format!("Cannot assemble this RISC-V instruction. Immediate {v} is out of range.")
        );
    }
}

#[test]
fn floating_point_immediates() {
    assert_eq!(aarch64::encode_floating_point_immediate_bits(1.0f32.to_bits()), Some(0x70));
    assert_eq!(aarch64::encode_floating_point_immediate_bits(2.0f32.to_bits()), Some(0x00));
    assert_eq!(aarch64::encode_floating_point_immediate_bits((-0.5f32).to_bits()), Some(0xE0));
    assert_eq!(aarch64::encode_floating_point_immediate_bits(31.0f32.to_bits()), Some(0x3F));
    assert_eq!(aarch64::encode_floating_point_immediate_bits(0.0f32.to_bits()), None);
    assert_eq!(aarch64::encode_floating_point_immediate_bits(0.1f32.to_bits()), None);
    assert_eq!(aarch64::encode_floating_point_immediate_bits(64.0f32.to_bits()), None);
}
