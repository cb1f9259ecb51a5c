use dynasmrt::Register;
use dynasmrt::aarch64;
use dynasmrt::riscv;
use dynasmrt::ast::{RegId, RegFamily, RegKind};

#[test]
fn aarch64_reg_code() {
    assert_eq!(aarch64::RX::X2.code(), 2);
}

#[test]
fn aarch64_reg_code_from() {
    assert_eq!(u8::from(aarch64::RX::X24), 0x18);
}

#[test]
fn riscv_reg_code() {
    assert_eq!(riscv::RX::X2.code(), 2);
}

#[test]
fn riscv_reg_code_from() {
    assert_eq!(u8::from(riscv::RX::X24), 0x18);
}

#[test]
fn register_codes_cover_all_numbers() {
    assert_eq!(aarch64::RX::XZR.code(), 0x1F);
    assert_eq!(aarch64::RXSP::SP.code(), 0x1F);
    assert_eq!(aarch64::RXSP::X0.code(), 0);
    assert_eq!(aarch64::RV::V31.code(), 31);
    assert_eq!(u8::from(aarch64::RV::V7), 7);
    assert_eq!(riscv::RX::X31.code(), 31);
    assert_eq!(riscv::RF::F16.code(), 16);
    assert_eq!(u8::from(riscv::RF::F9), 9);
}

#[test]
fn reg_id_code_and_family() {
    assert_eq!(RegId::X5.code(), 5);
    assert_eq!(RegId::X5.family(), RegFamily::SCALAR);
    assert_eq!(RegId::XZR.code(), 0x1F);
    assert_eq!(RegId::XZR.family(), RegFamily::SCALAR);
    assert_eq!(RegId::SP.code(), 0x1F);
    assert_eq!(RegId::SP.family(), RegFamily::SCALARSP);
    assert_eq!(RegId::V0.code(), 0);
    assert_eq!(RegId::V31.code(), 31);
    assert_eq!(RegId::V17.family(), RegFamily::VECTOR);
}

#[test]
fn reg_kind_static_and_dynamic() {
    let k = RegKind::Static(RegId::V3);
    assert_eq!(k.code(), Some(3));
    assert_eq!(k.encode(), 3);
    assert_eq!(k.family(), RegFamily::VECTOR);
    assert!(!k.is_dynamic());
    assert!(k == RegKind::Static(RegId::V3));
    assert!(k != RegKind::Static(RegId::V4));

    let expr: syn::Expr = syn::parse_str("reg").unwrap();
    let d = RegKind::Dynamic(RegFamily::SCALARSP, expr);
    assert_eq!(d.code(), None);
    assert_eq!(d.encode(), 0);
    assert_eq!(d.family(), RegFamily::SCALARSP);
    assert!(d.is_dynamic());
    // a dynamic register compares equal to nothing, not even itself
    assert!(d != d.clone());
    assert!(d != k);
    assert!(k != d);
}

#[test]
fn ast_debug_output() {
    assert_eq!(format!("{:?}", RegKind::Static(RegId::X1)), "Static(X1)");
    assert_eq!(format!("{:?}", RegFamily::VECTOR), "VECTOR");
    let m = dynasmrt::ast::ModifyExpr::new(dynasmrt::ast::Modifier::LSL, None);
    assert_eq!(m.op, dynasmrt::ast::Modifier::LSL);
    assert!(m.expr.is_none());
    let ident: syn::Ident = syn::parse_str("mov").unwrap();
    let i = dynasmrt::ast::Instruction { span: ident.span(), ident };
    assert_eq!(i.ident.to_string(), "mov");
}
