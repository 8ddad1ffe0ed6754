use sm83_core::registers::Registers;

#[test]
fn test_af() {
    let mut regs = Registers::default();
    regs.a = 0x5a;
    regs.f = 0xa5;
    assert_eq!(regs.af(), 0x5aa5);
    regs.write_af(0x5aa5);
    assert_eq!(regs.a, 0x5a);
    assert_eq!(regs.f, 0xa0);
}

#[test]
fn test_bc() {
    let mut regs = Registers::default();
    regs.b = 0x5a;
    regs.c = 0xa5;
    assert_eq!(regs.bc(), 0x5aa5);
    regs.write_bc(0x5aa5);
    assert_eq!(regs.b, 0x5a);
    assert_eq!(regs.c, 0xa5);
}

#[test]
fn test_de() {
    let mut regs = Registers::default();
    regs.d = 0x5a;
    regs.e = 0xa5;
    assert_eq!(regs.de(), 0x5aa5);
    regs.write_de(0x5aa5);
    assert_eq!(regs.d, 0x5a);
    assert_eq!(regs.e, 0xa5);
}

#[test]
fn test_hl() {
    let mut regs = Registers::default();
    regs.h = 0x5a;
    regs.l = 0xa5;
    assert_eq!(regs.hl(), 0x5aa5);
    regs.write_hl(0x5aa5);
    assert_eq!(regs.h, 0x5a);
    assert_eq!(regs.l, 0xa5);
}

#[test]
fn test_zf() {
    let mut regs = Registers::default();
    regs.f = 0b_1000_0000;
    assert!(regs.zf());
    regs.set_zf(false);
    assert!(!regs.zf());
    regs.set_zf(true);
    assert!(regs.zf());
}

#[test]
fn test_nf() {
    let mut regs = Registers::default();
    regs.f = 0b_0100_0000;
    assert!(regs.nf());
    regs.set_nf(false);
    assert!(!regs.nf());
    regs.set_nf(true);
    assert!(regs.nf());
}

#[test]
fn test_hf() {
    let mut regs = Registers::default();
    regs.f = 0b_0010_0000;
    assert!(regs.hf());
    regs.set_hf(false);
    assert!(!regs.hf());
    regs.set_hf(true);
    assert!(regs.hf());
}

#[test]
fn test_cf() {
    let mut regs = Registers::default();
    regs.f = 0b_0001_0000;
    assert!(regs.cf());
    regs.set_cf(false);
    assert!(!regs.cf());
    regs.set_cf(true);
    assert!(regs.cf());
}
