use sm83_core::cpu::{Cpu, Ctx};
use sm83_core::operand::{Direct8, Direct16, Imm8, Imm16, Indirect, Operand8, Operand16, Reg8,
    Reg16, Step};
use sm83_core::peripherals::{Bootrom, Peripherals};
use sm83_core::registers::Registers;

fn fresh_cpu() -> Cpu {
    Cpu { regs: Registers::default(), ctx: Ctx::default() }
}

#[test]
fn test_io8_read() {
    let a_expected = 0x12;
    let b_expected = 0x34;
    let c_expected = 0x56;
    let d_expected = 0x78;
    let e_expected = 0x9a;
    let h_expected = 0xbc;
    let l_expected = 0xde;

    let mut cpu = fresh_cpu();
    let bootrom = Bootrom::new(vec![0; 256]);
    let peripherals = Peripherals::new(bootrom);
    cpu.regs.a = a_expected;
    cpu.regs.b = b_expected;
    cpu.regs.c = c_expected;
    cpu.regs.d = d_expected;
    cpu.regs.e = e_expected;
    cpu.regs.h = h_expected;
    cpu.regs.l = l_expected;
    assert_eq!(cpu.read8(&peripherals, Operand8::Reg(Reg8::A)), Step::Ready(a_expected));
    assert_eq!(cpu.read8(&peripherals, Operand8::Reg(Reg8::B)), Step::Ready(b_expected));
    assert_eq!(cpu.read8(&peripherals, Operand8::Reg(Reg8::C)), Step::Ready(c_expected));
    assert_eq!(cpu.read8(&peripherals, Operand8::Reg(Reg8::D)), Step::Ready(d_expected));
    assert_eq!(cpu.read8(&peripherals, Operand8::Reg(Reg8::E)), Step::Ready(e_expected));
    assert_eq!(cpu.read8(&peripherals, Operand8::Reg(Reg8::H)), Step::Ready(h_expected));
    assert_eq!(cpu.read8(&peripherals, Operand8::Reg(Reg8::L)), Step::Ready(l_expected));
}

#[test]
fn test_io8_write() {
    let a_expected = 0x21;
    let b_expected = 0x43;
    let c_expected = 0x65;
    let d_expected = 0x87;
    let e_expected = 0xa9;
    let h_expected = 0xcb;
    let l_expected = 0xed;

    let mut cpu = fresh_cpu();
    let bootrom = Bootrom::new(vec![0; 256]);
    let mut peripherals = Peripherals::new(bootrom);
    let _ = cpu.write8(&mut peripherals, Operand8::Reg(Reg8::A), a_expected);
    let _ = cpu.write8(&mut peripherals, Operand8::Reg(Reg8::B), b_expected);
    let _ = cpu.write8(&mut peripherals, Operand8::Reg(Reg8::C), c_expected);
    let _ = cpu.write8(&mut peripherals, Operand8::Reg(Reg8::D), d_expected);
    let _ = cpu.write8(&mut peripherals, Operand8::Reg(Reg8::E), e_expected);
    let _ = cpu.write8(&mut peripherals, Operand8::Reg(Reg8::H), h_expected);
    let _ = cpu.write8(&mut peripherals, Operand8::Reg(Reg8::L), l_expected);
    assert_eq!(cpu.regs.a, a_expected);
    assert_eq!(cpu.regs.b, b_expected);
    assert_eq!(cpu.regs.c, c_expected);
    assert_eq!(cpu.regs.d, d_expected);
    assert_eq!(cpu.regs.e, e_expected);
    assert_eq!(cpu.regs.h, h_expected);
    assert_eq!(cpu.regs.l, l_expected);
}

#[test]
fn test_io8_read_imm() {
    let val_expected = 0x6c;
    let mut cpu = fresh_cpu();
    let mut bootrom_data = vec![0; 256];
    bootrom_data[0] = val_expected;
    let bootrom = Bootrom::new(bootrom_data);
    let peripherals = Peripherals::new(bootrom);
    cpu.regs.pc = 0;
    assert_eq!(cpu.read8(&peripherals, Operand8::Imm(Imm8)), Step::Ready(val_expected));
    assert_eq!(cpu.regs.pc, 1);
}

#[test]
fn test_io8_read_indirect() {
    let addr = 0xc4a6;
    let val_expected = 0x3d;
    let mut cpu = fresh_cpu();
    let bootrom = Bootrom::new(vec![0; 256]);
    let mut peripherals = Peripherals::new(bootrom);
    peripherals.write(addr, val_expected);
    cpu.regs.write_hl(addr);
    assert_eq!(cpu.read8(&peripherals, Operand8::Ind(Indirect::HL)), Step::Ready(val_expected));
}

#[test]
fn test_io8_write_indirect() {
    let addr = 0xd2b1;
    let val_expected = 0x7e;
    let mut cpu = fresh_cpu();
    let bootrom = Bootrom::new(vec![0; 256]);
    let mut peripherals = Peripherals::new(bootrom);
    cpu.regs.write_hl(addr);
    assert_eq!(
        cpu.write8(&mut peripherals, Operand8::Ind(Indirect::HL), val_expected),
        Step::Ready(())
    );
    assert_eq!(peripherals.read(addr), val_expected);
}

#[test]
fn test_io8_read_direct() {
    let lo = 0x2a;
    let addr = u16::from_le_bytes([lo, 0]);
    let val_expected = 0x99;
    let mut cpu = fresh_cpu();
    let mut bootrom_data = vec![0; 256];
    bootrom_data[0] = lo;
    bootrom_data[1] = 0;
    bootrom_data[addr as usize] = val_expected;
    let bootrom = Bootrom::new(bootrom_data);
    let peripherals = Peripherals::new(bootrom);
    cpu.regs.pc = 0;
    assert_eq!(cpu.read8(&peripherals, Operand8::Dir(Direct8::D)), Step::Pending);
    assert_eq!(cpu.read8(&peripherals, Operand8::Dir(Direct8::D)), Step::Pending);
    assert_eq!(cpu.read8(&peripherals, Operand8::Dir(Direct8::D)), Step::Ready(val_expected));
    assert_eq!(cpu.regs.pc, 2);
}

#[test]
fn test_io8_write_direct() {
    let lo = 0x4b;
    let addr = u16::from_le_bytes([lo, 0xc0]);
    let val_expected = 0xe5;
    let mut cpu = fresh_cpu();
    let mut bootrom_data = vec![0; 256];
    bootrom_data[0] = lo;
    bootrom_data[1] = 0xc0;
    let bootrom = Bootrom::new(bootrom_data);
    let mut peripherals = Peripherals::new(bootrom);
    cpu.regs.pc = 0;
    assert_eq!(cpu.write8(&mut peripherals, Operand8::Dir(Direct8::D), val_expected), Step::Pending);
    assert_eq!(cpu.write8(&mut peripherals, Operand8::Dir(Direct8::D), val_expected), Step::Pending);
    assert_eq!(
        cpu.write8(&mut peripherals, Operand8::Dir(Direct8::D), val_expected),
        Step::Ready(())
    );
    assert_eq!(cpu.regs.pc, 2);
    assert_eq!(peripherals.read(addr), val_expected);
}

#[test]
fn test_io16_read() {
    let af_expected = 0x1b2c;
    let bc_expected = 0x3d4e;
    let de_expected = 0x5f60;
    let hl_expected = 0x7182;
    let sp_expected = 0x93a4;
    let mut cpu = fresh_cpu();
    let bootrom = Bootrom::new(vec![0; 256]);
    let peripherals = Peripherals::new(bootrom);
    cpu.regs.write_af(af_expected);
    cpu.regs.write_bc(bc_expected);
    cpu.regs.write_de(de_expected);
    cpu.regs.write_hl(hl_expected);
    cpu.regs.sp = sp_expected;
    assert_eq!(
        cpu.read16(&peripherals, Operand16::Reg(Reg16::AF)),
        Step::Ready(af_expected & 0xfff0)
    );
    assert_eq!(cpu.read16(&peripherals, Operand16::Reg(Reg16::BC)), Step::Ready(bc_expected));
    assert_eq!(cpu.read16(&peripherals, Operand16::Reg(Reg16::DE)), Step::Ready(de_expected));
    assert_eq!(cpu.read16(&peripherals, Operand16::Reg(Reg16::HL)), Step::Ready(hl_expected));
    assert_eq!(cpu.read16(&peripherals, Operand16::Reg(Reg16::SP)), Step::Ready(sp_expected));
}

#[test]
fn test_io16_write() {
    let af_expected = 0xb5c6;
    let bc_expected = 0xd7e8;
    let de_expected = 0xf90a;
    let hl_expected = 0x1b2c;
    let sp_expected = 0x3d4e;
    let mut cpu = fresh_cpu();
    let bootrom = Bootrom::new(vec![0; 256]);
    let mut peripherals = Peripherals::new(bootrom);
    let _ = cpu.write16(&mut peripherals, Operand16::Reg(Reg16::AF), af_expected);
    let _ = cpu.write16(&mut peripherals, Operand16::Reg(Reg16::BC), bc_expected);
    let _ = cpu.write16(&mut peripherals, Operand16::Reg(Reg16::DE), de_expected);
    let _ = cpu.write16(&mut peripherals, Operand16::Reg(Reg16::HL), hl_expected);
    let _ = cpu.write16(&mut peripherals, Operand16::Reg(Reg16::SP), sp_expected);
    assert_eq!(cpu.regs.af(), af_expected & 0xfff0);
    assert_eq!(cpu.regs.bc(), bc_expected);
    assert_eq!(cpu.regs.de(), de_expected);
    assert_eq!(cpu.regs.hl(), hl_expected);
    assert_eq!(cpu.regs.sp, sp_expected);
}

#[test]
fn test_io16_read_imm() {
    let lo = 0x7d;
    let hi = 0x8e;
    let val_expected = u16::from_le_bytes([lo, hi]);
    let mut cpu = fresh_cpu();
    let mut bootrom_data = vec![0; 256];
    bootrom_data[0] = lo;
    bootrom_data[1] = hi;
    let bootrom = Bootrom::new(bootrom_data);
    let peripherals = Peripherals::new(bootrom);
    cpu.regs.pc = 0;
    assert_eq!(cpu.read16(&peripherals, Operand16::Imm(Imm16)), Step::Pending);
    assert_eq!(cpu.read16(&peripherals, Operand16::Imm(Imm16)), Step::Ready(val_expected));
    assert_eq!(cpu.regs.pc, 2);
}

#[test]
fn test_io16_write_direct() {
    let lo = 0x15;
    let hi = 0xc0;
    let val_expected = 0xa1b2;
    let mut cpu = fresh_cpu();
    let mut bootrom_data = vec![0; 256];
    bootrom_data[0] = lo;
    bootrom_data[1] = hi;
    let bootrom = Bootrom::new(bootrom_data);
    let mut peripherals = Peripherals::new(bootrom);
    cpu.regs.pc = 0;
    assert_eq!(
        cpu.write16(&mut peripherals, Operand16::Dir(Direct16), val_expected),
        Step::Pending
    );
    assert_eq!(
        cpu.write16(&mut peripherals, Operand16::Dir(Direct16), val_expected),
        Step::Pending
    );
    assert_eq!(
        cpu.write16(&mut peripherals, Operand16::Dir(Direct16), val_expected),
        Step::Pending
    );
    assert_eq!(
        cpu.write16(&mut peripherals, Operand16::Dir(Direct16), val_expected),
        Step::Ready(())
    );
    assert_eq!(cpu.regs.pc, 2);
    assert_eq!(peripherals.read(0xc015), 0xb2);
    assert_eq!(peripherals.read(0xc016), 0xa1);
}
