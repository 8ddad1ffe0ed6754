use sm83_core::cpu::{Cpu, Ctx};
use sm83_core::decode::Fault;
use sm83_core::operand::{Cond, Direct8, Imm8, Indirect, Operand8, Reg8, Step};
use sm83_core::peripherals::{Bootrom, Peripherals};
use sm83_core::registers::Registers;

fn fresh_cpu() -> Cpu {
    Cpu { regs: Registers::default(), ctx: Ctx::default() }
}

fn ram_machine() -> (Cpu, Peripherals) {
    let bootrom = Bootrom::new(vec![0; 256]);
    (fresh_cpu(), Peripherals::new(bootrom))
}

#[test]
fn test_fault_reports_opcode() {
    let (mut cpu, mut peripherals) = ram_machine();
    cpu.regs.pc = 0xc000;
    peripherals.write(0xc000, 0xf3);
    cpu.fetch(&peripherals);
    let pc_before = cpu.regs.pc;
    let r = cpu.decode(&mut peripherals);
    assert_eq!(r, Err(Fault { opcode: 0xf3, cb: false }));
    assert_eq!(cpu.regs.pc, pc_before);
    let again = cpu.decode(&mut peripherals);
    assert_eq!(again, Err(Fault { opcode: 0xf3, cb: false }));
    assert_eq!(cpu.regs.pc, pc_before);
}

#[test]
fn test_nop_end_to_end() {
    let (mut cpu, mut peripherals) = ram_machine();
    cpu.regs.pc = 0xc000;
    peripherals.write(0xc000, 0x00);
    peripherals.write(0xc001, 0x57);
    cpu.fetch(&peripherals);
    assert_eq!(cpu.ctx.opcode, 0x00);
    let r = cpu.decode(&mut peripherals);
    assert_eq!(r, Ok(()));
    // The NOP consumed exactly its own byte: the next opcode comes from
    // the byte right after it, and nothing was written to the bus.
    assert_eq!(cpu.ctx.opcode, 0x57);
    assert_eq!(cpu.regs.pc, 0xc002);
    assert_eq!(peripherals.read(0xc000), 0x00);
    assert_eq!(peripherals.read(0xc001), 0x57);
}

#[test]
fn test_ld16_bc_end_to_end() {
    let (mut cpu, mut peripherals) = ram_machine();
    cpu.regs.pc = 0xc000;
    peripherals.write(0xc000, 0x01);
    peripherals.write(0xc001, 0x34);
    peripherals.write(0xc002, 0x12);
    cpu.fetch(&peripherals);
    for _ in 0..3 {
        let _ = cpu.decode(&mut peripherals);
    }
    // Three M-cycles after the fetch the word is in BC and the next
    // opcode has been fetched from 0xc003: the instruction advanced PC
    // by exactly its three bytes.
    assert_eq!(cpu.regs.bc(), 0x1234);
    assert_eq!(cpu.regs.pc, 0xc004);
}

#[test]
fn test_rl_nine_rotations() {
    let (mut cpu, mut peripherals) = ram_machine();
    cpu.regs.pc = 0;
    cpu.regs.b = 0x01;
    cpu.regs.set_cf(false);

    for _ in 0..8 {
        cpu.rl(&mut peripherals, Operand8::Reg(Reg8::B));
        cpu.rl(&mut peripherals, Operand8::Reg(Reg8::B));
    }
    // After eight rotations the set bit sits in the carry: byte and
    // carry form a nine-bit ring, so eight steps do not close it.
    assert_eq!(cpu.regs.b, 0x00);
    assert!(cpu.regs.cf());

    cpu.rl(&mut peripherals, Operand8::Reg(Reg8::B));
    cpu.rl(&mut peripherals, Operand8::Reg(Reg8::B));
    // The ninth rotation restores the original byte and carry.
    assert_eq!(cpu.regs.b, 0x01);
    assert!(!cpu.regs.cf());
}

#[test]
fn test_inc_dec_roundtrip() {
    let (mut cpu, mut peripherals) = ram_machine();
    cpu.regs.pc = 0;
    cpu.regs.a = 0xa7;
    cpu.inc(&mut peripherals, Operand8::Reg(Reg8::A));
    cpu.inc(&mut peripherals, Operand8::Reg(Reg8::A));
    assert_eq!(cpu.regs.a, 0xa8);
    cpu.dec(&mut peripherals, Operand8::Reg(Reg8::A));
    cpu.dec(&mut peripherals, Operand8::Reg(Reg8::A));
    assert_eq!(cpu.regs.a, 0xa7);
}

#[test]
fn test_dec_wraps_and_sets_half_carry() {
    let (mut cpu, mut peripherals) = ram_machine();
    cpu.regs.pc = 0;
    cpu.regs.a = 0x00;
    cpu.dec(&mut peripherals, Operand8::Reg(Reg8::A));
    cpu.dec(&mut peripherals, Operand8::Reg(Reg8::A));
    assert_eq!(cpu.regs.a, 0xff);
    assert!(cpu.regs.hf());
    assert!(!cpu.regs.zf());
}

#[test]
fn test_cp_exact_flag_byte() {
    let (mut cpu, peripherals) = ram_machine();
    // Bootrom filled with zero: CP 0x00 against A = 0x50.
    cpu.regs.pc = 0;
    cpu.regs.a = 0x50;
    cpu.cp(&peripherals, Operand8::Imm(Imm8));
    cpu.cp(&peripherals, Operand8::Imm(Imm8));
    // 0x50 - 0x00: not zero, subtract set, no borrows: F = 0x40.
    assert_eq!(cpu.regs.f, 0x40);
}

#[test]
fn test_jr_not_taken_consumes_offset() {
    let (mut cpu, mut peripherals) = ram_machine();
    cpu.regs.pc = 0xc000;
    peripherals.write(0xc000, 0x05);
    cpu.regs.set_zf(true);
    cpu.jr_c(&mut peripherals, Cond::NZ);
    assert_eq!(cpu.regs.pc, 0xc001);
    // The second tick sees the failed condition and fetches at once:
    // no additional jump tick is spent.
    cpu.jr_c(&mut peripherals, Cond::NZ);
    assert_eq!(cpu.ctx.step, 0);
    assert_eq!(cpu.regs.pc, 0xc002);
}

#[test]
fn test_jr_taken_negative_offset() {
    let (mut cpu, mut peripherals) = ram_machine();
    cpu.regs.pc = 0xc010;
    peripherals.write(0xc010, 0xfb); // -5
    cpu.regs.set_zf(false);
    cpu.jr_c(&mut peripherals, Cond::NZ);
    assert_eq!(cpu.ctx.step, 1);
    assert_eq!(cpu.regs.pc, 0xc011);
    cpu.jr_c(&mut peripherals, Cond::NZ);
    // The extra jump tick applies the signed displacement: 0xc011 - 5.
    assert_eq!(cpu.regs.pc, 0xc00c);
    cpu.jr_c(&mut peripherals, Cond::NZ);
    // The fetch advances past the opcode at the jump target.
    assert_eq!(cpu.regs.pc, 0xc00d);
}

#[test]
fn test_read_hli_steps_hl_up() {
    let (mut cpu, mut peripherals) = ram_machine();
    peripherals.write(0xc020, 0x77);
    cpu.regs.write_hl(0xc020);
    let r = cpu.read8(&peripherals, Operand8::Ind(Indirect::HLI));
    assert_eq!(r, Step::Ready(0x77));
    assert_eq!(cpu.regs.hl(), 0xc021);
}

#[test]
fn test_read_hld_steps_hl_down() {
    let (mut cpu, mut peripherals) = ram_machine();
    peripherals.write(0xc020, 0x66);
    cpu.regs.write_hl(0xc020);
    let r = cpu.read8(&peripherals, Operand8::Ind(Indirect::HLD));
    assert_eq!(r, Step::Ready(0x66));
    assert_eq!(cpu.regs.hl(), 0xc01f);
}

#[test]
fn test_high_page_indirect() {
    let (mut cpu, mut peripherals) = ram_machine();
    peripherals.write(0xff85, 0x9c);
    cpu.regs.c = 0x85;
    let r = cpu.read8(&peripherals, Operand8::Ind(Indirect::CFF));
    assert_eq!(r, Step::Ready(0x9c));
}

#[test]
fn test_high_page_direct() {
    let mut cpu = fresh_cpu();
    let mut bootrom_data = vec![0u8; 256];
    bootrom_data[0] = 0x85;
    let bootrom = Bootrom::new(bootrom_data);
    let mut peripherals = Peripherals::new(bootrom);
    peripherals.write(0xff85, 0x5e);
    cpu.regs.pc = 0;
    assert_eq!(cpu.read8(&peripherals, Operand8::Dir(Direct8::DFE)), Step::Pending);
    assert_eq!(cpu.read8(&peripherals, Operand8::Dir(Direct8::DFE)), Step::Ready(0x5e));
    assert_eq!(cpu.regs.pc, 1);
}

#[test]
fn test_direct8_write_touches_one_cell() {
    let mut cpu = fresh_cpu();
    let mut bootrom_data = vec![0u8; 256];
    bootrom_data[0] = 0x50;
    bootrom_data[1] = 0xc0;
    let bootrom = Bootrom::new(bootrom_data);
    let mut peripherals = Peripherals::new(bootrom);
    peripherals.write(0xc051, 0x11);
    cpu.regs.pc = 0;
    for _ in 0..3 {
        let _ = cpu.write8(&mut peripherals, Operand8::Dir(Direct8::D), 0x77);
    }
    assert_eq!(peripherals.read(0xc050), 0x77);
    // The cell after the target keeps its contents: one address, one write.
    assert_eq!(peripherals.read(0xc051), 0x11);
}

#[test]
fn test_wram_echo() {
    let (_cpu, mut peripherals) = ram_machine();
    peripherals.write(0xc123, 0x42);
    assert_eq!(peripherals.read(0xe123), 0x42);
    peripherals.write(0xe123, 0x24);
    assert_eq!(peripherals.read(0xc123), 0x24);
}

#[test]
fn test_boot_disable_latch() {
    let mut bootrom_data = vec![0u8; 256];
    bootrom_data[0x10] = 0xab;
    let bootrom = Bootrom::new(bootrom_data);
    let mut peripherals = Peripherals::new(bootrom);
    assert_eq!(peripherals.read(0x0010), 0xab);
    peripherals.write(0xff50, 1);
    // With the overlay retired, the boot page reads as unmapped.
    assert_eq!(peripherals.read(0x0010), 0xff);
}

#[test]
fn test_push16_reconstructs_scenario() {
    let (mut cpu, mut peripherals) = ram_machine();
    cpu.regs.sp = 0xc100;
    let _ = cpu.push16(&mut peripherals, 0xbeef);
    let _ = cpu.push16(&mut peripherals, 0xbeef);
    let _ = cpu.push16(&mut peripherals, 0xbeef);
    let r = cpu.push16(&mut peripherals, 0xbeef);
    assert_eq!(r, Step::Ready(()));
    assert_eq!(cpu.regs.sp, 0xc0fe);
    assert_eq!(peripherals.read(0xc0fe), 0xef);
    assert_eq!(peripherals.read(0xc0ff), 0xbe);
}

#[test]
fn test_unmapped_reads_and_writes() {
    let (_cpu, mut peripherals) = ram_machine();
    assert_eq!(peripherals.read(0x8000), 0xff);
    peripherals.write(0x8000, 0x12);
    assert_eq!(peripherals.read(0x8000), 0xff);
}
