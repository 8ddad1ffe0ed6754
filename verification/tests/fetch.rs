use sm83_core::cpu::{Cpu, Ctx};
use sm83_core::peripherals::{Bootrom, Peripherals};
use sm83_core::registers::Registers;

#[test]
fn test_fetch() {
    let mut cpu = Cpu { regs: Registers::default(), ctx: Ctx::default() };
    let bootrom = Bootrom::new(vec![0; 256]);
    let mut peripherals = Peripherals::new(bootrom);

    cpu.regs.pc = 0xc000;
    peripherals.write(0xc000, 42);

    cpu.fetch(&peripherals);

    assert_eq!(cpu.ctx.opcode, 42);
    assert_eq!(cpu.regs.pc, 0xc001);
    assert_eq!(cpu.ctx.cb, false);
}
