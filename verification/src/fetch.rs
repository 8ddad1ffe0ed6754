//! The fetch step: latch the next opcode byte and advance the program
//! counter.

use vstd::prelude::*;
use crate::cpu::{Cpu, Ctx};
use crate::peripherals::{BusView, Peripherals};
use crate::registers::Registers;

verus! {

/// The state after a fetch tick: the byte at PC is latched as the next
/// opcode, PC moves past it, and the extended-table flag is cleared.
pub open spec fn fetch_tr(cpu: Cpu, bus: BusView) -> Cpu {
    Cpu {
        regs: Registers { pc: cpu.regs.pc.wrapping_add(1), ..cpu.regs },
        ctx: Ctx { opcode: bus.read_at(cpu.regs.pc), cb: false, ..cpu.ctx },
    }
}

impl Cpu {
    /// Read the opcode at PC, advance PC by one, clear the CB-prefix flag.
    pub fn fetch(&mut self, bus: &Peripherals)
        requires
            bus.wf(),
        ensures
            *final(self) == fetch_tr(*old(self), bus@),
    {
        self.ctx.opcode = bus.read(self.regs.pc);
        self.regs.pc = self.regs.pc.wrapping_add(1);
        self.ctx.cb = false;
    }
}

} // verus!
