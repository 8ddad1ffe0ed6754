//! The decode step: dispatch the latched opcode to its handler and drive
//! one tick of it.  An opcode outside the implemented table is a fatal
//! decode fault, reported as a value so the host can say which opcode
//! stopped the machine.

use vstd::prelude::*;
use crate::cpu::{Cpu, Ctx};
use crate::instructions::{jr_c_tr, jr_req, ld16_tr, ld16_req};
use crate::fetch::fetch_tr;
use crate::operand::{Cond, Imm16, Operand16, Reg16};
use crate::peripherals::{BusView, Peripherals};

verus! {

/// The latched pair that no handler matched: a fatal decode failure,
/// never retried.
#[derive(Clone, Copy, Debug, PartialEq, Eq)]
pub struct Fault {
    pub opcode: u8,
    pub cb: bool,
}

/// Is the latched opcode in the implemented table?
pub open spec fn opcode_implemented(opcode: u8) -> bool {
    opcode == 0x00 || opcode == 0x20 || opcode == 0x30 || opcode == 0x01 || opcode == 0x11
        || opcode == 0x21 || opcode == 0x31
}

/// One tick of the dispatched instruction, or a fault that leaves the
/// machine untouched.
pub open spec fn decode_tr(cpu: Cpu, bus: BusView) -> (Cpu, BusView, Result<(), Fault>) {
    match cpu.ctx.opcode {
        0x00u8 => (fetch_tr(cpu, bus), bus, Ok(())),
        0x20u8 => (jr_c_tr(cpu, bus, Cond::NZ), bus, Ok(())),
        0x30u8 => (jr_c_tr(cpu, bus, Cond::NC), bus, Ok(())),
        0x01u8 => {
            let (c1, b1) = ld16_tr(cpu, bus, Operand16::Reg(Reg16::BC), Operand16::Imm(Imm16));
            (c1, b1, Ok(()))
        },
        0x11u8 => {
            let (c1, b1) = ld16_tr(cpu, bus, Operand16::Reg(Reg16::DE), Operand16::Imm(Imm16));
            (c1, b1, Ok(()))
        },
        0x21u8 => {
            let (c1, b1) = ld16_tr(cpu, bus, Operand16::Reg(Reg16::HL), Operand16::Imm(Imm16));
            (c1, b1, Ok(()))
        },
        0x31u8 => {
            let (c1, b1) = ld16_tr(cpu, bus, Operand16::Reg(Reg16::SP), Operand16::Imm(Imm16));
            (c1, b1, Ok(()))
        },
        _ => (cpu, bus, Err(Fault { opcode: cpu.ctx.opcode, cb: cpu.ctx.cb })),
    }
}

/// The in-flight state decode may resume from, for the opcode it will
/// dispatch.
pub open spec fn decode_req(ctx: Ctx) -> bool {
    match ctx.opcode {
        0x20u8 => jr_req(ctx),
        0x30u8 => jr_req(ctx),
        0x01u8 => ld16_req(ctx, Operand16::Reg(Reg16::BC), Operand16::Imm(Imm16)),
        0x11u8 => ld16_req(ctx, Operand16::Reg(Reg16::DE), Operand16::Imm(Imm16)),
        0x21u8 => ld16_req(ctx, Operand16::Reg(Reg16::HL), Operand16::Imm(Imm16)),
        0x31u8 => ld16_req(ctx, Operand16::Reg(Reg16::SP), Operand16::Imm(Imm16)),
        _ => true,
    }
}

impl Cpu {
    /// Dispatch on the latched opcode and run one tick of the matching
    /// handler.  An unimplemented opcode changes nothing and reports
    /// which (opcode, CB-flag) pair had no handler.
    pub fn decode(&mut self, bus: &mut Peripherals) -> (r: Result<(), Fault>)
        requires
            old(bus).wf(),
            decode_req(old(self).ctx),
        ensures
            (*final(self), final(bus)@, r) == decode_tr(*old(self), old(bus)@),
            final(bus).wf(),
            !opcode_implemented(old(self).ctx.opcode) ==> r == Result::<(), Fault>::Err(
                Fault { opcode: old(self).ctx.opcode, cb: old(self).ctx.cb },
            ) && *final(self) == *old(self) && *final(bus) == *old(bus),
    {
        match self.ctx.opcode {
            0x00 => {
                self.nop(bus);
                Ok(())
            },
            0x20 => {
                self.jr_c(bus, Cond::NZ);
                Ok(())
            },
            0x30 => {
                self.jr_c(bus, Cond::NC);
                Ok(())
            },
            0x01 => {
                self.ld16(bus, Operand16::Reg(Reg16::BC), Operand16::Imm(Imm16));
                Ok(())
            },
            0x11 => {
                self.ld16(bus, Operand16::Reg(Reg16::DE), Operand16::Imm(Imm16));
                Ok(())
            },
            0x21 => {
                self.ld16(bus, Operand16::Reg(Reg16::HL), Operand16::Imm(Imm16));
                Ok(())
            },
            0x31 => {
                self.ld16(bus, Operand16::Reg(Reg16::SP), Operand16::Imm(Imm16));
                Ok(())
            },
            _ => Err(Fault { opcode: self.ctx.opcode, cb: self.ctx.cb }),
        }
    }
}

} // verus!
