//! Addressing-mode operators.
//!
//! An operand names where an instruction's value lives: a register, an
//! immediate byte or word after the opcode, a register-indirect memory
//! cell, or a memory cell named by immediate address bytes.  Reading or
//! writing an operand costs one tick per bus access -- each immediate or
//! address byte one tick, the data access one tick -- so the total
//! latency of a direct operand is its address bytes plus its data bytes.
//! An operator returns `Pending` on every tick before the last bus
//! access of its sequence and `Ready`, with the value, on the tick that
//! performs it, resuming from the progress saved in the execution
//! context.  Register operands are synchronous: they complete on the
//! tick they are invoked, with no bus traffic.

use vstd::prelude::*;
use crate::cpu::{Cpu, Ctx};
use crate::peripherals::{BusView, Peripherals};
use crate::registers::{pair16, hi8, lo8, Registers};

verus! {

/// The result of one micro-step: either one more tick is needed, or the
/// operation finished on this tick and produced its value.
#[derive(Clone, Copy, Debug, PartialEq, Eq)]
pub enum Step<T> {
    Pending,
    Ready(T),
}

/// An 8-bit register operand.
#[derive(Clone, Copy, Debug)]
pub enum Reg8 {
    A,
    B,
    C,
    D,
    E,
    H,
    L,
}

/// A 16-bit register-pair operand.
#[derive(Clone, Copy, Debug)]
pub enum Reg16 {
    AF,
    BC,
    DE,
    HL,
    SP,
}

/// The immediate byte after the opcode.
#[derive(Clone, Copy, Debug)]
pub struct Imm8;

/// The little-endian immediate word after the opcode.
#[derive(Clone, Copy, Debug)]
pub struct Imm16;

/// A memory cell addressed through a register pair.  `CFF` addresses the
/// high page at `0xff00 | C`; `HLD` and `HLI` step HL down or up as a side
/// effect of the access.
#[derive(Clone, Copy, Debug)]
pub enum Indirect {
    BC,
    DE,
    HL,
    CFF,
    HLD,
    HLI,
}

/// A memory cell named by immediate address bytes: `D` takes a full
/// little-endian 16-bit address, `DFE` one byte on the high page
/// (`0xff00 | n`).
#[derive(Clone, Copy, Debug)]
pub enum Direct8 {
    D,
    DFE,
}

/// A 16-bit store to the memory cells at a full immediate address.
#[derive(Clone, Copy, Debug)]
pub struct Direct16;

/// Condition codes for conditional jumps.
#[derive(Clone, Copy, Debug)]
pub enum Cond {
    NZ,
    Z,
    NC,
    C,
}

/// Every place an 8-bit operand can live, as one closed dispatch.
#[derive(Clone, Copy, Debug)]
pub enum Operand8 {
    Reg(Reg8),
    Imm(Imm8),
    Ind(Indirect),
    Dir(Direct8),
}

/// Every place a 16-bit operand can live.
#[derive(Clone, Copy, Debug)]
pub enum Operand16 {
    Reg(Reg16),
    Imm(Imm16),
    Dir(Direct16),
}

pub open spec fn reg8_get(r: Registers, s: Reg8) -> u8 {
    match s {
        Reg8::A => r.a,
        Reg8::B => r.b,
        Reg8::C => r.c,
        Reg8::D => r.d,
        Reg8::E => r.e,
        Reg8::H => r.h,
        Reg8::L => r.l,
    }
}

pub open spec fn reg8_set(r: Registers, s: Reg8, v: u8) -> Registers {
    match s {
        Reg8::A => Registers { a: v, ..r },
        Reg8::B => Registers { b: v, ..r },
        Reg8::C => Registers { c: v, ..r },
        Reg8::D => Registers { d: v, ..r },
        Reg8::E => Registers { e: v, ..r },
        Reg8::H => Registers { h: v, ..r },
        Reg8::L => Registers { l: v, ..r },
    }
}

pub open spec fn reg16_get(r: Registers, s: Reg16) -> u16 {
    match s {
        Reg16::AF => pair16(r.a, r.f),
        Reg16::BC => pair16(r.b, r.c),
        Reg16::DE => pair16(r.d, r.e),
        Reg16::HL => pair16(r.h, r.l),
        Reg16::SP => r.sp,
    }
}

/// Writing AF masks the low nibble of F to zero.
pub open spec fn reg16_set(r: Registers, s: Reg16, v: u16) -> Registers {
    match s {
        Reg16::AF => Registers { a: hi8(v), f: (v & 0xf0) as u8, ..r },
        Reg16::BC => Registers { b: hi8(v), c: lo8(v), ..r },
        Reg16::DE => Registers { d: hi8(v), e: lo8(v), ..r },
        Reg16::HL => Registers { h: hi8(v), l: lo8(v), ..r },
        Reg16::SP => Registers { sp: v, ..r },
    }
}

/// The effective address of an indirect operand, before any HL step.
pub open spec fn ind_addr(r: Registers, i: Indirect) -> u16 {
    match i {
        Indirect::BC => pair16(r.b, r.c),
        Indirect::DE => pair16(r.d, r.e),
        Indirect::HL => pair16(r.h, r.l),
        Indirect::CFF => 0xff00 | (r.c as u16),
        Indirect::HLD => pair16(r.h, r.l),
        Indirect::HLI => pair16(r.h, r.l),
    }
}

/// The registers after an indirect access: `HLD`/`HLI` step HL atomically
/// with the access, the others leave the registers alone.
pub open spec fn ind_regs_after(r: Registers, i: Indirect) -> Registers {
    match i {
        Indirect::HLD => reg16_set(r, Reg16::HL, pair16(r.h, r.l).wrapping_sub(1)),
        Indirect::HLI => reg16_set(r, Reg16::HL, pair16(r.h, r.l).wrapping_add(1)),
        _ => r,
    }
}

/// An immediate-byte fetch: one tick, one bus read at PC, PC stepped
/// past the byte.
pub open spec fn imm8_tr(cpu: Cpu, bus: BusView) -> (Cpu, u8) {
    (
        Cpu { regs: Registers { pc: cpu.regs.pc.wrapping_add(1), ..cpu.regs }, ..cpu },
        bus.read_at(cpu.regs.pc),
    )
}

/// One tick of an immediate-word read: the low byte's tick is pending,
/// the high byte's tick returns the assembled word.
pub open spec fn imm16_tr(cpu: Cpu, bus: BusView) -> (Cpu, Step<u16>) {
    if cpu.ctx.op_step == 0 {
        let (c1, lo) = imm8_tr(cpu, bus);
        (Cpu { ctx: Ctx { op_step: 1, op_val8: lo, ..c1.ctx }, ..c1 }, Step::Pending)
    } else {
        let (c1, hi) = imm8_tr(cpu, bus);
        (
            Cpu { ctx: Ctx { op_step: 0, ..c1.ctx }, ..c1 },
            Step::Ready(pair16(hi, cpu.ctx.op_val8)),
        )
    }
}

/// One tick of a direct-address read: one or two address-byte ticks,
/// then the data access tick, which returns the byte.
pub open spec fn dir8_read_tr(cpu: Cpu, bus: BusView, d: Direct8) -> (Cpu, Step<u8>) {
    if cpu.ctx.op_step == 0 {
        let (c1, lo) = imm8_tr(cpu, bus);
        match d {
            Direct8::D => (
                Cpu { ctx: Ctx { op_step: 1, op_val8: lo, ..c1.ctx }, ..c1 },
                Step::Pending,
            ),
            Direct8::DFE => (
                Cpu {
                    ctx: Ctx {
                        op_step: 2,
                        op_val8: lo,
                        op_val16: 0xff00 | (lo as u16),
                        ..c1.ctx
                    },
                    ..c1
                },
                Step::Pending,
            ),
        }
    } else if cpu.ctx.op_step == 1 {
        let (c1, hi) = imm8_tr(cpu, bus);
        (
            Cpu {
                ctx: Ctx { op_step: 2, op_val16: pair16(hi, cpu.ctx.op_val8), ..c1.ctx },
                ..c1
            },
            Step::Pending,
        )
    } else {
        (
            Cpu { ctx: Ctx { op_step: 0, ..cpu.ctx }, ..cpu },
            Step::Ready(bus.read_at(cpu.ctx.op_val16)),
        )
    }
}

/// One tick of an 8-bit operand read.
pub open spec fn read8_tr(cpu: Cpu, bus: BusView, src: Operand8) -> (Cpu, Step<u8>) {
    match src {
        Operand8::Reg(rr) => (cpu, Step::Ready(reg8_get(cpu.regs, rr))),
        Operand8::Imm(_) => {
            let (c1, b) = imm8_tr(cpu, bus);
            (c1, Step::Ready(b))
        },
        Operand8::Ind(ind) => (
            Cpu { regs: ind_regs_after(cpu.regs, ind), ..cpu },
            Step::Ready(bus.read_at(ind_addr(cpu.regs, ind))),
        ),
        Operand8::Dir(d) => dir8_read_tr(cpu, bus, d),
    }
}

/// One tick of a direct-address write: the address bytes as in a read,
/// then the data write tick, which completes the operation.
pub open spec fn dir8_write_tr(cpu: Cpu, bus: BusView, d: Direct8, val: u8) -> (
    Cpu,
    BusView,
    Step<()>,
) {
    if cpu.ctx.op_step == 0 {
        let (c1, lo) = imm8_tr(cpu, bus);
        match d {
            Direct8::D => (
                Cpu { ctx: Ctx { op_step: 1, op_val8: lo, ..c1.ctx }, ..c1 },
                bus,
                Step::Pending,
            ),
            Direct8::DFE => (
                Cpu {
                    ctx: Ctx {
                        op_step: 2,
                        op_val8: lo,
                        op_val16: 0xff00 | (lo as u16),
                        ..c1.ctx
                    },
                    ..c1
                },
                bus,
                Step::Pending,
            ),
        }
    } else if cpu.ctx.op_step == 1 {
        let (c1, hi) = imm8_tr(cpu, bus);
        (
            Cpu {
                ctx: Ctx { op_step: 2, op_val16: pair16(hi, cpu.ctx.op_val8), ..c1.ctx },
                ..c1
            },
            bus,
            Step::Pending,
        )
    } else {
        (
            Cpu { ctx: Ctx { op_step: 0, ..cpu.ctx }, ..cpu },
            bus.write_at(cpu.ctx.op_val16, val),
            Step::Ready(()),
        )
    }
}

/// One tick of an 8-bit operand write.  Immediate operands are read-only
/// and excluded by the caller's contract.
pub open spec fn write8_tr(cpu: Cpu, bus: BusView, dst: Operand8, val: u8) -> (
    Cpu,
    BusView,
    Step<()>,
) {
    match dst {
        Operand8::Reg(rr) => (
            Cpu { regs: reg8_set(cpu.regs, rr, val), ..cpu },
            bus,
            Step::Ready(()),
        ),
        Operand8::Imm(_) => (cpu, bus, Step::Pending),
        Operand8::Ind(ind) => (
            Cpu { regs: ind_regs_after(cpu.regs, ind), ..cpu },
            bus.write_at(ind_addr(cpu.regs, ind), val),
            Step::Ready(()),
        ),
        Operand8::Dir(d) => dir8_write_tr(cpu, bus, d, val),
    }
}

/// One tick of a 16-bit operand read.  Direct operands are write-only and
/// excluded by the caller's contract.
pub open spec fn read16_tr(cpu: Cpu, bus: BusView, src: Operand16) -> (Cpu, Step<u16>) {
    match src {
        Operand16::Reg(rr) => (cpu, Step::Ready(reg16_get(cpu.regs, rr))),
        Operand16::Imm(_) => imm16_tr(cpu, bus),
        Operand16::Dir(_) => (cpu, Step::Pending),
    }
}

/// One tick of a 16-bit operand write: for a direct operand, two
/// address-byte ticks, the low data byte's tick, then the high data
/// byte's tick at the next address, which completes the operation.
pub open spec fn write16_tr(cpu: Cpu, bus: BusView, dst: Operand16, val: u16) -> (
    Cpu,
    BusView,
    Step<()>,
) {
    match dst {
        Operand16::Reg(rr) => (
            Cpu { regs: reg16_set(cpu.regs, rr, val), ..cpu },
            bus,
            Step::Ready(()),
        ),
        Operand16::Imm(_) => (cpu, bus, Step::Pending),
        Operand16::Dir(_) => if cpu.ctx.op_step == 0 {
            let (c1, lo) = imm8_tr(cpu, bus);
            (
                Cpu { ctx: Ctx { op_step: 1, op_val8: lo, ..c1.ctx }, ..c1 },
                bus,
                Step::Pending,
            )
        } else if cpu.ctx.op_step == 1 {
            let (c1, hi) = imm8_tr(cpu, bus);
            (
                Cpu {
                    ctx: Ctx { op_step: 2, op_val16: pair16(hi, cpu.ctx.op_val8), ..c1.ctx },
                    ..c1
                },
                bus,
                Step::Pending,
            )
        } else if cpu.ctx.op_step == 2 {
            (
                Cpu { ctx: Ctx { op_step: 3, ..cpu.ctx }, ..cpu },
                bus.write_at(cpu.ctx.op_val16, lo8(val)),
                Step::Pending,
            )
        } else {
            (
                Cpu { ctx: Ctx { op_step: 0, ..cpu.ctx }, ..cpu },
                bus.write_at(cpu.ctx.op_val16.wrapping_add(1), hi8(val)),
                Step::Ready(()),
            )
        },
    }
}

/// The in-flight state an 8-bit read may legally resume from.
pub open spec fn read8_req(ctx: Ctx, src: Operand8) -> bool {
    match src {
        Operand8::Dir(_) => ctx.op_step <= 2,
        _ => true,
    }
}

/// The in-flight state an 8-bit write may legally resume from; a write
/// through an immediate operand is a contract violation.
pub open spec fn write8_req(ctx: Ctx, dst: Operand8) -> bool {
    match dst {
        Operand8::Imm(_) => false,
        Operand8::Dir(_) => ctx.op_step <= 2,
        _ => true,
    }
}

/// The in-flight state a 16-bit read may legally resume from; a read
/// through a direct 16-bit operand is a contract violation.
pub open spec fn read16_req(ctx: Ctx, src: Operand16) -> bool {
    match src {
        Operand16::Reg(_) => true,
        Operand16::Imm(_) => ctx.op_step <= 1,
        Operand16::Dir(_) => false,
    }
}

/// The in-flight state a 16-bit write may legally resume from; a write
/// through an immediate operand is a contract violation.
pub open spec fn write16_req(ctx: Ctx, dst: Operand16) -> bool {
    match dst {
        Operand16::Reg(_) => true,
        Operand16::Imm(_) => false,
        Operand16::Dir(_) => ctx.op_step <= 3,
    }
}

impl Cpu {
    /// The immediate-byte fetch shared by the immediate and direct
    /// operand paths: one bus read at PC, PC stepped past it.
    pub(crate) fn imm_byte(&mut self, bus: &Peripherals) -> (r: u8)
        requires
            bus.wf(),
        ensures
            (*final(self), r) == imm8_tr(*old(self), bus@),
    {
        let b: u8 = bus.read(self.regs.pc);
        self.regs.pc = self.regs.pc.wrapping_add(1);
        b
    }

    /// Perform the next micro-step of reading `src`, one bus access per
    /// tick.  An immediate byte costs exactly one tick, advancing PC by
    /// one and returning its value on that same tick.
    pub fn read8(&mut self, bus: &Peripherals, src: Operand8) -> (r: Step<u8>)
        requires
            bus.wf(),
            read8_req(old(self).ctx, src),
        ensures
            (*final(self), r) == read8_tr(*old(self), bus@, src),
            src is Imm ==> r == Step::<u8>::Ready(bus@.read_at(old(self).regs.pc))
                && final(self).regs.pc == old(self).regs.pc.wrapping_add(1),
    {
        match src {
            Operand8::Reg(rr) => {
                let v: u8 = match rr {
                    Reg8::A => self.regs.a,
                    Reg8::B => self.regs.b,
                    Reg8::C => self.regs.c,
                    Reg8::D => self.regs.d,
                    Reg8::E => self.regs.e,
                    Reg8::H => self.regs.h,
                    Reg8::L => self.regs.l,
                };
                Step::Ready(v)
            },
            Operand8::Imm(_) => Step::Ready(self.imm_byte(bus)),
            Operand8::Ind(ind) => {
                let addr: u16 = match ind {
                    Indirect::BC => self.regs.bc(),
                    Indirect::DE => self.regs.de(),
                    Indirect::HL => self.regs.hl(),
                    Indirect::CFF => 0xff00 | (self.regs.c as u16),
                    Indirect::HLD => {
                        let a: u16 = self.regs.hl();
                        self.regs.write_hl(a.wrapping_sub(1));
                        a
                    },
                    Indirect::HLI => {
                        let a: u16 = self.regs.hl();
                        self.regs.write_hl(a.wrapping_add(1));
                        a
                    },
                };
                Step::Ready(bus.read(addr))
            },
            Operand8::Dir(d) => {
                if self.ctx.op_step == 0 {
                    let lo: u8 = self.imm_byte(bus);
                    self.ctx.op_val8 = lo;
                    match d {
                        Direct8::D => {
                            self.ctx.op_step = 1;
                        },
                        Direct8::DFE => {
                            self.ctx.op_val16 = 0xff00 | (lo as u16);
                            self.ctx.op_step = 2;
                        },
                    }
                    Step::Pending
                } else if self.ctx.op_step == 1 {
                    let hi: u8 = self.imm_byte(bus);
                    self.ctx.op_val16 = ((hi as u16) << 8) | (self.ctx.op_val8 as u16);
                    self.ctx.op_step = 2;
                    Step::Pending
                } else {
                    let v: u8 = bus.read(self.ctx.op_val16);
                    self.ctx.op_step = 0;
                    Step::Ready(v)
                }
            },
        }
    }

    /// Perform the next micro-step of writing `val` through `dst`.
    pub fn write8(&mut self, bus: &mut Peripherals, dst: Operand8, val: u8) -> (r: Step<()>)
        requires
            old(bus).wf(),
            write8_req(old(self).ctx, dst),
        ensures
            (*final(self), final(bus)@, r) == write8_tr(*old(self), old(bus)@, dst, val),
            final(bus).wf(),
    {
        match dst {
            Operand8::Reg(rr) => {
                match rr {
                    Reg8::A => self.regs.a = val,
                    Reg8::B => self.regs.b = val,
                    Reg8::C => self.regs.c = val,
                    Reg8::D => self.regs.d = val,
                    Reg8::E => self.regs.e = val,
                    Reg8::H => self.regs.h = val,
                    Reg8::L => self.regs.l = val,
                }
                Step::Ready(())
            },
            Operand8::Imm(_) => {
                proof {
                    assert(false);
                }
                Step::Pending
            },
            Operand8::Ind(ind) => {
                let addr: u16 = match ind {
                    Indirect::BC => self.regs.bc(),
                    Indirect::DE => self.regs.de(),
                    Indirect::HL => self.regs.hl(),
                    Indirect::CFF => 0xff00 | (self.regs.c as u16),
                    Indirect::HLD => {
                        let a: u16 = self.regs.hl();
                        self.regs.write_hl(a.wrapping_sub(1));
                        a
                    },
                    Indirect::HLI => {
                        let a: u16 = self.regs.hl();
                        self.regs.write_hl(a.wrapping_add(1));
                        a
                    },
                };
                bus.write(addr, val);
                Step::Ready(())
            },
            Operand8::Dir(d) => {
                if self.ctx.op_step == 0 {
                    let lo: u8 = self.imm_byte(bus);
                    self.ctx.op_val8 = lo;
                    match d {
                        Direct8::D => {
                            self.ctx.op_step = 1;
                        },
                        Direct8::DFE => {
                            self.ctx.op_val16 = 0xff00 | (lo as u16);
                            self.ctx.op_step = 2;
                        },
                    }
                    Step::Pending
                } else if self.ctx.op_step == 1 {
                    let hi: u8 = self.imm_byte(bus);
                    self.ctx.op_val16 = ((hi as u16) << 8) | (self.ctx.op_val8 as u16);
                    self.ctx.op_step = 2;
                    Step::Pending
                } else {
                    bus.write(self.ctx.op_val16, val);
                    self.ctx.op_step = 0;
                    Step::Ready(())
                }
            },
        }
    }

    /// Perform the next micro-step of reading `src` as a 16-bit value.
    /// An immediate word costs one tick per byte, advancing PC by one on
    /// each and returning the assembled value on the high byte's tick.
    pub fn read16(&mut self, bus: &Peripherals, src: Operand16) -> (r: Step<u16>)
        requires
            bus.wf(),
            read16_req(old(self).ctx, src),
        ensures
            (*final(self), r) == read16_tr(*old(self), bus@, src),
            src is Imm && old(self).ctx.op_step == 0 ==> r is Pending && final(self).regs.pc
                == old(self).regs.pc.wrapping_add(1),
            src is Imm && old(self).ctx.op_step == 1 ==> r == Step::<u16>::Ready(
                pair16(bus@.read_at(old(self).regs.pc), old(self).ctx.op_val8),
            ) && final(self).regs.pc == old(self).regs.pc.wrapping_add(1),
    {
        match src {
            Operand16::Reg(rr) => {
                let v: u16 = match rr {
                    Reg16::AF => self.regs.af(),
                    Reg16::BC => self.regs.bc(),
                    Reg16::DE => self.regs.de(),
                    Reg16::HL => self.regs.hl(),
                    Reg16::SP => self.regs.sp,
                };
                Step::Ready(v)
            },
            Operand16::Imm(_) => {
                if self.ctx.op_step == 0 {
                    let lo: u8 = self.imm_byte(bus);
                    self.ctx.op_val8 = lo;
                    self.ctx.op_step = 1;
                    Step::Pending
                } else {
                    let hi: u8 = self.imm_byte(bus);
                    self.ctx.op_step = 0;
                    Step::Ready(((hi as u16) << 8) | (self.ctx.op_val8 as u16))
                }
            },
            Operand16::Dir(_) => {
                proof {
                    assert(false);
                }
                Step::Pending
            },
        }
    }

    /// Perform the next micro-step of writing `val` through `dst` as a
    /// 16-bit value.
    pub fn write16(&mut self, bus: &mut Peripherals, dst: Operand16, val: u16) -> (r: Step<()>)
        requires
            old(bus).wf(),
            write16_req(old(self).ctx, dst),
        ensures
            (*final(self), final(bus)@, r) == write16_tr(*old(self), old(bus)@, dst, val),
            final(bus).wf(),
    {
        match dst {
            Operand16::Reg(rr) => {
                match rr {
                    Reg16::AF => self.regs.write_af(val),
                    Reg16::BC => self.regs.write_bc(val),
                    Reg16::DE => self.regs.write_de(val),
                    Reg16::HL => self.regs.write_hl(val),
                    Reg16::SP => self.regs.sp = val,
                }
                Step::Ready(())
            },
            Operand16::Imm(_) => {
                proof {
                    assert(false);
                }
                Step::Pending
            },
            Operand16::Dir(_) => {
                if self.ctx.op_step == 0 {
                    let lo: u8 = self.imm_byte(bus);
                    self.ctx.op_val8 = lo;
                    self.ctx.op_step = 1;
                    Step::Pending
                } else if self.ctx.op_step == 1 {
                    let hi: u8 = self.imm_byte(bus);
                    self.ctx.op_val16 = ((hi as u16) << 8) | (self.ctx.op_val8 as u16);
                    self.ctx.op_step = 2;
                    Step::Pending
                } else if self.ctx.op_step == 2 {
                    bus.write(self.ctx.op_val16, (val & 0xff) as u8);
                    self.ctx.op_step = 3;
                    Step::Pending
                } else {
                    bus.write(self.ctx.op_val16.wrapping_add(1), (val >> 8) as u8);
                    self.ctx.op_step = 0;
                    Step::Ready(())
                }
            },
        }
    }
}

} // verus!
