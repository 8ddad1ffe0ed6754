//! Instruction handlers: each is a small state machine over one or two
//! addressing-mode operators, advanced one tick per call.  Work that
//! needs no bus access -- register reads and writes, flag updates --
//! shares the tick of the bus access it follows, so no call ever touches
//! the bus twice; a handler's final tick fetches the next opcode, so
//! instruction boundaries stay invisible to the caller beyond timing.

use vstd::prelude::*;
use crate::cpu::{Cpu, Ctx};
use crate::fetch::fetch_tr;
use crate::operand::{
    read8_tr, write8_tr, read16_tr, write16_tr, imm8_tr, read8_req, write8_req, read16_req,
    write16_req, reg16_get, Cond, Operand8, Operand16, Reg16, Step,
};
use crate::peripherals::{BusView, Peripherals};
use crate::registers::{cf_of, hf_of, lo8, hi8, nf_of, set_flag, zf_of, Registers};

verus! {

/// F after `CP`: Z iff the operands are equal, N set, H on a low-nibble
/// borrow, C on a full borrow.
pub open spec fn cp_flags(f: u8, a: u8, v: u8) -> u8 {
    set_flag(
        set_flag(set_flag(set_flag(f, 0x80, a.wrapping_sub(v) == 0), 0x40, true), 0x20, (a & 0x0f)
            < (v & 0x0f)),
        0x10,
        a < v,
    )
}

/// F after an 8-bit `INC` of `v`: Z from the wrapped result, N clear,
/// H on a low-nibble carry; C untouched.
pub open spec fn inc_flags(f: u8, v: u8) -> u8 {
    set_flag(set_flag(set_flag(f, 0x80, v.wrapping_add(1) == 0), 0x40, false), 0x20, v & 0x0f
        == 0x0f)
}

/// F after an 8-bit `DEC` of `v`: Z from the wrapped result, N set,
/// H on a low-nibble borrow; C untouched.
pub open spec fn dec_flags(f: u8, v: u8) -> u8 {
    set_flag(set_flag(set_flag(f, 0x80, v.wrapping_sub(1) == 0), 0x40, true), 0x20, (v & 0x0f)
        == 0)
}

/// The byte produced by rotating `v` left through an incoming carry.
pub open spec fn rl_val(v: u8, c: bool) -> u8 {
    (v << 1) | (if c {
        1u8
    } else {
        0u8
    })
}

/// The carry produced by `RL`: the bit rotated out at the top.
pub open spec fn rl_carry(v: u8) -> bool {
    v & 0x80 != 0
}

/// F after `RL` of `v` (incoming carry taken from `f` itself): Z from the
/// rotated byte, N and H clear, C from the outgoing bit.
pub open spec fn rl_flags(f: u8, v: u8) -> u8 {
    set_flag(
        set_flag(set_flag(set_flag(f, 0x80, rl_val(v, cf_of(f)) == 0), 0x40, false), 0x20, false),
        0x10,
        rl_carry(v),
    )
}

/// F after `BIT b` of `v`: Z iff the tested bit is clear, N clear, H set;
/// C untouched.
pub open spec fn bit_flags(f: u8, b: u8, v: u8) -> u8 {
    set_flag(set_flag(set_flag(f, 0x80, v & (1u8 << b) == 0), 0x40, false), 0x20, true)
}

/// `CP` flag semantics, read off the packed byte.
pub proof fn lemma_cp_flags(f: u8, a: u8, v: u8)
    ensures
        zf_of(cp_flags(f, a, v)) == (a == v),
        nf_of(cp_flags(f, a, v)),
        hf_of(cp_flags(f, a, v)) == ((a & 0x0f) < (v & 0x0f)),
        cf_of(cp_flags(f, a, v)) == (a < v),
        cp_flags(f, a, v) & 0x0f == f & 0x0f,
{
    let s1 = set_flag(f, 0x80, a.wrapping_sub(v) == 0);
    let s2 = set_flag(s1, 0x40, true);
    let s3 = set_flag(s2, 0x20, (a & 0x0f) < (v & 0x0f));
    crate::registers::lemma_set_flag_props(f, a.wrapping_sub(v) == 0);
    crate::registers::lemma_set_flag_props(s1, true);
    crate::registers::lemma_set_flag_props(s2, (a & 0x0f) < (v & 0x0f));
    crate::registers::lemma_set_flag_props(s3, a < v);
}

/// `INC` flag semantics: C survives unchanged, Z and H follow the value.
pub proof fn lemma_inc_flags(f: u8, v: u8)
    ensures
        zf_of(inc_flags(f, v)) == (v.wrapping_add(1) == 0),
        !nf_of(inc_flags(f, v)),
        hf_of(inc_flags(f, v)) == (v & 0x0f == 0x0f),
        cf_of(inc_flags(f, v)) == cf_of(f),
        inc_flags(f, v) & 0x0f == f & 0x0f,
{
    let s1 = set_flag(f, 0x80, v.wrapping_add(1) == 0);
    let s2 = set_flag(s1, 0x40, false);
    crate::registers::lemma_set_flag_props(f, v.wrapping_add(1) == 0);
    crate::registers::lemma_set_flag_props(s1, false);
    crate::registers::lemma_set_flag_props(s2, v & 0x0f == 0x0f);
}

/// `DEC` flag semantics: C survives unchanged, Z and H follow the value.
pub proof fn lemma_dec_flags(f: u8, v: u8)
    ensures
        zf_of(dec_flags(f, v)) == (v.wrapping_sub(1) == 0),
        nf_of(dec_flags(f, v)),
        hf_of(dec_flags(f, v)) == ((v & 0x0f) == 0),
        cf_of(dec_flags(f, v)) == cf_of(f),
        dec_flags(f, v) & 0x0f == f & 0x0f,
{
    let s1 = set_flag(f, 0x80, v.wrapping_sub(1) == 0);
    let s2 = set_flag(s1, 0x40, true);
    crate::registers::lemma_set_flag_props(f, v.wrapping_sub(1) == 0);
    crate::registers::lemma_set_flag_props(s1, true);
    crate::registers::lemma_set_flag_props(s2, (v & 0x0f) == 0);
}

/// `RL` flag semantics.
pub proof fn lemma_rl_flags(f: u8, v: u8)
    ensures
        zf_of(rl_flags(f, v)) == (rl_val(v, cf_of(f)) == 0),
        !nf_of(rl_flags(f, v)),
        !hf_of(rl_flags(f, v)),
        cf_of(rl_flags(f, v)) == rl_carry(v),
        rl_flags(f, v) & 0x0f == f & 0x0f,
{
    let s1 = set_flag(f, 0x80, rl_val(v, cf_of(f)) == 0);
    let s2 = set_flag(s1, 0x40, false);
    let s3 = set_flag(s2, 0x20, false);
    crate::registers::lemma_set_flag_props(f, rl_val(v, cf_of(f)) == 0);
    crate::registers::lemma_set_flag_props(s1, false);
    crate::registers::lemma_set_flag_props(s2, false);
    crate::registers::lemma_set_flag_props(s3, rl_carry(v));
}

/// `BIT` flag semantics: C is never altered, Z is clear iff the tested
/// bit is set, H is always set, N always clear.
pub proof fn lemma_bit_flags(f: u8, b: u8, v: u8)
    ensures
        zf_of(bit_flags(f, b, v)) == (v & (1u8 << b) == 0),
        !nf_of(bit_flags(f, b, v)),
        hf_of(bit_flags(f, b, v)),
        cf_of(bit_flags(f, b, v)) == cf_of(f),
        bit_flags(f, b, v) & 0x0f == f & 0x0f,
{
    let s1 = set_flag(f, 0x80, v & (1u8 << b) == 0);
    let s2 = set_flag(s1, 0x40, false);
    crate::registers::lemma_set_flag_props(f, v & (1u8 << b) == 0);
    crate::registers::lemma_set_flag_props(s1, false);
    crate::registers::lemma_set_flag_props(s2, true);
}

/// Does the jump condition hold of the flag byte?
pub open spec fn cond_holds(f: u8, c: Cond) -> bool {
    match c {
        Cond::NZ => !zf_of(f),
        Cond::Z => zf_of(f),
        Cond::NC => !cf_of(f),
        Cond::C => cf_of(f),
    }
}

/// A relative-jump offset byte, sign-extended to 16 bits.
pub open spec fn sign_ext(v: u8) -> u16 {
    if v >= 0x80 {
        (v as u16) | 0xff00
    } else {
        v as u16
    }
}

/// One tick of `LD dst, src`.  When one side is a register, the other
/// side's final tick carries the whole transfer: the write starts on the
/// tick the source completes whenever the two never compete for the bus.
/// The final tick fetches the next opcode.
pub open spec fn ld_tr(cpu: Cpu, bus: BusView, dst: Operand8, src: Operand8) -> (Cpu, BusView) {
    if cpu.ctx.step == 0 {
        let (c1, r1) = read8_tr(cpu, bus, src);
        match r1 {
            Step::Pending => (c1, bus),
            Step::Ready(v) => if src is Reg || dst is Reg {
                let (c2, b2, r2) = write8_tr(c1, bus, dst, v);
                match r2 {
                    Step::Pending => (Cpu { ctx: Ctx { step: 1, val8: v, ..c2.ctx }, ..c2 }, b2),
                    Step::Ready(_) => (Cpu { ctx: Ctx { step: 2, ..c2.ctx }, ..c2 }, b2),
                }
            } else {
                (Cpu { ctx: Ctx { step: 1, val8: v, ..c1.ctx }, ..c1 }, bus)
            },
        }
    } else if cpu.ctx.step == 1 {
        let (c1, b1, r1) = write8_tr(cpu, bus, dst, cpu.ctx.val8);
        match r1 {
            Step::Pending => (c1, b1),
            Step::Ready(_) => (Cpu { ctx: Ctx { step: 2, ..c1.ctx }, ..c1 }, b1),
        }
    } else {
        (fetch_tr(Cpu { ctx: Ctx { step: 0, ..cpu.ctx }, ..cpu }, bus), bus)
    }
}

/// One tick of `LD16 dst, src`.  A register destination is written on
/// the tick the source word completes, so PC advances exactly by the
/// operand's width; a memory destination takes its own write ticks.  The
/// final tick fetches.
pub open spec fn ld16_tr(cpu: Cpu, bus: BusView, dst: Operand16, src: Operand16) -> (
    Cpu,
    BusView,
) {
    if cpu.ctx.step == 0 {
        let (c1, r1) = read16_tr(cpu, bus, src);
        match r1 {
            Step::Pending => (c1, bus),
            Step::Ready(v) => if src is Reg || dst is Reg {
                let (c2, b2, r2) = write16_tr(c1, bus, dst, v);
                match r2 {
                    Step::Pending => (
                        Cpu { ctx: Ctx { step: 1, val16: v, ..c2.ctx }, ..c2 },
                        b2,
                    ),
                    Step::Ready(_) => (Cpu { ctx: Ctx { step: 2, ..c2.ctx }, ..c2 }, b2),
                }
            } else {
                (Cpu { ctx: Ctx { step: 1, val16: v, ..c1.ctx }, ..c1 }, bus)
            },
        }
    } else if cpu.ctx.step == 1 {
        let (c1, b1, r1) = write16_tr(cpu, bus, dst, cpu.ctx.val16);
        match r1 {
            Step::Pending => (c1, b1),
            Step::Ready(_) => (Cpu { ctx: Ctx { step: 2, ..c1.ctx }, ..c1 }, b1),
        }
    } else {
        (fetch_tr(Cpu { ctx: Ctx { step: 0, ..cpu.ctx }, ..cpu }, bus), bus)
    }
}

/// One tick of `CP src`: when the operand completes, compare it against A
/// without writing A back and set the flags.  A register operand leaves
/// the bus free, so the next fetch shares its tick; otherwise the fetch
/// takes the following tick.
pub open spec fn cp_tr(cpu: Cpu, bus: BusView, src: Operand8) -> Cpu {
    if cpu.ctx.step == 0 {
        let (c1, r1) = read8_tr(cpu, bus, src);
        match r1 {
            Step::Pending => c1,
            Step::Ready(v) => {
                let c2 = Cpu {
                    regs: Registers { f: cp_flags(c1.regs.f, c1.regs.a, v), ..c1.regs },
                    ..c1
                };
                if src is Reg {
                    fetch_tr(c2, bus)
                } else {
                    Cpu { ctx: Ctx { step: 1, ..c2.ctx }, ..c2 }
                }
            },
        }
    } else {
        fetch_tr(Cpu { ctx: Ctx { step: 0, ..cpu.ctx }, ..cpu }, bus)
    }
}

/// One tick of an 8-bit `INC src`: on the tick the operand completes the
/// flags are set and, for a register operand, the result is written back
/// at once; a memory operand takes its own write-back tick.  The final
/// tick fetches.
pub open spec fn inc_tr(cpu: Cpu, bus: BusView, src: Operand8) -> (Cpu, BusView) {
    if cpu.ctx.step == 0 {
        let (c1, r1) = read8_tr(cpu, bus, src);
        match r1 {
            Step::Pending => (c1, bus),
            Step::Ready(v) => {
                let c2 = Cpu { regs: Registers { f: inc_flags(c1.regs.f, v), ..c1.regs }, ..c1 };
                if src is Reg {
                    let (c3, b3, r3) = write8_tr(c2, bus, src, v.wrapping_add(1));
                    (Cpu { ctx: Ctx { step: 2, ..c3.ctx }, ..c3 }, b3)
                } else {
                    (Cpu { ctx: Ctx { step: 1, val8: v.wrapping_add(1), ..c2.ctx }, ..c2 }, bus)
                }
            },
        }
    } else if cpu.ctx.step == 1 {
        let (c1, b1, r1) = write8_tr(cpu, bus, src, cpu.ctx.val8);
        match r1 {
            Step::Pending => (c1, b1),
            Step::Ready(_) => (Cpu { ctx: Ctx { step: 2, ..c1.ctx }, ..c1 }, b1),
        }
    } else {
        (fetch_tr(Cpu { ctx: Ctx { step: 0, ..cpu.ctx }, ..cpu }, bus), bus)
    }
}

/// One tick of an 8-bit `DEC src`, shaped like `INC`.
pub open spec fn dec_tr(cpu: Cpu, bus: BusView, src: Operand8) -> (Cpu, BusView) {
    if cpu.ctx.step == 0 {
        let (c1, r1) = read8_tr(cpu, bus, src);
        match r1 {
            Step::Pending => (c1, bus),
            Step::Ready(v) => {
                let c2 = Cpu { regs: Registers { f: dec_flags(c1.regs.f, v), ..c1.regs }, ..c1 };
                if src is Reg {
                    let (c3, b3, r3) = write8_tr(c2, bus, src, v.wrapping_sub(1));
                    (Cpu { ctx: Ctx { step: 2, ..c3.ctx }, ..c3 }, b3)
                } else {
                    (Cpu { ctx: Ctx { step: 1, val8: v.wrapping_sub(1), ..c2.ctx }, ..c2 }, bus)
                }
            },
        }
    } else if cpu.ctx.step == 1 {
        let (c1, b1, r1) = write8_tr(cpu, bus, src, cpu.ctx.val8);
        match r1 {
            Step::Pending => (c1, b1),
            Step::Ready(_) => (Cpu { ctx: Ctx { step: 2, ..c1.ctx }, ..c1 }, b1),
        }
    } else {
        (fetch_tr(Cpu { ctx: Ctx { step: 0, ..cpu.ctx }, ..cpu }, bus), bus)
    }
}

/// One tick of a 16-bit `INC src`: the increment computes no flags.
pub open spec fn inc16_tr(cpu: Cpu, bus: BusView, src: Operand16) -> (Cpu, BusView) {
    if cpu.ctx.step == 0 {
        let (c1, r1) = read16_tr(cpu, bus, src);
        match r1 {
            Step::Pending => (c1, bus),
            Step::Ready(v) => (
                Cpu { ctx: Ctx { step: 1, val16: v.wrapping_add(1), ..c1.ctx }, ..c1 },
                bus,
            ),
        }
    } else if cpu.ctx.step == 1 {
        let (c1, b1, r1) = write16_tr(cpu, bus, src, cpu.ctx.val16);
        match r1 {
            Step::Pending => (c1, b1),
            Step::Ready(_) => (Cpu { ctx: Ctx { step: 2, ..c1.ctx }, ..c1 }, b1),
        }
    } else {
        (fetch_tr(Cpu { ctx: Ctx { step: 0, ..cpu.ctx }, ..cpu }, bus), bus)
    }
}

/// One tick of a 16-bit `DEC src`: the decrement computes no flags.
pub open spec fn dec16_tr(cpu: Cpu, bus: BusView, src: Operand16) -> (Cpu, BusView) {
    if cpu.ctx.step == 0 {
        let (c1, r1) = read16_tr(cpu, bus, src);
        match r1 {
            Step::Pending => (c1, bus),
            Step::Ready(v) => (
                Cpu { ctx: Ctx { step: 1, val16: v.wrapping_sub(1), ..c1.ctx }, ..c1 },
                bus,
            ),
        }
    } else if cpu.ctx.step == 1 {
        let (c1, b1, r1) = write16_tr(cpu, bus, src, cpu.ctx.val16);
        match r1 {
            Step::Pending => (c1, b1),
            Step::Ready(_) => (Cpu { ctx: Ctx { step: 2, ..c1.ctx }, ..c1 }, b1),
        }
    } else {
        (fetch_tr(Cpu { ctx: Ctx { step: 0, ..cpu.ctx }, ..cpu }, bus), bus)
    }
}

/// One tick of `RL src`: the incoming carry becomes bit 0, the old bit 7
/// becomes the outgoing carry; a register operand is rotated and written
/// back on one tick, a memory operand on its own write-back tick.
pub open spec fn rl_tr(cpu: Cpu, bus: BusView, src: Operand8) -> (Cpu, BusView) {
    if cpu.ctx.step == 0 {
        let (c1, r1) = read8_tr(cpu, bus, src);
        match r1 {
            Step::Pending => (c1, bus),
            Step::Ready(v) => {
                let c2 = Cpu { regs: Registers { f: rl_flags(c1.regs.f, v), ..c1.regs }, ..c1 };
                if src is Reg {
                    let (c3, b3, r3) = write8_tr(c2, bus, src, rl_val(v, cf_of(c1.regs.f)));
                    (Cpu { ctx: Ctx { step: 2, ..c3.ctx }, ..c3 }, b3)
                } else {
                    (
                        Cpu {
                            ctx: Ctx { step: 1, val8: rl_val(v, cf_of(c1.regs.f)), ..c2.ctx },
                            ..c2
                        },
                        bus,
                    )
                }
            },
        }
    } else if cpu.ctx.step == 1 {
        let (c1, b1, r1) = write8_tr(cpu, bus, src, cpu.ctx.val8);
        match r1 {
            Step::Pending => (c1, b1),
            Step::Ready(_) => (Cpu { ctx: Ctx { step: 2, ..c1.ctx }, ..c1 }, b1),
        }
    } else {
        (fetch_tr(Cpu { ctx: Ctx { step: 0, ..cpu.ctx }, ..cpu }, bus), bus)
    }
}

/// One tick of `BIT b, src`: test the bit without writing anything back.
/// A register operand leaves the bus free, so the next fetch shares its
/// tick; otherwise the fetch takes the following tick.
pub open spec fn bit_tr(cpu: Cpu, bus: BusView, b: u8, src: Operand8) -> Cpu {
    if cpu.ctx.step == 0 {
        let (c1, r1) = read8_tr(cpu, bus, src);
        match r1 {
            Step::Pending => c1,
            Step::Ready(v) => {
                let c2 = Cpu {
                    regs: Registers { f: bit_flags(c1.regs.f, b, v), ..c1.regs },
                    ..c1
                };
                if src is Reg {
                    fetch_tr(c2, bus)
                } else {
                    Cpu { ctx: Ctx { step: 1, ..c2.ctx }, ..c2 }
                }
            },
        }
    } else {
        fetch_tr(Cpu { ctx: Ctx { step: 0, ..cpu.ctx }, ..cpu }, bus)
    }
}

/// One tick of the `PUSH16` micro-sequence: an internal delay tick, the
/// high byte below SP, the low byte below that, then completion.
pub open spec fn push16_tr(cpu: Cpu, bus: BusView, val: u16) -> (Cpu, BusView, Step<()>) {
    if cpu.ctx.op_step == 0 {
        (Cpu { ctx: Ctx { op_step: 1, ..cpu.ctx }, ..cpu }, bus, Step::Pending)
    } else if cpu.ctx.op_step == 1 {
        let sp1 = cpu.regs.sp.wrapping_sub(1);
        (
            Cpu {
                regs: Registers { sp: sp1, ..cpu.regs },
                ctx: Ctx { op_step: 2, op_val8: lo8(val), ..cpu.ctx },
            },
            bus.write_at(sp1, hi8(val)),
            Step::Pending,
        )
    } else if cpu.ctx.op_step == 2 {
        let sp2 = cpu.regs.sp.wrapping_sub(1);
        (
            Cpu { regs: Registers { sp: sp2, ..cpu.regs }, ctx: Ctx { op_step: 3, ..cpu.ctx } },
            bus.write_at(sp2, cpu.ctx.op_val8),
            Step::Pending,
        )
    } else {
        (Cpu { ctx: Ctx { op_step: 0, ..cpu.ctx }, ..cpu }, bus, Step::Ready(()))
    }
}

/// One tick of `PUSH reg16`: latch the pair, run the `PUSH16` sequence,
/// fetch.
pub open spec fn push_tr(cpu: Cpu, bus: BusView, src: Reg16) -> (Cpu, BusView) {
    if cpu.ctx.step == 0 {
        (
            Cpu { ctx: Ctx { step: 1, val16: reg16_get(cpu.regs, src), ..cpu.ctx }, ..cpu },
            bus,
        )
    } else if cpu.ctx.step == 1 {
        let (c1, b1, r1) = push16_tr(cpu, bus, cpu.ctx.val16);
        match r1 {
            Step::Pending => (c1, b1),
            Step::Ready(_) => (Cpu { ctx: Ctx { step: 2, ..c1.ctx }, ..c1 }, b1),
        }
    } else {
        (fetch_tr(Cpu { ctx: Ctx { step: 0, ..cpu.ctx }, ..cpu }, bus), bus)
    }
}

/// One tick of `JR cond`: consume the offset byte on its read tick; when
/// the condition fails, only the fetch tick remains; when it holds, one
/// more tick applies the signed displacement before the fetch.
pub open spec fn jr_c_tr(cpu: Cpu, bus: BusView, c: Cond) -> Cpu {
    if cpu.ctx.step == 0 {
        let (c1, v) = imm8_tr(cpu, bus);
        if cond_holds(cpu.regs.f, c) {
            Cpu { ctx: Ctx { step: 1, val8: v, ..c1.ctx }, ..c1 }
        } else {
            Cpu { ctx: Ctx { step: 2, ..c1.ctx }, ..c1 }
        }
    } else if cpu.ctx.step == 1 {
        Cpu {
            regs: Registers {
                pc: cpu.regs.pc.wrapping_add(sign_ext(cpu.ctx.val8)),
                ..cpu.regs
            },
            ctx: Ctx { step: 2, ..cpu.ctx },
        }
    } else {
        fetch_tr(Cpu { ctx: Ctx { step: 0, ..cpu.ctx }, ..cpu }, bus)
    }
}

/// The in-flight state `LD` may resume from.
pub open spec fn ld_req(ctx: Ctx, dst: Operand8, src: Operand8) -> bool {
    &&& ctx.step <= 2
    &&& dst !is Imm
    &&& (ctx.step == 0 ==> read8_req(ctx, src))
    &&& (ctx.step == 0 && src is Reg ==> write8_req(ctx, dst))
    &&& (ctx.step == 1 ==> write8_req(ctx, dst))
}

/// The in-flight state `LD16` may resume from.
pub open spec fn ld16_req(ctx: Ctx, dst: Operand16, src: Operand16) -> bool {
    &&& ctx.step <= 2
    &&& dst !is Imm
    &&& src !is Dir
    &&& (ctx.step == 0 ==> read16_req(ctx, src))
    &&& (ctx.step == 0 && src is Reg ==> write16_req(ctx, dst))
    &&& (ctx.step == 1 ==> write16_req(ctx, dst))
}

/// The in-flight state an 8-bit read-modify-write handler may resume
/// from; the operand is written back, so it cannot be an immediate.
pub open spec fn rmw8_req(ctx: Ctx, src: Operand8) -> bool {
    &&& ctx.step <= 2
    &&& src !is Imm
    &&& (ctx.step == 0 ==> read8_req(ctx, src))
    &&& (ctx.step == 1 ==> write8_req(ctx, src))
}

/// The in-flight state a read-only handler (`CP`, `BIT`) may resume from.
pub open spec fn ro8_req(ctx: Ctx, src: Operand8) -> bool {
    &&& ctx.step <= 1
    &&& (ctx.step == 0 ==> read8_req(ctx, src))
}

/// The in-flight state a 16-bit read-modify-write handler may resume
/// from; only a register pair can be both read and written.
pub open spec fn rmw16_req(ctx: Ctx, src: Operand16) -> bool {
    &&& ctx.step <= 2
    &&& src is Reg
}

/// The in-flight state `PUSH16` may resume from.
pub open spec fn push16_req(ctx: Ctx) -> bool {
    ctx.op_step <= 3
}

/// The in-flight state `PUSH` may resume from.
pub open spec fn push_req(ctx: Ctx) -> bool {
    &&& ctx.step <= 2
    &&& (ctx.step == 1 ==> ctx.op_step <= 3)
}

/// The in-flight state `JR cond` may resume from.
pub open spec fn jr_req(ctx: Ctx) -> bool {
    ctx.step <= 2
}

impl Cpu {
    /// `NOP`: advance PC past the opcode and fetch; the bus is only read,
    /// never written.
    pub fn nop(&mut self, bus: &mut Peripherals)
        requires
            old(bus).wf(),
        ensures
            *final(self) == fetch_tr(*old(self), old(bus)@),
            *final(bus) == *old(bus),
    {
        self.fetch(bus);
    }

    /// One tick of `LD dst, src`.
    pub fn ld(&mut self, bus: &mut Peripherals, dst: Operand8, src: Operand8)
        requires
            old(bus).wf(),
            ld_req(old(self).ctx, dst, src),
        ensures
            (*final(self), final(bus)@) == ld_tr(*old(self), old(bus)@, dst, src),
            final(bus).wf(),
    {
        if self.ctx.step == 0 {
            match self.read8(bus, src) {
                Step::Pending => (),
                Step::Ready(v) => {
                    let fold: bool = matches!(src, Operand8::Reg(_)) || matches!(
                        dst,
                        Operand8::Reg(_),
                    );
                    if fold {
                        match self.write8(bus, dst, v) {
                            Step::Pending => {
                                self.ctx.val8 = v;
                                self.ctx.step = 1;
                            },
                            Step::Ready(_) => {
                                self.ctx.step = 2;
                            },
                        }
                    } else {
                        self.ctx.val8 = v;
                        self.ctx.step = 1;
                    }
                },
            }
        } else if self.ctx.step == 1 {
            let v: u8 = self.ctx.val8;
            match self.write8(bus, dst, v) {
                Step::Pending => (),
                Step::Ready(_) => {
                    self.ctx.step = 2;
                },
            }
        } else {
            self.ctx.step = 0;
            self.fetch(bus);
        }
    }

    /// One tick of `LD16 dst, src`.
    pub fn ld16(&mut self, bus: &mut Peripherals, dst: Operand16, src: Operand16)
        requires
            old(bus).wf(),
            ld16_req(old(self).ctx, dst, src),
        ensures
            (*final(self), final(bus)@) == ld16_tr(*old(self), old(bus)@, dst, src),
            final(bus).wf(),
    {
        if self.ctx.step == 0 {
            match self.read16(bus, src) {
                Step::Pending => (),
                Step::Ready(v) => {
                    let fold: bool = matches!(src, Operand16::Reg(_)) || matches!(
                        dst,
                        Operand16::Reg(_),
                    );
                    if fold {
                        match self.write16(bus, dst, v) {
                            Step::Pending => {
                                self.ctx.val16 = v;
                                self.ctx.step = 1;
                            },
                            Step::Ready(_) => {
                                self.ctx.step = 2;
                            },
                        }
                    } else {
                        self.ctx.val16 = v;
                        self.ctx.step = 1;
                    }
                },
            }
        } else if self.ctx.step == 1 {
            let v: u16 = self.ctx.val16;
            match self.write16(bus, dst, v) {
                Step::Pending => (),
                Step::Ready(_) => {
                    self.ctx.step = 2;
                },
            }
        } else {
            self.ctx.step = 0;
            self.fetch(bus);
        }
    }

    /// One tick of `CP src`.  A is compared, never changed, and no other
    /// general register moves except HL under a post-increment or
    /// post-decrement operand; on the tick the operand completes, Z holds
    /// iff A equals it, C iff A is below it, H iff A's low nibble is
    /// below its low nibble, and N is set.
    pub fn cp(&mut self, bus: &Peripherals, src: Operand8)
        requires
            bus.wf(),
            ro8_req(old(self).ctx, src),
        ensures
            *final(self) == cp_tr(*old(self), bus@, src),
            final(self).regs.a == old(self).regs.a,
            final(self).regs.b == old(self).regs.b,
            final(self).regs.c == old(self).regs.c,
            final(self).regs.d == old(self).regs.d,
            final(self).regs.e == old(self).regs.e,
            final(self).regs.sp == old(self).regs.sp,
            old(self).regs.wf() ==> final(self).regs.wf(),
            old(self).ctx.step == 0 ==> (read8_tr(*old(self), bus@, src).1 matches Step::Ready(v)
                ==> {
                &&& zf_of(final(self).regs.f) == (old(self).regs.a == v)
                &&& nf_of(final(self).regs.f)
                &&& hf_of(final(self).regs.f) == ((old(self).regs.a & 0x0f) < (v & 0x0f))
                &&& cf_of(final(self).regs.f) == (old(self).regs.a < v)
            }),
    {
        if self.ctx.step == 0 {
            match self.read8(bus, src) {
                Step::Pending => (),
                Step::Ready(v) => {
                    proof {
                        lemma_cp_flags(self.regs.f, self.regs.a, v);
                    }
                    let result: u8 = self.regs.a.wrapping_sub(v);
                    let hf: bool = (self.regs.a & 0x0f) < (v & 0x0f);
                    let cf: bool = self.regs.a < v;
                    self.regs.set_zf(result == 0);
                    self.regs.set_nf(true);
                    self.regs.set_hf(hf);
                    self.regs.set_cf(cf);
                    if matches!(src, Operand8::Reg(_)) {
                        self.fetch(bus);
                    } else {
                        self.ctx.step = 1;
                    }
                },
            }
        } else {
            self.ctx.step = 0;
            self.fetch(bus);
        }
    }

    /// One tick of an 8-bit `INC src`; the carry flag is never altered.
    pub fn inc(&mut self, bus: &mut Peripherals, src: Operand8)
        requires
            old(bus).wf(),
            rmw8_req(old(self).ctx, src),
        ensures
            (*final(self), final(bus)@) == inc_tr(*old(self), old(bus)@, src),
            final(bus).wf(),
            cf_of(final(self).regs.f) == cf_of(old(self).regs.f),
            old(self).regs.wf() ==> final(self).regs.wf(),
    {
        if self.ctx.step == 0 {
            match self.read8(bus, src) {
                Step::Pending => (),
                Step::Ready(v) => {
                    proof {
                        lemma_inc_flags(self.regs.f, v);
                    }
                    let result: u8 = v.wrapping_add(1);
                    self.regs.set_zf(result == 0);
                    self.regs.set_nf(false);
                    self.regs.set_hf(v & 0x0f == 0x0f);
                    if matches!(src, Operand8::Reg(_)) {
                        let _ = self.write8(bus, src, result);
                        self.ctx.step = 2;
                    } else {
                        self.ctx.val8 = result;
                        self.ctx.step = 1;
                    }
                },
            }
        } else if self.ctx.step == 1 {
            let v: u8 = self.ctx.val8;
            match self.write8(bus, src, v) {
                Step::Pending => (),
                Step::Ready(_) => {
                    self.ctx.step = 2;
                },
            }
        } else {
            self.ctx.step = 0;
            self.fetch(bus);
        }
    }

    /// One tick of an 8-bit `DEC src`; the carry flag is never altered.
    pub fn dec(&mut self, bus: &mut Peripherals, src: Operand8)
        requires
            old(bus).wf(),
            rmw8_req(old(self).ctx, src),
        ensures
            (*final(self), final(bus)@) == dec_tr(*old(self), old(bus)@, src),
            final(bus).wf(),
            cf_of(final(self).regs.f) == cf_of(old(self).regs.f),
            old(self).regs.wf() ==> final(self).regs.wf(),
    {
        if self.ctx.step == 0 {
            match self.read8(bus, src) {
                Step::Pending => (),
                Step::Ready(v) => {
                    proof {
                        lemma_dec_flags(self.regs.f, v);
                    }
                    let result: u8 = v.wrapping_sub(1);
                    self.regs.set_zf(result == 0);
                    self.regs.set_nf(true);
                    self.regs.set_hf(v & 0x0f == 0);
                    if matches!(src, Operand8::Reg(_)) {
                        let _ = self.write8(bus, src, result);
                        self.ctx.step = 2;
                    } else {
                        self.ctx.val8 = result;
                        self.ctx.step = 1;
                    }
                },
            }
        } else if self.ctx.step == 1 {
            let v: u8 = self.ctx.val8;
            match self.write8(bus, src, v) {
                Step::Pending => (),
                Step::Ready(_) => {
                    self.ctx.step = 2;
                },
            }
        } else {
            self.ctx.step = 0;
            self.fetch(bus);
        }
    }

    /// One tick of a 16-bit `INC src`; the increment computes no flags.
    pub fn inc16(&mut self, bus: &mut Peripherals, src: Operand16)
        requires
            old(bus).wf(),
            rmw16_req(old(self).ctx, src),
        ensures
            (*final(self), final(bus)@) == inc16_tr(*old(self), old(bus)@, src),
            final(bus).wf(),
    {
        if self.ctx.step == 0 {
            match self.read16(bus, src) {
                Step::Pending => (),
                Step::Ready(v) => {
                    self.ctx.val16 = v.wrapping_add(1);
                    self.ctx.step = 1;
                },
            }
        } else if self.ctx.step == 1 {
            let v: u16 = self.ctx.val16;
            match self.write16(bus, src, v) {
                Step::Pending => (),
                Step::Ready(_) => {
                    self.ctx.step = 2;
                },
            }
        } else {
            self.ctx.step = 0;
            self.fetch(bus);
        }
    }

    /// One tick of a 16-bit `DEC src`; the decrement computes no flags.
    pub fn dec16(&mut self, bus: &mut Peripherals, src: Operand16)
        requires
            old(bus).wf(),
            rmw16_req(old(self).ctx, src),
        ensures
            (*final(self), final(bus)@) == dec16_tr(*old(self), old(bus)@, src),
            final(bus).wf(),
    {
        if self.ctx.step == 0 {
            match self.read16(bus, src) {
                Step::Pending => (),
                Step::Ready(v) => {
                    self.ctx.val16 = v.wrapping_sub(1);
                    self.ctx.step = 1;
                },
            }
        } else if self.ctx.step == 1 {
            let v: u16 = self.ctx.val16;
            match self.write16(bus, src, v) {
                Step::Pending => (),
                Step::Ready(_) => {
                    self.ctx.step = 2;
                },
            }
        } else {
            self.ctx.step = 0;
            self.fetch(bus);
        }
    }

    /// One tick of `RL src`: the incoming carry becomes bit 0, the old
    /// bit 7 becomes the outgoing carry.
    pub fn rl(&mut self, bus: &mut Peripherals, src: Operand8)
        requires
            old(bus).wf(),
            rmw8_req(old(self).ctx, src),
        ensures
            (*final(self), final(bus)@) == rl_tr(*old(self), old(bus)@, src),
            final(bus).wf(),
            old(self).regs.wf() ==> final(self).regs.wf(),
    {
        if self.ctx.step == 0 {
            match self.read8(bus, src) {
                Step::Pending => (),
                Step::Ready(v) => {
                    proof {
                        lemma_rl_flags(self.regs.f, v);
                    }
                    let carry_in: u8 = if self.regs.cf() {
                        1
                    } else {
                        0
                    };
                    let result: u8 = (v << 1) | carry_in;
                    self.regs.set_zf(result == 0);
                    self.regs.set_nf(false);
                    self.regs.set_hf(false);
                    self.regs.set_cf(v & 0x80 > 0);
                    if matches!(src, Operand8::Reg(_)) {
                        let _ = self.write8(bus, src, result);
                        self.ctx.step = 2;
                    } else {
                        self.ctx.val8 = result;
                        self.ctx.step = 1;
                    }
                },
            }
        } else if self.ctx.step == 1 {
            let v: u8 = self.ctx.val8;
            match self.write8(bus, src, v) {
                Step::Pending => (),
                Step::Ready(_) => {
                    self.ctx.step = 2;
                },
            }
        } else {
            self.ctx.step = 0;
            self.fetch(bus);
        }
    }

    /// One tick of `BIT b, src`: non-destructive, and the carry flag is
    /// never altered; no general register moves except HL under a
    /// post-increment or post-decrement operand.  On the tick the operand
    /// completes, Z is clear iff bit `b` of the value is set, H is set
    /// and N cleared.
    pub fn bit(&mut self, bus: &Peripherals, bit: u8, src: Operand8)
        requires
            bus.wf(),
            bit <= 7,
            ro8_req(old(self).ctx, src),
        ensures
            *final(self) == bit_tr(*old(self), bus@, bit, src),
            cf_of(final(self).regs.f) == cf_of(old(self).regs.f),
            final(self).regs.a == old(self).regs.a,
            final(self).regs.b == old(self).regs.b,
            final(self).regs.c == old(self).regs.c,
            final(self).regs.d == old(self).regs.d,
            final(self).regs.e == old(self).regs.e,
            final(self).regs.sp == old(self).regs.sp,
            old(self).regs.wf() ==> final(self).regs.wf(),
            old(self).ctx.step == 0 ==> (read8_tr(*old(self), bus@, src).1 matches Step::Ready(v)
                ==> {
                &&& zf_of(final(self).regs.f) == (v & (1u8 << bit) == 0)
                &&& !nf_of(final(self).regs.f)
                &&& hf_of(final(self).regs.f)
            }),
    {
        if self.ctx.step == 0 {
            match self.read8(bus, src) {
                Step::Pending => (),
                Step::Ready(v) => {
                    proof {
                        lemma_bit_flags(self.regs.f, bit, v);
                    }
                    let masked: u8 = v & (1u8 << bit);
                    self.regs.set_zf(masked == 0);
                    self.regs.set_nf(false);
                    self.regs.set_hf(true);
                    if matches!(src, Operand8::Reg(_)) {
                        self.fetch(bus);
                    } else {
                        self.ctx.step = 1;
                    }
                },
            }
        } else {
            self.ctx.step = 0;
            self.fetch(bus);
        }
    }

    /// One tick of the `PUSH16` micro-sequence.  Over its four ticks the
    /// high byte lands one below the starting SP, the low byte one below
    /// that, and SP ends exactly two lower.
    pub fn push16(&mut self, bus: &mut Peripherals, val: u16) -> (r: Step<()>)
        requires
            old(bus).wf(),
            push16_req(old(self).ctx),
        ensures
            (*final(self), final(bus)@, r) == push16_tr(*old(self), old(bus)@, val),
            final(bus).wf(),
    {
        if self.ctx.op_step == 0 {
            self.ctx.op_step = 1;
            Step::Pending
        } else if self.ctx.op_step == 1 {
            let hi: u8 = (val >> 8) as u8;
            let lo: u8 = (val & 0xff) as u8;
            self.regs.sp = self.regs.sp.wrapping_sub(1);
            bus.write(self.regs.sp, hi);
            self.ctx.op_val8 = lo;
            self.ctx.op_step = 2;
            Step::Pending
        } else if self.ctx.op_step == 2 {
            self.regs.sp = self.regs.sp.wrapping_sub(1);
            let lo: u8 = self.ctx.op_val8;
            bus.write(self.regs.sp, lo);
            self.ctx.op_step = 3;
            Step::Pending
        } else {
            self.ctx.op_step = 0;
            Step::Ready(())
        }
    }

    /// One tick of `PUSH reg16`.
    pub fn push(&mut self, bus: &mut Peripherals, src: Reg16)
        requires
            old(bus).wf(),
            push_req(old(self).ctx),
        ensures
            (*final(self), final(bus)@) == push_tr(*old(self), old(bus)@, src),
            final(bus).wf(),
    {
        if self.ctx.step == 0 {
            let v: u16 = match src {
                Reg16::AF => self.regs.af(),
                Reg16::BC => self.regs.bc(),
                Reg16::DE => self.regs.de(),
                Reg16::HL => self.regs.hl(),
                Reg16::SP => self.regs.sp,
            };
            self.ctx.val16 = v;
            self.ctx.step = 1;
        } else if self.ctx.step == 1 {
            let v: u16 = self.ctx.val16;
            match self.push16(bus, v) {
                Step::Pending => (),
                Step::Ready(_) => {
                    self.ctx.step = 2;
                },
            }
        } else {
            self.ctx.step = 0;
            self.fetch(bus);
        }
    }

    /// One tick of `JR cond, offset`.  The offset byte is consumed on the
    /// first tick in all cases; a failed condition leaves only the fetch
    /// tick (no extra jump tick), a met condition spends one more tick
    /// adding the signed offset to PC before the fetch.
    pub fn jr_c(&mut self, bus: &mut Peripherals, c: Cond)
        requires
            old(bus).wf(),
            jr_req(old(self).ctx),
        ensures
            *final(self) == jr_c_tr(*old(self), old(bus)@, c),
            *final(bus) == *old(bus),
            old(self).ctx.step == 0 ==> final(self).regs.pc == old(self).regs.pc.wrapping_add(1),
            old(self).ctx.step == 0 && !cond_holds(old(self).regs.f, c) ==> final(self).ctx.step
                == 2,
            old(self).ctx.step == 0 && cond_holds(old(self).regs.f, c) ==> final(self).ctx.step
                == 1,
            old(self).ctx.step == 1 ==> final(self).regs.pc == old(self).regs.pc.wrapping_add(
                sign_ext(old(self).ctx.val8),
            ) && final(self).ctx.step == 2,
            old(self).ctx.step == 2 ==> final(self).regs.pc == old(self).regs.pc.wrapping_add(1)
                && final(self).ctx.step == 0,
    {
        if self.ctx.step == 0 {
            let v: u8 = self.imm_byte(bus);
            let taken: bool = match c {
                Cond::NZ => !self.regs.zf(),
                Cond::Z => self.regs.zf(),
                Cond::NC => !self.regs.cf(),
                Cond::C => self.regs.cf(),
            };
            if taken {
                self.ctx.val8 = v;
                self.ctx.step = 1;
            } else {
                self.ctx.step = 2;
            }
        } else if self.ctx.step == 1 {
            let off: u16 = if self.ctx.val8 >= 0x80 {
                (self.ctx.val8 as u16) | 0xff00
            } else {
                self.ctx.val8 as u16
            };
            self.regs.pc = self.regs.pc.wrapping_add(off);
            self.ctx.step = 2;
        } else {
            self.ctx.step = 0;
            self.fetch(bus);
        }
    }
}

} // verus!
