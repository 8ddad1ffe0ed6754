//! Laws the core obeys, stated over the same spec functions the
//! executable contracts use and proved once and for all inputs.

use vstd::prelude::*;
use crate::cpu::Cpu;
use crate::instructions::{
    dec_flags, inc_flags, push16_tr, rl_carry, rl_val, lemma_dec_flags, lemma_inc_flags,
};
use crate::operand::Step;
use crate::peripherals::{lemma_write_read, BusView};
use crate::registers::{hf_of, hi8, lo8, pair16, zf_of, lemma_pair16_split};

verus! {

/// An 8-bit `INC` followed by a `DEC` (or the other way round) restores
/// the value, for every byte; the flags of each step follow that step's
/// own rule, and the wrap-arounds at 0xff and 0x00 set the half-carry.
pub proof fn lemma_inc_dec_restore(f: u8, v: u8)
    ensures
        v.wrapping_add(1).wrapping_sub(1) == v,
        v.wrapping_sub(1).wrapping_add(1) == v,
        zf_of(inc_flags(f, v)) == (v == 0xff),
        zf_of(dec_flags(f, v)) == (v == 1),
        hf_of(inc_flags(f, v)) == (v & 0x0f == 0x0f),
        hf_of(dec_flags(f, v)) == (v & 0x0f == 0),
        hf_of(inc_flags(f, 0xff)),
        hf_of(dec_flags(f, 0x00)),
{
    lemma_inc_flags(f, v);
    lemma_dec_flags(f, v);
    lemma_inc_flags(f, 0xff);
    lemma_dec_flags(f, 0x00);
    assert(0xffu8 & 0x0fu8 == 0x0fu8 && 0x00u8 & 0x0fu8 == 0x00u8) by (bit_vector);
}

/// `RL` is a bijection on (byte, incoming carry): the rotated byte and the
/// outgoing carry determine the original byte and carry exactly.
pub proof fn lemma_rl_bijective(v1: u8, c1: bool, v2: u8, c2: bool)
    requires
        rl_val(v1, c1) == rl_val(v2, c2),
        rl_carry(v1) == rl_carry(v2),
    ensures
        v1 == v2,
        c1 == c2,
{
    assert(v1 == v2 && c1 == c2) by (bit_vector)
        requires
            rl_val(v1, c1) == rl_val(v2, c2),
            rl_carry(v1) == rl_carry(v2),
    ;
}

/// The explicit inverse behind the bijection: the original byte is read
/// back from the rotated byte and outgoing carry, and the incoming carry
/// survives as bit 0 of the rotated byte.
pub proof fn lemma_rl_inverse(v: u8, c: bool)
    ensures
        (rl_val(v, c) >> 1) | (if rl_carry(v) {
            0x80u8
        } else {
            0u8
        }) == v,
        (rl_val(v, c) & 1 != 0) == c,
{
    assert((rl_val(v, c) >> 1) | (if rl_carry(v) {
        0x80u8
    } else {
        0u8
    }) == v && (rl_val(v, c) & 1 != 0) == c) by (bit_vector);
}

/// Byte and carry form a nine-bit ring under `RL`, so nine rotations --
/// not eight -- restore any starting byte and carry exactly.
pub proof fn lemma_rl_full_rotation(v: u8, c: bool)
    ensures
        ({
            let v1 = rl_val(v, c);
            let c1 = rl_carry(v);
            let v2 = rl_val(v1, c1);
            let c2 = rl_carry(v1);
            let v3 = rl_val(v2, c2);
            let c3 = rl_carry(v2);
            let v4 = rl_val(v3, c3);
            let c4 = rl_carry(v3);
            let v5 = rl_val(v4, c4);
            let c5 = rl_carry(v4);
            let v6 = rl_val(v5, c5);
            let c6 = rl_carry(v5);
            let v7 = rl_val(v6, c6);
            let c7 = rl_carry(v6);
            let v8 = rl_val(v7, c7);
            let c8 = rl_carry(v7);
            rl_val(v8, c8) == v && rl_carry(v8) == c
        }),
{
    let v1 = rl_val(v, c);
    let c1 = rl_carry(v);
    let v2 = rl_val(v1, c1);
    let c2 = rl_carry(v1);
    let v3 = rl_val(v2, c2);
    let c3 = rl_carry(v2);
    let v4 = rl_val(v3, c3);
    let c4 = rl_carry(v3);
    let v5 = rl_val(v4, c4);
    let c5 = rl_carry(v4);
    let v6 = rl_val(v5, c5);
    let c6 = rl_carry(v5);
    let v7 = rl_val(v6, c6);
    let c7 = rl_carry(v6);
    let v8 = rl_val(v7, c7);
    let c8 = rl_carry(v7);
    assert(rl_val(v8, c8) == v && rl_carry(v8) == c) by (bit_vector)
        requires
            v1 == rl_val(v, c),
            c1 == rl_carry(v),
            v2 == rl_val(v1, c1),
            c2 == rl_carry(v1),
            v3 == rl_val(v2, c2),
            c3 == rl_carry(v2),
            v4 == rl_val(v3, c3),
            c4 == rl_carry(v3),
            v5 == rl_val(v4, c4),
            c5 == rl_carry(v4),
            v6 == rl_val(v5, c5),
            c6 == rl_carry(v5),
            v7 == rl_val(v6, c6),
            c7 == rl_carry(v6),
            v8 == rl_val(v7, c7),
            c8 == rl_carry(v7),
    ;
}

/// A completed `PUSH16` of `v` leaves SP exactly two lower, with the two
/// memory cells just below the pre-push SP reconstructing `v` in
/// little-endian order, whenever both cells are plain RAM.
pub proof fn lemma_push16_reconstructs(cpu: Cpu, bus: BusView, v: u16)
    requires
        cpu.ctx.op_step == 0,
        bus.wf(),
        BusView::writable(cpu.regs.sp.wrapping_sub(1)),
        BusView::writable(cpu.regs.sp.wrapping_sub(2)),
    ensures
        ({
            let (c1, b1, r1) = push16_tr(cpu, bus, v);
            let (c2, b2, r2) = push16_tr(c1, b1, v);
            let (c3, b3, r3) = push16_tr(c2, b2, v);
            let (c4, b4, r4) = push16_tr(c3, b3, v);
            &&& r4 == Step::<()>::Ready(())
            &&& c4.regs.sp == cpu.regs.sp.wrapping_sub(2)
            &&& b4.read_at(cpu.regs.sp.wrapping_sub(2)) == lo8(v)
            &&& b4.read_at(cpu.regs.sp.wrapping_sub(1)) == hi8(v)
            &&& pair16(
                b4.read_at(cpu.regs.sp.wrapping_sub(1)),
                b4.read_at(cpu.regs.sp.wrapping_sub(2)),
            ) == v
        }),
{
    let a1 = cpu.regs.sp.wrapping_sub(1);
    let a2 = cpu.regs.sp.wrapping_sub(2);
    assert(a2 == a1.wrapping_sub(1));
    let b2 = bus.write_at(a1, hi8(v));
    let b3 = b2.write_at(a2, lo8(v));
    lemma_write_read(bus, a1, hi8(v), a2);
    lemma_write_read(b2, a2, lo8(v), a1);
    if 0xc000 <= a1 && a1 <= 0xfdff && 0xc000 <= a2 && a2 <= 0xfdff {
        assert((a2 & 0x1fff) != (a1 & 0x1fff)) by (bit_vector)
            requires
                0xc000 <= a1 && a1 <= 0xfdff && 0xc000 <= a2 && a2 <= 0xfdff && a2
                    == a1.wrapping_sub(1),
        ;
    }
    if 0xff80 <= a1 && a1 <= 0xfffe && 0xff80 <= a2 && a2 <= 0xfffe {
        assert((a2 & 0x7f) != (a1 & 0x7f)) by (bit_vector)
            requires
                0xff80 <= a1 && a1 <= 0xfffe && 0xff80 <= a2 && a2 <= 0xfffe && a2
                    == a1.wrapping_sub(1),
        ;
    }
    lemma_pair16_split(v, hi8(v), lo8(v));
}

} // verus!
