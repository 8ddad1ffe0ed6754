//! The CPU instance: the register file plus the execution context that
//! carries the latched opcode and all in-flight micro-step state.
//!
//! Each instruction handler and addressing-mode operator advances one
//! micro-step per call and parks its progress here, so several CPU
//! instances can run side by side without sharing any state.

use vstd::prelude::*;
use crate::registers::Registers;

verus! {

/// Per-instance execution context.
///
/// `opcode` and `cb` identify the instruction in flight.  The remaining
/// fields are its resumable progress: `step`/`val8`/`val16` belong to the
/// instruction handler, `op_step`/`op_val8`/`op_val16` to a multi-tick
/// operand operator it drives.  A field is meaningful only while the
/// level that owns it is mid-sequence; every level resets its own step
/// counter to zero on the tick that completes it.
#[derive(Clone, Copy, Debug)]
pub struct Ctx {
    pub opcode: u8,
    pub cb: bool,
    pub step: u8,
    pub val8: u8,
    pub val16: u16,
    pub op_step: u8,
    pub op_val8: u8,
    pub op_val16: u16,
}

impl Default for Ctx {
    fn default() -> (r: Self)
        ensures
            r == (Ctx {
                opcode: 0,
                cb: false,
                step: 0,
                val8: 0,
                val16: 0,
                op_step: 0,
                op_val8: 0,
                op_val16: 0,
            }),
    {
        Ctx { opcode: 0, cb: false, step: 0, val8: 0, val16: 0, op_step: 0, op_val8: 0, op_val16: 0 }
    }
}

/// One emulated CPU: registers and private execution context.
pub struct Cpu {
    pub regs: Registers,
    pub ctx: Ctx,
}

} // verus!
