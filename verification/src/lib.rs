//! Instruction-execution core of a cycle-stepped 8-bit CPU.
//!
//! The crate models a Game-Boy-class processor core: a register file with
//! paired 16-bit views and a flag register, a small memory bus (boot overlay,
//! working RAM, high RAM), addressing-mode operators that read and write
//! operands one bus access per tick, instruction handlers layered over them,
//! and a fetch/decode controller.  Every operation is specified by a
//! mathematical transition function, and the executable code is proved to
//! implement it tick by tick.

pub mod cpu;
pub mod decode;
pub mod fetch;
pub mod instructions;
pub mod laws;
pub mod operand;
pub mod peripherals;
pub mod registers;
