//! An instruction-level Intel 8080 interpreter core.
//!
//! The library models the CPU state (registers, flags, stack pointer,
//! program counter, a flat 64 KiB memory) and executes one instruction
//! per call of [`cpu::emulate_instruction`], reproducing the documented
//! register, flag, memory and control-flow effects of each opcode.
//! Instructions outside the supported set surface a typed fault instead
//! of being executed.

pub mod bytes;
pub mod cond;
pub mod mem;
pub mod state;
pub mod cpu;
