//! Functional emulator core for an ARMv7-M Thumb/Thumb-2 processor.
//!
//! The crate models the instruction pipeline of a Cortex-M4 class core:
//! bit-level primitives, a decoder from raw Thumb halfwords to a compact
//! intermediate operation format, a program-counter keyed instruction cache,
//! the CPU state (registers, APSR flags, IT state), a memory bus with flash,
//! SRAM and peripheral banks, the exclusive-access monitor, and an executor
//! that interprets intermediate operations against that state.

pub mod audio;
pub mod bits;
pub mod board;
pub mod bytecode;
pub mod cpu;
pub mod elf;
pub mod exec_narrow;
pub mod exec_wide;
pub mod memory;
pub mod monitor;
pub mod narrow;
pub mod opcode;
pub mod rcc;
pub mod server;
pub mod tag;
pub mod text;
pub mod wide;
