//! Instruction-set core of an 8-bit LR35902-class CPU: register file, flat
//! memory bus, arithmetic-logic routines, opcode decoding and the
//! fetch-decode-execute step.

pub mod alu;
pub mod cpu;
pub mod instruction;
pub mod memorybus;
pub mod register;

pub use cpu::{Cpu, CpuError};
pub use memorybus::MemoryBus;
pub use register::{CpuFlags, Pair, Reg8, Registers};
