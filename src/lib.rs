//! A fixed-width bytecode virtual machine: sixteen 16-bit registers, 8 KiB of memory and a
//! program of 4-byte instructions, run one step at a time.
pub mod laws;
pub mod machine;
pub mod opcode;

pub use machine::{State, VmError};
pub use opcode::Opcode;
