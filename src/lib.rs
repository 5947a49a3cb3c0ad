//! Instruction-execution core of a 6502-family processor: addressing modes,
//! arithmetic and logic with their flags, the stack, calls and interrupts,
//! all over a flat 64K byte address space.
pub mod bits;
pub mod flags;
pub mod semantics;
pub mod state;
pub mod cpu;
pub mod decode;
pub mod laws;

pub use cpu::CPU2A03;
pub use flags::Flags;
pub use state::Operand;
