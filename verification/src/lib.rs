//! Instruction-execution core of an 8-bit, 6502-class microprocessor.
//!
//! The crate models the register file, the status register, a flat 64 KiB
//! byte-addressable memory, and a fetch-decode-execute interpreter, and
//! proves that the executable interpreter follows the specification-level
//! transition function `model::spec_step` instruction by instruction.

pub mod cpu;
pub mod flags;
pub mod laws;
pub mod model;
pub mod opcodes;

pub use cpu::EmuError;
pub use cpu::Observer;
pub use cpu::Mem;
pub use cpu::CPU;
pub use cpu::LOAD_BASE;
pub use flags::Status;
pub use model::Machine;
pub use model::StepOutcome;
pub use opcodes::AddressingMode;
pub use opcodes::Mnemonic;
pub use opcodes::OpCode;
