//! A verified CHIP-8 virtual machine core.
//!
//! The crate has two components: the opcode decoder, a pure function from a
//! 16-bit instruction word to a tagged [`opcodes::Instruction`] value, and the
//! [`chip8::Chip8`] machine, which owns all CPU state (memory, registers,
//! stack, timers, keypad, display) and executes one instruction per cycle.

pub mod chip8;
pub mod display;
pub mod opcodes;

pub use chip8::Chip8;
pub use chip8::Chip8Error;
pub use chip8::CycleOutcome;
pub use opcodes::decode;
pub use opcodes::nnn;
pub use opcodes::x;
pub use opcodes::y;
pub use opcodes::kk;
pub use opcodes::n;
pub use opcodes::Instruction;
