//! An interpreter core for the classic 8-bit "CHIP-8" virtual machine: opcode
//! decoding, register arithmetic, the memory map, sprite drawing with collision
//! detection, the key latch and the two countdown timers.
//!
//! Every executable function is verified against a model of the machine: the
//! `*_spec` functions say what each operation does, and `laws` proves
//! properties that tie several operations together. Faults that a real
//! machine would stop on are returned as `Err(Fault)`, never panics.

pub mod fault;
pub mod decoder;
pub mod registers;
pub mod input;
pub mod video;
pub mod mem;
pub mod cpu;
pub mod emulator;
pub mod laws;
pub mod disasm;

pub use cpu::Cpu;
pub use decoder::{decode, Operation, Value};
pub use emulator::Emulator;
pub use fault::Fault;
pub use input::Input;
pub use mem::Memory;
pub use video::Video;
