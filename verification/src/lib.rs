//! A byte-code interpreter for the CHIP-8 virtual machine.
//!
//! [`Cpu`] is the interpreter. It is made from a program image, steps
//! through the program one instruction at a time, and is driven from
//! outside: the driver ticks the timers, reports the keys and shows the
//! frame. What each operation does is stated over [`machine::Machine`], the
//! interpreter's mathematical view.

pub mod cpu;
pub mod display;
pub mod error;
pub mod font;
pub mod instruction;
pub mod laws;
pub mod machine;
pub mod screen;

pub use cpu::Cpu;
pub use error::CpuError;
pub use instruction::Instruction;
pub use machine::CpuState;
pub use screen::GraphicsConfig;
