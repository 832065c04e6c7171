use vstd::prelude::*;

verus! {

/// The ways in which loading or interpreting a program can fail.
#[derive(Clone, Copy, Debug, PartialEq, Eq, Structural)]
pub enum CpuError {
    /// The program image does not fit into program memory.
    ImageTooLarge,
    /// An instruction refers to memory beyond the last cell.
    AddressOutOfRange,
    /// A return was executed while the call stack was empty.
    StackUnderflow,
    /// A call was executed while the call stack was full.
    StackOverflow,
    /// The instruction word matches no instruction.
    InvalidOpcode,
}

} // verus!
