use vstd::prelude::*;

verus! {

/// The conditions under which the machine cannot go on.
///
/// Every fault is final: the program that raised it has no defined
/// continuation, so no operation offers a way to skip past one.
#[derive(Clone, Copy, Debug, PartialEq, Eq, Structural)]
pub enum Fault {
    /// The glyph table handed to the loader is not exactly 80 bytes long.
    BadFontset,
    /// The program image does not fit between the program origin and the end of memory.
    ProgramTooLarge,
    /// A call was made with sixteen return addresses already on the stack.
    StackOverflow,
    /// A return was made with no return address on the stack.
    StackUnderflow,
    /// The fetched word matches no instruction.
    UnknownOpcode,
    /// An instruction would read or write memory outside `0..4096`.
    AddressOutOfRange,
    /// A register used as a key number holds a value outside `0..16`.
    BadKey,
    /// A register used as a glyph digit holds a value outside `0..16`.
    BadDigit,
}

} // verus!
