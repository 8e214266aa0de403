use vstd::prelude::*;

verus! {

/// A fatal condition raised while executing an instruction. The machine must
/// not be stepped further once one has been returned.
#[derive(Clone, Copy, Debug, PartialEq, Eq, Structural)]
pub enum Fault {
    /// The word does not encode any instruction.
    DecodeError(u16),
    /// A call was made with sixteen return addresses already on the stack.
    StackOverflow,
    /// A return was made with no return address on the stack.
    StackUnderflow,
    /// An address at or beyond the end of the 4 KiB address space.
    AddressOutOfRange(u32),
    /// An access to one of the two reserved gaps of the address map.
    ReservedRegionAccess(u16),
    /// A write into the read-only glyph table.
    ReadOnlyWrite(u16),
    /// A glyph was asked for a value above 0xF.
    InvalidGlyphIndex(u8),
}

} // verus!
