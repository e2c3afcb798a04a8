use vstd::prelude::*;

verus! {

/// The conditions on which the virtual machine refuses to continue.
///
/// `RomTooLarge` is recoverable: the machine is left untouched and another
/// image may be loaded. The remaining variants indicate a malformed program
/// or a corrupted session; they are reported to the host instead of
/// aborting the process, and the machine state is left as it was before
/// the failing step.
#[derive(Clone, Copy, Debug, PartialEq, Eq, Structural)]
pub enum Chip8Error {
    /// A program image longer than the space above the reserved region.
    RomTooLarge,
    /// A memory access outside the 4096-byte address space.
    AddressOutOfBounds,
    /// A seventeenth return address pushed onto the call stack.
    StackOverflow,
    /// A return executed with no call outstanding.
    StackUnderflow,
    /// An instruction word matching none of the documented forms.
    UnknownOpcode(u16),
    /// A font sprite requested for a value above 0xF.
    InvalidSpriteDigit(u8),
}

} // verus!
