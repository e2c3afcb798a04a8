use vstd::prelude::*;

verus! {

/// An integer reduced into an 8-bit register, as wrapping arithmetic leaves it.
pub open spec fn wrap8(n: int) -> u8 {
    (n % 256) as u8
}

/// An integer reduced into a 16-bit register, as wrapping arithmetic leaves it.
pub open spec fn wrap16(n: int) -> u16 {
    (n % 0x10000) as u16
}

} // verus!
