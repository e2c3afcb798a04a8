use vstd::prelude::*;

verus! {

// An instruction word packs its operands into fixed bit fields:
//   nnn or addr - a 12-bit value, the lowest 12 bits of the instruction
//   n or nibble - a 4-bit value, the lowest 4 bits of the instruction
//   x           - a 4-bit value, the lower 4 bits of the high byte
//   y           - a 4-bit value, the upper 4 bits of the low byte
//   kk or byte  - an 8-bit value, the lowest 8 bits of the instruction

/// The 12-bit address field of an instruction word.
pub open spec fn spec_nnn(w: u16) -> u16 {
    w & 0x0fff
}

/// The low nibble of an instruction word.
pub open spec fn spec_n(w: u16) -> u8 {
    (w & 0x000f) as u8
}

/// The second-highest nibble of an instruction word: a register index.
pub open spec fn spec_x(w: u16) -> u8 {
    ((w & 0x0f00) >> 8) as u8
}

/// The second-lowest nibble of an instruction word: a register index.
pub open spec fn spec_y(w: u16) -> u8 {
    ((w & 0x00f0) >> 4) as u8
}

/// The low byte of an instruction word.
pub open spec fn spec_kk(w: u16) -> u8 {
    (w & 0x00ff) as u8
}

pub fn nnn(instruction: u16) -> (r: u16)
    ensures
        r == spec_nnn(instruction),
        r == instruction % 0x1000,
        r < 0x1000,
{
    proof {
        assert(instruction & 0x0fff == instruction % 0x1000 && instruction & 0x0fff < 0x1000)
            by (bit_vector);
    }
    instruction & 0x0fff
}

pub fn n(instruction: u16) -> (r: u8)
    ensures
        r == spec_n(instruction),
        r == instruction % 0x10,
        r < 0x10,
{
    proof {
        assert((instruction & 0x000f) as u8 == instruction % 0x10 && instruction & 0x000f < 0x10)
            by (bit_vector);
    }
    (instruction & 0x000f) as u8
}

pub fn x(instruction: u16) -> (r: u8)
    ensures
        r == spec_x(instruction),
        r == (instruction / 0x100) % 0x10,
        r < 0x10,
{
    proof {
        assert(((instruction & 0x0f00) >> 8) as u8 == (instruction / 0x100) % 0x10
            && (instruction & 0x0f00) >> 8 < 0x10) by (bit_vector);
    }
    ((instruction & 0x0f00) >> 8) as u8
}

pub fn y(instruction: u16) -> (r: u8)
    ensures
        r == spec_y(instruction),
        r == (instruction / 0x10) % 0x10,
        r < 0x10,
{
    proof {
        assert(((instruction & 0x00f0) >> 4) as u8 == (instruction / 0x10) % 0x10
            && (instruction & 0x00f0) >> 4 < 0x10) by (bit_vector);
    }
    ((instruction & 0x00f0) >> 4) as u8
}

pub fn kk(instruction: u16) -> (r: u8)
    ensures
        r == spec_kk(instruction),
        r == instruction % 0x100,
        r < 0x100,
{
    proof {
        assert((instruction & 0x00ff) as u8 == instruction % 0x100) by (bit_vector);
    }
    (instruction & 0x00ff) as u8
}

} // verus!
