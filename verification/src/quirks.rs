use vstd::prelude::*;

verus! {

/// The points on which historical interpreters of this instruction set
/// diverge, as named toggles. Program compatibility depends on matching
/// the variant a program was written against, so the host may flip them
/// before running.
#[derive(Clone, Copy, Debug, PartialEq, Eq, Structural)]
pub struct Quirks {
    /// Whether `8xy1`, `8xy2` and `8xy3` reset the flag register.
    pub vf_reset: bool,
    /// Whether `8xy6` and `8xyE` shift register `y` (rather than
    /// register `x`) into register `x`.
    pub shift_reads_y: bool,
    /// Whether `Fx55` and `Fx65` move the index register past the
    /// transferred range.
    pub increment_i: bool,
}

impl Quirks {
    /// The behavior of the original COSMAC-era interpreter: bitwise
    /// operations reset the flag register, shifts read register `y`,
    /// and register-file transfers move the index register.
    pub fn original_interpreter() -> (r: Self)
        ensures
            r.vf_reset,
            r.shift_reads_y,
            r.increment_i,
    {
        Quirks { vf_reset: true, shift_reads_y: true, increment_i: true }
    }

    /// The behavior of many later interpreters: the flag register is
    /// left alone by bitwise operations, shifts read register `x`, and
    /// register-file transfers leave the index register in place.
    pub fn modern_interpreter() -> (r: Self)
        ensures
            !r.vf_reset,
            !r.shift_reads_y,
            !r.increment_i,
    {
        Quirks { vf_reset: false, shift_reads_y: false, increment_i: false }
    }
}

} // verus!
