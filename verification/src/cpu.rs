use vstd::prelude::*;

use crate::arith::wrap16;
use crate::fill::filled;

verus! {

/// How many general-purpose registers the machine has.
pub const REGISTER_COUNT: usize = 16;

/// The address at which loaded programs begin, and where the program
/// counter starts.
pub const PROGRAM_START_ADDRESS: usize = 0x200;

/// The register file and the two address-sized registers of the machine.
pub struct Cpu {
    pub v: GeneralRegisters,
    pub i: IRegister,
    pub pc: ProgramCounter,
}

impl Cpu {
    pub fn new() -> (r: Self)
        ensures
            r.v@ == Seq::new(16, |i: int| 0u8),
            r.i@ == 0u16,
            r.pc@ == 0x200u16,
    {
        Cpu { v: GeneralRegisters(filled(0, REGISTER_COUNT)), i: IRegister(0), pc: ProgramCounter(
            0x200,
        ) }
    }
}

/// The sixteen 8-bit general-purpose registers, indexed 0x0 through 0xF.
/// Register 0xF doubles as the flag register for carry, borrow and
/// collision results.
pub struct GeneralRegisters(Vec<u8>);

impl View for GeneralRegisters {
    type V = Seq<u8>;

    closed spec fn view(&self) -> Seq<u8> {
        self.0@
    }
}

impl GeneralRegisters {
    pub open spec fn wf(&self) -> bool {
        self@.len() == 16
    }

    pub fn set(&mut self, index: u8, value: u8)
        requires
            old(self).wf(),
            index < 16,
        ensures
            final(self)@ == old(self)@.update(index as int, value),
    {
        self.0.set(index as usize, value);
    }

    pub fn get(&self, index: u8) -> (r: u8)
        requires
            self.wf(),
            index < 16,
        ensures
            r == self@[index as int],
    {
        self.0[index as usize]
    }
}

/// The 16-bit index register, used as the base address of sprite and
/// register-file transfers.
pub struct IRegister(u16);

impl View for IRegister {
    type V = u16;

    closed spec fn view(&self) -> u16 {
        self.0
    }
}

impl IRegister {
    pub fn set(&mut self, value: u16)
        ensures
            final(self)@ == value,
    {
        self.0 = value;
    }

    pub fn get(&self) -> (r: u16)
        ensures
            r == self@,
    {
        self.0
    }
}

/// The 16-bit program counter. Every instruction is two bytes wide, so
/// sequential execution advances it by two.
pub struct ProgramCounter(u16);

impl View for ProgramCounter {
    type V = u16;

    closed spec fn view(&self) -> u16 {
        self.0
    }
}

impl ProgramCounter {
    pub fn set(&mut self, address: u16)
        ensures
            final(self)@ == address,
    {
        self.0 = address;
    }

    pub fn get(&self) -> (r: u16)
        ensures
            r == self@,
    {
        self.0
    }

    pub fn advance(&mut self)
        ensures
            final(self)@ == wrap16(old(self)@ + 2),
    {
        self.0 = self.0.wrapping_add(2);
    }
}

} // verus!
