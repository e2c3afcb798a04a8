use vstd::prelude::*;

use crate::error::Chip8Error;
use crate::fill::filled;

verus! {

/// The size of the address space in bytes.
pub const MEMORY_SIZE: usize = 4096;

/// Where the built-in font sprites start.
pub const FONTSET_START_ADDRESS: usize = 0x0;

/// Where loaded programs start.
pub const PROGRAM_START_ADDRESS: usize = 0x200;

/// The sixteen built-in 5-byte hexadecimal digit sprites, packed in order
/// of the digit they draw.
pub open spec fn fontset() -> Seq<u8> {
    seq![
        0xF0u8, 0x90, 0x90, 0x90, 0xF0,  // 0
        0x20, 0x60, 0x20, 0x20, 0x70,  // 1
        0xF0, 0x10, 0xF0, 0x80, 0xF0,  // 2
        0xF0, 0x10, 0xF0, 0x10, 0xF0,  // 3
        0x90, 0x90, 0xF0, 0x10, 0x10,  // 4
        0xF0, 0x80, 0xF0, 0x10, 0xF0,  // 5
        0xF0, 0x80, 0xF0, 0x90, 0xF0,  // 6
        0xF0, 0x10, 0x20, 0x40, 0x40,  // 7
        0xF0, 0x90, 0xF0, 0x90, 0xF0,  // 8
        0xF0, 0x90, 0xF0, 0x10, 0xF0,  // 9
        0xF0, 0x90, 0xF0, 0x90, 0x90,  // A
        0xE0, 0x90, 0xE0, 0x90, 0xE0,  // B
        0xF0, 0x80, 0x80, 0x80, 0xF0,  // C
        0xE0, 0x90, 0x90, 0x90, 0xE0,  // D
        0xF0, 0x80, 0xF0, 0x80, 0xF0,  // E
        0xF0, 0x80, 0xF0, 0x80, 0x80,  // F
    ]
}

/// The contents of memory after a program image lands at the program
/// start address: the image bytes verbatim, everything else untouched.
pub open spec fn loaded(mem: Seq<u8>, bytes: Seq<u8>) -> Seq<u8> {
    Seq::new(mem.len(), |a: int|
        if 0x200 <= a < 0x200 + bytes.len() {
            bytes[a - 0x200]
        } else {
            mem[a]
        })
}

/// The 4096-byte address space. The font sprites occupy its lowest bytes
/// from construction on; programs are copied in at the program start
/// address.
pub struct Memory {
    cells: Vec<u8>,
}

impl View for Memory {
    type V = Seq<u8>;

    closed spec fn view(&self) -> Seq<u8> {
        self.cells@
    }
}

impl Memory {
    pub open spec fn wf(&self) -> bool {
        self@.len() == 4096
    }

    pub fn new() -> (r: Self)
        ensures
            r.wf(),
            r@ == fontset() + Seq::new(4016, |i: int| 0u8),
    {
        let font: [u8; 80] = [
            0xF0, 0x90, 0x90, 0x90, 0xF0, 0x20, 0x60, 0x20, 0x20, 0x70, 0xF0, 0x10, 0xF0, 0x80,
            0xF0, 0xF0, 0x10, 0xF0, 0x10, 0xF0, 0x90, 0x90, 0xF0, 0x10, 0x10, 0xF0, 0x80, 0xF0,
            0x10, 0xF0, 0xF0, 0x80, 0xF0, 0x90, 0xF0, 0xF0, 0x10, 0x20, 0x40, 0x40, 0xF0, 0x90,
            0xF0, 0x90, 0xF0, 0xF0, 0x90, 0xF0, 0x10, 0xF0, 0xF0, 0x90, 0xF0, 0x90, 0x90, 0xE0,
            0x90, 0xE0, 0x90, 0xE0, 0xF0, 0x80, 0x80, 0x80, 0xF0, 0xE0, 0x90, 0x90, 0x90, 0xE0,
            0xF0, 0x80, 0xF0, 0x80, 0xF0, 0xF0, 0x80, 0xF0, 0x80, 0x80,
        ];
        proof {
            assert(font@ =~= fontset());
        }
        let mut cells = filled(0u8, MEMORY_SIZE);
        let mut i: usize = 0;
        while i < 80
            invariant
                font@ == fontset(),
                cells@.len() == 4096,
                0 <= i <= 80,
                forall|a: int| 0 <= a < i ==> cells@[a] == fontset()[a],
                forall|a: int| i <= a < 4096 ==> cells@[a] == 0u8,
            decreases 80 - i,
        {
            cells.set(i, font[i]);
            i = i + 1;
        }
        let r = Memory { cells };
        proof {
            assert(r@ =~= fontset() + Seq::new(4016, |i: int| 0u8));
        }
        r
    }

    /// Copy a program image into memory starting at the program start
    /// address. An image longer than the space above that address is
    /// refused and memory is left unmodified.
    pub fn load_rom(&mut self, bytes: &[u8]) -> (r: Result<(), Chip8Error>)
        requires
            old(self).wf(),
        ensures
            final(self).wf(),
            r is Ok <==> bytes@.len() <= 3584,
            r is Ok ==> final(self)@ == loaded(old(self)@, bytes@),
            r is Err ==> final(self)@ == old(self)@ && r == Err::<(), Chip8Error>(
                Chip8Error::RomTooLarge,
            ),
    {
        if bytes.len() > MEMORY_SIZE - PROGRAM_START_ADDRESS {
            return Err(Chip8Error::RomTooLarge);
        }
        let mut i: usize = 0;
        while i < bytes.len()
            invariant
                self@.len() == 4096,
                bytes@.len() <= 3584,
                0 <= i <= bytes@.len(),
                forall|a: int|
                    0x200 <= a < 0x200 + i ==> self@[a] == bytes@[a - 0x200],
                forall|a: int|
                    0 <= a < 4096 && !(0x200 <= a < 0x200 + i) ==> self@[a] == old(self)@[a],
            decreases bytes@.len() - i,
        {
            self.cells.set(PROGRAM_START_ADDRESS + i, *vstd::slice::slice_index_get(bytes, i));
            i = i + 1;
        }
        proof {
            assert(self@ =~= loaded(old(self)@, bytes@));
        }
        Ok(())
    }

    pub fn set(&mut self, address: usize, value: u8)
        requires
            old(self).wf(),
            address < 4096,
        ensures
            final(self)@ == old(self)@.update(address as int, value),
    {
        self.cells.set(address, value);
    }

    pub fn get(&self, address: usize) -> (r: u8)
        requires
            self.wf(),
            address < 4096,
        ensures
            r == self@[address as int],
    {
        self.cells[address]
    }

    /// A read-only view of `size` contiguous bytes starting at
    /// `from_address`.
    pub fn get_slice(&self, from_address: usize, size: usize) -> (r: &[u8])
        requires
            self.wf(),
            from_address + size <= 4096,
        ensures
            r@ == self@.subrange(from_address as int, from_address + size),
    {
        vstd::slice::slice_subrange(self.cells.as_slice(), from_address, from_address + size)
    }

    /// Where the built-in sprite for a hexadecimal digit lives: five
    /// bytes per digit, from the start of memory.
    pub fn get_sprite_address(&self, digit: u8) -> (r: usize)
        requires
            digit <= 0xf,
        ensures
            r == digit * 5,
    {
        FONTSET_START_ADDRESS + digit as usize * 5
    }

    /// The five bytes of the built-in sprite for a hexadecimal digit.
    pub fn get_sprite(&self, digit: u8) -> (r: &[u8])
        requires
            self.wf(),
            digit <= 0xf,
        ensures
            r@ == self@.subrange(digit * 5, digit * 5 + 5),
    {
        let start_address = self.get_sprite_address(digit);
        self.get_slice(start_address, 5)
    }
}

} // verus!
