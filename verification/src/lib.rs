pub mod arith;
pub mod cpu;
pub mod display;
pub mod error;
mod fill;
pub mod keyboard;
pub mod memory;
pub mod parser;
pub mod quirks;
pub mod stack;
pub mod step;
pub mod timers;

use vstd::prelude::*;

use crate::cpu::Cpu;
use crate::display::{blank, Display};
use crate::error::Chip8Error;
use crate::keyboard::Keyboard;
use crate::memory::{fontset, loaded, Memory, MEMORY_SIZE};
use crate::quirks::Quirks;
use crate::stack::Stack;
use crate::step::{
    bcd_rel, bitwise_rel, call_rel, clear_rel, draw_rel, fetch_ok, fetch_spec, jump_rel,
    jump_v0_rel, key_down, load_regs_rel, loaded_regs, random_rel, ret_rel, set_delay_rel,
    set_i_rel, set_reg_rel, set_reg_vf_rel, set_sound_rel, shl_rel, shr_rel, skip_rel, State,
    step_err, step_ok, step_rel, store_regs_rel, stored_mem, tick_err, tick_ok, wait_key_rel,
};
use crate::timers::{Timer, Timers};

verus! {

/// The machine state every component starts in: font in low memory, the
/// program counter at the program start address, everything else zeroed
/// and released.
pub open spec fn initial_state() -> State {
    State {
        regs: Seq::new(16, |i: int| 0u8),
        i: 0u16,
        pc: 0x200u16,
        stack: Seq::<u16>::empty(),
        mem: fontset() + Seq::new(4016, |i: int| 0u8),
        disp: blank(),
        keys: Seq::new(16, |i: int| false),
        delay: 0u8,
        sound: 0u8,
        quirks: Quirks { vf_reset: true, shift_reads_y: true, increment_i: true },
    }
}

/// The virtual machine: registers, call stack, memory, framebuffer, key
/// latch and timers, driven one fetch-decode-execute step at a time. The
/// host drives `tick` and `timers.tick` on independent clocks, feeds
/// `keyboard` and reads `display`.
pub struct Chip8 {
    pub cpu: Cpu,
    pub stack: Stack,
    pub memory: Memory,
    pub display: Display,
    pub keyboard: Keyboard,
    pub timers: Timers,
    pub quirks: Quirks,
}

/// Relies on `rand::random`: one byte from the thread-local generator.
/// Nothing is promised of its value; the caller states what holds of
/// every outcome.
#[verifier::external_body]
fn random_byte() -> u8 {
    rand::random::<u8>()
}

impl Chip8 {
    /// The machine as mathematics: the snapshot the contracts relate.
    pub open spec fn st(self) -> State {
        State {
            regs: self.cpu.v@,
            i: self.cpu.i@,
            pc: self.cpu.pc@,
            stack: self.stack@,
            mem: self.memory@,
            disp: self.display@,
            keys: self.keyboard@,
            delay: self.timers.spec_delay(),
            sound: self.timers.spec_sound(),
            quirks: self.quirks,
        }
    }

    pub open spec fn wf(self) -> bool {
        &&& self.cpu.v.wf()
        &&& self.stack.wf()
        &&& self.memory.wf()
        &&& self.display.wf()
        &&& self.keyboard.wf()
    }

    pub fn new() -> (r: Self)
        ensures
            r.wf(),
            r.st() == initial_state(),
    {
        let r = Chip8 {
            cpu: Cpu::new(),
            stack: Stack::new(),
            memory: Memory::new(),
            display: Display::new(),
            keyboard: Keyboard::new(),
            timers: Timers::new(),
            quirks: Quirks::original_interpreter(),
        };
        proof {
            assert(r.st() =~= initial_state());
        }
        r
    }

    /// Load a program image; an oversize image is refused and the
    /// machine is left exactly as it was.
    pub fn load_rom(&mut self, bytes: &[u8]) -> (r: Result<(), Chip8Error>)
        requires
            old(self).wf(),
        ensures
            final(self).wf(),
            r is Ok <==> bytes@.len() <= 3584,
            r is Ok ==> final(self).st() == (State {
                mem: loaded(old(self).st().mem, bytes@),
                ..old(self).st()
            }),
            r is Err ==> final(self).st() == old(self).st() && r == Err::<(), Chip8Error>(
                Chip8Error::RomTooLarge,
            ),
    {
        self.memory.load_rom(bytes)
    }

    /// One fetch-decode-execute step. A fatal condition is reported and
    /// leaves the machine exactly as it was.
    pub fn tick(&mut self) -> (r: Result<(), Chip8Error>)
        requires
            old(self).wf(),
        ensures
            final(self).wf(),
            r is Ok <==> tick_ok(old(self).st()),
            r is Ok ==> step_rel(old(self).st(), fetch_spec(old(self).st()), final(self).st()),
            r is Err ==> final(self).st() == old(self).st() && r == Err::<(), Chip8Error>(
                tick_err(old(self).st()),
            ),
    {
        let instruction = match self.fetch() {
            Ok(w) => w,
            Err(e) => {
                return Err(e);
            },
        };
        self.execute(instruction)
    }

    /// The two bytes at the program counter, big-endian, as one
    /// instruction word; fatal when they lie past the end of memory.
    pub fn fetch(&self) -> (r: Result<u16, Chip8Error>)
        requires
            self.wf(),
        ensures
            r is Ok <==> fetch_ok(self.st()),
            r is Ok ==> r == Ok::<u16, Chip8Error>(fetch_spec(self.st())),
            r is Err ==> r == Err::<u16, Chip8Error>(Chip8Error::AddressOutOfBounds),
    {
        let pc = self.cpu.pc.get() as usize;
        if pc + 2 > MEMORY_SIZE {
            return Err(Chip8Error::AddressOutOfBounds);
        }
        let hi = self.memory.get(pc);
        let lo = self.memory.get(pc + 1);
        Ok((hi as u16) * 256 + (lo as u16))
    }

    /// Dispatch one instruction word to its handler. A word matching no
    /// documented form, or a handler's fatal condition, is reported with
    /// the machine left exactly as it was.
    pub fn execute(&mut self, instruction: u16) -> (r: Result<(), Chip8Error>)
        requires
            old(self).wf(),
        ensures
            final(self).wf(),
            r is Ok <==> step_ok(old(self).st(), instruction),
            r is Ok ==> step_rel(old(self).st(), instruction, final(self).st()),
            r is Err ==> final(self).st() == old(self).st() && r == Err::<(), Chip8Error>(
                step_err(old(self).st(), instruction),
            ),
    {
        match instruction & 0xf000 {
            0x0000 => match instruction {
                0x00e0 => {
                    self.op_clear_display();
                    Ok(())
                },
                0x00ee => self.op_return_from_subroutine(),
                _ => Err(Chip8Error::UnknownOpcode(instruction)),
            },
            0x1000 => {
                self.op_jump(parser::nnn(instruction));
                Ok(())
            },
            0x2000 => self.op_call(parser::nnn(instruction)),
            0x3000 => {
                self.op_skip_equal(parser::x(instruction), parser::kk(instruction));
                Ok(())
            },
            0x4000 => {
                self.op_skip_not_equal(parser::x(instruction), parser::kk(instruction));
                Ok(())
            },
            0x5000 => match instruction & 0x000f {
                0x0 => {
                    self.op_skip_equal_registers(parser::x(instruction), parser::y(instruction));
                    Ok(())
                },
                _ => Err(Chip8Error::UnknownOpcode(instruction)),
            },
            0x6000 => {
                self.op_load_value(parser::x(instruction), parser::kk(instruction));
                Ok(())
            },
            0x7000 => {
                self.op_add_value(parser::x(instruction), parser::kk(instruction));
                Ok(())
            },
            0x8000 => match instruction & 0x000f {
                0x0 => {
                    self.op_load_register(parser::x(instruction), parser::y(instruction));
                    Ok(())
                },
                0x1 => {
                    self.op_bitwise_or(parser::x(instruction), parser::y(instruction));
                    Ok(())
                },
                0x2 => {
                    self.op_bitwise_and(parser::x(instruction), parser::y(instruction));
                    Ok(())
                },
                0x3 => {
                    self.op_bitwise_xor(parser::x(instruction), parser::y(instruction));
                    Ok(())
                },
                0x4 => {
                    self.op_add_register(parser::x(instruction), parser::y(instruction));
                    Ok(())
                },
                0x5 => {
                    self.op_subtract_register(parser::x(instruction), parser::y(instruction));
                    Ok(())
                },
                0x6 => {
                    self.op_shift_right(parser::x(instruction), parser::y(instruction));
                    Ok(())
                },
                0x7 => {
                    self.op_subtract_negative(parser::x(instruction), parser::y(instruction));
                    Ok(())
                },
                0xe => {
                    self.op_shift_left(parser::x(instruction), parser::y(instruction));
                    Ok(())
                },
                _ => Err(Chip8Error::UnknownOpcode(instruction)),
            },
            0x9000 => match instruction & 0x000f {
                0x0 => {
                    self.op_skip_not_equal_registers(
                        parser::x(instruction),
                        parser::y(instruction),
                    );
                    Ok(())
                },
                _ => Err(Chip8Error::UnknownOpcode(instruction)),
            },
            0xa000 => {
                self.op_set_i_register(parser::nnn(instruction));
                Ok(())
            },
            0xb000 => {
                self.op_jump_to_v0_plus_addr(parser::nnn(instruction));
                Ok(())
            },
            0xc000 => {
                self.op_random(parser::x(instruction), parser::kk(instruction));
                Ok(())
            },
            0xd000 => self.op_display_sprite(
                parser::x(instruction),
                parser::y(instruction),
                parser::n(instruction),
            ),
            0xe000 => match instruction & 0x00ff {
                0x9e => {
                    self.op_skip_key_pressed(parser::x(instruction));
                    Ok(())
                },
                0xa1 => {
                    self.op_skip_key_not_pressed(parser::x(instruction));
                    Ok(())
                },
                _ => Err(Chip8Error::UnknownOpcode(instruction)),
            },
            0xf000 => match instruction & 0x00ff {
                0x07 => {
                    self.op_load_delay_timer(parser::x(instruction));
                    Ok(())
                },
                0x0a => {
                    self.op_wait_for_key_press(parser::x(instruction));
                    Ok(())
                },
                0x15 => {
                    self.op_set_delay_timer(parser::x(instruction));
                    Ok(())
                },
                0x18 => {
                    self.op_set_sound_timer(parser::x(instruction));
                    Ok(())
                },
                0x1e => {
                    self.op_add_i(parser::x(instruction));
                    Ok(())
                },
                0x29 => self.op_set_sprite_location(parser::x(instruction)),
                0x33 => self.op_load_bcd(parser::x(instruction)),
                0x55 => self.op_store_registers(parser::x(instruction)),
                0x65 => self.op_load_registers(parser::x(instruction)),
                _ => Err(Chip8Error::UnknownOpcode(instruction)),
            },
            _ => Err(Chip8Error::UnknownOpcode(instruction)),
        }
    }

    /// `00E0`: clear the display.
    pub fn op_clear_display(&mut self)
        requires
            old(self).wf(),
        ensures
            final(self).wf(),
            clear_rel(old(self).st(), final(self).st()),
    {
        self.display.clear();
        self.cpu.pc.advance();
    }

    /// `00EE`: return from a subroutine; fatal on an empty stack.
    pub fn op_return_from_subroutine(&mut self) -> (r: Result<(), Chip8Error>)
        requires
            old(self).wf(),
        ensures
            final(self).wf(),
            r is Ok <==> old(self).st().stack.len() > 0,
            r is Ok ==> ret_rel(old(self).st(), final(self).st()),
            r is Err ==> final(self).st() == old(self).st() && r == Err::<(), Chip8Error>(
                Chip8Error::StackUnderflow,
            ),
    {
        match self.stack.pop() {
            Ok(address) => {
                self.cpu.pc.set(address);
                Ok(())
            },
            Err(e) => Err(e),
        }
    }

    /// `1nnn`: jump.
    pub fn op_jump(&mut self, address: u16)
        requires
            old(self).wf(),
        ensures
            final(self).wf(),
            jump_rel(old(self).st(), final(self).st(), address),
    {
        self.cpu.pc.set(address);
    }

    /// `2nnn`: call a subroutine; fatal on a full stack.
    pub fn op_call(&mut self, address: u16) -> (r: Result<(), Chip8Error>)
        requires
            old(self).wf(),
        ensures
            final(self).wf(),
            r is Ok <==> old(self).st().stack.len() < 16,
            r is Ok ==> call_rel(old(self).st(), final(self).st(), address),
            r is Err ==> final(self).st() == old(self).st() && r == Err::<(), Chip8Error>(
                Chip8Error::StackOverflow,
            ),
    {
        let return_address = self.cpu.pc.get().wrapping_add(2);
        match self.stack.push(return_address) {
            Ok(()) => {
                self.cpu.pc.set(address);
                Ok(())
            },
            Err(e) => Err(e),
        }
    }

    /// `3xkk`: skip the next instruction when register `x` equals `kk`.
    pub fn op_skip_equal(&mut self, x: u8, byte: u8)
        requires
            old(self).wf(),
            x < 16,
        ensures
            final(self).wf(),
            skip_rel(old(self).st(), final(self).st(), old(self).st().regs[x as int] == byte),
    {
        if self.cpu.v.get(x) == byte {
            self.cpu.pc.advance();
        }
        self.cpu.pc.advance();
    }

    /// `4xkk`: skip the next instruction when register `x` differs from
    /// `kk`.
    pub fn op_skip_not_equal(&mut self, x: u8, byte: u8)
        requires
            old(self).wf(),
            x < 16,
        ensures
            final(self).wf(),
            skip_rel(old(self).st(), final(self).st(), old(self).st().regs[x as int] != byte),
    {
        if self.cpu.v.get(x) != byte {
            self.cpu.pc.advance();
        }
        self.cpu.pc.advance();
    }

    /// `5xy0`: skip the next instruction when registers `x` and `y` are
    /// equal.
    pub fn op_skip_equal_registers(&mut self, x: u8, y: u8)
        requires
            old(self).wf(),
            x < 16,
            y < 16,
        ensures
            final(self).wf(),
            skip_rel(
                old(self).st(),
                final(self).st(),
                old(self).st().regs[x as int] == old(self).st().regs[y as int],
            ),
    {
        if self.cpu.v.get(x) == self.cpu.v.get(y) {
            self.cpu.pc.advance();
        }
        self.cpu.pc.advance();
    }

    /// `6xkk`: load `kk` into register `x`.
    pub fn op_load_value(&mut self, x: u8, value: u8)
        requires
            old(self).wf(),
            x < 16,
        ensures
            final(self).wf(),
            set_reg_rel(old(self).st(), final(self).st(), x as int, value),
    {
        self.cpu.v.set(x, value);
        self.cpu.pc.advance();
    }

    /// `7xkk`: add `kk` into register `x`, wrapping, without touching
    /// the flag register.
    pub fn op_add_value(&mut self, x: u8, value: u8)
        requires
            old(self).wf(),
            x < 16,
        ensures
            final(self).wf(),
            set_reg_rel(
                old(self).st(),
                final(self).st(),
                x as int,
                crate::arith::wrap8(old(self).st().regs[x as int] + value),
            ),
    {
        self.cpu.v.set(x, self.cpu.v.get(x).wrapping_add(value));
        self.cpu.pc.advance();
    }

    /// `8xy0`: copy register `y` into register `x`.
    pub fn op_load_register(&mut self, x: u8, y: u8)
        requires
            old(self).wf(),
            x < 16,
            y < 16,
        ensures
            final(self).wf(),
            set_reg_rel(old(self).st(), final(self).st(), x as int, old(self).st().regs[y as int]),
    {
        self.cpu.v.set(x, self.cpu.v.get(y));
        self.cpu.pc.advance();
    }

    /// `8xy1`: bitwise OR of registers `x` and `y` into register `x`;
    /// under the reset quirk the flag register is cleared as well.
    pub fn op_bitwise_or(&mut self, x: u8, y: u8)
        requires
            old(self).wf(),
            x < 16,
            y < 16,
        ensures
            final(self).wf(),
            bitwise_rel(
                old(self).st(),
                final(self).st(),
                x as int,
                old(self).st().regs[x as int] | old(self).st().regs[y as int],
            ),
    {
        self.cpu.v.set(x, self.cpu.v.get(x) | self.cpu.v.get(y));
        if self.quirks.vf_reset {
            self.cpu.v.set(0xf, 0);
        }
        self.cpu.pc.advance();
    }

    /// `8xy2`: bitwise AND of registers `x` and `y` into register `x`;
    /// under the reset quirk the flag register is cleared as well.
    pub fn op_bitwise_and(&mut self, x: u8, y: u8)
        requires
            old(self).wf(),
            x < 16,
            y < 16,
        ensures
            final(self).wf(),
            bitwise_rel(
                old(self).st(),
                final(self).st(),
                x as int,
                old(self).st().regs[x as int] & old(self).st().regs[y as int],
            ),
    {
        self.cpu.v.set(x, self.cpu.v.get(x) & self.cpu.v.get(y));
        if self.quirks.vf_reset {
            self.cpu.v.set(0xf, 0);
        }
        self.cpu.pc.advance();
    }

    /// `8xy3`: bitwise XOR of registers `x` and `y` into register `x`;
    /// under the reset quirk the flag register is cleared as well.
    pub fn op_bitwise_xor(&mut self, x: u8, y: u8)
        requires
            old(self).wf(),
            x < 16,
            y < 16,
        ensures
            final(self).wf(),
            bitwise_rel(
                old(self).st(),
                final(self).st(),
                x as int,
                old(self).st().regs[x as int] ^ old(self).st().regs[y as int],
            ),
    {
        self.cpu.v.set(x, self.cpu.v.get(x) ^ self.cpu.v.get(y));
        if self.quirks.vf_reset {
            self.cpu.v.set(0xf, 0);
        }
        self.cpu.pc.advance();
    }

    /// `8xy4`: add register `y` into register `x`, wrapping; the flag
    /// register reports the carry.
    pub fn op_add_register(&mut self, x: u8, y: u8)
        requires
            old(self).wf(),
            x < 16,
            y < 16,
        ensures
            final(self).wf(),
            set_reg_vf_rel(
                old(self).st(),
                final(self).st(),
                x as int,
                crate::arith::wrap8(old(self).st().regs[x as int] + old(self).st().regs[y as int]),
                if old(self).st().regs[x as int] + old(self).st().regs[y as int] > 255 {
                    1u8
                } else {
                    0u8
                },
            ),
    {
        let sum = self.cpu.v.get(x) as u16 + self.cpu.v.get(y) as u16;
        self.cpu.v.set(x, (sum % 256) as u8);
        self.cpu.v.set(
            0xf,
            if sum > 255 {
                1
            } else {
                0
            },
        );
        self.cpu.pc.advance();
    }

    /// `8xy5`: subtract register `y` from register `x`, wrapping; the
    /// flag register reports the absence of a borrow.
    pub fn op_subtract_register(&mut self, x: u8, y: u8)
        requires
            old(self).wf(),
            x < 16,
            y < 16,
        ensures
            final(self).wf(),
            set_reg_vf_rel(
                old(self).st(),
                final(self).st(),
                x as int,
                crate::arith::wrap8(old(self).st().regs[x as int] - old(self).st().regs[y as int]),
                if old(self).st().regs[x as int] >= old(self).st().regs[y as int] {
                    1u8
                } else {
                    0u8
                },
            ),
    {
        let vf_value = self.cpu.v.get(x) >= self.cpu.v.get(y);
        self.cpu.v.set(x, self.cpu.v.get(x).wrapping_sub(self.cpu.v.get(y)));
        self.cpu.v.set(
            0xf,
            if vf_value {
                1
            } else {
                0
            },
        );
        self.cpu.pc.advance();
    }

    /// `8xy6`: shift right by one into register `x`; the flag register
    /// receives the bit shifted out. The source is register `y` or
    /// register `x` by quirk.
    pub fn op_shift_right(&mut self, x: u8, y: u8)
        requires
            old(self).wf(),
            x < 16,
            y < 16,
        ensures
            final(self).wf(),
            shr_rel(old(self).st(), final(self).st(), x as int, y as int),
    {
        let value = if self.quirks.shift_reads_y {
            self.cpu.v.get(y)
        } else {
            self.cpu.v.get(x)
        };
        proof {
            assert(value >> 1u8 == value / 2 && value & 1 == value % 2) by (bit_vector);
        }
        self.cpu.v.set(x, value >> 1u8);
        self.cpu.v.set(0xf, value & 1);
        self.cpu.pc.advance();
    }

    /// `8xy7`: subtract register `x` from register `y` into register
    /// `x`, wrapping; the flag register reports the absence of a borrow.
    pub fn op_subtract_negative(&mut self, x: u8, y: u8)
        requires
            old(self).wf(),
            x < 16,
            y < 16,
        ensures
            final(self).wf(),
            set_reg_vf_rel(
                old(self).st(),
                final(self).st(),
                x as int,
                crate::arith::wrap8(old(self).st().regs[y as int] - old(self).st().regs[x as int]),
                if old(self).st().regs[y as int] >= old(self).st().regs[x as int] {
                    1u8
                } else {
                    0u8
                },
            ),
    {
        let vf_value = self.cpu.v.get(y) >= self.cpu.v.get(x);
        self.cpu.v.set(x, self.cpu.v.get(y).wrapping_sub(self.cpu.v.get(x)));
        self.cpu.v.set(
            0xf,
            if vf_value {
                1
            } else {
                0
            },
        );
        self.cpu.pc.advance();
    }

    /// `8xyE`: shift left by one into register `x`, wrapping; the flag
    /// register receives the bit shifted out. The source is register `y`
    /// or register `x` by quirk.
    pub fn op_shift_left(&mut self, x: u8, y: u8)
        requires
            old(self).wf(),
            x < 16,
            y < 16,
        ensures
            final(self).wf(),
            shl_rel(old(self).st(), final(self).st(), x as int, y as int),
    {
        let value = if self.quirks.shift_reads_y {
            self.cpu.v.get(y)
        } else {
            self.cpu.v.get(x)
        };
        proof {
            assert(value << 1u8 == (2 * value) % 256 && (value >> 7u8) & 1 == value / 128)
                by (bit_vector);
        }
        self.cpu.v.set(x, value << 1u8);
        self.cpu.v.set(0xf, (value >> 7u8) & 1);
        self.cpu.pc.advance();
    }

    /// `9xy0`: skip the next instruction when registers `x` and `y`
    /// differ.
    pub fn op_skip_not_equal_registers(&mut self, x: u8, y: u8)
        requires
            old(self).wf(),
            x < 16,
            y < 16,
        ensures
            final(self).wf(),
            skip_rel(
                old(self).st(),
                final(self).st(),
                old(self).st().regs[x as int] != old(self).st().regs[y as int],
            ),
    {
        if self.cpu.v.get(x) != self.cpu.v.get(y) {
            self.cpu.pc.advance();
        }
        self.cpu.pc.advance();
    }

    /// `Annn`: load the index register.
    pub fn op_set_i_register(&mut self, addr: u16)
        requires
            old(self).wf(),
        ensures
            final(self).wf(),
            set_i_rel(old(self).st(), final(self).st(), addr),
    {
        self.cpu.i.set(addr);
        self.cpu.pc.advance();
    }

    /// `Bnnn`: jump to `addr` plus register 0.
    pub fn op_jump_to_v0_plus_addr(&mut self, addr: u16)
        requires
            old(self).wf(),
            addr < 0x1000,
        ensures
            final(self).wf(),
            jump_v0_rel(old(self).st(), final(self).st(), addr),
    {
        self.cpu.pc.set(self.cpu.v.get(0) as u16 + addr);
    }

    /// `Cxkk` with the drawn byte in hand: register `x` receives the
    /// byte masked by `kk`. Everything after the draw is verified for
    /// every value of the byte, and a fixed byte makes the instruction
    /// reproducible.
    pub fn op_random_with(&mut self, x: u8, byte: u8, drawn: u8)
        requires
            old(self).wf(),
            x < 16,
        ensures
            final(self).wf(),
            set_reg_rel(old(self).st(), final(self).st(), x as int, drawn & byte),
    {
        self.cpu.v.set(x, drawn & byte);
        self.cpu.pc.advance();
    }

    /// `Cxkk`: draw a fresh random byte and load it, masked by `kk`,
    /// into register `x`.
    pub fn op_random(&mut self, x: u8, byte: u8)
        requires
            old(self).wf(),
            x < 16,
        ensures
            final(self).wf(),
            random_rel(old(self).st(), final(self).st(), x as int, byte),
    {
        let b = random_byte();
        proof {
            assert((b & byte) & !byte == 0) by (bit_vector);
        }
        self.op_random_with(x, byte, b);
    }

    /// `Dxyn`: blit the sprite at the index register to the coordinates
    /// held in registers `x` and `y`; fatal when the sprite bytes run
    /// past the end of memory.
    pub fn op_display_sprite(&mut self, x: u8, y: u8, size: u8) -> (r: Result<(), Chip8Error>)
        requires
            old(self).wf(),
            x < 16,
            y < 16,
            size <= 15,
        ensures
            final(self).wf(),
            r is Ok <==> old(self).st().i + size <= 4096,
            r is Ok ==> draw_rel(old(self).st(), final(self).st(), x as int, y as int, size),
            r is Err ==> final(self).st() == old(self).st() && r == Err::<(), Chip8Error>(
                Chip8Error::AddressOutOfBounds,
            ),
    {
        let i = self.cpu.i.get() as usize;
        if i + size as usize > MEMORY_SIZE {
            return Err(Chip8Error::AddressOutOfBounds);
        }
        let pos_x = self.cpu.v.get(x) as usize;
        let pos_y = self.cpu.v.get(y) as usize;
        let collision = self.display.display_sprite(
            pos_x,
            pos_y,
            self.memory.get_slice(i, size as usize),
        );
        self.cpu.v.set(
            0xf,
            if collision {
                1
            } else {
                0
            },
        );
        self.cpu.pc.advance();
        Ok(())
    }

    /// `Ex9E`: skip the next instruction when the key named by register
    /// `x` is held.
    pub fn op_skip_key_pressed(&mut self, x: u8)
        requires
            old(self).wf(),
            x < 16,
        ensures
            final(self).wf(),
            skip_rel(old(self).st(), final(self).st(), key_down(old(self).st(), x as int)),
    {
        let key = self.cpu.v.get(x);
        if self.keyboard.is_pressed(key) {
            self.cpu.pc.advance();
        }
        self.cpu.pc.advance();
    }

    /// `ExA1`: skip the next instruction when the key named by register
    /// `x` is not held.
    pub fn op_skip_key_not_pressed(&mut self, x: u8)
        requires
            old(self).wf(),
            x < 16,
        ensures
            final(self).wf(),
            skip_rel(old(self).st(), final(self).st(), !key_down(old(self).st(), x as int)),
    {
        let key = self.cpu.v.get(x);
        if !self.keyboard.is_pressed(key) {
            self.cpu.pc.advance();
        }
        self.cpu.pc.advance();
    }

    /// `Fx07`: copy the delay timer into register `x`.
    pub fn op_load_delay_timer(&mut self, x: u8)
        requires
            old(self).wf(),
            x < 16,
        ensures
            final(self).wf(),
            set_reg_rel(old(self).st(), final(self).st(), x as int, old(self).st().delay),
    {
        let value = self.timers.get(Timer::Delay);
        self.cpu.v.set(x, value);
        self.cpu.pc.advance();
    }

    /// `Fx0A`: when a key is held, store the lowest one in register `x`
    /// and advance; otherwise leave everything untouched, so the same
    /// instruction polls again on the next tick.
    pub fn op_wait_for_key_press(&mut self, x: u8)
        requires
            old(self).wf(),
            x < 16,
        ensures
            final(self).wf(),
            wait_key_rel(old(self).st(), final(self).st(), x as int),
    {
        if let Some(key) = self.keyboard.get_pressed_key() {
            self.cpu.v.set(x, key);
            self.cpu.pc.advance();
        }
    }

    /// `Fx15`: load the delay timer from register `x`.
    pub fn op_set_delay_timer(&mut self, x: u8)
        requires
            old(self).wf(),
            x < 16,
        ensures
            final(self).wf(),
            set_delay_rel(old(self).st(), final(self).st(), old(self).st().regs[x as int]),
    {
        let value = self.cpu.v.get(x);
        self.timers.set(Timer::Delay, value);
        self.cpu.pc.advance();
    }

    /// `Fx18`: load the sound timer from register `x`.
    pub fn op_set_sound_timer(&mut self, x: u8)
        requires
            old(self).wf(),
            x < 16,
        ensures
            final(self).wf(),
            set_sound_rel(old(self).st(), final(self).st(), old(self).st().regs[x as int]),
    {
        let value = self.cpu.v.get(x);
        self.timers.set(Timer::Sound, value);
        self.cpu.pc.advance();
    }

    /// `Fx1E`: add register `x` into the index register, wrapping.
    pub fn op_add_i(&mut self, x: u8)
        requires
            old(self).wf(),
            x < 16,
        ensures
            final(self).wf(),
            set_i_rel(
                old(self).st(),
                final(self).st(),
                crate::arith::wrap16(old(self).st().i + old(self).st().regs[x as int]),
            ),
    {
        let value = self.cpu.v.get(x) as u16;
        self.cpu.i.set(self.cpu.i.get().wrapping_add(value));
        self.cpu.pc.advance();
    }

    /// `Fx29`: point the index register at the built-in sprite for the
    /// digit in register `x`; fatal when the register holds more than a
    /// digit.
    pub fn op_set_sprite_location(&mut self, x: u8) -> (r: Result<(), Chip8Error>)
        requires
            old(self).wf(),
            x < 16,
        ensures
            final(self).wf(),
            r is Ok <==> old(self).st().regs[x as int] <= 0xf,
            r is Ok ==> set_i_rel(
                old(self).st(),
                final(self).st(),
                (5 * old(self).st().regs[x as int]) as u16,
            ),
            r is Err ==> final(self).st() == old(self).st() && r == Err::<(), Chip8Error>(
                Chip8Error::InvalidSpriteDigit(old(self).st().regs[x as int]),
            ),
    {
        let digit = self.cpu.v.get(x);
        if digit > 0xf {
            return Err(Chip8Error::InvalidSpriteDigit(digit));
        }
        let address = self.memory.get_sprite_address(digit);
        self.cpu.i.set(address as u16);
        self.cpu.pc.advance();
        Ok(())
    }

    /// `Fx33`: store the three decimal digits of register `x` at the
    /// index register; fatal when they would run past the end of memory.
    pub fn op_load_bcd(&mut self, x: u8) -> (r: Result<(), Chip8Error>)
        requires
            old(self).wf(),
            x < 16,
        ensures
            final(self).wf(),
            r is Ok <==> old(self).st().i + 3 <= 4096,
            r is Ok ==> bcd_rel(old(self).st(), final(self).st(), x as int),
            r is Err ==> final(self).st() == old(self).st() && r == Err::<(), Chip8Error>(
                Chip8Error::AddressOutOfBounds,
            ),
    {
        let i = self.cpu.i.get() as usize;
        if i + 3 > MEMORY_SIZE {
            return Err(Chip8Error::AddressOutOfBounds);
        }
        let value = self.cpu.v.get(x);
        self.memory.set(i, (value / 100) % 10);
        self.memory.set(i + 1, (value / 10) % 10);
        self.memory.set(i + 2, value % 10);
        self.cpu.pc.advance();
        Ok(())
    }

    /// `Fx55`: spill registers 0 through `x` to memory at the index
    /// register, which moves past them under the increment quirk; fatal
    /// when the range would run past the end of memory.
    pub fn op_store_registers(&mut self, x: u8) -> (r: Result<(), Chip8Error>)
        requires
            old(self).wf(),
            x < 16,
        ensures
            final(self).wf(),
            r is Ok <==> old(self).st().i + x < 4096,
            r is Ok ==> store_regs_rel(old(self).st(), final(self).st(), x as int),
            r is Err ==> final(self).st() == old(self).st() && r == Err::<(), Chip8Error>(
                Chip8Error::AddressOutOfBounds,
            ),
    {
        let i = self.cpu.i.get() as usize;
        if i + x as usize >= MEMORY_SIZE {
            return Err(Chip8Error::AddressOutOfBounds);
        }
        let mut idx: u8 = 0;
        while idx <= x
            invariant
                self.wf(),
                old(self).wf(),
                x < 16,
                0 <= idx <= x + 1,
                i == old(self).st().i,
                i + x < 4096,
                self.cpu == old(self).cpu,
                self.stack == old(self).stack,
                self.display == old(self).display,
                self.keyboard == old(self).keyboard,
                self.timers == old(self).timers,
                self.quirks == old(self).quirks,
                forall|a: int|
                    0 <= a < 4096 ==> self.memory@[a] == if i <= a < i + idx {
                        old(self).st().regs[a - i]
                    } else {
                        old(self).st().mem[a]
                    },
            decreases x + 1 - idx,
        {
            let value = self.cpu.v.get(idx);
            self.memory.set(i + idx as usize, value);
            idx = idx + 1;
        }
        proof {
            assert(self.memory@ =~= stored_mem(
                old(self).st().mem,
                old(self).st().regs,
                i as int,
                x as int,
            ));
        }
        if self.quirks.increment_i {
            self.cpu.i.set((i + x as usize + 1) as u16);
        }
        self.cpu.pc.advance();
        Ok(())
    }

    /// `Fx65`: fill registers 0 through `x` from memory at the index
    /// register, which moves past them under the increment quirk; fatal
    /// when the range would run past the end of memory.
    pub fn op_load_registers(&mut self, x: u8) -> (r: Result<(), Chip8Error>)
        requires
            old(self).wf(),
            x < 16,
        ensures
            final(self).wf(),
            r is Ok <==> old(self).st().i + x < 4096,
            r is Ok ==> load_regs_rel(old(self).st(), final(self).st(), x as int),
            r is Err ==> final(self).st() == old(self).st() && r == Err::<(), Chip8Error>(
                Chip8Error::AddressOutOfBounds,
            ),
    {
        let i = self.cpu.i.get() as usize;
        if i + x as usize >= MEMORY_SIZE {
            return Err(Chip8Error::AddressOutOfBounds);
        }
        let mut idx: u8 = 0;
        while idx <= x
            invariant
                self.wf(),
                old(self).wf(),
                x < 16,
                0 <= idx <= x + 1,
                i == old(self).st().i,
                i + x < 4096,
                self.cpu.i == old(self).cpu.i,
                self.cpu.pc == old(self).cpu.pc,
                self.stack == old(self).stack,
                self.memory == old(self).memory,
                self.display == old(self).display,
                self.keyboard == old(self).keyboard,
                self.timers == old(self).timers,
                self.quirks == old(self).quirks,
                forall|j: int|
                    0 <= j < 16 ==> self.cpu.v@[j] == if 0 <= j < idx {
                        old(self).st().mem[i + j]
                    } else {
                        old(self).st().regs[j]
                    },
            decreases x + 1 - idx,
        {
            let value = self.memory.get(i + idx as usize);
            self.cpu.v.set(idx, value);
            idx = idx + 1;
        }
        proof {
            assert(self.cpu.v@ =~= loaded_regs(
                old(self).st().regs,
                old(self).st().mem,
                i as int,
                x as int,
            ));
        }
        if self.quirks.increment_i {
            self.cpu.i.set((i + x as usize + 1) as u16);
        }
        self.cpu.pc.advance();
        Ok(())
    }
}

} // verus!
