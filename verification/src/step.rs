use vstd::prelude::*;

use crate::arith::{wrap16, wrap8};
use crate::display::{blank, draw_collision, draw_result};
use crate::error::Chip8Error;
use crate::keyboard::lowest_pressed;
use crate::parser::{spec_kk, spec_n, spec_nnn, spec_x, spec_y};
use crate::quirks::Quirks;

verus! {

/// A mathematical snapshot of the whole machine: what every contract of
/// the execution engine speaks about.
#[verifier::ext_equal]
pub ghost struct State {
    /// The sixteen general-purpose registers.
    pub regs: Seq<u8>,
    /// The index register.
    pub i: u16,
    /// The program counter.
    pub pc: u16,
    /// The return addresses currently on the call stack, oldest first.
    pub stack: Seq<u16>,
    /// The 4096 bytes of memory.
    pub mem: Seq<u8>,
    /// The 2048 framebuffer pixels, row-major.
    pub disp: Seq<bool>,
    /// The sixteen key states.
    pub keys: Seq<bool>,
    /// The delay timer.
    pub delay: u8,
    /// The sound timer.
    pub sound: u8,
    /// Which historical variant of the divergent behaviors is in force.
    pub quirks: Quirks,
}

impl State {
    pub open spec fn wf(self) -> bool {
        &&& self.regs.len() == 16
        &&& self.stack.len() <= 16
        &&& self.mem.len() == 4096
        &&& self.disp.len() == 2048
        &&& self.keys.len() == 16
    }
}

/// The state with the program counter moved past one two-byte
/// instruction, everything else untouched.
pub open spec fn adv(s: State) -> State {
    State { pc: wrap16(s.pc + 2), ..s }
}

/// `00E0`: clear the display.
pub open spec fn clear_rel(pre: State, post: State) -> bool {
    post == State { disp: blank(), ..adv(pre) }
}

/// `00EE`: return from a subroutine.
pub open spec fn ret_rel(pre: State, post: State) -> bool {
    post == State { pc: pre.stack.last(), stack: pre.stack.drop_last(), ..pre }
}

/// `1nnn`: jump.
pub open spec fn jump_rel(pre: State, post: State, addr: u16) -> bool {
    post == State { pc: addr, ..pre }
}

/// `2nnn`: call a subroutine, pushing the address of the next
/// instruction.
pub open spec fn call_rel(pre: State, post: State, addr: u16) -> bool {
    post == State { stack: pre.stack.push(wrap16(pre.pc + 2)), pc: addr, ..pre }
}

/// The conditional-skip instructions: past the next instruction when the
/// condition holds, to it otherwise.
pub open spec fn skip_rel(pre: State, post: State, cond: bool) -> bool {
    post == State {
        pc: wrap16(
            pre.pc + if cond {
                4int
            } else {
                2int
            },
        ),
        ..pre
    }
}

/// The instructions that write one register and advance.
pub open spec fn set_reg_rel(pre: State, post: State, x: int, v: u8) -> bool {
    post == State { regs: pre.regs.update(x, v), ..adv(pre) }
}

/// The arithmetic instructions that write one register, then report into
/// the flag register, and advance. When `x` is 0xF the flag wins.
pub open spec fn set_reg_vf_rel(pre: State, post: State, x: int, v: u8, vf: u8) -> bool {
    post == State { regs: pre.regs.update(x, v).update(15, vf), ..adv(pre) }
}

/// `8xy1`, `8xy2` and `8xy3`: a bitwise combination written into
/// register `x`; under the reset quirk the flag register is cleared as
/// well.
pub open spec fn bitwise_rel(pre: State, post: State, x: int, v: u8) -> bool {
    if pre.quirks.vf_reset {
        set_reg_vf_rel(pre, post, x, v, 0)
    } else {
        set_reg_rel(pre, post, x, v)
    }
}

/// `8xy6`: shift the source register right by one into register `x`;
/// the flag register receives the bit shifted out. The source is
/// register `y` or register `x` by quirk.
pub open spec fn shr_rel(pre: State, post: State, x: int, y: int) -> bool {
    let src = if pre.quirks.shift_reads_y {
        pre.regs[y]
    } else {
        pre.regs[x]
    };
    set_reg_vf_rel(pre, post, x, (src as int / 2) as u8, (src as int % 2) as u8)
}

/// `8xyE`: shift the source register left by one into register `x`,
/// wrapping; the flag register receives the bit shifted out. The source
/// is register `y` or register `x` by quirk.
pub open spec fn shl_rel(pre: State, post: State, x: int, y: int) -> bool {
    let src = if pre.quirks.shift_reads_y {
        pre.regs[y]
    } else {
        pre.regs[x]
    };
    set_reg_vf_rel(pre, post, x, wrap8(2 * src), (src as int / 128) as u8)
}

/// The instructions that write the index register and advance.
pub open spec fn set_i_rel(pre: State, post: State, v: u16) -> bool {
    post == State { i: v, ..adv(pre) }
}

/// `Bnnn`: jump to `nnn` plus register 0.
pub open spec fn jump_v0_rel(pre: State, post: State, addr: u16) -> bool {
    post == State { pc: (pre.regs[0] + addr) as u16, ..pre }
}

/// `Cxkk`: register `x` receives a fresh byte masked by `kk`; nothing is
/// promised of the byte itself, so every bit outside the mask is clear
/// and nothing more is known.
pub open spec fn random_rel(pre: State, post: State, x: int, kk: u8) -> bool {
    &&& post == State { regs: pre.regs.update(x, post.regs[x]), ..adv(pre) }
    &&& post.regs[x] & !kk == 0
}

/// `Dxyn`: XOR-blit the `n`-byte sprite at the index register to the
/// coordinates held in registers `x` and `y`; the flag register reports
/// whether any lit pixel was turned off.
pub open spec fn draw_rel(pre: State, post: State, x: int, y: int, n: u8) -> bool {
    let px = pre.regs[x] as int;
    let py = pre.regs[y] as int;
    let sprite = pre.mem.subrange(pre.i as int, pre.i + n);
    let collide = draw_collision(pre.disp, px, py, sprite);
    post == State {
        disp: draw_result(pre.disp, px, py, sprite),
        regs: pre.regs.update(
            15,
            if collide {
                1u8
            } else {
                0u8
            },
        ),
        ..adv(pre)
    }
}

/// Whether the key named by register `x` is currently held.
pub open spec fn key_down(s: State, x: int) -> bool {
    s.regs[x] < 16 && s.keys[s.regs[x] as int]
}

/// `Fx0A`: when a key is held, store the lowest one and advance;
/// otherwise change nothing, so the same instruction polls again on the
/// next tick.
pub open spec fn wait_key_rel(pre: State, post: State, x: int) -> bool {
    match lowest_pressed(pre.keys) {
        Some(k) => set_reg_rel(pre, post, x, k),
        None => post == pre,
    }
}

/// `Fx15`: load the delay timer.
pub open spec fn set_delay_rel(pre: State, post: State, v: u8) -> bool {
    post == State { delay: v, ..adv(pre) }
}

/// `Fx18`: load the sound timer.
pub open spec fn set_sound_rel(pre: State, post: State, v: u8) -> bool {
    post == State { sound: v, ..adv(pre) }
}

/// `Fx33`: the three decimal digits of register `x`, most significant
/// first, at the index register.
pub open spec fn bcd_rel(pre: State, post: State, x: int) -> bool {
    let vx = pre.regs[x] as int;
    let i = pre.i as int;
    post == State {
        mem: pre.mem.update(i, ((vx / 100) % 10) as u8).update(i + 1, ((vx / 10) % 10) as u8)
            .update(i + 2, (vx % 10) as u8),
        ..adv(pre)
    }
}

/// Memory after registers 0 through `x` are copied to addresses `i`
/// through `i + x`.
pub open spec fn stored_mem(mem: Seq<u8>, regs: Seq<u8>, i: int, x: int) -> Seq<u8> {
    Seq::new(
        mem.len(),
        |a: int|
            if i <= a <= i + x {
                regs[a - i]
            } else {
                mem[a]
            },
    )
}

/// `Fx55`: spill registers 0 through `x` to memory at the index
/// register, which then moves past the written range under the
/// increment quirk.
pub open spec fn store_regs_rel(pre: State, post: State, x: int) -> bool {
    post == State {
        mem: stored_mem(pre.mem, pre.regs, pre.i as int, x),
        i: if pre.quirks.increment_i {
            (pre.i + x + 1) as u16
        } else {
            pre.i
        },
        ..adv(pre)
    }
}

/// The register file after registers 0 through `x` are filled from
/// addresses `i` through `i + x`.
pub open spec fn loaded_regs(regs: Seq<u8>, mem: Seq<u8>, i: int, x: int) -> Seq<u8> {
    Seq::new(
        regs.len(),
        |j: int|
            if 0 <= j <= x {
                mem[i + j]
            } else {
                regs[j]
            },
    )
}

/// `Fx65`: fill registers 0 through `x` from memory at the index
/// register, which then moves past the read range under the increment
/// quirk.
pub open spec fn load_regs_rel(pre: State, post: State, x: int) -> bool {
    post == State {
        regs: loaded_regs(pre.regs, pre.mem, pre.i as int, x),
        i: if pre.quirks.increment_i {
            (pre.i + x + 1) as u16
        } else {
            pre.i
        },
        ..adv(pre)
    }
}

/// Whether instruction `w` executes without a fatal condition in state
/// `s`: the word matches a documented form and every address, stack slot
/// and font digit it touches is in range.
pub open spec fn step_ok(s: State, w: u16) -> bool {
    let x = spec_x(w) as int;
    let n = spec_n(w);
    match w & 0xf000 {
        0x0000 => w == 0x00e0 || (w == 0x00ee && s.stack.len() > 0),
        0x1000 => true,
        0x2000 => s.stack.len() < 16,
        0x3000 => true,
        0x4000 => true,
        0x5000 => w & 0x000f == 0,
        0x6000 => true,
        0x7000 => true,
        0x8000 => {
            let lo = w & 0x000f;
            lo == 0 || lo == 1 || lo == 2 || lo == 3 || lo == 4 || lo == 5 || lo == 6 || lo == 7
                || lo == 0xe
        },
        0x9000 => w & 0x000f == 0,
        0xa000 => true,
        0xb000 => true,
        0xc000 => true,
        0xd000 => s.i + n <= 4096,
        0xe000 => w & 0x00ff == 0x9e || w & 0x00ff == 0xa1,
        0xf000 => match w & 0x00ff {
            0x07 => true,
            0x0a => true,
            0x15 => true,
            0x18 => true,
            0x1e => true,
            0x29 => s.regs[x] <= 0xf,
            0x33 => s.i + 3 <= 4096,
            0x55 => s.i + x < 4096,
            0x65 => s.i + x < 4096,
            _ => false,
        },
        _ => false,
    }
}

/// Which fatal condition instruction `w` runs into in state `s`.
pub open spec fn step_err(s: State, w: u16) -> Chip8Error
    recommends
        !step_ok(s, w),
{
    let x = spec_x(w) as int;
    match w & 0xf000 {
        0x0000 => if w == 0x00ee {
            Chip8Error::StackUnderflow
        } else {
            Chip8Error::UnknownOpcode(w)
        },
        0x2000 => Chip8Error::StackOverflow,
        0xd000 => Chip8Error::AddressOutOfBounds,
        0xf000 => match w & 0x00ff {
            0x29 => Chip8Error::InvalidSpriteDigit(s.regs[x]),
            0x33 => Chip8Error::AddressOutOfBounds,
            0x55 => Chip8Error::AddressOutOfBounds,
            0x65 => Chip8Error::AddressOutOfBounds,
            _ => Chip8Error::UnknownOpcode(w),
        },
        _ => Chip8Error::UnknownOpcode(w),
    }
}

/// How one instruction takes the machine from `pre` to `post`: the whole
/// opcode table. Every instruction except `Cxkk` is deterministic; for
/// `Cxkk` the relation admits exactly the values the mask allows.
pub open spec fn step_rel(pre: State, w: u16, post: State) -> bool {
    let x = spec_x(w) as int;
    let y = spec_y(w) as int;
    let kk = spec_kk(w);
    let nnn = spec_nnn(w);
    let n = spec_n(w);
    let vx = pre.regs[x];
    let vy = pre.regs[y];
    match w & 0xf000 {
        0x0000 => if w == 0x00e0 {
            clear_rel(pre, post)
        } else {
            ret_rel(pre, post)
        },
        0x1000 => jump_rel(pre, post, nnn),
        0x2000 => call_rel(pre, post, nnn),
        0x3000 => skip_rel(pre, post, vx == kk),
        0x4000 => skip_rel(pre, post, vx != kk),
        0x5000 => skip_rel(pre, post, vx == vy),
        0x6000 => set_reg_rel(pre, post, x, kk),
        0x7000 => set_reg_rel(pre, post, x, wrap8(vx + kk)),
        0x8000 => match w & 0x000f {
            0x0 => set_reg_rel(pre, post, x, vy),
            0x1 => bitwise_rel(pre, post, x, vx | vy),
            0x2 => bitwise_rel(pre, post, x, vx & vy),
            0x3 => bitwise_rel(pre, post, x, vx ^ vy),
            0x4 => set_reg_vf_rel(
                pre,
                post,
                x,
                wrap8(vx + vy),
                if vx + vy > 255 {
                    1u8
                } else {
                    0u8
                },
            ),
            0x5 => set_reg_vf_rel(
                pre,
                post,
                x,
                wrap8(vx - vy),
                if vx >= vy {
                    1u8
                } else {
                    0u8
                },
            ),
            0x6 => shr_rel(pre, post, x, y),
            0x7 => set_reg_vf_rel(
                pre,
                post,
                x,
                wrap8(vy - vx),
                if vy >= vx {
                    1u8
                } else {
                    0u8
                },
            ),
            0xe => shl_rel(pre, post, x, y),
            _ => false,
        },
        0x9000 => skip_rel(pre, post, vx != vy),
        0xa000 => set_i_rel(pre, post, nnn),
        0xb000 => jump_v0_rel(pre, post, nnn),
        0xc000 => random_rel(pre, post, x, kk),
        0xd000 => draw_rel(pre, post, x, y, n),
        0xe000 => if w & 0x00ff == 0x9e {
            skip_rel(pre, post, key_down(pre, x))
        } else {
            skip_rel(pre, post, !key_down(pre, x))
        },
        0xf000 => match w & 0x00ff {
            0x07 => set_reg_rel(pre, post, x, pre.delay),
            0x0a => wait_key_rel(pre, post, x),
            0x15 => set_delay_rel(pre, post, vx),
            0x18 => set_sound_rel(pre, post, vx),
            0x1e => set_i_rel(pre, post, wrap16(pre.i + vx)),
            0x29 => set_i_rel(pre, post, (5 * vx) as u16),
            0x33 => bcd_rel(pre, post, x),
            0x55 => store_regs_rel(pre, post, x),
            0x65 => load_regs_rel(pre, post, x),
            _ => false,
        },
        _ => false,
    }
}

/// The instruction word in memory at the program counter: two bytes,
/// big-endian.
pub open spec fn fetch_spec(s: State) -> u16 {
    (s.mem[s.pc as int] * 256 + s.mem[s.pc as int + 1]) as u16
}

/// Whether both bytes of the next instruction lie inside memory.
pub open spec fn fetch_ok(s: State) -> bool {
    s.pc + 2 <= 4096
}

/// Whether one whole fetch-decode-execute step from `s` succeeds.
pub open spec fn tick_ok(s: State) -> bool {
    fetch_ok(s) && step_ok(s, fetch_spec(s))
}

/// Which fatal condition one whole step from `s` runs into.
pub open spec fn tick_err(s: State) -> Chip8Error
    recommends
        !tick_ok(s),
{
    if !fetch_ok(s) {
        Chip8Error::AddressOutOfBounds
    } else {
        step_err(s, fetch_spec(s))
    }
}

} // verus!
