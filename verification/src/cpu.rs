//! The interpreter core: register/stack file, framebuffer, decoded
//! instruction variants, and the fetch/decode/execute step.
//!
//! One call to [`CPU::exec`] executes exactly one instruction at the current
//! program counter. Its whole effect is pinned down by [`step_spec`], a
//! relation between the machine state before and after the step, the key
//! snapshot it read, and the returned [`Step`] or [`Fault`].
//!
//! Documented choices where the reference platform is ambiguous:
//! - the shift instructions shift `Vx` in place (some dialects shift `Vy`
//!   into `Vx`); the decoded variants still carry `y` to keep the field
//!   visible;
//! - a draw whose sprite rows would fall below the last framebuffer row, or
//!   whose horizontal offset exceeds 63, is a deterministic fault rather
//!   than a wrap or a silent clamp;
//! - the index register adds with 16-bit wraparound, and the program counter
//!   wraps on the post-return increment, so no instruction can make the
//!   interpreter panic.

use vstd::prelude::*;

use crate::keys::State;
use crate::mem::RAM;
use crate::mem::Opcode;
use crate::mem::addr_of;
use crate::mem::mode_of;
use crate::mem::num_of;
use crate::mem::word_at;
use crate::mem::x_of;
use crate::mem::y_of;
use crate::mem::z_of;
use crate::mem::lemma_fields_bounded;

verus! {

/// One complete 64x32 monochrome framebuffer snapshot: 32 rows, row 0 on
/// top, bit 63 of each row the leftmost pixel.
#[derive(Debug, Clone)]
pub struct Frame(pub [u64; 32]);

/// The bounded call stack: 16 slots of return addresses and a pointer.
/// A push stores at `data[sp + 1]`, so slot 0 is never written and at most
/// 15 calls can be outstanding.
#[derive(Debug)]
pub struct Stack {
    pub data: [u16; 16],
    pub sp: usize,
}

impl Stack {
    /// An empty stack: pointer at 0, all slots zero.
    pub fn new() -> (s: Self)
        ensures
            s.sp == 0,
            forall|i: int| 0 <= i < 16 ==> s.data@[i] == 0u16,
    {
        Stack { data: [0; 16], sp: 0 }
    }

    /// Pushes a return address into the next slot up.
    pub fn push(&mut self, n: u16)
        requires
            old(self).sp < 15,
        ensures
            final(self).sp == old(self).sp + 1,
            final(self).data@ == old(self).data@.update(old(self).sp + 1, n),
    {
        self.sp = self.sp + 1;
        self.data[self.sp] = n;
        proof {
            assert(self.data@ =~= old(self).data@.update(old(self).sp + 1, n));
        }
    }

    /// Pops the address in the current slot and steps the pointer down.
    pub fn pop(&mut self) -> (r: u16)
        requires
            0 < old(self).sp < 16,
        ensures
            final(self).sp == old(self).sp - 1,
            final(self).data@ == old(self).data@,
            r == old(self).data@[old(self).sp as int],
    {
        let r = self.data[self.sp];
        self.sp = self.sp - 1;
        r
    }
}

/// The outcome of one executed instruction.
#[derive(Debug, Clone)]
pub enum Step {
    /// The instruction completed; fetch the next one.
    Continue,
    /// The explicit stop instruction was reached; execution is over.
    Halt,
    /// A draw completed; this full framebuffer snapshot is to be emitted.
    Draw(Frame),
    /// The wait-for-key instruction saw no press; the program counter did
    /// not move, so re-invoking retries the same instruction.
    Waiting,
}

/// A reported failure of one instruction. `Unrecognized` is the recoverable
/// decode failure: the driver logs it and applies the default increment via
/// [`CPU::advance`]. The rest are bounds faults, made deterministic here
/// where the reference platform left them undefined.
#[derive(Copy, Clone, Debug, PartialEq, Eq)]
pub enum Fault {
    /// The instruction word matches no defined opcode pattern.
    Unrecognized(u16),
    /// The program counter does not address two bytes of memory.
    FetchOutOfRange(u16),
    /// A sprite read would run past the end of memory (index register, length).
    SpriteOutOfRange(u16, u8),
    /// A draw would touch a row below the framebuffer or start past column 63
    /// (horizontal offset, vertical offset, sprite length).
    DrawOutOfRange(u8, u8, u8),
    /// A digit store or register dump/load would run past the end of memory.
    MemOutOfRange(u16),
    /// A call with 15 calls already outstanding.
    StackOverflow,
    /// A return with no call outstanding.
    StackUnderflow,
}

/// A decoded instruction: one closed variant per opcode family and
/// subfamily, plus the explicit unrecognized case. Register operands are the
/// nibble fields of the word, so they are always below 16.
#[derive(Copy, Clone, Debug, PartialEq, Eq)]
pub enum Instr {
    /// `0x0000`: stop execution.
    Halt,
    /// `0x00E0`: clear the framebuffer.
    Clear,
    /// `0x00EE`: pop the return address and resume after the call.
    Ret,
    /// `0x1nnn`: jump.
    Jump(u16),
    /// `0x2nnn`: push the current counter and jump.
    Call(u16),
    /// `0x3xnn`: skip the next instruction if `Vx == nn`.
    SkipEqNum(u8, u8),
    /// `0x4xnn`: skip if `Vx != nn`.
    SkipNeNum(u8, u8),
    /// `0x5xy0`: skip if `Vx == Vy`.
    SkipEqReg(u8, u8),
    /// `0x6xnn`: `Vx = nn`.
    SetNum(u8, u8),
    /// `0x7xnn`: `Vx += nn`, wrapping, flag untouched.
    AddNum(u8, u8),
    /// `0x8xy0`: `Vx = Vy`.
    Copy(u8, u8),
    /// `0x8xy1`: `Vx |= Vy`.
    Or(u8, u8),
    /// `0x8xy2`: `Vx &= Vy`.
    And(u8, u8),
    /// `0x8xy3`: `Vx ^= Vy`.
    Xor(u8, u8),
    /// `0x8xy4`: `Vx += Vy`, `VF` = carry.
    AddReg(u8, u8),
    /// `0x8xy5`: `VF = (Vx > Vy)`, then `Vx -= Vy` wrapping.
    SubReg(u8, u8),
    /// `0x8xy6`: `VF` = low bit of `Vx`, then `Vx >>= 1` (shifts `Vx` in
    /// place; `y` is decoded but unused in this dialect).
    Shr(u8, u8),
    /// `0x8xy7`: `VF = (Vy > Vx)`, then `Vx = Vy - Vx` wrapping.
    SubRev(u8, u8),
    /// `0x8xyE`: `VF` = high bit of `Vx`, then `Vx <<= 1` (shifts `Vx` in
    /// place; `y` is decoded but unused in this dialect).
    Shl(u8, u8),
    /// `0x9xy0`: skip if `Vx != Vy`.
    SkipNeReg(u8, u8),
    /// `0xAnnn`: index register `I = nnn`.
    SetIndex(u16),
    /// `0xBnnn`: jump to `nnn + V0`.
    JumpOffset(u16),
    /// `0xCxnn`: `Vx = random byte & nn`.
    Rand(u8, u8),
    /// `0xDxyn`: XOR-draw an `n`-byte sprite from `I` at column `Vx`,
    /// row `Vy`; `VF` reports collision; the frame is emitted.
    Draw(u8, u8, u8),
    /// `0xEx9E`: skip if key `Vx` (low nibble) is pressed.
    SkipKey(u8),
    /// `0xExA1`: skip if key `Vx` (low nibble) is not pressed.
    SkipNoKey(u8),
    /// `0xFx07`: `Vx = delay timer`.
    GetDelay(u8),
    /// `0xFx0A`: wait for a key press; on a press, `Vx` = its index.
    WaitKey(u8),
    /// `0xFx15`: `delay timer = Vx`.
    SetDelay(u8),
    /// `0xFx18`: `sound timer = Vx`.
    SetSound(u8),
    /// `0xFx1E`: `I += Vx`, 16-bit wrapping, no flag.
    AddIndex(u8),
    /// `0xFx29`: `I` = address of the built-in glyph for the low nibble of
    /// `Vx` (5 bytes per glyph).
    Glyph(u8),
    /// `0xFx33`: store the decimal digits of `Vx` at `I`, `I+1`, `I+2`.
    StoreDigits(u8),
    /// `0xFx55`: store `V0..V15` into memory starting at `I`.
    StoreRegs,
    /// `0xFx65`: load `V0..V15` from memory starting at `I`.
    LoadRegs,
    /// Anything else: a recoverable decode failure.
    Unknown,
}

/// What a 16-bit word decodes to, family by family.
pub open spec fn decoded(w: u16) -> Instr {
    let m = mode_of(w);
    let x = x_of(w);
    let y = y_of(w);
    let z = z_of(w);
    let n = num_of(w);
    let a = addr_of(w);
    if m == 0x0 {
        if n == 0x00 {
            Instr::Halt
        } else if n == 0xE0 {
            Instr::Clear
        } else if n == 0xEE {
            Instr::Ret
        } else {
            Instr::Unknown
        }
    } else if m == 0x1 {
        Instr::Jump(a)
    } else if m == 0x2 {
        Instr::Call(a)
    } else if m == 0x3 {
        Instr::SkipEqNum(x, n)
    } else if m == 0x4 {
        Instr::SkipNeNum(x, n)
    } else if m == 0x5 {
        if z == 0 {
            Instr::SkipEqReg(x, y)
        } else {
            Instr::Unknown
        }
    } else if m == 0x6 {
        Instr::SetNum(x, n)
    } else if m == 0x7 {
        Instr::AddNum(x, n)
    } else if m == 0x8 {
        if z == 0x0 {
            Instr::Copy(x, y)
        } else if z == 0x1 {
            Instr::Or(x, y)
        } else if z == 0x2 {
            Instr::And(x, y)
        } else if z == 0x3 {
            Instr::Xor(x, y)
        } else if z == 0x4 {
            Instr::AddReg(x, y)
        } else if z == 0x5 {
            Instr::SubReg(x, y)
        } else if z == 0x6 {
            Instr::Shr(x, y)
        } else if z == 0x7 {
            Instr::SubRev(x, y)
        } else if z == 0xE {
            Instr::Shl(x, y)
        } else {
            Instr::Unknown
        }
    } else if m == 0x9 {
        if z == 0 {
            Instr::SkipNeReg(x, y)
        } else {
            Instr::Unknown
        }
    } else if m == 0xA {
        Instr::SetIndex(a)
    } else if m == 0xB {
        Instr::JumpOffset(a)
    } else if m == 0xC {
        Instr::Rand(x, n)
    } else if m == 0xD {
        Instr::Draw(x, y, z)
    } else if m == 0xE {
        if n == 0x9E {
            Instr::SkipKey(x)
        } else if n == 0xA1 {
            Instr::SkipNoKey(x)
        } else {
            Instr::Unknown
        }
    } else {
        if n == 0x07 {
            Instr::GetDelay(x)
        } else if n == 0x0A {
            Instr::WaitKey(x)
        } else if n == 0x15 {
            Instr::SetDelay(x)
        } else if n == 0x18 {
            Instr::SetSound(x)
        } else if n == 0x1E {
            Instr::AddIndex(x)
        } else if n == 0x29 {
            Instr::Glyph(x)
        } else if n == 0x33 {
            Instr::StoreDigits(x)
        } else if n == 0x55 {
            Instr::StoreRegs
        } else if n == 0x65 {
            Instr::LoadRegs
        } else {
            Instr::Unknown
        }
    }
}

impl Opcode {
    /// The pure decode function: nibble dispatch into the closed variant.
    pub fn decode(&self) -> (i: Instr)
        ensures
            i == decoded(self.0),
    {
        let m = self.mode();
        let x = self.x();
        let y = self.y();
        let z = self.z();
        let n = self.num();
        let a = self.addr();
        match m {
            0x0 => match n {
                0x00 => Instr::Halt,
                0xE0 => Instr::Clear,
                0xEE => Instr::Ret,
                _ => Instr::Unknown,
            },
            0x1 => Instr::Jump(a),
            0x2 => Instr::Call(a),
            0x3 => Instr::SkipEqNum(x, n),
            0x4 => Instr::SkipNeNum(x, n),
            0x5 => if z == 0 {
                Instr::SkipEqReg(x, y)
            } else {
                Instr::Unknown
            },
            0x6 => Instr::SetNum(x, n),
            0x7 => Instr::AddNum(x, n),
            0x8 => match z {
                0x0 => Instr::Copy(x, y),
                0x1 => Instr::Or(x, y),
                0x2 => Instr::And(x, y),
                0x3 => Instr::Xor(x, y),
                0x4 => Instr::AddReg(x, y),
                0x5 => Instr::SubReg(x, y),
                0x6 => Instr::Shr(x, y),
                0x7 => Instr::SubRev(x, y),
                0xE => Instr::Shl(x, y),
                _ => Instr::Unknown,
            },
            0x9 => if z == 0 {
                Instr::SkipNeReg(x, y)
            } else {
                Instr::Unknown
            },
            0xA => Instr::SetIndex(a),
            0xB => Instr::JumpOffset(a),
            0xC => Instr::Rand(x, n),
            0xD => Instr::Draw(x, y, z),
            0xE => match n {
                0x9E => Instr::SkipKey(x),
                0xA1 => Instr::SkipNoKey(x),
                _ => Instr::Unknown,
            },
            0xF => match n {
                0x07 => Instr::GetDelay(x),
                0x0A => Instr::WaitKey(x),
                0x15 => Instr::SetDelay(x),
                0x18 => Instr::SetSound(x),
                0x1E => Instr::AddIndex(x),
                0x29 => Instr::Glyph(x),
                0x33 => Instr::StoreDigits(x),
                0x55 => Instr::StoreRegs,
                0x65 => Instr::LoadRegs,
                _ => Instr::Unknown,
            },
            _ => {
                // a nibble is below 16, so no word reaches this arm
                proof {
                    lemma_fields_bounded(self.0);
                }
                Instr::Unknown
            },
        }
    }
}

/// 8-bit wrapping addition, as the add-immediate and add-register
/// instructions use it.
pub open spec fn wrap_add8(a: u8, b: u8) -> u8 {
    if a + b > 255 {
        (a + b - 256) as u8
    } else {
        (a + b) as u8
    }
}

/// 8-bit wrapping subtraction, as the subtract instructions use it.
pub open spec fn wrap_sub8(a: u8, b: u8) -> u8 {
    if a >= b {
        (a - b) as u8
    } else {
        (a - b + 256) as u8
    }
}

/// 16-bit wrapping addition, as the index-add instruction and the
/// post-return increment use it.
pub open spec fn wrap_add16(a: u16, b: u16) -> u16 {
    if a + b > 0xFFFF {
        (a + b - 0x10000) as u16
    } else {
        (a + b) as u16
    }
}

/// The register file after one arithmetic/logic instruction, keyed on the
/// bottom nibble `z`. The flag register is written first and the destination
/// second, exactly in instruction order, so the aliased cases (`x` or `y`
/// equal to 15) mean what the machine does.
pub open spec fn alu_regs(z: u8, x: int, y: int, v: Seq<u8>) -> Seq<u8>
    recommends
        v.len() == 16,
        0 <= x < 16,
        0 <= y < 16,
{
    if z == 0x0 {
        v.update(x, v[y])
    } else if z == 0x1 {
        v.update(x, v[x] | v[y])
    } else if z == 0x2 {
        v.update(x, v[x] & v[y])
    } else if z == 0x3 {
        v.update(x, v[x] ^ v[y])
    } else if z == 0x4 {
        let s = v.update(15, if v[x] + v[y] > 255 { 1u8 } else { 0u8 });
        s.update(x, wrap_add8(v[x], v[y]))
    } else if z == 0x5 {
        let s = v.update(15, if v[x] > v[y] { 1u8 } else { 0u8 });
        s.update(x, wrap_sub8(s[x], s[y]))
    } else if z == 0x6 {
        let s = v.update(15, v[x] & 1);
        s.update(x, s[x] >> 1u8)
    } else if z == 0x7 {
        let s = v.update(15, if v[y] > v[x] { 1u8 } else { 0u8 });
        s.update(x, wrap_sub8(s[y], s[x]))
    } else {
        // z == 0xE
        let s = v.update(15, v[x] >> 7u8);
        s.update(x, s[x] << 1u8)
    }
}

/// The 64-bit row mask of one sprite byte: the byte left-aligned, then
/// shifted right by the horizontal offset.
pub open spec fn sprite_row(b: u8, xo: u8) -> u64
    recommends
        xo < 64,
{
    ((b as u64) << 56u64) >> (xo as u64)
}

/// The framebuffer after XOR-drawing a sprite at column offset `xo`,
/// starting at row `y0`.
pub open spec fn drawn_rows(fb: Seq<u64>, spr: Seq<u8>, xo: u8, y0: int) -> Seq<u64> {
    Seq::new(fb.len(), |i: int| if y0 <= i < y0 + spr.len() {
        fb[i] ^ sprite_row(spr[i - y0], xo)
    } else {
        fb[i]
    })
}

/// Whether drawing the sprite erases some lit pixel: a collision.
pub open spec fn draw_hits(fb: Seq<u64>, spr: Seq<u8>, xo: u8, y0: int) -> bool {
    exists|i: int|
        y0 <= i < y0 + spr.len() && 0 <= i < fb.len() && fb[i] & sprite_row(
            spr[i - y0],
            xo,
        ) != 0
}

/// Whether key `k` (low nibble) is down in the 16-key bitmask.
pub open spec fn key_down(mask: u16, k: u8) -> bool {
    mask & (1u16 << ((k & 0xF) as u16)) != 0
}

/// The interpreter core: sixteen 8-bit registers, the 16-bit index register,
/// the two 60 Hz timers, the program counter, the framebuffer, the call
/// stack, and memory.
#[derive(Debug)]
pub struct CPU {
    pub vreg: [u8; 16],
    pub ireg: u16,
    pub dt: u8,
    pub st: u8,
    pub pc: u16,
    pub fbuf: Frame,
    pub stack: Stack,
    pub ram: RAM,
}

/// The pieces of state an instruction leaves alone, named so each case of
/// [`step_spec`] can say exactly what moved.
pub open spec fn eq_regs(a: CPU, b: CPU) -> bool {
    b.vreg@ == a.vreg@
}

pub open spec fn eq_ireg(a: CPU, b: CPU) -> bool {
    b.ireg == a.ireg
}

pub open spec fn eq_timers(a: CPU, b: CPU) -> bool {
    b.dt == a.dt && b.st == a.st
}

pub open spec fn eq_fbuf(a: CPU, b: CPU) -> bool {
    b.fbuf.0@ == a.fbuf.0@
}

pub open spec fn eq_stack(a: CPU, b: CPU) -> bool {
    b.stack.data@ == a.stack.data@ && b.stack.sp == a.stack.sp
}

pub open spec fn eq_mem(a: CPU, b: CPU) -> bool {
    b.ram.0@ == a.ram.0@
}

/// Only the program counter may differ.
pub open spec fn only_pc(a: CPU, b: CPU) -> bool {
    eq_regs(a, b) && eq_ireg(a, b) && eq_timers(a, b) && eq_fbuf(a, b) && eq_stack(a, b)
        && eq_mem(a, b)
}

/// Only registers and the program counter may differ.
pub open spec fn only_pc_regs(a: CPU, b: CPU) -> bool {
    eq_ireg(a, b) && eq_timers(a, b) && eq_fbuf(a, b) && eq_stack(a, b) && eq_mem(a, b)
}

/// Only the index register and the program counter may differ.
pub open spec fn only_pc_ireg(a: CPU, b: CPU) -> bool {
    eq_regs(a, b) && eq_timers(a, b) && eq_fbuf(a, b) && eq_stack(a, b) && eq_mem(a, b)
}

/// Only the framebuffer and the program counter may differ.
pub open spec fn only_pc_fbuf(a: CPU, b: CPU) -> bool {
    eq_regs(a, b) && eq_ireg(a, b) && eq_timers(a, b) && eq_stack(a, b) && eq_mem(a, b)
}

/// Only the framebuffer, registers and the program counter may differ.
pub open spec fn only_pc_fbuf_regs(a: CPU, b: CPU) -> bool {
    eq_ireg(a, b) && eq_timers(a, b) && eq_stack(a, b) && eq_mem(a, b)
}

/// Only the call stack and the program counter may differ.
pub open spec fn only_pc_stack(a: CPU, b: CPU) -> bool {
    eq_regs(a, b) && eq_ireg(a, b) && eq_timers(a, b) && eq_fbuf(a, b) && eq_mem(a, b)
}

/// Only memory and the program counter may differ.
pub open spec fn only_pc_mem(a: CPU, b: CPU) -> bool {
    eq_regs(a, b) && eq_ireg(a, b) && eq_timers(a, b) && eq_fbuf(a, b) && eq_stack(a, b)
}

/// Only the timers and the program counter may differ.
pub open spec fn only_pc_timers(a: CPU, b: CPU) -> bool {
    eq_regs(a, b) && eq_ireg(a, b) && eq_fbuf(a, b) && eq_stack(a, b) && eq_mem(a, b)
}

/// The effect of the instruction word `w`, fetched with the program counter
/// below 4095: a relation between the state before (`pre`) and after
/// (`post`) the step, the key snapshot read, and the result. Every case pins
/// `post` and `r` down completely; only the random byte of the `Rand`
/// instruction is existentially quantified.
pub open spec fn step_instr(pre: CPU, keys: State, w: u16, post: CPU, r: Result<
    Step,
    Fault,
>) -> bool {
    let v = pre.vreg@;
    let pc2 = (pre.pc + 2) as u16;
    let pc4 = (pre.pc + 4) as u16;
    match decoded(w) {
        Instr::Halt => post == pre && r == Ok::<Step, Fault>(Step::Halt),
        Instr::Clear => {
            &&& only_pc_fbuf(pre, post)
            &&& forall|i: int| 0 <= i < 32 ==> post.fbuf.0@[i] == 0u64
            &&& post.pc == pc2
            &&& r == Ok::<Step, Fault>(Step::Continue)
        },
        Instr::Ret => {
            if pre.stack.sp == 0 {
                post == pre && r == Err::<Step, Fault>(Fault::StackUnderflow)
            } else {
                &&& only_pc_stack(pre, post)
                &&& post.stack.data@ == pre.stack.data@
                &&& post.stack.sp == pre.stack.sp - 1
                &&& post.pc == wrap_add16(pre.stack.data@[pre.stack.sp as int], 2)
                &&& r == Ok::<Step, Fault>(Step::Continue)
            }
        },
        Instr::Jump(a) => {
            &&& only_pc(pre, post)
            &&& post.pc == a
            &&& r == Ok::<Step, Fault>(Step::Continue)
        },
        Instr::Call(a) => {
            if pre.stack.sp >= 15 {
                post == pre && r == Err::<Step, Fault>(Fault::StackOverflow)
            } else {
                &&& only_pc_stack(pre, post)
                &&& post.stack.sp == pre.stack.sp + 1
                &&& post.stack.data@ == pre.stack.data@.update(pre.stack.sp + 1, pre.pc)
                &&& post.pc == a
                &&& r == Ok::<Step, Fault>(Step::Continue)
            }
        },
        Instr::SkipEqNum(x, n) => {
            &&& only_pc(pre, post)
            &&& post.pc == (if v[x as int] == n {
                pc4
            } else {
                pc2
            })
            &&& r == Ok::<Step, Fault>(Step::Continue)
        },
        Instr::SkipNeNum(x, n) => {
            &&& only_pc(pre, post)
            &&& post.pc == (if v[x as int] != n {
                pc4
            } else {
                pc2
            })
            &&& r == Ok::<Step, Fault>(Step::Continue)
        },
        Instr::SkipEqReg(x, y) => {
            &&& only_pc(pre, post)
            &&& post.pc == (if v[x as int] == v[y as int] {
                pc4
            } else {
                pc2
            })
            &&& r == Ok::<Step, Fault>(Step::Continue)
        },
        Instr::SetNum(x, n) => {
            &&& only_pc_regs(pre, post)
            &&& post.vreg@ == v.update(x as int, n)
            &&& post.pc == pc2
            &&& r == Ok::<Step, Fault>(Step::Continue)
        },
        Instr::AddNum(x, n) => {
            &&& only_pc_regs(pre, post)
            &&& post.vreg@ == v.update(x as int, wrap_add8(v[x as int], n))
            &&& post.pc == pc2
            &&& r == Ok::<Step, Fault>(Step::Continue)
        },
        Instr::Copy(x, y) => alu_case(pre, post, r, 0x0, x, y, pc2),
        Instr::Or(x, y) => alu_case(pre, post, r, 0x1, x, y, pc2),
        Instr::And(x, y) => alu_case(pre, post, r, 0x2, x, y, pc2),
        Instr::Xor(x, y) => alu_case(pre, post, r, 0x3, x, y, pc2),
        Instr::AddReg(x, y) => alu_case(pre, post, r, 0x4, x, y, pc2),
        Instr::SubReg(x, y) => alu_case(pre, post, r, 0x5, x, y, pc2),
        Instr::Shr(x, y) => alu_case(pre, post, r, 0x6, x, y, pc2),
        Instr::SubRev(x, y) => alu_case(pre, post, r, 0x7, x, y, pc2),
        Instr::Shl(x, y) => alu_case(pre, post, r, 0xE, x, y, pc2),
        Instr::SkipNeReg(x, y) => {
            &&& only_pc(pre, post)
            &&& post.pc == (if v[x as int] != v[y as int] {
                pc4
            } else {
                pc2
            })
            &&& r == Ok::<Step, Fault>(Step::Continue)
        },
        Instr::SetIndex(a) => {
            &&& only_pc_ireg(pre, post)
            &&& post.ireg == a
            &&& post.pc == pc2
            &&& r == Ok::<Step, Fault>(Step::Continue)
        },
        Instr::JumpOffset(a) => {
            &&& only_pc(pre, post)
            &&& post.pc == a + v[0]
            &&& r == Ok::<Step, Fault>(Step::Continue)
        },
        Instr::Rand(x, n) => {
            &&& only_pc_regs(pre, post)
            &&& exists|b: u8| post.vreg@ == v.update(x as int, b & n)
            &&& post.pc == pc2
            &&& r == Ok::<Step, Fault>(Step::Continue)
        },
        Instr::Draw(x, y, n) => draw_case(pre, post, r, x, y, n, pc2),
        Instr::SkipKey(x) => {
            &&& only_pc(pre, post)
            &&& post.pc == (if key_down(keys.state, v[x as int]) {
                pc4
            } else {
                pc2
            })
            &&& r == Ok::<Step, Fault>(Step::Continue)
        },
        Instr::SkipNoKey(x) => {
            &&& only_pc(pre, post)
            &&& post.pc == (if !key_down(keys.state, v[x as int]) {
                pc4
            } else {
                pc2
            })
            &&& r == Ok::<Step, Fault>(Step::Continue)
        },
        Instr::GetDelay(x) => {
            &&& only_pc_regs(pre, post)
            &&& post.vreg@ == v.update(x as int, pre.dt)
            &&& post.pc == pc2
            &&& r == Ok::<Step, Fault>(Step::Continue)
        },
        Instr::WaitKey(x) => {
            if !keys.pressed {
                post == pre && r == Ok::<Step, Fault>(Step::Waiting)
            } else {
                &&& only_pc_regs(pre, post)
                &&& post.vreg@ == v.update(x as int, keys.key as u8)
                &&& post.pc == pc2
                &&& r == Ok::<Step, Fault>(Step::Continue)
            }
        },
        Instr::SetDelay(x) => {
            &&& only_pc_timers(pre, post)
            &&& post.dt == v[x as int]
            &&& post.st == pre.st
            &&& post.pc == pc2
            &&& r == Ok::<Step, Fault>(Step::Continue)
        },
        Instr::SetSound(x) => {
            &&& only_pc_timers(pre, post)
            &&& post.st == v[x as int]
            &&& post.dt == pre.dt
            &&& post.pc == pc2
            &&& r == Ok::<Step, Fault>(Step::Continue)
        },
        Instr::AddIndex(x) => {
            &&& only_pc_ireg(pre, post)
            &&& post.ireg == wrap_add16(pre.ireg, v[x as int] as u16)
            &&& post.pc == pc2
            &&& r == Ok::<Step, Fault>(Step::Continue)
        },
        Instr::Glyph(x) => {
            &&& only_pc_ireg(pre, post)
            &&& post.ireg == (v[x as int] & 0xF) * 5
            &&& post.pc == pc2
            &&& r == Ok::<Step, Fault>(Step::Continue)
        },
        Instr::StoreDigits(x) => {
            if pre.ireg + 2 >= 4096 {
                post == pre && r == Err::<Step, Fault>(Fault::MemOutOfRange(pre.ireg))
            } else {
                let i0 = pre.ireg as int;
                let vx = v[x as int];
                &&& only_pc_mem(pre, post)
                &&& post.ram.0@ == pre.ram.0@.update(i0, (vx / 100) as u8).update(
                    i0 + 1,
                    ((vx / 10) % 10) as u8,
                ).update(i0 + 2, (vx % 10) as u8)
                &&& post.pc == pc2
                &&& r == Ok::<Step, Fault>(Step::Continue)
            }
        },
        Instr::StoreRegs => {
            if pre.ireg + 15 >= 4096 {
                post == pre && r == Err::<Step, Fault>(Fault::MemOutOfRange(pre.ireg))
            } else {
                let i0 = pre.ireg as int;
                &&& only_pc_mem(pre, post)
                &&& forall|j: int|
                    0 <= j < 4096 ==> post.ram.0@[j] == (if i0 <= j < i0 + 16 {
                        v[j - i0]
                    } else {
                        pre.ram.0@[j]
                    })
                &&& post.pc == pc2
                &&& r == Ok::<Step, Fault>(Step::Continue)
            }
        },
        Instr::LoadRegs => {
            if pre.ireg + 15 >= 4096 {
                post == pre && r == Err::<Step, Fault>(Fault::MemOutOfRange(pre.ireg))
            } else {
                let i0 = pre.ireg as int;
                &&& only_pc_regs(pre, post)
                &&& forall|j: int| 0 <= j < 16 ==> post.vreg@[j] == pre.ram.0@[i0 + j]
                &&& post.pc == pc2
                &&& r == Ok::<Step, Fault>(Step::Continue)
            }
        },
        Instr::Unknown => post == pre && r == Err::<Step, Fault>(Fault::Unrecognized(w)),
    }
}

/// The arithmetic/logic cases of [`step_instr`]: registers move as
/// [`alu_regs`] says, the counter advances by 2.
pub open spec fn alu_case(pre: CPU, post: CPU, r: Result<Step, Fault>, z: u8, x: u8, y: u8, pc2: u16) -> bool {
    &&& only_pc_regs(pre, post)
    &&& post.vreg@ == alu_regs(z, x as int, y as int, pre.vreg@)
    &&& post.pc == pc2
    &&& r == Ok::<Step, Fault>(Step::Continue)
}

/// The draw case of [`step_instr`]: a sprite read past the end of memory or
/// a target outside the 64x32 grid is a deterministic fault; otherwise the
/// framebuffer takes the XOR of the sprite, the flag register reports
/// collision, and the emitted frame is the new framebuffer.
pub open spec fn draw_case(pre: CPU, post: CPU, r: Result<Step, Fault>, x: u8, y: u8, n: u8, pc2: u16) -> bool {
    let v = pre.vreg@;
    let xo = v[x as int];
    let yo = v[y as int];
    if pre.ireg + n > 4096 {
        post == pre && r == Err::<Step, Fault>(Fault::SpriteOutOfRange(pre.ireg, n))
    } else if n > 0 && (xo > 63 || yo + n > 32) {
        post == pre && r == Err::<Step, Fault>(Fault::DrawOutOfRange(xo, yo, n))
    } else {
        let spr = pre.ram.0@.subrange(pre.ireg as int, pre.ireg as int + n as int);
        let rows = drawn_rows(pre.fbuf.0@, spr, xo, yo as int);
        &&& only_pc_fbuf_regs(pre, post)
        &&& post.fbuf.0@ == rows
        &&& post.vreg@ == v.update(15, if draw_hits(pre.fbuf.0@, spr, xo, yo as int) {
            1u8
        } else {
            0u8
        })
        &&& post.pc == pc2
        &&& match r {
            Ok(Step::Draw(f)) => f.0@ == rows,
            _ => false,
        }
    }
}

/// One fetch/decode/execute step: a fetch with the counter out of range is a
/// fault that changes nothing; otherwise the fetched word acts as
/// [`step_instr`] says.
pub open spec fn step_spec(pre: CPU, keys: State, post: CPU, r: Result<Step, Fault>) -> bool {
    if pre.pc >= 4095 {
        post == pre && r == Err::<Step, Fault>(Fault::FetchOutOfRange(pre.pc))
    } else {
        step_instr(pre, keys, word_at(pre.ram.0@, pre.pc as int), post, r)
    }
}

impl CPU {
    /// The call stack pointer stays inside its 16 slots. Established by
    /// [`CPU::new`] and preserved by every step.
    pub open spec fn wf(&self) -> bool {
        self.stack.sp < 16
    }

    /// A machine about to run the program in `ram`: registers, timers,
    /// framebuffer and stack all zero, the program counter at 0x200.
    pub fn new(ram: RAM) -> (c: CPU)
        ensures
            c.wf(),
            forall|i: int| 0 <= i < 16 ==> c.vreg@[i] == 0u8,
            c.ireg == 0,
            c.dt == 0,
            c.st == 0,
            c.pc == 0x200,
            forall|i: int| 0 <= i < 32 ==> c.fbuf.0@[i] == 0u64,
            c.stack.sp == 0,
            c.ram.0@ == ram.0@,
    {
        CPU {
            vreg: [0; 16],
            ireg: 0,
            dt: 0,
            st: 0,
            pc: 0x200,
            fbuf: Frame([0; 32]),
            stack: Stack::new(),
            ram,
        }
    }

    /// One 60 Hz timer tick: each timer steps down by exactly 1 and stops at
    /// 0, never wrapping.
    pub fn tick(&mut self)
        ensures
            final(self).dt == (if old(self).dt > 0 {
                (old(self).dt - 1) as u8
            } else {
                0u8
            }),
            final(self).st == (if old(self).st > 0 {
                (old(self).st - 1) as u8
            } else {
                0u8
            }),
            eq_regs(*old(self), *final(self)),
            eq_ireg(*old(self), *final(self)),
            eq_fbuf(*old(self), *final(self)),
            eq_stack(*old(self), *final(self)),
            eq_mem(*old(self), *final(self)),
            final(self).pc == old(self).pc,
            final(self).wf() == old(self).wf(),
    {
        if self.dt > 0 {
            self.dt = self.dt - 1;
        }
        if self.st > 0 {
            self.st = self.st - 1;
        }
    }

    /// The driver's default increment: after a recoverable decode failure the
    /// error path has not moved the counter, so the driver applies the
    /// skip-to-next-instruction step itself.
    pub fn advance(&mut self)
        ensures
            final(self).pc == wrap_add16(old(self).pc, 2),
            only_pc(*old(self), *final(self)),
            final(self).wf() == old(self).wf(),
    {
        self.pc = self.pc.wrapping_add(2);
    }

    /// Clears every framebuffer row to zero.
    fn clear_rows(&mut self)
        ensures
            only_pc_fbuf(*old(self), *final(self)),
            final(self).pc == old(self).pc,
            forall|i: int| 0 <= i < 32 ==> final(self).fbuf.0@[i] == 0u64,
    {
        let mut i: usize = 0;
        while i < 32
            invariant
                i <= 32,
                self.pc == old(self).pc,
                self.vreg@ == old(self).vreg@,
                self.ireg == old(self).ireg,
                self.dt == old(self).dt,
                self.st == old(self).st,
                self.stack.data@ == old(self).stack.data@,
                self.stack.sp == old(self).stack.sp,
                self.ram.0@ == old(self).ram.0@,
                forall|j: int| 0 <= j < i ==> self.fbuf.0@[j] == 0u64,
            decreases 32 - i,
        {
            self.fbuf.0[i] = 0;
            i += 1;
        }
    }

    /// XOR-draws the sprite bytes at column offset `xo` starting at row `yo`
    /// and reports whether some lit pixel was erased.
    fn blit(&mut self, spr: &Vec<u8>, xo: u8, yo: u8) -> (hit: bool)
        requires
            spr@.len() == 0 || (xo <= 63 && yo as int + spr@.len() <= 32),
        ensures
            only_pc_fbuf(*old(self), *final(self)),
            final(self).pc == old(self).pc,
            final(self).fbuf.0@ == drawn_rows(old(self).fbuf.0@, spr@, xo, yo as int),
            hit == draw_hits(old(self).fbuf.0@, spr@, xo, yo as int),
    {
        let mut hit = false;
        let mut i: usize = 0;
        while i < spr.len()
            invariant
                spr@.len() == 0 || (xo <= 63 && yo as int + spr@.len() <= 32),
                i <= spr@.len(),
                self.pc == old(self).pc,
                self.vreg@ == old(self).vreg@,
                self.ireg == old(self).ireg,
                self.dt == old(self).dt,
                self.st == old(self).st,
                self.stack.data@ == old(self).stack.data@,
                self.stack.sp == old(self).stack.sp,
                self.ram.0@ == old(self).ram.0@,
                forall|j: int|
                    0 <= j < 32 ==> self.fbuf.0@[j] == (if yo as int <= j < yo as int + i {
                        old(self).fbuf.0@[j] ^ sprite_row(spr@[j - yo as int], xo)
                    } else {
                        old(self).fbuf.0@[j]
                    }),
                hit == exists|j: int|
                    yo as int <= j < yo as int + i && old(self).fbuf.0@[j] & sprite_row(
                        spr@[j - yo as int],
                        xo,
                    ) != 0,
            decreases spr@.len() - i,
        {
            let row = yo as usize + i;
            let mask = ((spr[i] as u64) << 56u64) >> (xo as u64);
            let before = self.fbuf.0[row];
            let after = before ^ mask;
            self.fbuf.0[row] = after;
            proof {
                assert(before & !(before ^ mask) == before & mask) by (bit_vector);
            }
            if before & !after > 0 {
                hit = true;
                proof {
                    assert(old(self).fbuf.0@[row as int] & sprite_row(
                        spr@[row as int - yo as int],
                        xo,
                    ) != 0);
                }
            }
            i += 1;
        }
        proof {
            assert(self.fbuf.0@ =~= drawn_rows(old(self).fbuf.0@, spr@, xo, yo as int));
        }
        hit
    }

    /// Stores `V0..V15` into memory starting at the index register.
    fn store_regs(&mut self)
        requires
            old(self).ireg + 15 < 4096,
        ensures
            only_pc_mem(*old(self), *final(self)),
            final(self).pc == old(self).pc,
            forall|j: int|
                0 <= j < 4096 ==> final(self).ram.0@[j] == (if old(self).ireg as int <= j < old(
                    self,
                ).ireg as int + 16 {
                    old(self).vreg@[j - old(self).ireg as int]
                } else {
                    old(self).ram.0@[j]
                }),
    {
        let mut i: usize = 0;
        while i < 16
            invariant
                self.ireg + 15 < 4096,
                i <= 16,
                self.pc == old(self).pc,
                self.vreg@ == old(self).vreg@,
                self.ireg == old(self).ireg,
                self.dt == old(self).dt,
                self.st == old(self).st,
                self.stack.data@ == old(self).stack.data@,
                self.stack.sp == old(self).stack.sp,
                self.fbuf.0@ == old(self).fbuf.0@,
                forall|j: int|
                    0 <= j < 4096 ==> self.ram.0@[j] == (if old(self).ireg as int <= j < old(
                        self,
                    ).ireg as int + i {
                        old(self).vreg@[j - old(self).ireg as int]
                    } else {
                        old(self).ram.0@[j]
                    }),
            decreases 16 - i,
        {
            self.ram.set(self.ireg + i as u16, self.vreg[i]);
            i += 1;
        }
    }

    /// Loads `V0..V15` from memory starting at the index register.
    fn load_regs(&mut self)
        requires
            old(self).ireg + 15 < 4096,
        ensures
            only_pc_regs(*old(self), *final(self)),
            final(self).pc == old(self).pc,
            forall|j: int|
                0 <= j < 16 ==> final(self).vreg@[j] == old(self).ram.0@[old(self).ireg as int
                    + j],
    {
        let mut i: usize = 0;
        while i < 16
            invariant
                self.ireg + 15 < 4096,
                i <= 16,
                self.pc == old(self).pc,
                self.ireg == old(self).ireg,
                self.dt == old(self).dt,
                self.st == old(self).st,
                self.stack.data@ == old(self).stack.data@,
                self.stack.sp == old(self).stack.sp,
                self.fbuf.0@ == old(self).fbuf.0@,
                self.ram.0@ == old(self).ram.0@,
                forall|j: int|
                    0 <= j < i ==> self.vreg@[j] == old(self).ram.0@[old(self).ireg as int + j],
                forall|j: int| i <= j < 16 ==> self.vreg@[j] == old(self).vreg@[j],
            decreases 16 - i,
        {
            let b = self.ram.get(self.ireg + i as u16);
            self.vreg[i] = b;
            i += 1;
        }
    }

    /// One arithmetic/logic instruction, keyed on `z`: the flag register is
    /// written first and the destination second, in instruction order.
    fn alu(&mut self, z: u8, x: u8, y: u8)
        requires
            x < 16,
            y < 16,
            z == 0x0 || z == 0x1 || z == 0x2 || z == 0x3 || z == 0x4 || z == 0x5 || z == 0x6 || z
                == 0x7 || z == 0xE,
        ensures
            only_pc_regs(*old(self), *final(self)),
            final(self).pc == old(self).pc,
            final(self).vreg@ == alu_regs(z, x as int, y as int, old(self).vreg@),
    {
        match z {
            0x0 => {
                let b = self.vreg[y as usize];
                self.vreg[x as usize] = b;
            },
            0x1 => {
                let a = self.vreg[x as usize];
                let b = self.vreg[y as usize];
                self.vreg[x as usize] = a | b;
            },
            0x2 => {
                let a = self.vreg[x as usize];
                let b = self.vreg[y as usize];
                self.vreg[x as usize] = a & b;
            },
            0x3 => {
                let a = self.vreg[x as usize];
                let b = self.vreg[y as usize];
                self.vreg[x as usize] = a ^ b;
            },
            0x4 => {
                let a = self.vreg[x as usize];
                let b = self.vreg[y as usize];
                let carry = (a as u16) + (b as u16) > 255;
                self.vreg[15] = if carry {
                    1
                } else {
                    0
                };
                self.vreg[x as usize] = a.wrapping_add(b);
            },
            0x5 => {
                let c = self.vreg[x as usize] > self.vreg[y as usize];
                self.vreg[15] = if c {
                    1
                } else {
                    0
                };
                let a = self.vreg[x as usize];
                let b = self.vreg[y as usize];
                self.vreg[x as usize] = a.wrapping_sub(b);
            },
            0x6 => {
                let lo = self.vreg[x as usize] & 1;
                self.vreg[15] = lo;
                let a = self.vreg[x as usize];
                self.vreg[x as usize] = a >> 1u8;
            },
            0x7 => {
                let c = self.vreg[y as usize] > self.vreg[x as usize];
                self.vreg[15] = if c {
                    1
                } else {
                    0
                };
                let a = self.vreg[y as usize];
                let b = self.vreg[x as usize];
                self.vreg[x as usize] = a.wrapping_sub(b);
            },
            _ => {
                let hi = self.vreg[x as usize] >> 7u8;
                self.vreg[15] = hi;
                let a = self.vreg[x as usize];
                self.vreg[x as usize] = a << 1u8;
            },
        }
    }

    /// Executes exactly one instruction at the current program counter.
    ///
    /// The whole effect is [`step_spec`]: unless the instruction itself sets
    /// the counter, it advances by 2; a decode failure or bounds fault
    /// changes nothing and is reported in the result. The key snapshot is
    /// read only by the key-skip and wait-for-key instructions; a draw hands
    /// the full framebuffer copy back for emission.
    pub fn exec(&mut self, keys: &State) -> (r: Result<Step, Fault>)
        requires
            old(self).wf(),
        ensures
            final(self).wf(),
            step_spec(*old(self), *keys, *final(self), r),
    {
        if self.pc >= 4095 {
            return Err(Fault::FetchOutOfRange(self.pc));
        }
        let op = self.ram.opcode(self.pc);
        proof {
            lemma_fields_bounded(op.0);
        }
        let instr = op.decode();
        match instr {
            Instr::Halt => Ok(Step::Halt),
            Instr::Clear => {
                self.clear_rows();
                self.pc = self.pc + 2;
                Ok(Step::Continue)
            },
            Instr::Ret => {
                if self.stack.sp == 0 {
                    return Err(Fault::StackUnderflow);
                }
                let a = self.stack.pop();
                self.pc = a.wrapping_add(2);
                Ok(Step::Continue)
            },
            Instr::Jump(a) => {
                self.pc = a;
                Ok(Step::Continue)
            },
            Instr::Call(a) => {
                if self.stack.sp >= 15 {
                    return Err(Fault::StackOverflow);
                }
                self.stack.push(self.pc);
                self.pc = a;
                Ok(Step::Continue)
            },
            Instr::SkipEqNum(x, n) => {
                if self.vreg[x as usize] == n {
                    self.pc = self.pc + 4;
                } else {
                    self.pc = self.pc + 2;
                }
                Ok(Step::Continue)
            },
            Instr::SkipNeNum(x, n) => {
                if self.vreg[x as usize] != n {
                    self.pc = self.pc + 4;
                } else {
                    self.pc = self.pc + 2;
                }
                Ok(Step::Continue)
            },
            Instr::SkipEqReg(x, y) => {
                if self.vreg[x as usize] == self.vreg[y as usize] {
                    self.pc = self.pc + 4;
                } else {
                    self.pc = self.pc + 2;
                }
                Ok(Step::Continue)
            },
            Instr::SetNum(x, n) => {
                self.vreg[x as usize] = n;
                self.pc = self.pc + 2;
                Ok(Step::Continue)
            },
            Instr::AddNum(x, n) => {
                let a = self.vreg[x as usize];
                self.vreg[x as usize] = a.wrapping_add(n);
                self.pc = self.pc + 2;
                Ok(Step::Continue)
            },
            Instr::Copy(x, y) => {
                self.alu(0x0, x, y);
                self.pc = self.pc + 2;
                Ok(Step::Continue)
            },
            Instr::Or(x, y) => {
                self.alu(0x1, x, y);
                self.pc = self.pc + 2;
                Ok(Step::Continue)
            },
            Instr::And(x, y) => {
                self.alu(0x2, x, y);
                self.pc = self.pc + 2;
                Ok(Step::Continue)
            },
            Instr::Xor(x, y) => {
                self.alu(0x3, x, y);
                self.pc = self.pc + 2;
                Ok(Step::Continue)
            },
            Instr::AddReg(x, y) => {
                self.alu(0x4, x, y);
                self.pc = self.pc + 2;
                Ok(Step::Continue)
            },
            Instr::SubReg(x, y) => {
                self.alu(0x5, x, y);
                self.pc = self.pc + 2;
                Ok(Step::Continue)
            },
            Instr::Shr(x, y) => {
                self.alu(0x6, x, y);
                self.pc = self.pc + 2;
                Ok(Step::Continue)
            },
            Instr::SubRev(x, y) => {
                self.alu(0x7, x, y);
                self.pc = self.pc + 2;
                Ok(Step::Continue)
            },
            Instr::Shl(x, y) => {
                self.alu(0xE, x, y);
                self.pc = self.pc + 2;
                Ok(Step::Continue)
            },
            Instr::SkipNeReg(x, y) => {
                if self.vreg[x as usize] != self.vreg[y as usize] {
                    self.pc = self.pc + 4;
                } else {
                    self.pc = self.pc + 2;
                }
                Ok(Step::Continue)
            },
            Instr::SetIndex(a) => {
                self.ireg = a;
                self.pc = self.pc + 2;
                Ok(Step::Continue)
            },
            Instr::JumpOffset(a) => {
                self.pc = a + self.vreg[0] as u16;
                Ok(Step::Continue)
            },
            Instr::Rand(x, n) => {
                let b = random_byte();
                self.vreg[x as usize] = b & n;
                self.pc = self.pc + 2;
                proof {
                    assert(self.vreg@ == old(self).vreg@.update(x as int, b & n));
                }
                Ok(Step::Continue)
            },
            Instr::Draw(x, y, n) => {
                if self.ireg as usize + n as usize > 4096 {
                    return Err(Fault::SpriteOutOfRange(self.ireg, n));
                }
                let xo = self.vreg[x as usize];
                let yo = self.vreg[y as usize];
                if n > 0 && (xo > 63 || yo as usize + n as usize > 32) {
                    return Err(Fault::DrawOutOfRange(xo, yo, n));
                }
                let spr = self.ram.sprite(self.ireg, n);
                let hit = self.blit(&spr, xo, yo);
                self.vreg[15] = if hit {
                    1
                } else {
                    0
                };
                self.pc = self.pc + 2;
                Ok(Step::Draw(Frame(self.fbuf.0)))
            },
            Instr::SkipKey(x) => {
                let vx = self.vreg[x as usize];
                proof {
                    assert(vx & 0xF < 16) by (bit_vector);
                }
                if keys.state & (1u16 << ((vx & 0xF) as u16)) > 0 {
                    self.pc = self.pc + 4;
                } else {
                    self.pc = self.pc + 2;
                }
                Ok(Step::Continue)
            },
            Instr::SkipNoKey(x) => {
                let vx = self.vreg[x as usize];
                proof {
                    assert(vx & 0xF < 16) by (bit_vector);
                }
                if keys.state & (1u16 << ((vx & 0xF) as u16)) == 0 {
                    self.pc = self.pc + 4;
                } else {
                    self.pc = self.pc + 2;
                }
                Ok(Step::Continue)
            },
            Instr::GetDelay(x) => {
                self.vreg[x as usize] = self.dt;
                self.pc = self.pc + 2;
                Ok(Step::Continue)
            },
            Instr::WaitKey(x) => {
                if !keys.pressed {
                    return Ok(Step::Waiting);
                }
                self.vreg[x as usize] = #[verifier::truncate] (keys.key as u8);
                self.pc = self.pc + 2;
                Ok(Step::Continue)
            },
            Instr::SetDelay(x) => {
                self.dt = self.vreg[x as usize];
                self.pc = self.pc + 2;
                Ok(Step::Continue)
            },
            Instr::SetSound(x) => {
                self.st = self.vreg[x as usize];
                self.pc = self.pc + 2;
                Ok(Step::Continue)
            },
            Instr::AddIndex(x) => {
                let vx = self.vreg[x as usize];
                self.ireg = self.ireg.wrapping_add(vx as u16);
                self.pc = self.pc + 2;
                Ok(Step::Continue)
            },
            Instr::Glyph(x) => {
                let vx = self.vreg[x as usize];
                self.ireg = ((vx & 0xF) as u16) * 5;
                self.pc = self.pc + 2;
                Ok(Step::Continue)
            },
            Instr::StoreDigits(x) => {
                if self.ireg >= 4094 {
                    return Err(Fault::MemOutOfRange(self.ireg));
                }
                let vx = self.vreg[x as usize];
                self.ram.set(self.ireg, vx / 100);
                self.ram.set(self.ireg + 1, vx / 10 % 10);
                self.ram.set(self.ireg + 2, vx % 10);
                self.pc = self.pc + 2;
                Ok(Step::Continue)
            },
            Instr::StoreRegs => {
                if self.ireg >= 4081 {
                    return Err(Fault::MemOutOfRange(self.ireg));
                }
                self.store_regs();
                self.pc = self.pc + 2;
                Ok(Step::Continue)
            },
            Instr::LoadRegs => {
                if self.ireg >= 4081 {
                    return Err(Fault::MemOutOfRange(self.ireg));
                }
                self.load_regs();
                self.pc = self.pc + 2;
                Ok(Step::Continue)
            },
            Instr::Unknown => Err(Fault::Unrecognized(op.0)),
        }
    }
}

/// Relies on rand::random: one byte from the process-wide non-deterministic
/// generator. Nothing is promised of the value; the caller's contract holds
/// for every byte that can come back.
#[verifier::external_body]
fn random_byte() -> u8 {
    rand::random::<u8>()
}

} // verus!
