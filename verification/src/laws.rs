//! Machine-checked laws of the interpreter: the arithmetic flag semantics,
//! the XOR self-inverse of drawing, and the program-counter discipline of
//! the branching and skipping instructions, each proved from the step
//! relation or from the spec functions the step relation is written in.

use vstd::prelude::*;

use crate::cpu::CPU;
use crate::cpu::Fault;
use crate::cpu::Instr;
use crate::cpu::Step;
use crate::cpu::alu_regs;
use crate::cpu::decoded;
use crate::cpu::draw_hits;
use crate::cpu::drawn_rows;
use crate::cpu::key_down;
use crate::cpu::only_pc;
use crate::cpu::sprite_row;
use crate::cpu::step_spec;
use crate::cpu::wrap_add8;
use crate::cpu::wrap_sub8;
use crate::keys::State;
use crate::mem::word_at;

verus! {

/// Add-with-carry: for any operand bytes `a = Vx`, `b = Vy`, the add-register
/// instruction leaves the flag register 1 exactly when `a + b > 255` and
/// leaves `Vx == (a + b) mod 256`. The flag statement needs `x != 15`, since
/// with `x == 15` the sum itself lands in the flag register.
pub proof fn lemma_add_reg_flag(v: Seq<u8>, x: int, y: int)
    requires
        v.len() == 16,
        0 <= x < 15,
        0 <= y < 16,
    ensures
        alu_regs(0x4, x, y, v)[x] == (v[x] + v[y]) % 256,
        alu_regs(0x4, x, y, v)[15] == (if v[x] + v[y] > 255 {
            1u8
        } else {
            0u8
        }),
{
    assert(wrap_add8(v[x], v[y]) == (v[x] + v[y]) % 256);
}

/// Subtract-with-borrow: for any operand bytes `a = Vx`, `b = Vy`, the
/// subtract-register instruction leaves the flag register 1 exactly when
/// `a > b` and leaves `Vx == (a - b) mod 256`. Needs `x != 15` and `y != 15`:
/// the flag is written before the subtraction reads its operands, so either
/// operand aliased to the flag register reads the fresh flag instead.
pub proof fn lemma_sub_reg_flag(v: Seq<u8>, x: int, y: int)
    requires
        v.len() == 16,
        0 <= x < 15,
        0 <= y < 15,
    ensures
        alu_regs(0x5, x, y, v)[x] == (v[x] - v[y]) % 256,
        alu_regs(0x5, x, y, v)[15] == (if v[x] > v[y] {
            1u8
        } else {
            0u8
        }),
{
    assert(wrap_sub8(v[x], v[y]) == (v[x] - v[y]) % 256);
}

/// After the clear instruction every framebuffer row reads zero, and the
/// counter advances by the default 2.
pub proof fn lemma_clear_blanks(pre: CPU, keys: State, post: CPU, r: Result<Step, Fault>)
    requires
        step_spec(pre, keys, post, r),
        pre.pc < 4095,
        decoded(word_at(pre.ram.0@, pre.pc as int)) == Instr::Clear,
    ensures
        forall|i: int| 0 <= i < 32 ==> post.fbuf.0@[i] == 0u64,
        post.pc == pre.pc + 2,
        r == Ok::<Step, Fault>(Step::Continue),
{
}

/// Drawing is its own inverse: the same sprite XOR-drawn twice at the same
/// location with unchanged memory restores the framebuffer, and the second
/// draw reports a collision exactly when the first draw lit some pixel.
pub proof fn lemma_draw_round_trip(fb: Seq<u64>, spr: Seq<u8>, xo: u8, y0: int)
    requires
        fb.len() == 32,
        0 <= y0,
        y0 + spr.len() <= 32,
    ensures
        drawn_rows(drawn_rows(fb, spr, xo, y0), spr, xo, y0) == fb,
        draw_hits(drawn_rows(fb, spr, xo, y0), spr, xo, y0) <==> (exists|i: int|
            y0 <= i < y0 + spr.len() && !fb[i] & sprite_row(spr[i - y0], xo) != 0),
{
    let d1 = drawn_rows(fb, spr, xo, y0);
    assert forall|i: int| 0 <= i < 32 implies drawn_rows(d1, spr, xo, y0)[i] == fb[i] by {
        if y0 <= i < y0 + spr.len() {
            let m = sprite_row(spr[i - y0], xo);
            let f = fb[i];
            assert((f ^ m) ^ m == f) by (bit_vector);
        }
    }
    assert(drawn_rows(d1, spr, xo, y0) =~= fb);
    assert forall|i: int| y0 <= i < y0 + spr.len() implies (d1[i] & sprite_row(spr[i - y0], xo)
        != 0) == (!fb[i] & sprite_row(spr[i - y0], xo) != 0) by {
        let m = sprite_row(spr[i - y0], xo);
        let f = fb[i];
        assert((f ^ m) & m == !f & m) by (bit_vector);
    }
    if draw_hits(d1, spr, xo, y0) {
        let i = choose|i: int|
            y0 <= i < y0 + spr.len() && 0 <= i < d1.len() && d1[i] & sprite_row(
                spr[i - y0],
                xo,
            ) != 0;
        assert(!fb[i] & sprite_row(spr[i - y0], xo) != 0);
    }
    if exists|i: int| y0 <= i < y0 + spr.len() && !fb[i] & sprite_row(spr[i - y0], xo) != 0 {
        let i = choose|i: int|
            y0 <= i < y0 + spr.len() && !fb[i] & sprite_row(spr[i - y0], xo) != 0;
        assert(d1[i] & sprite_row(spr[i - y0], xo) != 0);
    }
}

/// Whether an instruction sets or conditions the program counter itself
/// (jumps, calls, returns, skips, the halt, the key wait, and the
/// unrecognized case) rather than taking the default increment.
pub open spec fn branching(i: Instr) -> bool {
    match i {
        Instr::Halt => true,
        Instr::Ret => true,
        Instr::Jump(_) => true,
        Instr::Call(_) => true,
        Instr::JumpOffset(_) => true,
        Instr::SkipEqNum(_, _) => true,
        Instr::SkipNeNum(_, _) => true,
        Instr::SkipEqReg(_, _) => true,
        Instr::SkipNeReg(_, _) => true,
        Instr::SkipKey(_) => true,
        Instr::SkipNoKey(_) => true,
        Instr::WaitKey(_) => true,
        Instr::Unknown => true,
        _ => false,
    }
}

/// Default increment: any non-branching instruction that completes advances
/// the program counter by exactly 2.
pub proof fn lemma_default_increment(pre: CPU, keys: State, post: CPU, r: Result<Step, Fault>)
    requires
        step_spec(pre, keys, post, r),
        pre.pc < 4095,
        !branching(decoded(word_at(pre.ram.0@, pre.pc as int))),
        r is Ok,
    ensures
        post.pc == pre.pc + 2,
{
}

/// Default increment, instanced: a register-set instruction advances the
/// counter by exactly 2 and stores its immediate.
pub proof fn lemma_set_reg_step(
    pre: CPU,
    keys: State,
    post: CPU,
    r: Result<Step, Fault>,
    x: u8,
    n: u8,
)
    requires
        step_spec(pre, keys, post, r),
        pre.pc < 4095,
        decoded(word_at(pre.ram.0@, pre.pc as int)) == Instr::SetNum(x, n),
        x < 16,
    ensures
        post.pc == pre.pc + 2,
        post.vreg@[x as int] == n,
        r == Ok::<Step, Fault>(Step::Continue),
{
}

/// Jump: whatever the counter held before, after a jump it equals the
/// address operand, and nothing else moves.
pub proof fn lemma_jump_step(pre: CPU, keys: State, post: CPU, r: Result<Step, Fault>, a: u16)
    requires
        step_spec(pre, keys, post, r),
        pre.pc < 4095,
        decoded(word_at(pre.ram.0@, pre.pc as int)) == Instr::Jump(a),
    ensures
        post.pc == a,
        only_pc(pre, post),
        r == Ok::<Step, Fault>(Step::Continue),
{
}

/// Call then return: a call pushes the call site and jumps; the matching
/// return resumes at the call's own address plus 2.
pub proof fn lemma_call_ret(
    s0: CPU,
    k0: State,
    s1: CPU,
    r0: Result<Step, Fault>,
    k1: State,
    s2: CPU,
    r1: Result<Step, Fault>,
    a: u16,
)
    requires
        step_spec(s0, k0, s1, r0),
        s0.pc < 4095,
        s0.stack.sp < 15,
        decoded(word_at(s0.ram.0@, s0.pc as int)) == Instr::Call(a),
        step_spec(s1, k1, s2, r1),
        a < 4095,
        decoded(word_at(s1.ram.0@, s1.pc as int)) == Instr::Ret,
    ensures
        s1.pc == a,
        s2.pc == s0.pc + 2,
        r0 == Ok::<Step, Fault>(Step::Continue),
        r1 == Ok::<Step, Fault>(Step::Continue),
{
    assert(s1.stack.data@[s1.stack.sp as int] == s0.pc);
}

/// Key skip: with `Vx` holding a key index, the skip-if-pressed instruction
/// advances the counter by 4 when that key's bit is set in the shared
/// bitmask and by 2 otherwise.
pub proof fn lemma_skip_key(pre: CPU, keys: State, post: CPU, r: Result<Step, Fault>, x: u8)
    requires
        step_spec(pre, keys, post, r),
        pre.pc < 4095,
        decoded(word_at(pre.ram.0@, pre.pc as int)) == Instr::SkipKey(x),
        x < 16,
    ensures
        post.pc == (if key_down(keys.state, pre.vreg@[x as int]) {
            pre.pc + 4
        } else {
            pre.pc + 2
        }),
        only_pc(pre, post),
        r == Ok::<Step, Fault>(Step::Continue),
{
}

/// Key skip, inverted: the skip-if-not-pressed instruction advances by 4
/// exactly when the same state would make the skip-if-pressed advance by 2.
pub proof fn lemma_skip_no_key(pre: CPU, keys: State, post: CPU, r: Result<Step, Fault>, x: u8)
    requires
        step_spec(pre, keys, post, r),
        pre.pc < 4095,
        decoded(word_at(pre.ram.0@, pre.pc as int)) == Instr::SkipNoKey(x),
        x < 16,
    ensures
        post.pc == (if !key_down(keys.state, pre.vreg@[x as int]) {
            pre.pc + 4
        } else {
            pre.pc + 2
        }),
        only_pc(pre, post),
        r == Ok::<Step, Fault>(Step::Continue),
{
}

} // verus!

