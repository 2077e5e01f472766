use vstd::prelude::*;

use crate::instr::{low_nn, low_nnn, nib_a, nib_n, nib_x, nib_y};
use crate::consts::TICKS_PER_FRAME;
use crate::state::{
    exec_defined, exec_spec, initial_state, run_ticks, spec_load, spec_notify_vblank, spec_set_key,
    spec_tick_timers, tick_defined, tick_spec, Chip8State,
};

verus! {

// What each instruction does, stated directly in terms of the instruction
// word and the registers, memory and display it reads. `exec_spec(s, w, r)` is
// the effect of instruction `w` on `s`, the state after the fetch.

/// An instruction word is made of its four nibbles, most significant first;
/// NN is the low byte and NNN the low twelve bits.
pub proof fn law_decode(w: u16)
    ensures
        0 <= nib_a(w) < 16 && 0 <= nib_x(w) < 16 && 0 <= nib_y(w) < 16 && 0 <= nib_n(w) < 16,
        w as int == 4096 * nib_a(w) + 256 * nib_x(w) + 16 * nib_y(w) + nib_n(w),
        low_nn(w) == 16 * nib_y(w) + nib_n(w),
        low_nnn(w) == 256 * nib_x(w) + 16 * nib_y(w) + nib_n(w),
{
    assert(w == 4096 * (w / 4096) + 256 * ((w / 256) % 16) + 16 * ((w / 16) % 16) + w % 16) by (bit_vector);
    assert(w % 256 == 16 * ((w / 16) % 16) + w % 16) by (bit_vector);
    assert(w % 4096 == 256 * ((w / 256) % 16) + 16 * ((w / 16) % 16) + w % 16) by (bit_vector);
    assert(w / 4096 < 16) by (bit_vector);
}

/// A clock tick does nothing while a sprite waits for the vertical blank;
/// otherwise it runs the big-endian word at PC with PC already moved past it.
pub proof fn law_tick_fetches(s: Chip8State, r: u8)
    requires
        s.wf(),
        s.pc + 1 < 4096,
    ensures
        s.wait_for_v_blank ==> tick_spec(s, r) == s,
        !s.wait_for_v_blank ==> tick_spec(s, r) == exec_spec(
            Chip8State { pc: (s.pc + 2) as u16, ..s },
            (256 * s.ram[s.pc as int] + s.ram[s.pc + 1]) as u16,
            r,
        ),
{
}

/// A new machine: PC at 0x200, every register, timer, key and pixel zero, an
/// empty stack, the font at address 0, the rest of memory zero, and each quirk
/// set from the argument of the same name.
pub proof fn law_new_machine(q8xy6: bool, q8xye: bool, qfx55: bool, qfx65: bool)
    ensures
        ({
            let s = initial_state(q8xy6, q8xye, qfx55, qfx65);
            &&& s.quirk_8xy6 == q8xy6
            &&& s.quirk_8xye == q8xye
            &&& s.quirk_fx55 == qfx55
            &&& s.quirk_fx65 == qfx65
            &&& s.wf()
            &&& s.pc == 0x200 && s.i_reg == 0 && s.sp == 0 && s.dt == 0 && s.st == 0
            &&& !s.state_fx0a_started && !s.wait_for_v_blank
            &&& forall|k: int| 0 <= k < 16 ==> #[trigger] s.v_reg[k] == 0 && !s.keys[k] && !s.keys_prev[k] && s.stack[k] == 0
            &&& forall|p: int| 0 <= p < 2048 ==> !#[trigger] s.screen[p]
            &&& forall|a: int| 80 <= a < 4096 ==> #[trigger] s.ram[a] == 0
            &&& s.ram[0] == 0xF0 && s.ram[1] == 0x90 && s.ram[5] == 0x20 && s.ram[79] == 0x80
        }),
{
}

/// 0000 does nothing.
pub proof fn law_op_nop(s: Chip8State, r: u8)
    ensures
        exec_spec(s, 0x0000, r) == s,
{
}

/// 00E0 turns every pixel off and changes nothing else.
pub proof fn law_op_cls(s: Chip8State, r: u8)
    ensures
        forall|p: int| 0 <= p < 2048 ==> !#[trigger] exec_spec(s, 0x00E0, r).screen[p],
        exec_spec(s, 0x00E0, r).screen.len() == 2048,
        exec_spec(s, 0x00E0, r) == (Chip8State { screen: exec_spec(s, 0x00E0, r).screen, ..s }),
{
}

/// 00EE moves PC to the latest return address and pops it.
pub proof fn law_op_ret(s: Chip8State, r: u8)
    requires
        s.wf(),
        s.sp > 0,
    ensures
        exec_spec(s, 0x00EE, r) == (Chip8State { pc: s.stack[s.sp - 1], sp: (s.sp - 1) as u8, ..s }),
{
}

/// 1NNN sets PC to NNN.
pub proof fn law_op_jump(s: Chip8State, w: u16, r: u8)
    requires
        nib_a(w) == 1,
    ensures
        exec_spec(s, w, r) == (Chip8State { pc: (w as int % 4096) as u16, ..s }),
{
}

/// 2NNN puts PC in the first free stack slot, pushes it and sets PC to NNN.
pub proof fn law_op_call(s: Chip8State, w: u16, r: u8)
    requires
        s.wf(),
        nib_a(w) == 2,
        s.sp < 16,
    ensures
        ({
            let t = exec_spec(s, w, r);
            &&& t.pc == w as int % 4096
            &&& t.sp == s.sp + 1
            &&& t.stack[s.sp as int] == s.pc
            &&& forall|k: int| 0 <= k < 16 && k != s.sp ==> #[trigger] t.stack[k] == s.stack[k]
            &&& t.stack.len() == 16
            &&& t == (Chip8State { pc: t.pc, sp: t.sp, stack: t.stack, ..s })
        }),
{
}

/// BNNN sets PC to the sum NNN + V0.
pub proof fn law_op_jump_offset(s: Chip8State, w: u16, r: u8)
    requires
        s.wf(),
        nib_a(w) == 0xB,
    ensures
        exec_spec(s, w, r).pc == w as int % 4096 + s.v_reg[0],
        exec_spec(s, w, r) == (Chip8State { pc: exec_spec(s, w, r).pc, ..s }),
{
}

/// The state that differs from `s` only in PC, moved on by `skip` more than
/// the fetch already did when `skip` holds.
pub open spec fn moved_on_by(s: Chip8State, skip: bool) -> Chip8State {
    Chip8State { pc: (if skip { s.pc + 2 } else { s.pc as int }) as u16, ..s }
}

/// The conditional skips: 3XNN skips when VX == NN, 4XNN when VX != NN,
/// 5XY0 when VX == VY, 9XY0 when VX != VY, EX9E when the key numbered VX is
/// down, EXA1 when it is up (a number above 15 names no key and never skips).
/// A skip moves PC on by 2; nothing else changes.
pub proof fn law_op_skips(s: Chip8State, w: u16, r: u8)
    requires
        s.wf(),
    ensures
        ({
            let vx = s.v_reg[(w as int / 256) % 16];
            let vy = s.v_reg[(w as int / 16) % 16];
            let nn = w as int % 256;
            let a = w as int / 4096;
            let low = w as int % 256;
            &&& a == 3 ==> exec_spec(s, w, r) == moved_on_by(s, vx == nn)
            &&& a == 4 ==> exec_spec(s, w, r) == moved_on_by(s, vx != nn)
            &&& a == 5 ==> exec_spec(s, w, r) == moved_on_by(s, vx == vy)
            &&& a == 9 ==> exec_spec(s, w, r) == moved_on_by(s, vx != vy)
            &&& a == 0xE && low == 0x9E ==> exec_spec(s, w, r) == moved_on_by(s, vx < 16 && s.keys[vx as int])
            &&& a == 0xE && low == 0xA1 ==> exec_spec(s, w, r) == moved_on_by(s, vx < 16 && !s.keys[vx as int])
        }),
{
}

/// 5XY0 and 9XY0 with the same X and Y are complementary: from the same state
/// exactly one of them skips.
pub proof fn law_skip_eq_ne_reg_complementary(s: Chip8State, eq: u16, ne: u16, r1: u8, r2: u8)
    requires
        s.wf(),
        nib_a(eq) == 5,
        nib_n(eq) == 0,
        ne == eq + 0x4000,
        s.pc + 2 <= 0xFFFF,
    ensures
        exec_spec(s, eq, r1).pc == s.pc || exec_spec(s, eq, r1).pc == s.pc + 2,
        exec_spec(s, ne, r2).pc == s.pc || exec_spec(s, ne, r2).pc == s.pc + 2,
        (exec_spec(s, eq, r1).pc == s.pc + 2) != (exec_spec(s, ne, r2).pc == s.pc + 2),
{
    assert(ne / 4096 == 9 && (ne / 256) % 16 == (eq / 256) % 16 && (ne / 16) % 16 == (eq / 16) % 16) by (bit_vector)
        requires
            eq / 4096 == 5,
            ne == eq + 0x4000,
    ;
    law_op_skips(s, eq, r1);
    law_op_skips(s, ne, r2);
}

/// The instructions that write one register: 6XNN loads NN, 7XNN adds NN
/// modulo 256 (VF untouched), 8XY0 copies VY, CXNN stores the random byte
/// masked with NN, FX07 stores the delay timer. Nothing else changes.
pub proof fn law_op_set_register(s: Chip8State, w: u16, r: u8)
    requires
        s.wf(),
    ensures
        ({
            let x = (w as int / 256) % 16;
            let y = (w as int / 16) % 16;
            let nn = w as int % 256;
            let a = w as int / 4096;
            let low = w as int % 256;
            let n = w as int % 16;
            &&& a == 6 ==> exec_spec(s, w, r) == (Chip8State { v_reg: s.v_reg.update(x, nn as u8), ..s })
            &&& a == 7 ==> exec_spec(s, w, r) == (Chip8State { v_reg: s.v_reg.update(x, ((s.v_reg[x] + nn) % 256) as u8), ..s })
            &&& a == 8 && n == 0 ==> exec_spec(s, w, r) == (Chip8State { v_reg: s.v_reg.update(x, s.v_reg[y]), ..s })
            &&& a == 0xC ==> exec_spec(s, w, r) == (Chip8State { v_reg: s.v_reg.update(x, r & (nn as u8)), ..s })
            &&& a == 0xF && low == 0x07 ==> exec_spec(s, w, r) == (Chip8State { v_reg: s.v_reg.update(x, s.dt), ..s })
        }),
{
}

/// The 8XYN arithmetic and logic: VX gets the result, then VF gets the flag
/// (so with X = F the flag wins). OR, AND and XOR clear VF; ADD sets it on
/// carry; SUB (VX - VY) and SUBN (VY - VX) set it when there is no borrow;
/// the shifts move the source (VX with the quirk on, VY without) by one bit
/// and put the bit shifted out in VF. Nothing else changes.
pub proof fn law_op_alu(s: Chip8State, w: u16, r: u8)
    requires
        s.wf(),
        nib_a(w) == 8,
    ensures
        ({
            let x = (w as int / 256) % 16;
            let y = (w as int / 16) % 16;
            let n = w as int % 16;
            let vx = s.v_reg[x];
            let vy = s.v_reg[y];
            let t = exec_spec(s, w, r);
            let with = |val: int, flag: int| Chip8State { v_reg: s.v_reg.update(x, val as u8).update(15, flag as u8), ..s };
            &&& n == 1 ==> t == with((vx | vy) as int, 0)
            &&& n == 2 ==> t == with((vx & vy) as int, 0)
            &&& n == 3 ==> t == with((vx ^ vy) as int, 0)
            &&& n == 4 ==> t == with((vx + vy) % 256, if vx + vy >= 256 { 1 } else { 0 })
            &&& n == 5 ==> t == with((vx - vy + 256) % 256, if vx >= vy { 1 } else { 0 })
            &&& n == 7 ==> t == with((vy - vx + 256) % 256, if vy >= vx { 1 } else { 0 })
            &&& n == 6 ==> t == with(
                (if s.quirk_8xy6 { vx } else { vy }) as int / 2,
                (if s.quirk_8xy6 { vx } else { vy }) as int % 2,
            )
            &&& n == 0xE ==> t == with(
                (if s.quirk_8xye { vx } else { vy }) as int * 2 % 256,
                (if s.quirk_8xye { vx } else { vy }) as int / 128,
            )
        }),
{
}

/// The index and timer instructions: ANNN sets I to NNN, FX1E adds VX to I
/// modulo 2^16, FX15 sets the delay timer and FX18 the sound timer to VX.
/// Nothing else changes.
pub proof fn law_op_index_and_timers(s: Chip8State, w: u16, r: u8)
    requires
        s.wf(),
    ensures
        ({
            let x = (w as int / 256) % 16;
            let a = w as int / 4096;
            let low = w as int % 256;
            let vx = s.v_reg[x];
            &&& a == 0xA ==> exec_spec(s, w, r) == (Chip8State { i_reg: (w as int % 4096) as u16, ..s })
            &&& a == 0xF && low == 0x1E ==> exec_spec(s, w, r) == (Chip8State { i_reg: ((s.i_reg + vx) % 65536) as u16, ..s })
            &&& a == 0xF && low == 0x15 ==> exec_spec(s, w, r) == (Chip8State { dt: vx, ..s })
            &&& a == 0xF && low == 0x18 ==> exec_spec(s, w, r) == (Chip8State { st: vx, ..s })
        }),
{
}

/// FX33 writes the hundreds, tens and ones of VX at I, I+1, I+2 and changes
/// nothing else.
pub proof fn law_op_bcd(s: Chip8State, w: u16, r: u8)
    requires
        s.wf(),
        nib_a(w) == 0xF,
        low_nn(w) == 0x33,
        s.i_reg + 2 < 4096,
    ensures
        ({
            let t = exec_spec(s, w, r);
            let v = s.v_reg[(w as int / 256) % 16] as int;
            let i = s.i_reg as int;
            &&& t.ram.len() == 4096
            &&& t.ram[i] == v / 100 && t.ram[i + 1] == (v / 10) % 10 && t.ram[i + 2] == v % 10
            &&& forall|a: int| 0 <= a < 4096 && (a < i || a > i + 2) ==> #[trigger] t.ram[a] == s.ram[a]
            &&& t == (Chip8State { ram: t.ram, ..s })
        }),
{
}

/// FX55 writes V0..=VX to memory at I..=I+X and FX65 reads them from there.
/// I stays put when the instruction's quirk is on and moves past the block
/// when it is off. Nothing else changes.
pub proof fn law_op_register_block(s: Chip8State, w: u16, r: u8)
    requires
        s.wf(),
        nib_a(w) == 0xF,
        low_nn(w) == 0x55 || low_nn(w) == 0x65,
        s.i_reg + nib_x(w) < 4096,
    ensures
        ({
            let t = exec_spec(s, w, r);
            let x = (w as int / 256) % 16;
            let i = s.i_reg as int;
            &&& low_nn(w) == 0x55 ==> {
                &&& t.ram.len() == 4096
                &&& forall|k: int| 0 <= k <= x ==> #[trigger] t.ram[i + k] == s.v_reg[k]
                &&& forall|a: int| 0 <= a < 4096 && (a < i || a > i + x) ==> #[trigger] t.ram[a] == s.ram[a]
                &&& t.i_reg == (if s.quirk_fx55 { i } else { i + x + 1 })
                &&& t == (Chip8State { ram: t.ram, i_reg: t.i_reg, ..s })
            }
            &&& low_nn(w) == 0x65 ==> {
                &&& t.v_reg.len() == 16
                &&& forall|k: int| 0 <= k <= x ==> #[trigger] t.v_reg[k] == s.ram[i + k]
                &&& forall|k: int| x < k < 16 ==> #[trigger] t.v_reg[k] == s.v_reg[k]
                &&& t.i_reg == (if s.quirk_fx65 { i } else { i + x + 1 })
                &&& t == (Chip8State { v_reg: t.v_reg, i_reg: t.i_reg, ..s })
            }
        }),
{
}

/// DXYN, pixel by pixel: with the sprite's corner at (VX mod 64, VY mod 32),
/// the pixel in row `row` < N and column `col` < 8 of the sprite flips exactly
/// when bit `col` (from the most significant) of the byte at I + row is set,
/// if it lies on the display; pixels the sprite does not reach keep their
/// value. VF becomes 1 when some flipped pixel was on and 0 otherwise, and
/// drawing then waits for the vertical blank. Nothing else changes.
pub proof fn law_op_draw(s: Chip8State, w: u16, r: u8)
    requires
        s.wf(),
        nib_a(w) == 0xD,
        s.i_reg + nib_n(w) <= 4096,
    ensures
        ({
            let t = exec_spec(s, w, r);
            let x0 = s.v_reg[(w as int / 256) % 16] as int % 64;
            let y0 = s.v_reg[(w as int / 16) % 16] as int % 32;
            let n = w as int % 16;
            let flips = |p: int| {
                let col = p % 64 - x0;
                let row = p / 64 - y0;
                0 <= col < 8 && 0 <= row < n && (s.ram[s.i_reg + row] as int / pow2_of(7 - col)) % 2 == 1
            };
            &&& t.screen.len() == 2048
            &&& forall|p: int| 0 <= p < 2048 ==> #[trigger] t.screen[p] == (s.screen[p] != flips(p))
            &&& (t.v_reg[15] == 1) == (exists|p: int| 0 <= p < 2048 && #[trigger] s.screen[p] && flips(p))
            &&& (t.v_reg[15] == 0) == !(exists|p: int| 0 <= p < 2048 && #[trigger] s.screen[p] && flips(p))
            &&& t.wait_for_v_blank
            &&& t == (Chip8State { screen: t.screen, v_reg: s.v_reg.update(15, t.v_reg[15]), wait_for_v_blank: true, ..s })
        }),
{
    let t = exec_spec(s, w, r);
    let x0 = s.v_reg[(w as int / 256) % 16] as int % 64;
    let y0 = s.v_reg[(w as int / 16) % 16] as int % 32;
    let n = w as int % 16;
    let flips = |p: int| {
        let col = p % 64 - x0;
        let row = p / 64 - y0;
        0 <= col < 8 && 0 <= row < n && (s.ram[s.i_reg + row] as int / pow2_of(7 - col)) % 2 == 1
    };
    assert forall|p: int| 0 <= p < 2048 implies crate::state::sprite_covers(s, w, p) == flips(p) by {
        let col = p % 64 - x0;
        if 0 <= col < 8 {
            lemma_bit_of(s.ram[s.i_reg + (p / 64 - y0)], (7 - col) as u8);
        }
    }
    if exists|p: int| 0 <= p < 2048 && #[trigger] s.screen[p] && flips(p) {
        let p = choose|p: int| 0 <= p < 2048 && #[trigger] s.screen[p] && flips(p);
        assert(crate::state::sprite_covers(s, w, p));
    }
}

/// 2 to the power `k`, for the bit positions of a byte.
pub open spec fn pow2_of(k: int) -> int {
    if k == 0 { 1 } else if k == 1 { 2 } else if k == 2 { 4 } else if k == 3 { 8 }
    else if k == 4 { 16 } else if k == 5 { 32 } else if k == 6 { 64 } else { 128 }
}

/// Bit `k` of a byte by shifting and by arithmetic.
proof fn lemma_bit_of(b: u8, k: u8)
    requires
        k < 8,
    ensures
        ((b >> k) & 1u8 == 1u8) == ((b as int / pow2_of(k as int)) % 2 == 1),
{
    if k == 0 {
        assert(((b >> 0u8) & 1u8 == 1u8) == (b % 2 == 1)) by (bit_vector);
    } else if k == 1 {
        assert(((b >> 1u8) & 1u8 == 1u8) == ((b / 2) % 2 == 1)) by (bit_vector);
    } else if k == 2 {
        assert(((b >> 2u8) & 1u8 == 1u8) == ((b / 4) % 2 == 1)) by (bit_vector);
    } else if k == 3 {
        assert(((b >> 3u8) & 1u8 == 1u8) == ((b / 8) % 2 == 1)) by (bit_vector);
    } else if k == 4 {
        assert(((b >> 4u8) & 1u8 == 1u8) == ((b / 16) % 2 == 1)) by (bit_vector);
    } else if k == 5 {
        assert(((b >> 5u8) & 1u8 == 1u8) == ((b / 32) % 2 == 1)) by (bit_vector);
    } else if k == 6 {
        assert(((b >> 6u8) & 1u8 == 1u8) == ((b / 64) % 2 == 1)) by (bit_vector);
    } else {
        assert(((b >> 7u8) & 1u8 == 1u8) == ((b / 128) % 2 == 1)) by (bit_vector);
    }
}

/// FX0A. On its first run (no wait in progress) it forgets every key, starts
/// waiting and repeats itself (PC back by 2). While waiting it repeats itself
/// until some key that was down in the previous frame is up now; then VX gets
/// the lowest such key and the wait ends.
pub proof fn law_op_wait_key(s: Chip8State, w: u16, r: u8)
    requires
        s.wf(),
        nib_a(w) == 0xF,
        low_nn(w) == 0x0A,
        s.pc >= 2,
    ensures
        ({
            let t = exec_spec(s, w, r);
            let x = (w as int / 256) % 16;
            &&& !s.state_fx0a_started ==> {
                &&& t.state_fx0a_started
                &&& t.pc == s.pc - 2
                &&& t.keys.len() == 16 && t.keys_prev.len() == 16
                &&& forall|k: int| 0 <= k < 16 ==> !#[trigger] t.keys[k] && !t.keys_prev[k]
                &&& t == (Chip8State { pc: t.pc, keys: t.keys, keys_prev: t.keys_prev, state_fx0a_started: true, ..s })
            }
            &&& s.state_fx0a_started && (forall|k: int| 0 <= k < 16 ==> !(#[trigger] s.keys_prev[k] && !s.keys[k])) ==>
                t == (Chip8State { pc: (s.pc - 2) as u16, ..s })
            &&& s.state_fx0a_started && (exists|k: int| 0 <= k < 16 && #[trigger] s.keys_prev[k] && !s.keys[k]) ==> {
                &&& !t.state_fx0a_started
                &&& t.v_reg[x] < 16
                &&& s.keys_prev[t.v_reg[x] as int] && !s.keys[t.v_reg[x] as int]
                &&& forall|j: int| 0 <= j < t.v_reg[x] ==> !(#[trigger] s.keys_prev[j] && !s.keys[j])
                &&& t == (Chip8State { v_reg: s.v_reg.update(x, t.v_reg[x]), state_fx0a_started: false, ..s })
            }
        }),
{
    crate::laws::law_first_release(s.keys_prev, s.keys, 0);
    let f = crate::state::first_release(s.keys_prev, s.keys, 0);
    if s.state_fx0a_started && (exists|k: int| 0 <= k < 16 && #[trigger] s.keys_prev[k] && !s.keys[k]) {
        let k = choose|k: int| 0 <= k < 16 && #[trigger] s.keys_prev[k] && !s.keys[k];
        if f >= 16 {
            assert(!(s.keys_prev[k] && !s.keys[k]));
        }
        assert(f < 16);
    }
}

/// Two FX0A in a row with no key event in between: once the first has
/// reported a released key, the second does not report it again but starts a
/// fresh wait, forgetting the keys and repeating itself.
pub proof fn law_op_wait_key_twice(s: Chip8State, w1: u16, w2: u16, r1: u8, r2: u8)
    requires
        s.wf(),
        nib_a(w1) == 0xF && low_nn(w1) == 0x0A,
        nib_a(w2) == 0xF && low_nn(w2) == 0x0A,
        s.pc >= 2,
        s.pc + 2 <= 0xFFFF,
        s.state_fx0a_started,
        exists|k: int| 0 <= k < 16 && #[trigger] s.keys_prev[k] && !s.keys[k],
    ensures
        ({
            let t = exec_spec(s, w1, r1);
            let u = exec_spec(Chip8State { pc: (t.pc + 2) as u16, ..t }, w2, r2);
            &&& t.pc == s.pc
            &&& u.pc == t.pc
            &&& u.v_reg == t.v_reg
            &&& u.state_fx0a_started
            &&& forall|k: int| 0 <= k < 16 ==> !#[trigger] u.keys[k] && !u.keys_prev[k]
        }),
{
    law_op_wait_key(s, w1, r1);
    let t = exec_spec(s, w1, r1);
    law_op_wait_key(Chip8State { pc: (t.pc + 2) as u16, ..t }, w2, r2);
}

/// One timer period: each timer goes down by one unless it is already zero;
/// nothing else changes. A vertical blank only ends the wait for it.
pub proof fn law_timers_and_vblank(s: Chip8State)
    ensures
        spec_tick_timers(s) == (Chip8State {
            dt: (if s.dt == 0 { 0 } else { s.dt - 1 }) as u8,
            st: (if s.st == 0 { 0 } else { s.st - 1 }) as u8,
            ..s
        }),
        spec_notify_vblank(s) == (Chip8State { wait_for_v_blank: false, ..s }),
{
}

/// Loading a program image writes it byte by byte from 0x200 on and changes
/// nothing else.
pub proof fn law_load(s: Chip8State, data: Seq<u8>)
    requires
        s.wf(),
        0x200 + data.len() <= 4096,
    ensures
        ({
            let t = spec_load(s, data);
            &&& t.ram.len() == 4096
            &&& forall|k: int| 0 <= k < data.len() ==> #[trigger] t.ram[0x200 + k] == data[k]
            &&& forall|a: int| 0 <= a < 4096 && (a < 0x200 || a >= 0x200 + data.len()) ==> #[trigger] t.ram[a] == s.ram[a]
            &&& t == (Chip8State { ram: t.ram, ..s })
        }),
{
}

/// A key event: the keys as they were become the previous frame, then the
/// key takes its new state; the other keys and everything else are kept.
pub proof fn law_set_key(s: Chip8State, key: int, pressed: bool)
    requires
        s.wf(),
        0 <= key < 16,
    ensures
        ({
            let t = spec_set_key(s, key, pressed);
            &&& t.keys_prev == s.keys
            &&& t.keys.len() == 16
            &&& t.keys[key] == pressed
            &&& forall|k: int| 0 <= k < 16 && k != key ==> #[trigger] t.keys[k] == s.keys[k]
            &&& t == (Chip8State { keys: t.keys, keys_prev: t.keys_prev, ..s })
        }),
{
}

/// Which instructions run: after a fetch (PC between 2 and 4096) each of
/// these runs without failing, under exactly the stated condition, and every
/// other word fails as an unimplemented opcode.
pub proof fn law_implemented_instructions(s: Chip8State, w: u16)
    requires
        s.wf(),
        2 <= s.pc <= 4096,
    ensures
        ({
            let a = w as int / 4096;
            let x = (w as int / 256) % 16;
            let y = (w as int / 16) % 16;
            let n = w as int % 16;
            let low = w as int % 256;
            &&& (w == 0x0000 || w == 0x00E0) ==> exec_defined(s, w)
            &&& w == 0x00EE ==> (exec_defined(s, w) == (s.sp > 0))
            &&& a == 0 && w != 0x0000 && w != 0x00E0 && w != 0x00EE ==> !exec_defined(s, w)
            &&& (a == 1 || a == 3 || a == 4 || a == 6 || a == 7 || a == 0xA || a == 0xB || a == 0xC) ==> exec_defined(s, w)
            &&& a == 2 ==> (exec_defined(s, w) == (s.sp < 16))
            &&& (a == 5 || a == 9) ==> (exec_defined(s, w) == (n == 0))
            &&& a == 8 ==> (exec_defined(s, w) == (n <= 7 || n == 0xE))
            &&& a == 0xD ==> (exec_defined(s, w) == (s.i_reg + n <= 4096))
            &&& a == 0xE ==> (exec_defined(s, w) == (low == 0x9E || low == 0xA1))
            &&& a == 0xF ==> (exec_defined(s, w) == (
                low == 0x07 || low == 0x0A || low == 0x15 || low == 0x18 || low == 0x1E || low == 0x29
                || (low == 0x33 && s.i_reg + 2 < 4096)
                || ((low == 0x55 || low == 0x65) && s.i_reg + x < 4096)
            ))
        }),
{
    law_decode(w);
}

/// A tick runs when a sprite is waiting for the blank (it then does nothing),
/// or when both bytes of the instruction lie in memory and the instruction,
/// with PC moved past it, runs.
pub proof fn law_tick_defined(s: Chip8State)
    requires
        s.wf(),
    ensures
        tick_defined(s) == (s.wait_for_v_blank || (s.pc + 1 < 4096 && exec_defined(
            Chip8State { pc: (s.pc + 2) as u16, ..s },
            (256 * s.ram[s.pc as int] + s.ram[s.pc + 1]) as u16,
        ))),
{
}

/// A frame is ten ticks; running ticks one byte at a time is running them in
/// order.
pub proof fn law_frame_ticks(s: Chip8State, rnd: Seq<u8>, r: u8)
    ensures
        TICKS_PER_FRAME == 10,
        run_ticks(s, Seq::empty()) == s,
        run_ticks(s, rnd.push(r)) == tick_spec(run_ticks(s, rnd), r),
{
    assert(rnd.push(r).drop_last() =~= rnd);
}

} // verus!
