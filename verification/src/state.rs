use vstd::prelude::*;

use crate::instr::{low_nn, low_nnn, nib_a, nib_n, nib_x, nib_y};

verus! {

/// The abstract state of the machine: every register, the stack, memory, the
/// display, the keypad and the emulator's bookkeeping flags, as mathematical values.
#[verifier::ext_equal]
pub struct Chip8State {
    pub screen: Seq<bool>,
    pub pc: u16,
    pub v_reg: Seq<u8>,
    pub i_reg: u16,
    pub sp: u8,
    pub stack: Seq<u16>,
    pub ram: Seq<u8>,
    pub dt: u8,
    pub st: u8,
    pub keys: Seq<bool>,
    pub keys_prev: Seq<bool>,
    pub state_fx0a_started: bool,
    pub wait_for_v_blank: bool,
    pub quirk_8xy6: bool,
    pub quirk_8xye: bool,
    pub quirk_fx55: bool,
    pub quirk_fx65: bool,
}

impl Chip8State {
    /// Every component has its hardware size and the stack pointer is within the stack.
    pub open spec fn wf(self) -> bool {
        &&& self.screen.len() == 2048
        &&& self.v_reg.len() == 16
        &&& self.stack.len() == 16
        &&& self.ram.len() == 4096
        &&& self.keys.len() == 16
        &&& self.keys_prev.len() == 16
        &&& self.sp <= 16
    }
}

/// The sixteen 5-byte glyphs of the hexadecimal digits 0..F.
pub open spec fn font_data() -> Seq<u8> {
    seq![
        0xF0u8, 0x90, 0x90, 0x90, 0xF0,
        0x20, 0x60, 0x20, 0x20, 0x70,
        0xF0, 0x10, 0xF0, 0x80, 0xF0,
        0xF0, 0x10, 0xF0, 0x10, 0xF0,
        0x90, 0x90, 0xF0, 0x10, 0x10,
        0xF0, 0x80, 0xF0, 0x10, 0xF0,
        0xF0, 0x80, 0xF0, 0x90, 0xF0,
        0xF0, 0x10, 0x20, 0x40, 0x40,
        0xF0, 0x90, 0xF0, 0x90, 0xF0,
        0xF0, 0x90, 0xF0, 0x10, 0xF0,
        0xF0, 0x90, 0xF0, 0x90, 0x90,
        0xE0, 0x90, 0xE0, 0x90, 0xE0,
        0xF0, 0x80, 0x80, 0x80, 0xF0,
        0xE0, 0x90, 0x90, 0x90, 0xE0,
        0xF0, 0x80, 0xF0, 0x80, 0xF0,
        0xF0, 0x80, 0xF0, 0x80, 0x80,
    ]
}

/// A blank display.
pub open spec fn blank_screen() -> Seq<bool> {
    Seq::new(2048, |p: int| false)
}

/// No key pressed.
pub open spec fn no_keys() -> Seq<bool> {
    Seq::new(16, |k: int| false)
}

/// The state of a freshly constructed machine: zeroed registers, the font at the
/// start of memory, the program counter at 0x200 and the given quirk settings.
pub open spec fn initial_state(quirk_8xy6: bool, quirk_8xye: bool, quirk_fx55: bool, quirk_fx65: bool) -> Chip8State {
    Chip8State {
        screen: blank_screen(),
        pc: 0x200,
        v_reg: Seq::new(16, |k: int| 0u8),
        i_reg: 0,
        sp: 0,
        stack: Seq::new(16, |k: int| 0u16),
        ram: Seq::new(4096, |a: int| if a < 80 { font_data()[a] } else { 0u8 }),
        dt: 0,
        st: 0,
        keys: no_keys(),
        keys_prev: no_keys(),
        state_fx0a_started: false,
        wait_for_v_blank: false,
        quirk_8xy6,
        quirk_8xye,
        quirk_fx55,
        quirk_fx65,
    }
}

// ----- helpers -----

/// Advances the program counter past the next instruction when `cond` holds.
pub open spec fn skip_if(s: Chip8State, cond: bool) -> Chip8State {
    if cond {
        Chip8State { pc: (s.pc + 2) as u16, ..s }
    } else {
        s
    }
}

/// Register `x` gets `val`.
pub open spec fn set_reg(s: Chip8State, x: int, val: u8) -> Chip8State {
    Chip8State { v_reg: s.v_reg.update(x, val), ..s }
}

/// Register `x` gets `val`, then VF gets `flag`.
pub open spec fn set_reg_flag(s: Chip8State, x: int, val: u8, flag: u8) -> Chip8State {
    Chip8State { v_reg: s.v_reg.update(x, val).update(15, flag), ..s }
}

/// Value of register X of the instruction.
pub open spec fn vx(s: Chip8State, w: u16) -> u8 {
    s.v_reg[nib_x(w)]
}

/// Value of register Y of the instruction.
pub open spec fn vy(s: Chip8State, w: u16) -> u8 {
    s.v_reg[nib_y(w)]
}

// ----- instructions (each is applied to the state after the fetch) -----

/// 00E0: clear the display.
pub open spec fn spec_cls(s: Chip8State) -> Chip8State {
    Chip8State { screen: blank_screen(), ..s }
}

/// 00EE: pop the return address into the program counter.
pub open spec fn spec_ret(s: Chip8State) -> Chip8State {
    Chip8State { sp: (s.sp - 1) as u8, pc: s.stack[s.sp - 1], ..s }
}

/// Pushing a return address: it goes into the first unused stack slot.
pub open spec fn spec_push(s: Chip8State, addr: u16) -> Chip8State {
    Chip8State { stack: s.stack.update(s.sp as int, addr), sp: (s.sp + 1) as u8, ..s }
}

/// Popping a return address: the state after the pop and the address popped,
/// the one in the last used stack slot.
pub open spec fn spec_pop(s: Chip8State) -> (Chip8State, u16) {
    (Chip8State { sp: (s.sp - 1) as u8, ..s }, s.stack[s.sp - 1])
}

/// 1NNN: jump to NNN.
pub open spec fn spec_jump(s: Chip8State, w: u16) -> Chip8State {
    Chip8State { pc: low_nnn(w) as u16, ..s }
}

/// 2NNN: push the program counter, then jump to NNN.
pub open spec fn spec_call(s: Chip8State, w: u16) -> Chip8State {
    Chip8State {
        stack: s.stack.update(s.sp as int, s.pc),
        sp: (s.sp + 1) as u8,
        pc: low_nnn(w) as u16,
        ..s
    }
}

/// 3XNN: skip if VX == NN.
pub open spec fn spec_skip_eq_imm(s: Chip8State, w: u16) -> Chip8State {
    skip_if(s, vx(s, w) == low_nn(w))
}

/// 4XNN: skip if VX != NN.
pub open spec fn spec_skip_ne_imm(s: Chip8State, w: u16) -> Chip8State {
    skip_if(s, vx(s, w) != low_nn(w))
}

/// 5XY0: skip if VX == VY.
pub open spec fn spec_skip_eq_reg(s: Chip8State, w: u16) -> Chip8State {
    skip_if(s, vx(s, w) == vy(s, w))
}

/// 6XNN: VX = NN.
pub open spec fn spec_load_imm(s: Chip8State, w: u16) -> Chip8State {
    set_reg(s, nib_x(w), low_nn(w) as u8)
}

/// 7XNN: VX = VX + NN, wrapping, VF untouched.
pub open spec fn spec_add_imm(s: Chip8State, w: u16) -> Chip8State {
    set_reg(s, nib_x(w), ((vx(s, w) + low_nn(w)) % 256) as u8)
}

/// 8XY0: VX = VY.
pub open spec fn spec_mov(s: Chip8State, w: u16) -> Chip8State {
    set_reg(s, nib_x(w), vy(s, w))
}

/// 8XY1: VX = VX | VY, then VF = 0.
pub open spec fn spec_or(s: Chip8State, w: u16) -> Chip8State {
    set_reg_flag(s, nib_x(w), vx(s, w) | vy(s, w), 0)
}

/// 8XY2: VX = VX & VY, then VF = 0.
pub open spec fn spec_and(s: Chip8State, w: u16) -> Chip8State {
    set_reg_flag(s, nib_x(w), vx(s, w) & vy(s, w), 0)
}

/// 8XY3: VX = VX ^ VY, then VF = 0.
pub open spec fn spec_xor(s: Chip8State, w: u16) -> Chip8State {
    set_reg_flag(s, nib_x(w), vx(s, w) ^ vy(s, w), 0)
}

/// 8XY4: VX = VX + VY modulo 256, then VF = 1 on carry, else 0.
pub open spec fn spec_add(s: Chip8State, w: u16) -> Chip8State {
    let sum = vx(s, w) + vy(s, w);
    set_reg_flag(s, nib_x(w), (sum % 256) as u8, if sum > 255 { 1 } else { 0 })
}

/// 8XY5: VX = VX - VY modulo 256, then VF = 1 when there was no borrow, else 0.
pub open spec fn spec_sub(s: Chip8State, w: u16) -> Chip8State {
    let d = vx(s, w) - vy(s, w);
    set_reg_flag(s, nib_x(w), (if d < 0 { d + 256 } else { d }) as u8, if d < 0 { 0 } else { 1 })
}

/// Register read by the shift instructions: VX with the quirk on, VY without.
pub open spec fn shift_source(quirk: bool, w: u16) -> int {
    if quirk { nib_x(w) } else { nib_y(w) }
}

/// 8XY6: VX = source >> 1, then VF = the bit shifted out.
pub open spec fn spec_shr(s: Chip8State, w: u16) -> Chip8State {
    let val = s.v_reg[shift_source(s.quirk_8xy6, w)];
    set_reg_flag(s, nib_x(w), val / 2, val % 2)
}

/// 8XY7: VX = VY - VX modulo 256, then VF = 1 when there was no borrow, else 0.
pub open spec fn spec_subn(s: Chip8State, w: u16) -> Chip8State {
    let d = vy(s, w) - vx(s, w);
    set_reg_flag(s, nib_x(w), (if d < 0 { d + 256 } else { d }) as u8, if d < 0 { 0 } else { 1 })
}

/// 8XYE: VX = source << 1 modulo 256, then VF = the bit shifted out.
pub open spec fn spec_shl(s: Chip8State, w: u16) -> Chip8State {
    let val = s.v_reg[shift_source(s.quirk_8xye, w)];
    set_reg_flag(s, nib_x(w), ((val * 2) % 256) as u8, val / 128)
}

/// 9XY0: skip if VX != VY.
pub open spec fn spec_skip_ne_reg(s: Chip8State, w: u16) -> Chip8State {
    skip_if(s, vx(s, w) != vy(s, w))
}

/// ANNN: I = NNN.
pub open spec fn spec_set_index(s: Chip8State, w: u16) -> Chip8State {
    Chip8State { i_reg: low_nnn(w) as u16, ..s }
}

/// BNNN: jump to NNN + V0.
pub open spec fn spec_jump_offset(s: Chip8State, w: u16) -> Chip8State {
    Chip8State { pc: (low_nnn(w) + s.v_reg[0]) as u16, ..s }
}

/// CXNN: VX = random & NN, for the random byte `rnd`.
pub open spec fn spec_random(s: Chip8State, w: u16, rnd: u8) -> Chip8State {
    set_reg(s, nib_x(w), rnd & (low_nn(w) as u8))
}

/// Column of the sprite's left edge: VX modulo the display width.
pub open spec fn sprite_x(s: Chip8State, w: u16) -> int {
    vx(s, w) as int % 64
}

/// Row of the sprite's top edge: VY modulo the display height.
pub open spec fn sprite_y(s: Chip8State, w: u16) -> int {
    vy(s, w) as int % 32
}

/// Bit `col` of a sprite row, counted from the most significant bit.
pub open spec fn pixel_bit(byte: u8, col: int) -> bool {
    (byte >> ((7 - col) as u8)) & 1u8 == 1u8
}

/// Whether the sprite of DXYN sets display pixel `p`. The sprite is N rows of
/// 8 pixels read from memory at I and drawn at (VX mod 64, VY mod 32); the
/// parts that fall off the right or bottom edge are clipped.
pub open spec fn sprite_covers(s: Chip8State, w: u16, p: int) -> bool {
    let col = p % 64 - sprite_x(s, w);
    let row = p / 64 - sprite_y(s, w);
    &&& 0 <= col < 8
    &&& 0 <= row < nib_n(w)
    &&& pixel_bit(s.ram[s.i_reg + row], col)
}

/// Whether the sprite of DXYN hits a pixel that is already on.
pub open spec fn draw_collides(s: Chip8State, w: u16) -> bool {
    exists|p: int| 0 <= p < 2048 && #[trigger] sprite_covers(s, w, p) && s.screen[p]
}

/// The display after XOR-ing the sprite of DXYN onto it.
pub open spec fn drawn_screen(s: Chip8State, w: u16) -> Seq<bool> {
    Seq::new(2048, |p: int| s.screen[p] != sprite_covers(s, w, p))
}

/// DXYN: XOR the sprite onto the display, VF = 1 on collision else 0, and
/// block until the next vertical blank.
pub open spec fn spec_draw(s: Chip8State, w: u16) -> Chip8State {
    Chip8State {
        screen: drawn_screen(s, w),
        v_reg: s.v_reg.update(15, if draw_collides(s, w) { 1u8 } else { 0u8 }),
        wait_for_v_blank: true,
        ..s
    }
}

/// Whether the key whose number is in VX is currently pressed.
pub open spec fn key_in_vx_pressed(s: Chip8State, w: u16) -> bool {
    vx(s, w) < 16 && s.keys[vx(s, w) as int]
}

/// Whether the key whose number is in VX is currently up.
pub open spec fn key_in_vx_released(s: Chip8State, w: u16) -> bool {
    vx(s, w) < 16 && !s.keys[vx(s, w) as int]
}

/// EX9E: skip if the key in VX is pressed.
pub open spec fn spec_skip_key(s: Chip8State, w: u16) -> Chip8State {
    skip_if(s, key_in_vx_pressed(s, w))
}

/// EXA1: skip if the key in VX is not pressed.
pub open spec fn spec_skip_not_key(s: Chip8State, w: u16) -> Chip8State {
    skip_if(s, key_in_vx_released(s, w))
}

/// FX07: VX = delay timer.
pub open spec fn spec_get_delay(s: Chip8State, w: u16) -> Chip8State {
    set_reg(s, nib_x(w), s.dt)
}

/// The lowest key at or above `k` that was down in the previous frame and is
/// up now, or 16 when there is none.
pub open spec fn first_release(prev: Seq<bool>, keys: Seq<bool>, k: int) -> int
    decreases 16 - k,
{
    if k >= 16 {
        16
    } else if prev[k] && !keys[k] {
        k
    } else {
        first_release(prev, keys, k + 1)
    }
}

/// FX0A: wait for a key release. On its first run the keypad history is
/// cleared so that a fresh press is needed; while no key has been released the
/// instruction repeats itself; once one has, VX gets the lowest such key.
pub open spec fn spec_wait_key(s: Chip8State, w: u16) -> Chip8State {
    if !s.state_fx0a_started {
        Chip8State {
            keys: no_keys(),
            keys_prev: no_keys(),
            state_fx0a_started: true,
            pc: (s.pc - 2) as u16,
            ..s
        }
    } else {
        let k = first_release(s.keys_prev, s.keys, 0);
        if k < 16 {
            Chip8State { v_reg: s.v_reg.update(nib_x(w), k as u8), state_fx0a_started: false, ..s }
        } else {
            Chip8State { pc: (s.pc - 2) as u16, ..s }
        }
    }
}

/// FX15: delay timer = VX.
pub open spec fn spec_set_delay(s: Chip8State, w: u16) -> Chip8State {
    Chip8State { dt: vx(s, w), ..s }
}

/// FX18: sound timer = VX.
pub open spec fn spec_set_sound(s: Chip8State, w: u16) -> Chip8State {
    Chip8State { st: vx(s, w), ..s }
}

/// FX1E: I = I + VX, wrapping at 16 bits.
pub open spec fn spec_add_index(s: Chip8State, w: u16) -> Chip8State {
    Chip8State { i_reg: ((s.i_reg + vx(s, w)) % 65536) as u16, ..s }
}

/// FX29: I = address of the font glyph of the low nibble of VX.
pub open spec fn spec_font_char(s: Chip8State, w: u16) -> Chip8State {
    Chip8State { i_reg: ((vx(s, w) % 16) * 5) as u16, ..s }
}

/// FX33: memory at I, I+1, I+2 = hundreds, tens and ones digits of VX.
pub open spec fn spec_bcd(s: Chip8State, w: u16) -> Chip8State {
    let val = vx(s, w);
    Chip8State {
        ram: s.ram.update(s.i_reg as int, val / 100)
            .update(s.i_reg + 1, (val / 10) % 10)
            .update(s.i_reg + 2, val % 10),
        ..s
    }
}

/// I after FX55/FX65: unchanged with the quirk on, else advanced past the block.
pub open spec fn index_after_block(s: Chip8State, w: u16, quirk: bool) -> u16 {
    if quirk { s.i_reg } else { (s.i_reg + nib_x(w) + 1) as u16 }
}

/// FX55: memory at I..=I+X = V0..=VX.
pub open spec fn spec_store_regs(s: Chip8State, w: u16) -> Chip8State {
    Chip8State {
        ram: Seq::new(4096, |a: int| if s.i_reg <= a <= s.i_reg + nib_x(w) { s.v_reg[a - s.i_reg] } else { s.ram[a] }),
        i_reg: index_after_block(s, w, s.quirk_fx55),
        ..s
    }
}

/// FX65: V0..=VX = memory at I..=I+X.
pub open spec fn spec_load_regs(s: Chip8State, w: u16) -> Chip8State {
    Chip8State {
        v_reg: Seq::new(16, |k: int| if k <= nib_x(w) { s.ram[s.i_reg + k] } else { s.v_reg[k] }),
        i_reg: index_after_block(s, w, s.quirk_fx65),
        ..s
    }
}

/// Whether a skip may be taken without the program counter leaving 16 bits.
pub open spec fn pc_in_range(s: Chip8State) -> bool {
    2 <= s.pc <= 4096
}

/// Whether `w` is an instruction this machine implements and may run on `s`
/// (the state after the fetch) without failing.
pub open spec fn exec_defined(s: Chip8State, w: u16) -> bool {
    let a = nib_a(w);
    let x = nib_x(w);
    let y = nib_y(w);
    let n = nib_n(w);
    &&& pc_in_range(s)
    &&& if a == 0 {
        x == 0 && ((y == 0 && n == 0) || (y == 0xE && n == 0) || (y == 0xE && n == 0xE && s.sp > 0))
    } else if a == 2 {
        s.sp < 16
    } else if a == 5 || a == 9 {
        n == 0
    } else if a == 8 {
        n <= 7 || n == 0xE
    } else if a == 0xD {
        s.i_reg + n <= 4096
    } else if a == 0xE {
        (y == 9 && n == 0xE) || (y == 0xA && n == 1)
    } else if a == 0xF {
        ||| (y == 0 && (n == 7 || n == 0xA))
        ||| (y == 1 && (n == 5 || n == 8 || n == 0xE))
        ||| (y == 2 && n == 9)
        ||| (y == 3 && n == 3 && s.i_reg + 2 < 4096)
        ||| ((y == 5 || y == 6) && n == 5 && s.i_reg + x < 4096)
    } else {
        true
    }
}

/// The effect of executing instruction `w` on `s` (the state after the fetch),
/// with `rnd` as the random byte that CXNN draws.
pub open spec fn exec_spec(s: Chip8State, w: u16, rnd: u8) -> Chip8State {
    let a = nib_a(w);
    let y = nib_y(w);
    let n = nib_n(w);
    if a == 0 {
        if y == 0 {
            s
        } else if n == 0 {
            spec_cls(s)
        } else {
            spec_ret(s)
        }
    } else if a == 1 {
        spec_jump(s, w)
    } else if a == 2 {
        spec_call(s, w)
    } else if a == 3 {
        spec_skip_eq_imm(s, w)
    } else if a == 4 {
        spec_skip_ne_imm(s, w)
    } else if a == 5 {
        spec_skip_eq_reg(s, w)
    } else if a == 6 {
        spec_load_imm(s, w)
    } else if a == 7 {
        spec_add_imm(s, w)
    } else if a == 8 {
        if n == 0 {
            spec_mov(s, w)
        } else if n == 1 {
            spec_or(s, w)
        } else if n == 2 {
            spec_and(s, w)
        } else if n == 3 {
            spec_xor(s, w)
        } else if n == 4 {
            spec_add(s, w)
        } else if n == 5 {
            spec_sub(s, w)
        } else if n == 6 {
            spec_shr(s, w)
        } else if n == 7 {
            spec_subn(s, w)
        } else {
            spec_shl(s, w)
        }
    } else if a == 9 {
        spec_skip_ne_reg(s, w)
    } else if a == 0xA {
        spec_set_index(s, w)
    } else if a == 0xB {
        spec_jump_offset(s, w)
    } else if a == 0xC {
        spec_random(s, w, rnd)
    } else if a == 0xD {
        spec_draw(s, w)
    } else if a == 0xE {
        if y == 9 {
            spec_skip_key(s, w)
        } else {
            spec_skip_not_key(s, w)
        }
    } else {
        if y == 0 {
            if n == 7 {
                spec_get_delay(s, w)
            } else {
                spec_wait_key(s, w)
            }
        } else if y == 1 {
            if n == 5 {
                spec_set_delay(s, w)
            } else if n == 8 {
                spec_set_sound(s, w)
            } else {
                spec_add_index(s, w)
            }
        } else if y == 2 {
            spec_font_char(s, w)
        } else if y == 3 {
            spec_bcd(s, w)
        } else if y == 5 {
            spec_store_regs(s, w)
        } else {
            spec_load_regs(s, w)
        }
    }
}

/// The big-endian instruction word at the program counter.
pub open spec fn instr_at(s: Chip8State) -> u16 {
    (s.ram[s.pc as int] * 256 + s.ram[s.pc + 1]) as u16
}

/// The state after fetching: the program counter moved past the instruction.
pub open spec fn fetched(s: Chip8State) -> Chip8State {
    Chip8State { pc: (s.pc + 2) as u16, ..s }
}

/// Whether one clock tick runs without failing: it does nothing while waiting
/// for the vertical blank, else the instruction at the program counter must lie
/// in memory and be one that may run.
pub open spec fn tick_defined(s: Chip8State) -> bool {
    s.wait_for_v_blank || (s.pc + 1 < 4096 && exec_defined(fetched(s), instr_at(s)))
}

/// The effect of one clock tick, with `rnd` as the random byte a CXNN draws.
pub open spec fn tick_spec(s: Chip8State, rnd: u8) -> Chip8State {
    if s.wait_for_v_blank {
        s
    } else {
        exec_spec(fetched(s), instr_at(s), rnd)
    }
}

/// A timer after one 60 Hz period: one less, stopping at zero.
pub open spec fn timer_step(t: u8) -> u8 {
    if t > 0 { (t - 1) as u8 } else { 0 }
}

/// Both timers after one 60 Hz period.
pub open spec fn spec_tick_timers(s: Chip8State) -> Chip8State {
    Chip8State { dt: timer_step(s.dt), st: timer_step(s.st), ..s }
}

/// The state after a vertical blank: drawing may resume.
pub open spec fn spec_notify_vblank(s: Chip8State) -> Chip8State {
    Chip8State { wait_for_v_blank: false, ..s }
}

/// Memory with a program image copied to 0x200 onward, the rest unchanged.
pub open spec fn loaded_ram(ram: Seq<u8>, data: Seq<u8>) -> Seq<u8> {
    Seq::new(ram.len(), |a: int| if 0x200 <= a < 0x200 + data.len() { data[a - 0x200] } else { ram[a] })
}

/// The state after loading a program image.
pub open spec fn spec_load(s: Chip8State, data: Seq<u8>) -> Chip8State {
    Chip8State { ram: loaded_ram(s.ram, data), ..s }
}

/// The state after a key event: the previous keys are remembered, then key
/// `key` takes the new state.
pub open spec fn spec_set_key(s: Chip8State, key: int, pressed: bool) -> Chip8State {
    Chip8State { keys_prev: s.keys, keys: s.keys.update(key, pressed), ..s }
}

/// The state after one clock tick per byte of `rnd`, each tick using its byte
/// as the random byte of a CXNN.
pub open spec fn run_ticks(s: Chip8State, rnd: Seq<u8>) -> Chip8State
    decreases rnd.len(),
{
    if rnd.len() == 0 {
        s
    } else {
        tick_spec(run_ticks(s, rnd.drop_last()), rnd.last())
    }
}

/// Whether every one of those ticks runs without failing.
pub open spec fn ticks_defined(s: Chip8State, rnd: Seq<u8>) -> bool {
    forall|k: int| 0 <= k < rnd.len() ==> tick_defined(#[trigger] run_ticks(s, rnd.take(k)))
}

} // verus!
