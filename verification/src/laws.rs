use vstd::prelude::*;

use crate::instr::{low_nn, nib_a, nib_n, nib_x, nib_y};
use crate::state::{
    draw_collides, exec_spec, first_release, font_data, initial_state, loaded_ram,
    spec_add, spec_bcd, spec_draw, spec_load_regs, spec_shr, spec_shl, spec_store_regs, spec_sub,
    spec_pop, spec_push, spec_set_key, spec_tick_timers, sprite_covers, tick_spec, Chip8State,
};

verus! {

/// A subroutine call (2NNN) followed by a return (00EE) resumes right after
/// the call: every register, the stack pointer and the display are as before;
/// only the stack slot that held the return address keeps it.
pub proof fn law_call_then_return(s: Chip8State, call: u16, r1: u8, r2: u8)
    requires
        s.wf(),
        nib_a(call) == 2,
        s.sp < 16,
    ensures
        exec_spec(exec_spec(s, call, r1), 0x00EE, r2) == (Chip8State {
            stack: s.stack.update(s.sp as int, s.pc),
            ..s
        }),
{
    let t = exec_spec(s, call, r1);
    assert(nib_a(0x00EEu16) == 0 && nib_y(0x00EEu16) == 0xE && nib_n(0x00EEu16) == 0xE);
    assert(t.stack[t.sp - 1] == s.pc);
}

/// Drawing the same sprite twice at the same place restores the display
/// (sprites are XOR-ed onto it), and one of the two draws reports a collision
/// exactly when the sprite covers a visible pixel. Memory, I, the program
/// counter and V0..VE are left as they were. This holds provided neither
/// coordinate register is VF, which the first draw overwrites with its flag.
pub proof fn law_draw_twice_restores_screen(s: Chip8State, w: u16, r1: u8, r2: u8)
    requires
        s.wf(),
        nib_a(w) == 0xD,
        nib_x(w) != 15,
        nib_y(w) != 15,
    ensures
        ({
            let t = exec_spec(s, w, r1);
            let u = exec_spec(t, w, r2);
            &&& u.screen == s.screen
            &&& (t.v_reg[15] == 1 || u.v_reg[15] == 1) == (exists|p: int| 0 <= p < 2048 && #[trigger] sprite_covers(s, w, p))
            &&& u.ram == s.ram
            &&& u.i_reg == s.i_reg
            &&& u.pc == s.pc
            &&& forall|k: int| 0 <= k < 15 ==> #[trigger] u.v_reg[k] == s.v_reg[k]
        }),
{
    let t = exec_spec(s, w, r1);
    let u = exec_spec(t, w, r2);
    assert forall|p: int| 0 <= p < 2048 implies #[trigger] sprite_covers(t, w, p) == sprite_covers(s, w, p) by {
        assert(t.v_reg[nib_x(w)] == s.v_reg[nib_x(w)]);
        assert(t.v_reg[nib_y(w)] == s.v_reg[nib_y(w)]);
    }
    assert(u.screen =~= s.screen);
    if exists|p: int| 0 <= p < 2048 && #[trigger] sprite_covers(s, w, p) {
        let p = choose|p: int| 0 <= p < 2048 && #[trigger] sprite_covers(s, w, p);
        if !s.screen[p] {
            assert(sprite_covers(t, w, p) && t.screen[p]);
        }
    }
    if draw_collides(t, w) {
        let p = choose|p: int| 0 <= p < 2048 && #[trigger] sprite_covers(t, w, p) && t.screen[p];
        assert(sprite_covers(s, w, p));
    }
}

/// Drawing onto a blank display never reports a collision.
pub proof fn law_draw_on_blank_no_collision(s: Chip8State, w: u16)
    requires
        s.wf(),
        forall|p: int| 0 <= p < 2048 ==> !#[trigger] s.screen[p],
    ensures
        !draw_collides(s, w),
        spec_draw(s, w).v_reg[15] == 0,
{
}

/// While a sprite waits for the vertical blank, clock ticks change nothing;
/// a tick that draws a sprite starts such a wait.
pub proof fn law_one_draw_per_refresh(s: Chip8State, r1: u8, r2: u8)
    requires
        s.wf(),
        !s.wait_for_v_blank,
        nib_a(crate::state::instr_at(s)) == 0xD,
    ensures
        tick_spec(s, r1).wait_for_v_blank,
        tick_spec(tick_spec(s, r1), r2) == tick_spec(s, r1),
{
}

/// FX33 stores three decimal digits whose value is VX.
pub proof fn law_bcd_digits(s: Chip8State, w: u16)
    requires
        s.wf(),
        s.i_reg + 2 < 4096,
    ensures
        ({
            let t = spec_bcd(s, w);
            let i = s.i_reg as int;
            &&& t.ram[i] < 10 && t.ram[i + 1] < 10 && t.ram[i + 2] < 10
            &&& 100 * t.ram[i] + 10 * t.ram[i + 1] + t.ram[i + 2] == s.v_reg[nib_x(w)]
        }),
{
}

/// Storing V0..=VX at I (FX55) and reading them back from the same address
/// (FX65) gives the registers back, whatever the quirk settings.
pub proof fn law_store_then_load(s: Chip8State, w: u16)
    requires
        s.wf(),
        s.i_reg + nib_x(w) < 4096,
    ensures
        spec_load_regs(Chip8State { i_reg: s.i_reg, ..spec_store_regs(s, w) }, w).v_reg == s.v_reg,
{
    let t = spec_store_regs(s, w);
    let u = spec_load_regs(Chip8State { i_reg: s.i_reg, ..t }, w);
    assert(u.v_reg =~= s.v_reg);
}

/// With the FX55 quirk on, FX55 then FX65 on the same X gives the registers
/// back, and I ends as the FX65 quirk says: unchanged with it on, past the
/// block without it.
pub proof fn law_store_load_quirk_roundtrip(s: Chip8State, store: u16, load: u16, r1: u8, r2: u8)
    requires
        s.wf(),
        s.quirk_fx55,
        nib_a(store) == 0xF && nib_y(store) == 5 && nib_n(store) == 5,
        nib_a(load) == 0xF && nib_y(load) == 6 && nib_n(load) == 5,
        nib_x(store) == nib_x(load),
        s.i_reg + nib_x(store) < 4096,
    ensures
        exec_spec(exec_spec(s, store, r1), load, r2).v_reg == s.v_reg,
        exec_spec(exec_spec(s, store, r1), load, r2).i_reg == (if s.quirk_fx65 {
            s.i_reg as int
        } else {
            s.i_reg + nib_x(store) + 1
        }),
{
    law_store_then_load(s, store);
    let t = spec_store_regs(s, store);
    assert(spec_load_regs(t, load) == spec_load_regs(Chip8State { i_reg: s.i_reg, ..t }, store));
}

/// 3XNN and 4XNN with the same X and NN are complementary: from the same
/// state exactly one of them skips the next instruction, and neither changes
/// anything but the program counter.
pub proof fn law_skip_eq_ne_complementary(s: Chip8State, eq: u16, ne: u16, r1: u8, r2: u8)
    requires
        s.wf(),
        nib_a(eq) == 3,
        ne == eq + 0x1000,
        s.pc + 2 <= 0xFFFF,
    ensures
        exec_spec(s, eq, r1) == (Chip8State { pc: exec_spec(s, eq, r1).pc, ..s }),
        exec_spec(s, ne, r2) == (Chip8State { pc: exec_spec(s, ne, r2).pc, ..s }),
        exec_spec(s, eq, r1).pc == s.pc || exec_spec(s, eq, r1).pc == s.pc + 2,
        exec_spec(s, ne, r2).pc == s.pc || exec_spec(s, ne, r2).pc == s.pc + 2,
        (exec_spec(s, eq, r1).pc == s.pc + 2) != (exec_spec(s, ne, r2).pc == s.pc + 2),
{
    assert(nib_a(ne) == 4);
    assert(nib_x(ne) == nib_x(eq));
    assert(low_nn(ne) == low_nn(eq));
}

/// Pushing an address and popping gives the address back and restores the
/// stack pointer; the slot keeps the address.
pub proof fn law_push_then_pop(s: Chip8State, addr: u16)
    requires
        s.wf(),
        s.sp < 16,
    ensures
        spec_pop(spec_push(s, addr)) == (Chip8State { stack: s.stack.update(s.sp as int, addr), ..s }, addr),
{
}

/// 8XY4: unless X is VF, the new VX and the carry in VF together hold the
/// full sum.
pub proof fn law_add_carry(s: Chip8State, w: u16)
    requires
        s.wf(),
        nib_x(w) != 15,
    ensures
        256 * spec_add(s, w).v_reg[15] + spec_add(s, w).v_reg[nib_x(w)] == s.v_reg[nib_x(w)] + s.v_reg[nib_y(w)],
{
}

/// 8XY5: unless X is VF, VF is 1 exactly when VX >= VY, and the new VX is the
/// difference modulo 256.
pub proof fn law_sub_borrow(s: Chip8State, w: u16)
    requires
        s.wf(),
        nib_x(w) != 15,
    ensures
        (spec_sub(s, w).v_reg[15] == 1) == (s.v_reg[nib_x(w)] >= s.v_reg[nib_y(w)]),
        spec_sub(s, w).v_reg[nib_x(w)] == s.v_reg[nib_x(w)] - s.v_reg[nib_y(w)] + 256 * (1 - spec_sub(s, w).v_reg[15]),
{
}

/// The shift quirks: with 8XY6/8XYE quirks on the shift reads VX (as in the
/// Cowgod reference), with them off it reads VY.
pub proof fn law_shift_quirks(s: Chip8State, w: u16)
    requires
        s.wf(),
        nib_x(w) != 15,
    ensures
        spec_shr(s, w).v_reg[nib_x(w)] == (if s.quirk_8xy6 { s.v_reg[nib_x(w)] } else { s.v_reg[nib_y(w)] }) / 2,
        spec_shl(s, w).v_reg[nib_x(w)] == ((if s.quirk_8xye { s.v_reg[nib_x(w)] } else { s.v_reg[nib_y(w)] }) * 2) % 256,
{
}

/// The key found by FX0A is the lowest key that was down in the previous
/// frame and is up now; 16 means there is none.
pub proof fn law_first_release(prev: Seq<bool>, keys: Seq<bool>, k: int)
    requires
        prev.len() == 16,
        keys.len() == 16,
        0 <= k <= 16,
    ensures
        k <= first_release(prev, keys, k) <= 16,
        first_release(prev, keys, k) < 16 ==> prev[first_release(prev, keys, k)] && !keys[first_release(prev, keys, k)],
        forall|j: int| k <= j < first_release(prev, keys, k) ==> !(prev[j] && !keys[j]),
    decreases 16 - k,
{
    if k < 16 {
        law_first_release(prev, keys, k + 1);
    }
}

/// The timers never go up, and once at zero they stay there.
pub proof fn law_timers_count_down(s: Chip8State)
    ensures
        spec_tick_timers(s).dt <= s.dt,
        spec_tick_timers(s).st <= s.st,
        s.dt == 0 ==> spec_tick_timers(s).dt == 0,
        s.st == 0 ==> spec_tick_timers(s).st == 0,
        s.dt > 0 ==> spec_tick_timers(s).dt == s.dt - 1,
        s.st > 0 ==> spec_tick_timers(s).st == s.st - 1,
{
}

/// Loading a program never touches memory below 0x200, where the font lives.
pub proof fn law_load_keeps_font(ram: Seq<u8>, data: Seq<u8>)
    requires
        ram.len() == 4096,
        0x200 + data.len() <= 4096,
    ensures
        forall|a: int| 0 <= a < 0x200 ==> #[trigger] loaded_ram(ram, data)[a] == ram[a],
        forall|k: int| 0 <= k < data.len() ==> #[trigger] loaded_ram(ram, data)[0x200 + k] == data[k],
        loaded_ram(ram, data).len() == 4096,
{
}

/// While the font area of memory is intact (as `new` leaves it), FX29 points
/// I at the five bytes of the glyph of the low hexadecimal digit of VX, and
/// changes nothing else.
pub proof fn law_font_glyph(s: Chip8State, w: u16, r: u8)
    requires
        s.wf(),
        nib_a(w) == 0xF && nib_y(w) == 2 && nib_n(w) == 9,
        forall|a: int| 0 <= a < 80 ==> #[trigger] s.ram[a] == font_data()[a],
    ensures
        ({
            let t = exec_spec(s, w, r);
            let h = s.v_reg[nib_x(w)] % 16;
            &&& t.i_reg == 5 * h
            &&& forall|j: int| 0 <= j < 5 ==> #[trigger] t.ram[t.i_reg + j] == font_data()[5 * h + j]
            &&& t == (Chip8State { i_reg: t.i_reg, ..s })
        }),
{
}

/// A fresh machine has the font in place.
pub proof fn law_new_has_font(q1: bool, q2: bool, q3: bool, q4: bool)
    ensures
        forall|a: int| 0 <= a < 80 ==> #[trigger] initial_state(q1, q2, q3, q4).ram[a] == font_data()[a],
        initial_state(q1, q2, q3, q4).wf(),
{
}

/// A key pressed with `set_key` is seen by EX9E: the next instruction is skipped.
pub proof fn law_pressed_key_is_seen(s: Chip8State, key: int, w: u16, r: u8)
    requires
        s.wf(),
        0 <= key < 16,
        nib_a(w) == 0xE && nib_y(w) == 9 && nib_n(w) == 0xE,
        s.v_reg[nib_x(w)] == key,
        s.pc + 2 <= 0xFFFF,
    ensures
        exec_spec(spec_set_key(s, key, true), w, r).pc == s.pc + 2,
        exec_spec(spec_set_key(s, key, false), w, r).pc == s.pc,
{
}

/// The delay timer reads back what was written: FX15 then FY07 copies VX to VY.
pub proof fn law_delay_timer_roundtrip(s: Chip8State, set: u16, get: u16, r1: u8, r2: u8)
    requires
        s.wf(),
        nib_a(set) == 0xF && nib_y(set) == 1 && nib_n(set) == 5,
        nib_a(get) == 0xF && nib_y(get) == 0 && nib_n(get) == 7,
    ensures
        exec_spec(exec_spec(s, set, r1), get, r2).v_reg[nib_x(get)] == s.v_reg[nib_x(set)],
        exec_spec(exec_spec(s, set, r1), get, r2).dt == s.v_reg[nib_x(set)],
{
}

/// Running the program never changes the quirk settings.
pub proof fn law_tick_keeps_quirks(s: Chip8State, r: u8)
    ensures
        tick_spec(s, r).quirk_8xy6 == s.quirk_8xy6,
        tick_spec(s, r).quirk_8xye == s.quirk_8xye,
        tick_spec(s, r).quirk_fx55 == s.quirk_fx55,
        tick_spec(s, r).quirk_fx65 == s.quirk_fx65,
{
}

} // verus!
