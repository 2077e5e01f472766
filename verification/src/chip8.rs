use vstd::prelude::*;

use crate::consts::{
    FONTSET_SIZE, FONTSET_START_ADDR, NUM_KEYS, NUM_REGS, PC_START_ADDR, RAM_SIZE, SCREEN_HEIGHT,
    SCREEN_SIZE, SCREEN_WIDTH, STACK_SIZE, TICKS_PER_FRAME,
};
use crate::instr::{nib_a, nib_n, nib_x, Chip8Instr};
use crate::state::{
    draw_collides, drawn_screen, exec_defined, exec_spec, fetched, first_release, font_data,
    initial_state, instr_at, loaded_ram, no_keys, pc_in_range, pixel_bit, spec_add, spec_add_imm,
    spec_add_index, spec_and, spec_bcd, spec_call, spec_cls, spec_draw, spec_font_char,
    spec_get_delay, spec_jump, spec_jump_offset, spec_load, spec_load_imm, spec_load_regs, spec_mov,
    spec_notify_vblank, spec_or, spec_pop, spec_push, run_ticks, ticks_defined, spec_random, spec_ret, spec_set_delay, spec_set_index, spec_set_key,
    spec_set_sound, spec_shl, spec_shr, spec_skip_eq_imm, spec_skip_eq_reg, spec_skip_key,
    spec_skip_ne_imm, spec_skip_ne_reg, spec_skip_not_key, spec_store_regs, spec_sub, spec_subn,
    spec_tick_timers, spec_wait_key, spec_xor, sprite_covers, sprite_x, sprite_y, tick_defined,
    tick_spec, Chip8State,
};

verus! {

broadcast use vstd::array::group_array_axioms;

/// Position of display pixel `p` in the order in which DXYN visits the
/// sprite: row by row, left to right within a row.
spec fn sprite_order(s: Chip8State, w: u16, p: int) -> int {
    (p / 64 - sprite_y(s, w)) * 8 + (p % 64 - sprite_x(s, w))
}

/// Whether DXYN has already flipped pixel `p` after visiting `k` sprite bits.
spec fn covered_before(s: Chip8State, w: u16, p: int, k: int) -> bool {
    sprite_covers(s, w, p) && sprite_order(s, w, p) < k
}

/// Whether DXYN has met a lit pixel among the first `k` sprite bits.
spec fn collided_before(s: Chip8State, w: u16, k: int) -> bool {
    exists|p: int| 0 <= p < 2048 && #[trigger] covered_before(s, w, p, k) && s.screen[p]
}

/// Column and row of a pixel index, and back.
proof fn lemma_pixel_index(x: int, y: int)
    requires
        0 <= x < 64,
        0 <= y < 32,
    ensures
        0 <= x + 64 * y < 2048,
        (x + 64 * y) % 64 == x,
        (x + 64 * y) / 64 == y,
{
    vstd::arithmetic::div_mod::lemma_fundamental_div_mod_converse(x + 64 * y, 64, y, x);
}

/// A pixel index is determined by its column and row.
proof fn lemma_pixel_split(p: int)
    requires
        0 <= p < 2048,
    ensures
        p == p % 64 + 64 * (p / 64),
        0 <= p % 64 < 64,
        0 <= p / 64 < 32,
{
    vstd::arithmetic::div_mod::lemma_fundamental_div_mod(p, 64);
}

/// Visiting sprite bit (`row`, `col`) when it lands on a visible pixel: exactly
/// that pixel joins the flipped ones, and a collision is found iff it was lit.
proof fn lemma_draw_hit(s: Chip8State, w: u16, row: int, col: int)
    requires
        s.wf(),
        0 <= row < nib_n(w),
        0 <= col < 8,
        s.i_reg + nib_n(w) <= 4096,
        sprite_x(s, w) + col < 64,
        sprite_y(s, w) + row < 32,
        pixel_bit(s.ram[s.i_reg + row], col),
    ensures
        ({
            let idx = (sprite_x(s, w) + col) + 64 * (sprite_y(s, w) + row);
            let k = row * 8 + col;
            &&& 0 <= idx < 2048
            &&& covered_before(s, w, idx, k + 1)
            &&& !covered_before(s, w, idx, k)
            &&& forall|p: int| 0 <= p < 2048 && p != idx ==>
                covered_before(s, w, p, k + 1) == #[trigger] covered_before(s, w, p, k)
            &&& collided_before(s, w, k + 1) == (collided_before(s, w, k) || s.screen[idx])
        }),
{
    let x = sprite_x(s, w) + col;
    let y = sprite_y(s, w) + row;
    let idx = x + 64 * y;
    let k = row * 8 + col;
    lemma_pixel_index(x, y);
    assert forall|p: int| 0 <= p < 2048 && p != idx implies
        covered_before(s, w, p, k + 1) == #[trigger] covered_before(s, w, p, k) by {
        lemma_pixel_split(p);
    }
    if collided_before(s, w, k + 1) {
        let q = choose|q: int| 0 <= q < 2048 && #[trigger] covered_before(s, w, q, k + 1) && s.screen[q];
        if q != idx {
            assert(covered_before(s, w, q, k));
        }
    }
    if collided_before(s, w, k) {
        let q = choose|q: int| 0 <= q < 2048 && #[trigger] covered_before(s, w, q, k) && s.screen[q];
        assert(covered_before(s, w, q, k + 1));
    }
    if s.screen[idx] {
        assert(covered_before(s, w, idx, k + 1));
    }
}

/// Visiting sprite bit (`row`, `col`) when it is clear or off the display
/// changes nothing.
proof fn lemma_draw_miss(s: Chip8State, w: u16, row: int, col: int)
    requires
        s.wf(),
        0 <= row < nib_n(w),
        0 <= col < 8,
        s.i_reg + nib_n(w) <= 4096,
        !(sprite_x(s, w) + col < 64 && sprite_y(s, w) + row < 32 && pixel_bit(s.ram[s.i_reg + row], col)),
    ensures
        forall|p: int| 0 <= p < 2048 ==>
            covered_before(s, w, p, row * 8 + col + 1) == #[trigger] covered_before(s, w, p, row * 8 + col),
        collided_before(s, w, row * 8 + col + 1) == collided_before(s, w, row * 8 + col),
{
    let k = row * 8 + col;
    assert forall|p: int| 0 <= p < 2048 implies
        covered_before(s, w, p, k + 1) == #[trigger] covered_before(s, w, p, k) by {
        lemma_pixel_split(p);
    }
    if collided_before(s, w, k + 1) {
        let q = choose|q: int| 0 <= q < 2048 && #[trigger] covered_before(s, w, q, k + 1) && s.screen[q];
        assert(covered_before(s, w, q, k));
    }
    if collided_before(s, w, k) {
        let q = choose|q: int| 0 <= q < 2048 && #[trigger] covered_before(s, w, q, k) && s.screen[q];
        assert(covered_before(s, w, q, k + 1));
    }
}

/// The bit test of the drawing loop is the sprite's pixel bit.
proof fn lemma_bit_test(byte: u8, b: u8)
    requires
        b < 8,
    ensures
        (byte & (0x80u8 >> b) != 0) == pixel_bit(byte, b as int),
{
    assert((byte & (0x80u8 >> b) != 0) == ((byte >> ((7 - b) as u8)) & 1u8 == 1u8)) by (bit_vector)
        requires
            b < 8,
    ;
}

/// The built-in hexadecimal font, 5 bytes per glyph.
pub fn fontset() -> (r: [u8; 80])
    ensures
        r@ == font_data(),
{
    let r: [u8; 80] = [
        0xF0, 0x90, 0x90, 0x90, 0xF0,
        0x20, 0x60, 0x20, 0x20, 0x70,
        0xF0, 0x10, 0xF0, 0x80, 0xF0,
        0xF0, 0x10, 0xF0, 0x10, 0xF0,
        0x90, 0x90, 0xF0, 0x10, 0x10,
        0xF0, 0x80, 0xF0, 0x10, 0xF0,
        0xF0, 0x80, 0xF0, 0x90, 0xF0,
        0xF0, 0x10, 0x20, 0x40, 0x40,
        0xF0, 0x90, 0xF0, 0x90, 0xF0,
        0xF0, 0x90, 0xF0, 0x10, 0xF0,
        0xF0, 0x90, 0xF0, 0x90, 0x90,
        0xE0, 0x90, 0xE0, 0x90, 0xE0,
        0xF0, 0x80, 0x80, 0x80, 0xF0,
        0xE0, 0x90, 0x90, 0x90, 0xE0,
        0xF0, 0x80, 0xF0, 0x80, 0xF0,
        0xF0, 0x80, 0xF0, 0x80, 0x80,
    ];
    assert(r@ =~= font_data());
    r
}

/// A CHIP-8 machine.
pub struct Chip8 {
    /// Each pixel is either on (true, white) or off (false, black), row by row.
    pub screen: [bool; SCREEN_SIZE],
    pc: u16,
    v_reg: [u8; NUM_REGS],
    i_reg: u16,
    /// Index of the first unused stack slot.
    sp: u8,
    stack: [u16; STACK_SIZE],
    ram: [u8; RAM_SIZE],
    dt: u8,
    st: u8,
    keys: [bool; NUM_KEYS],
    /// The keys as they were before the latest key event.
    keys_prev: [bool; NUM_KEYS],
    state_fx0a_started: bool,
    /// At most one sprite is drawn per display refresh.
    wait_for_v_blank: bool,
    quirk_8xy6: bool,
    quirk_8xye: bool,
    quirk_fx55: bool,
    quirk_fx65: bool,
}

impl View for Chip8 {
    type V = Chip8State;

    closed spec fn view(&self) -> Chip8State {
        Chip8State {
            screen: self.screen@,
            pc: self.pc,
            v_reg: self.v_reg@,
            i_reg: self.i_reg,
            sp: self.sp,
            stack: self.stack@,
            ram: self.ram@,
            dt: self.dt,
            st: self.st,
            keys: self.keys@,
            keys_prev: self.keys_prev@,
            state_fx0a_started: self.state_fx0a_started,
            wait_for_v_blank: self.wait_for_v_blank,
            quirk_8xy6: self.quirk_8xy6,
            quirk_8xye: self.quirk_8xye,
            quirk_fx55: self.quirk_fx55,
            quirk_fx65: self.quirk_fx65,
        }
    }
}

impl Chip8 {
    /// The machine is well formed: its stack pointer lies within the stack.
    pub open spec fn wf(&self) -> bool {
        self@.wf()
    }

    /// A fresh machine with the given quirk settings and the font in memory.
    pub fn new(quirk_8xy6: bool, quirk_8xye: bool, quirk_fx55: bool, quirk_fx65: bool) -> (c8: Self)
        ensures
            c8.wf(),
            c8@ == initial_state(quirk_8xy6, quirk_8xye, quirk_fx55, quirk_fx65),
            c8@.quirk_8xy6 == quirk_8xy6,
            c8@.quirk_8xye == quirk_8xye,
            c8@.quirk_fx55 == quirk_fx55,
            c8@.quirk_fx65 == quirk_fx65,
    {
        let mut c8 = Chip8 {
            pc: PC_START_ADDR,
            v_reg: [0; NUM_REGS],
            i_reg: 0,
            sp: 0,
            stack: [0; STACK_SIZE],
            ram: [0; RAM_SIZE],
            screen: [false; SCREEN_SIZE],
            dt: 0,
            st: 0,
            keys: [false; NUM_KEYS],
            keys_prev: [false; NUM_KEYS],
            state_fx0a_started: false,
            wait_for_v_blank: false,
            quirk_8xy6,
            quirk_8xye,
            quirk_fx55,
            quirk_fx65,
        };
        // Copy the font into memory
        let font = fontset();
        let mut k: usize = 0;
        while k < FONTSET_SIZE
            invariant
                k <= FONTSET_SIZE,
                font@ == font_data(),
                forall|a: int| 0 <= a < k ==> c8.ram@[a] == font_data()[a],
                forall|a: int| k <= a < 4096 ==> c8.ram@[a] == 0u8,
                c8@ == (Chip8State { ram: c8.ram@, ..initial_state(quirk_8xy6, quirk_8xye, quirk_fx55, quirk_fx65) }),
            decreases FONTSET_SIZE - k,
        {
            c8.ram[FONTSET_START_ADDR + k] = font[k];
            k += 1;
        }
        assert(c8.ram@ =~= initial_state(quirk_8xy6, quirk_8xye, quirk_fx55, quirk_fx65).ram);
        c8
    }

    // Stack

    /// Pushes a return address.
    fn stack_push(&mut self, addr: u16)
        requires
            old(self).wf(),
            old(self)@.sp < 16,
        ensures
            final(self).wf(),
            final(self)@ == spec_push(old(self)@, addr),
    {
        self.stack[self.sp as usize] = addr;
        self.sp += 1;
    }

    /// Pops the most recent return address.
    fn stack_pop(&mut self) -> (addr: u16)
        requires
            old(self).wf(),
            old(self)@.sp > 0,
        ensures
            final(self).wf(),
            (final(self)@, addr) == spec_pop(old(self)@),
    {
        self.sp -= 1;
        self.stack[self.sp as usize]
    }

    // Instructions

    /// 00E0 (CLS).
    fn op_00e0(&mut self, _instr: Chip8Instr)
        requires
            old(self).wf(),
        ensures
            final(self).wf(),
            final(self)@ == spec_cls(old(self)@),
    {
        let mut p: usize = 0;
        while p < SCREEN_SIZE
            invariant
                p <= SCREEN_SIZE,
                forall|q: int| 0 <= q < p ==> !self.screen@[q],
                self@ == (Chip8State { screen: self.screen@, ..old(self)@ }),
            decreases SCREEN_SIZE - p,
        {
            self.screen[p] = false;
            p += 1;
        }
        assert(self.screen@ =~= spec_cls(old(self)@).screen);
    }

    /// 00EE (RET).
    fn op_00ee(&mut self, _instr: Chip8Instr)
        requires
            old(self).wf(),
            old(self)@.sp > 0,
        ensures
            final(self).wf(),
            final(self)@ == spec_ret(old(self)@),
    {
        self.pc = self.stack_pop();
    }

    /// 1NNN (JMP).
    fn op_1nnn(&mut self, instr: Chip8Instr)
        requires
            old(self).wf(),
        ensures
            final(self).wf(),
            final(self)@ == spec_jump(old(self)@, instr.bits),
    {
        self.pc = instr.nnn();
    }

    /// 2NNN (JAL).
    fn op_2nnn(&mut self, instr: Chip8Instr)
        requires
            old(self).wf(),
            old(self)@.sp < 16,
        ensures
            final(self).wf(),
            final(self)@ == spec_call(old(self)@, instr.bits),
    {
        // Save the current program counter before jumping
        let pc = self.pc;
        self.stack_push(pc);
        self.op_1nnn(instr);
    }

    /// 3XNN (SEQI).
    fn op_3xnn(&mut self, instr: Chip8Instr)
        requires
            old(self).wf(),
            pc_in_range(old(self)@),
        ensures
            final(self).wf(),
            final(self)@ == spec_skip_eq_imm(old(self)@, instr.bits),
    {
        // Skip the following instruction if VX == NN
        if self.v_reg[instr.reg_x()] == instr.nn() {
            self.pc += 2;
        }
    }

    /// 4XNN (SNEI).
    fn op_4xnn(&mut self, instr: Chip8Instr)
        requires
            old(self).wf(),
            pc_in_range(old(self)@),
        ensures
            final(self).wf(),
            final(self)@ == spec_skip_ne_imm(old(self)@, instr.bits),
    {
        // Skip the following instruction if VX != NN
        if self.v_reg[instr.reg_x()] != instr.nn() {
            self.pc += 2;
        }
    }

    /// 5XY0 (SEQ).
    fn op_5xy0(&mut self, instr: Chip8Instr)
        requires
            old(self).wf(),
            pc_in_range(old(self)@),
        ensures
            final(self).wf(),
            final(self)@ == spec_skip_eq_reg(old(self)@, instr.bits),
    {
        // Skip the following instruction if VX == VY
        if self.v_reg[instr.reg_x()] == self.v_reg[instr.reg_y()] {
            self.pc += 2;
        }
    }

    /// 6XNN (LI).
    fn op_6xnn(&mut self, instr: Chip8Instr)
        requires
            old(self).wf(),
        ensures
            final(self).wf(),
            final(self)@ == spec_load_imm(old(self)@, instr.bits),
    {
        let x = instr.reg_x();
        self.v_reg[x] = instr.nn();
    }

    /// 7XNN (ADDI): wrapping add, VF untouched.
    fn op_7xnn(&mut self, instr: Chip8Instr)
        requires
            old(self).wf(),
        ensures
            final(self).wf(),
            final(self)@ == spec_add_imm(old(self)@, instr.bits),
    {
        let x = instr.reg_x();
        self.v_reg[x] = self.v_reg[x].wrapping_add(instr.nn());
    }

    /// 8XY0 (MV).
    fn op_8xy0(&mut self, instr: Chip8Instr)
        requires
            old(self).wf(),
        ensures
            final(self).wf(),
            final(self)@ == spec_mov(old(self)@, instr.bits),
    {
        let x = instr.reg_x();
        self.v_reg[x] = self.v_reg[instr.reg_y()];
    }

    /// 8XY1 (SEOR): VX |= VY, then VF is reset.
    fn op_8xy1(&mut self, instr: Chip8Instr)
        requires
            old(self).wf(),
        ensures
            final(self).wf(),
            final(self)@ == spec_or(old(self)@, instr.bits),
    {
        let x = instr.reg_x();
        self.v_reg[x] = self.v_reg[x] | self.v_reg[instr.reg_y()];
        self.v_reg[0xF] = 0;
    }

    /// 8XY2 (SEAND): VX &= VY, then VF is reset.
    fn op_8xy2(&mut self, instr: Chip8Instr)
        requires
            old(self).wf(),
        ensures
            final(self).wf(),
            final(self)@ == spec_and(old(self)@, instr.bits),
    {
        let x = instr.reg_x();
        self.v_reg[x] = self.v_reg[x] & self.v_reg[instr.reg_y()];
        self.v_reg[0xF] = 0;
    }

    /// 8XY3 (SEXOR): VX ^= VY, then VF is reset.
    fn op_8xy3(&mut self, instr: Chip8Instr)
        requires
            old(self).wf(),
        ensures
            final(self).wf(),
            final(self)@ == spec_xor(old(self)@, instr.bits),
    {
        let x = instr.reg_x();
        self.v_reg[x] = self.v_reg[x] ^ self.v_reg[instr.reg_y()];
        self.v_reg[0xF] = 0;
    }

    /// 8XY4 (ADD): VX += VY, VF = carry.
    fn op_8xy4(&mut self, instr: Chip8Instr)
        requires
            old(self).wf(),
        ensures
            final(self).wf(),
            final(self)@ == spec_add(old(self)@, instr.bits),
    {
        let x = instr.reg_x();
        let a = self.v_reg[x];
        let b = self.v_reg[instr.reg_y()];
        let result = a.wrapping_add(b);
        let overflow = a > 255 - b;
        self.v_reg[x] = result;
        self.v_reg[0xF] = if overflow { 1 } else { 0 };
    }

    /// 8XY5 (SUB): VX -= VY, VF = no borrow.
    fn op_8xy5(&mut self, instr: Chip8Instr)
        requires
            old(self).wf(),
        ensures
            final(self).wf(),
            final(self)@ == spec_sub(old(self)@, instr.bits),
    {
        let x = instr.reg_x();
        let a = self.v_reg[x];
        let b = self.v_reg[instr.reg_y()];
        let result = a.wrapping_sub(b);
        let borrow = a < b;
        self.v_reg[x] = result;
        self.v_reg[0xF] = if borrow { 0 } else { 1 };
    }

    /// 8XY6 (SRL): VX = source >> 1, VF = its low bit; the source is VX with
    /// the quirk on and VY without.
    fn op_8xy6(&mut self, instr: Chip8Instr)
        requires
            old(self).wf(),
        ensures
            final(self).wf(),
            final(self)@ == spec_shr(old(self)@, instr.bits),
    {
        let reg_x = instr.reg_x();
        let reg_y = if self.quirk_8xy6 { reg_x } else { instr.reg_y() };
        // Read first: reg_x and reg_y may be the same register
        let orig_val = self.v_reg[reg_y];
        assert(orig_val >> 1u8 == orig_val / 2 && orig_val & 1u8 == orig_val % 2) by (bit_vector);
        self.v_reg[reg_x] = orig_val >> 1;
        self.v_reg[0xF] = orig_val & 1;
    }

    /// 8XY7 (SUB2): VX = VY - VX, VF = no borrow.
    fn op_8xy7(&mut self, instr: Chip8Instr)
        requires
            old(self).wf(),
        ensures
            final(self).wf(),
            final(self)@ == spec_subn(old(self)@, instr.bits),
    {
        let x = instr.reg_x();
        let a = self.v_reg[instr.reg_y()];
        let b = self.v_reg[x];
        let result = a.wrapping_sub(b);
        let borrow = a < b;
        self.v_reg[x] = result;
        self.v_reg[0xF] = if borrow { 0 } else { 1 };
    }

    /// 8XYE (SLL): VX = source << 1, VF = its high bit; the source is VX with
    /// the quirk on and VY without.
    fn op_8xye(&mut self, instr: Chip8Instr)
        requires
            old(self).wf(),
        ensures
            final(self).wf(),
            final(self)@ == spec_shl(old(self)@, instr.bits),
    {
        let reg_x = instr.reg_x();
        let reg_y = if self.quirk_8xye { reg_x } else { instr.reg_y() };
        // Read first: reg_x and reg_y may be the same register
        let orig_val = self.v_reg[reg_y];
        assert(orig_val << 1u8 == (orig_val * 2) % 256 && (orig_val & 0x80u8) >> 7u8 == orig_val / 128)
            by (bit_vector);
        self.v_reg[reg_x] = orig_val << 1;
        self.v_reg[0xF] = (orig_val & 0x80) >> 7;
    }

    /// 9XY0 (SNE).
    fn op_9xy0(&mut self, instr: Chip8Instr)
        requires
            old(self).wf(),
            pc_in_range(old(self)@),
        ensures
            final(self).wf(),
            final(self)@ == spec_skip_ne_reg(old(self)@, instr.bits),
    {
        // Skip the following instruction if VX != VY
        if self.v_reg[instr.reg_x()] != self.v_reg[instr.reg_y()] {
            self.pc += 2;
        }
    }

    /// ANNN (SMI).
    fn op_annn(&mut self, instr: Chip8Instr)
        requires
            old(self).wf(),
        ensures
            final(self).wf(),
            final(self)@ == spec_set_index(old(self)@, instr.bits),
    {
        self.i_reg = instr.nnn();
    }

    /// BNNN (LJMP): PC = NNN + V0.
    fn op_bnnn(&mut self, instr: Chip8Instr)
        requires
            old(self).wf(),
        ensures
            final(self).wf(),
            final(self)@ == spec_jump_offset(old(self)@, instr.bits),
    {
        self.pc = instr.nnn() + self.v_reg[0] as u16;
    }

    /// CXNN (SRND) for a given random byte: VX = random & NN.
    fn op_cxnn(&mut self, instr: Chip8Instr, random: u8)
        requires
            old(self).wf(),
        ensures
            final(self).wf(),
            final(self)@ == spec_random(old(self)@, instr.bits, random),
    {
        let x = instr.reg_x();
        self.v_reg[x] = random & instr.nn();
    }

    /// EX9E (SKP): skip if the key in VX is pressed.
    fn op_ex9e(&mut self, instr: Chip8Instr)
        requires
            old(self).wf(),
            pc_in_range(old(self)@),
        ensures
            final(self).wf(),
            final(self)@ == spec_skip_key(old(self)@, instr.bits),
    {
        let key_code = self.v_reg[instr.reg_x()] as usize;
        if key_code < NUM_KEYS && self.keys[key_code] {
            self.pc += 2;
        }
    }

    /// EXA1 (SKNP): skip if the key in VX is not pressed.
    fn op_exa1(&mut self, instr: Chip8Instr)
        requires
            old(self).wf(),
            pc_in_range(old(self)@),
        ensures
            final(self).wf(),
            final(self)@ == spec_skip_not_key(old(self)@, instr.bits),
    {
        let key_code = self.v_reg[instr.reg_x()] as usize;
        if key_code < NUM_KEYS && !self.keys[key_code] {
            self.pc += 2;
        }
    }

    /// FX07 (SDT).
    fn op_fx07(&mut self, instr: Chip8Instr)
        requires
            old(self).wf(),
        ensures
            final(self).wf(),
            final(self)@ == spec_get_delay(old(self)@, instr.bits),
    {
        let x = instr.reg_x();
        self.v_reg[x] = self.dt;
    }

    /// FX15 (STDT).
    fn op_fx15(&mut self, instr: Chip8Instr)
        requires
            old(self).wf(),
        ensures
            final(self).wf(),
            final(self)@ == spec_set_delay(old(self)@, instr.bits),
    {
        self.dt = self.v_reg[instr.reg_x()];
    }

    /// FX18 (STST).
    fn op_fx18(&mut self, instr: Chip8Instr)
        requires
            old(self).wf(),
        ensures
            final(self).wf(),
            final(self)@ == spec_set_sound(old(self)@, instr.bits),
    {
        self.st = self.v_reg[instr.reg_x()];
    }

    /// FX1E (ADDX): I += VX, wrapping.
    fn op_fx1e(&mut self, instr: Chip8Instr)
        requires
            old(self).wf(),
        ensures
            final(self).wf(),
            final(self)@ == spec_add_index(old(self)@, instr.bits),
    {
        self.i_reg = self.i_reg.wrapping_add(self.v_reg[instr.reg_x()] as u16);
    }

    /// FX29: I = address of the font glyph of the hex digit in VX.
    fn op_fx29(&mut self, instr: Chip8Instr)
        requires
            old(self).wf(),
        ensures
            final(self).wf(),
            final(self)@ == spec_font_char(old(self)@, instr.bits),
    {
        let v = self.v_reg[instr.reg_x()];
        assert(v & 0x0Fu8 == v % 16) by (bit_vector);
        let hex_char = (v & 0x0F) as u16;
        self.i_reg = (FONTSET_START_ADDR as u16) + (hex_char * 5);
    }

    /// FX0A (WKP): wait for a key to be released, then store it in VX.
    fn op_fx0a(&mut self, instr: Chip8Instr)
        requires
            old(self).wf(),
            old(self)@.pc >= 2,
        ensures
            final(self).wf(),
            final(self)@ == spec_wait_key(old(self)@, instr.bits),
    {
        // The first run of this instruction forgets all keys, so that a brand
        // new key press is needed
        if !self.state_fx0a_started {
            clear_keys(&mut self.keys_prev);
            clear_keys(&mut self.keys);
            self.state_fx0a_started = true;
        }
        let ghost mid = self@;
        let mut i: usize = 0;
        while i < NUM_KEYS
            invariant
                i <= NUM_KEYS,
                self@ == mid,
                mid.wf(),
                mid == (if old(self)@.state_fx0a_started { old(self)@ } else {
                    Chip8State {
                        keys: no_keys(),
                        keys_prev: no_keys(),
                        state_fx0a_started: true,
                        ..old(self)@
                    }
                }),
                first_release(mid.keys_prev, mid.keys, 0) == first_release(mid.keys_prev, mid.keys, i as int),
            decreases NUM_KEYS - i,
        {
            if self.keys_prev[i] && !self.keys[i] {
                // Key was down in the last frame but is up now
                let x = instr.reg_x();
                self.v_reg[x] = i as u8;
                self.state_fx0a_started = false;
                assert(!old(self)@.state_fx0a_started ==> !mid.keys_prev[i as int]);
                return;
            }
            i += 1;
        }
        // Keep blocking until a key is released
        self.pc -= 2;
    }

    /// FX33: store the decimal digits of VX at I, I+1 and I+2.
    fn op_fx33(&mut self, instr: Chip8Instr)
        requires
            old(self).wf(),
            old(self)@.i_reg + 2 < 4096,
        ensures
            final(self).wf(),
            final(self)@ == spec_bcd(old(self)@, instr.bits),
    {
        let ghost s0 = self@;
        let ghost v = s0.v_reg[nib_x(instr.bits)];
        let ghost i0 = s0.i_reg as int;
        let mut value = self.v_reg[instr.reg_x()];
        let mut k: u16 = 3;
        while k > 0
            invariant
                k <= 3,
                self@ == (Chip8State { ram: self.ram@, ..s0 }),
                i0 == self.i_reg,
                i0 + 2 < 4096,
                k == 3 ==> value == v && self.ram@ == s0.ram,
                k == 2 ==> value == v / 10 && self.ram@ == s0.ram.update(i0 + 2, v % 10),
                k == 1 ==> value == v / 100 && self.ram@ == s0.ram.update(i0 + 2, v % 10).update(i0 + 1, (v / 10) % 10),
                k == 0 ==> self.ram@ == s0.ram.update(i0 + 2, v % 10).update(i0 + 1, (v / 10) % 10).update(i0, (v / 100) % 10),
            decreases k,
        {
            k -= 1;
            self.ram[(self.i_reg + k) as usize] = value % 10;
            value /= 10;
        }
        assert(self.ram@ =~= spec_bcd(s0, instr.bits).ram);
    }

    /// FX55: write V0..=VX to memory at I..=I+X.
    fn op_fx55(&mut self, instr: Chip8Instr)
        requires
            old(self).wf(),
            old(self)@.i_reg + nib_x(instr.bits) < 4096,
        ensures
            final(self).wf(),
            final(self)@ == spec_store_regs(old(self)@, instr.bits),
    {
        let ghost s0 = self@;
        let i_reg_start = self.i_reg;
        let x = instr.reg_x();
        let mut i: usize = 0;
        while i <= x
            invariant
                x == nib_x(instr.bits),
                i <= x + 1,
                i_reg_start == s0.i_reg,
                s0.i_reg + x < 4096,
                self.i_reg == i_reg_start + i,
                self@ == (Chip8State { ram: self.ram@, i_reg: self.i_reg, ..s0 }),
                forall|a: int| 0 <= a < 4096 ==> #[trigger] self.ram@[a] == (if i_reg_start <= a < i_reg_start + i {
                    s0.v_reg[a - i_reg_start]
                } else {
                    s0.ram[a]
                }),
            decreases x + 1 - i,
        {
            self.ram[self.i_reg as usize] = self.v_reg[i];
            self.i_reg += 1;
            i += 1;
        }
        // Quirk on: I is left where it was
        if self.quirk_fx55 {
            self.i_reg = i_reg_start;
        }
        assert(self.ram@ =~= spec_store_regs(s0, instr.bits).ram);
    }

    /// FX65: read V0..=VX from memory at I..=I+X.
    fn op_fx65(&mut self, instr: Chip8Instr)
        requires
            old(self).wf(),
            old(self)@.i_reg + nib_x(instr.bits) < 4096,
        ensures
            final(self).wf(),
            final(self)@ == spec_load_regs(old(self)@, instr.bits),
    {
        let ghost s0 = self@;
        let i_reg_start = self.i_reg;
        let x = instr.reg_x();
        let mut i: usize = 0;
        while i <= x
            invariant
                x == nib_x(instr.bits),
                i <= x + 1,
                i_reg_start == s0.i_reg,
                s0.i_reg + x < 4096,
                self.i_reg == i_reg_start + i,
                self@ == (Chip8State { v_reg: self.v_reg@, i_reg: self.i_reg, ..s0 }),
                forall|k: int| 0 <= k < 16 ==> #[trigger] self.v_reg@[k] == (if k < i {
                    s0.ram[i_reg_start + k]
                } else {
                    s0.v_reg[k]
                }),
            decreases x + 1 - i,
        {
            self.v_reg[i] = self.ram[self.i_reg as usize];
            self.i_reg += 1;
            i += 1;
        }
        // Quirk on: I is left where it was
        if self.quirk_fx65 {
            self.i_reg = i_reg_start;
        }
        assert(self.v_reg@ =~= spec_load_regs(s0, instr.bits).v_reg);
    }

    /// DXYN (DSPR): XOR an N-byte sprite from memory at I onto the display at
    /// (VX, VY), clipped at the edges; VF = 1 when a lit pixel was turned off.
    fn op_dxyn(&mut self, instr: Chip8Instr)
        requires
            old(self).wf(),
            old(self)@.i_reg + nib_n(instr.bits) <= 4096,
        ensures
            final(self).wf(),
            final(self)@ == spec_draw(old(self)@, instr.bits),
    {
        let ghost s0 = self@;
        let ghost w = instr.bits;
        let num_bytes = instr.n() as usize;
        let sprite_start = self.i_reg as usize;
        let mut collision = false;

        let x_start = (self.v_reg[instr.reg_x()] % (SCREEN_WIDTH as u8)) as usize;
        let mut y = (self.v_reg[instr.reg_y()] % (SCREEN_HEIGHT as u8)) as usize;
        let mut row: usize = 0;
        // Loop over all bytes of the sprite
        while row < num_bytes
            invariant
                s0.wf(),
                num_bytes == nib_n(w),
                sprite_start == s0.i_reg,
                sprite_start + num_bytes <= 4096,
                x_start == sprite_x(s0, w),
                y == sprite_y(s0, w) + row,
                row <= num_bytes,
                self@ == (Chip8State { screen: self.screen@, ..s0 }),
                forall|p: int| 0 <= p < 2048 ==> #[trigger] self.screen@[p] == (s0.screen[p] != covered_before(s0, w, p, row * 8)),
                collision == collided_before(s0, w, row * 8),
            decreases num_bytes - row,
        {
            let byte = self.ram[sprite_start + row];
            let mut x = x_start;
            let mut bit_idx: u8 = 0;
            // Loop over the 8 pixels of the row
            while bit_idx < 8
                invariant
                    s0.wf(),
                    num_bytes == nib_n(w),
                    sprite_start == s0.i_reg,
                    sprite_start + num_bytes <= 4096,
                    x_start == sprite_x(s0, w),
                    y == sprite_y(s0, w) + row,
                    row < num_bytes,
                    byte == s0.ram[s0.i_reg + row],
                    bit_idx <= 8,
                    x == x_start + bit_idx,
                    self@ == (Chip8State { screen: self.screen@, ..s0 }),
                    forall|p: int| 0 <= p < 2048 ==> #[trigger] self.screen@[p] == (s0.screen[p] != covered_before(s0, w, p, row * 8 + bit_idx)),
                    collision == collided_before(s0, w, row * 8 + bit_idx),
                decreases 8 - bit_idx,
            {
                let ghost k = row * 8 + bit_idx;
                proof {
                    lemma_bit_test(byte, bit_idx);
                }
                // Only pixels that are set in the sprite and on the display
                if byte & (0x80 >> bit_idx) != 0 && x < SCREEN_WIDTH && y < SCREEN_HEIGHT {
                    let idx = x + SCREEN_WIDTH * y;
                    proof {
                        lemma_draw_hit(s0, w, row as int, bit_idx as int);
                    }
                    collision = collision || self.screen[idx];
                    // Draw to the display
                    self.screen[idx] = !self.screen[idx];
                } else {
                    proof {
                        lemma_draw_miss(s0, w, row as int, bit_idx as int);
                    }
                }
                x = x + 1;
                bit_idx = bit_idx + 1;
            }
            y = y + 1;
            row = row + 1;
        }
        proof {
            assert forall|p: int| 0 <= p < 2048 implies
                covered_before(s0, w, p, row * 8) == sprite_covers(s0, w, p) by {}
            assert(self.screen@ =~= drawn_screen(s0, w));
            if collision {
                let q = choose|q: int| 0 <= q < 2048 && #[trigger] covered_before(s0, w, q, row * 8) && s0.screen[q];
                assert(sprite_covers(s0, w, q));
            }
            if draw_collides(s0, w) {
                let q = choose|q: int| 0 <= q < 2048 && #[trigger] sprite_covers(s0, w, q) && s0.screen[q];
                assert(covered_before(s0, w, q, row * 8));
            }
        }
        self.v_reg[0xF] = if collision { 1 } else { 0 };
        self.wait_for_v_blank = true;
    }

    // Instruction handling

    /// Reads the big-endian instruction word at the program counter and moves
    /// the program counter past it.
    fn fetch(&mut self) -> (instr: Chip8Instr)
        requires
            old(self).wf(),
            old(self)@.pc + 1 < 4096,
        ensures
            final(self).wf(),
            instr.bits == instr_at(old(self)@),
            final(self)@ == fetched(old(self)@),
    {
        let instr = self.read_word();
        self.pc += 2;
        Chip8Instr { bits: instr }
    }

    /// The big-endian 16-bit word at the program counter.
    fn read_word(&self) -> (w: u16)
        requires
            self.wf(),
            self@.pc + 1 < 4096,
        ensures
            w == instr_at(self@),
    {
        let hi = self.ram[self.pc as usize];
        let lo = self.ram[self.pc as usize + 1];
        assert(((hi as u16) << 8u16) | (lo as u16) == hi * 256 + lo) by (bit_vector);
        ((hi as u16) << 8) | (lo as u16)
    }

    /// Whether `tick` may be called now: it runs without failing exactly when
    /// this holds (see `tick_defined`).
    pub fn can_tick(&self) -> (ok: bool)
        requires
            self.wf(),
        ensures
            ok == tick_defined(self@),
    {
        if self.wait_for_v_blank {
            return true;
        }
        if self.pc >= 4095 {
            return false;
        }
        let instr = Chip8Instr { bits: self.read_word() };
        let x = instr.second();
        let y = instr.third();
        let n = instr.fourth();
        match instr.first() {
            0x0 => x == 0 && ((y == 0 && n == 0) || (y == 0xE && n == 0) || (y == 0xE && n == 0xE && self.sp > 0)),
            0x2 => self.sp < 16,
            0x5 | 0x9 => n == 0,
            0x8 => n <= 7 || n == 0xE,
            0xD => self.i_reg as usize + n as usize <= RAM_SIZE,
            0xE => (y == 9 && n == 0xE) || (y == 0xA && n == 1),
            0xF => (y == 0 && (n == 7 || n == 0xA))
                || (y == 1 && (n == 5 || n == 8 || n == 0xE))
                || (y == 2 && n == 9)
                || (y == 3 && n == 3 && (self.i_reg as usize) + 2 < RAM_SIZE)
                || ((y == 5 || y == 6) && n == 5 && (self.i_reg as usize) + (x as usize) < RAM_SIZE),
            _ => true,
        }
    }

    /// Decodes and runs one instruction; `random` is the byte that CXNN uses.
    fn execute(&mut self, instr: Chip8Instr, random: u8)
        requires
            old(self).wf(),
            exec_defined(old(self)@, instr.bits),
        ensures
            final(self).wf(),
            final(self)@ == exec_spec(old(self)@, instr.bits, random),
    {
        match (instr.first(), instr.second(), instr.third(), instr.fourth()) {
            (0x0, 0x0, 0x0, 0x0) => {},
            (0x0, 0x0, 0xE, 0x0) => self.op_00e0(instr),
            (0x0, 0x0, 0xE, 0xE) => self.op_00ee(instr),
            (0x1, _, _, _) => self.op_1nnn(instr),
            (0x2, _, _, _) => self.op_2nnn(instr),
            (0x3, _, _, _) => self.op_3xnn(instr),
            (0x4, _, _, _) => self.op_4xnn(instr),
            (0x5, _, _, 0x0) => self.op_5xy0(instr),
            (0x6, _, _, _) => self.op_6xnn(instr),
            (0x7, _, _, _) => self.op_7xnn(instr),
            (0x8, _, _, 0x0) => self.op_8xy0(instr),
            (0x8, _, _, 0x1) => self.op_8xy1(instr),
            (0x8, _, _, 0x2) => self.op_8xy2(instr),
            (0x8, _, _, 0x3) => self.op_8xy3(instr),
            (0x8, _, _, 0x4) => self.op_8xy4(instr),
            (0x8, _, _, 0x5) => self.op_8xy5(instr),
            (0x8, _, _, 0x6) => self.op_8xy6(instr),
            (0x8, _, _, 0x7) => self.op_8xy7(instr),
            (0x8, _, _, 0xE) => self.op_8xye(instr),
            (0x9, _, _, 0x0) => self.op_9xy0(instr),
            (0xA, _, _, _) => self.op_annn(instr),
            (0xB, _, _, _) => self.op_bnnn(instr),
            (0xC, _, _, _) => self.op_cxnn(instr, random),
            (0xD, _, _, _) => self.op_dxyn(instr),
            (0xE, _, 0x9, 0xE) => self.op_ex9e(instr),
            (0xE, _, 0xA, 0x1) => self.op_exa1(instr),
            (0xF, _, 0x0, 0x7) => self.op_fx07(instr),
            (0xF, _, 0x0, 0xA) => self.op_fx0a(instr),
            (0xF, _, 0x1, 0x5) => self.op_fx15(instr),
            (0xF, _, 0x1, 0x8) => self.op_fx18(instr),
            (0xF, _, 0x1, 0xE) => self.op_fx1e(instr),
            (0xF, _, 0x2, 0x9) => self.op_fx29(instr),
            (0xF, _, 0x3, 0x3) => self.op_fx33(instr),
            (0xF, _, 0x5, 0x5) => self.op_fx55(instr),
            (0xF, _, 0x6, 0x5) => self.op_fx65(instr),
            _ => {
                // exec_defined rules out every other opcode
                proof {
                    assert(false);
                }
            },
        }
    }

    /// Runs one clock cycle: fetch, decode and execute one instruction, unless
    /// a sprite was drawn since the last vertical blank. A CXNN instruction
    /// draws its random byte from the operating system's generator.
    pub fn tick(&mut self)
        requires
            old(self).wf(),
            tick_defined(old(self)@),
        ensures
            final(self).wf(),
            exists|r: u8| final(self)@ == #[trigger] tick_spec(old(self)@, r),
            old(self)@.wait_for_v_blank || nib_a(instr_at(old(self)@)) != 0xC ==> final(self)@ == tick_spec(old(self)@, 0),
    {
        if self.wait_for_v_blank {
            assert(self@ == tick_spec(old(self)@, 0));
            return;
        }
        let instr = self.fetch();
        let random = if instr.first() == 0xC { random_byte() } else { 0 };
        self.execute(instr, random);
        assert(self@ == tick_spec(old(self)@, random));
    }

    /// Runs one clock cycle like `tick`, with `random` as the byte that a
    /// CXNN instruction uses.
    pub fn tick_with_random(&mut self, random: u8)
        requires
            old(self).wf(),
            tick_defined(old(self)@),
        ensures
            final(self).wf(),
            final(self)@ == tick_spec(old(self)@, random),
    {
        if self.wait_for_v_blank {
            return;
        }
        let instr = self.fetch();
        self.execute(instr, random);
    }
}

/// Draws one byte from `rand::random`, the thread-local generator seeded by
/// the operating system. Nothing is promised of its value.
#[verifier::external_body]
fn random_byte() -> u8 {
    rand::random::<u8>()
}

/// Marks every key as up.
fn clear_keys(keys: &mut [bool; NUM_KEYS])
    ensures
        final(keys)@ == no_keys(),
{
    let mut k: usize = 0;
    while k < NUM_KEYS
        invariant
            k <= NUM_KEYS,
            forall|j: int| 0 <= j < k ==> !keys@[j],
        decreases NUM_KEYS - k,
    {
        keys[k] = false;
        k += 1;
    }
    assert(keys@ =~= no_keys());
}

impl Chip8 {
    /// One 60 Hz period: both timers count down towards zero. Returns whether
    /// the sound timer is still running, i.e. whether the beeper should sound.
    pub fn tick_timers(&mut self) -> (sound: bool)
        requires
            old(self).wf(),
        ensures
            final(self).wf(),
            final(self)@ == spec_tick_timers(old(self)@),
            sound == (final(self)@.st > 0),
    {
        self.dt = self.dt.saturating_sub(1);
        self.st = self.st.saturating_sub(1);

        if self.st > 0 {
            return true;
        }
        return false;
    }

    /// One display frame of emulation: up to `TICKS_PER_FRAME` clock ticks,
    /// then one timer period. Returns `Some(sound)` with the beeper state after
    /// the timers when all ticks ran; returns `None`, leaving the machine at the
    /// instruction that cannot run and the timers untouched, when a tick would
    /// fail (an unimplemented opcode or an access outside memory or the stack).
    pub fn run_frame(&mut self) -> (r: Option<bool>)
        requires
            old(self).wf(),
        ensures
            final(self).wf(),
            match r {
                Some(sound) => exists|rnd: Seq<u8>| {
                    &&& rnd.len() == TICKS_PER_FRAME
                    &&& ticks_defined(old(self)@, rnd)
                    &&& final(self)@ == spec_tick_timers(#[trigger] run_ticks(old(self)@, rnd))
                    &&& sound == (final(self)@.st > 0)
                },
                None => exists|rnd: Seq<u8>| {
                    &&& rnd.len() < TICKS_PER_FRAME
                    &&& ticks_defined(old(self)@, rnd)
                    &&& final(self)@ == #[trigger] run_ticks(old(self)@, rnd)
                    &&& !tick_defined(final(self)@)
                },
            },
    {
        let ghost s0 = self@;
        let ghost mut rnd: Seq<u8> = Seq::empty();
        let mut n: usize = 0;
        while n < TICKS_PER_FRAME
            invariant
                self.wf(),
                n <= TICKS_PER_FRAME,
                rnd.len() == n,
                s0 == old(self)@,
                ticks_defined(s0, rnd),
                self@ == run_ticks(s0, rnd),
            decreases TICKS_PER_FRAME - n,
        {
            if !self.can_tick() {
                assert(self@ == run_ticks(s0, rnd));
                return None;
            }
            let ghost before = self@;
            self.tick();
            proof {
                let r = choose|r: u8| self@ == tick_spec(before, r);
                let next = rnd.push(r);
                assert(next.drop_last() =~= rnd);
                assert forall|k: int| 0 <= k < next.len() implies tick_defined(#[trigger] run_ticks(s0, next.take(k))) by {
                    if k < rnd.len() {
                        assert(next.take(k) =~= rnd.take(k));
                    } else {
                        assert(next.take(k) =~= rnd);
                    }
                }
                rnd = next;
            }
            n += 1;
        }
        let sound = self.tick_timers();
        assert(self@ == spec_tick_timers(run_ticks(s0, rnd)));
        Some(sound)
    }

    /// Changes the quirk settings.
    pub fn set_quirks(&mut self, quirk_8xy6: bool, quirk_8xye: bool, quirk_fx55: bool, quirk_fx65: bool)
        requires
            old(self).wf(),
        ensures
            final(self).wf(),
            final(self)@ == (Chip8State { quirk_8xy6, quirk_8xye, quirk_fx55, quirk_fx65, ..old(self)@ }),
    {
        self.quirk_8xy6 = quirk_8xy6;
        self.quirk_8xye = quirk_8xye;
        self.quirk_fx55 = quirk_fx55;
        self.quirk_fx65 = quirk_fx65;
    }

    /// The display has been refreshed: drawing may resume.
    pub fn notify_vblank(&mut self)
        requires
            old(self).wf(),
        ensures
            final(self).wf(),
            final(self)@ == spec_notify_vblank(old(self)@),
    {
        self.wait_for_v_blank = false;
    }

    /// Copies a program image into memory at 0x200.
    pub fn load(&mut self, data: &[u8])
        requires
            old(self).wf(),
            0x200 + data@.len() <= 4096,
        ensures
            final(self).wf(),
            final(self)@ == spec_load(old(self)@, data@),
    {
        let start = PC_START_ADDR as usize;
        let end = start + data.len();
        let mut k: usize = start;
        while k < end
            invariant
                start == 0x200,
                end == start + data@.len(),
                end <= 4096,
                start <= k <= end,
                self@ == (Chip8State { ram: self.ram@, ..old(self)@ }),
                forall|a: int| 0 <= a < 4096 ==> #[trigger] self.ram@[a] == (if start <= a < k {
                    data@[a - start]
                } else {
                    old(self)@.ram[a]
                }),
            decreases end - k,
        {
            self.ram[k] = data[k - start];
            k += 1;
        }
        assert(self.ram@ =~= loaded_ram(old(self)@.ram, data@));
    }

    /// Records a key press (`state` true) or release of keypad key `key`; the
    /// keys as they were before are kept as the previous frame.
    pub fn set_key(&mut self, key: usize, state: bool)
        requires
            old(self).wf(),
            key < 16,
        ensures
            final(self).wf(),
            final(self)@ == spec_set_key(old(self)@, key as int, state),
    {
        // Copy the history
        let mut k: usize = 0;
        while k < NUM_KEYS
            invariant
                k <= NUM_KEYS,
                self@ == (Chip8State { keys_prev: self.keys_prev@, ..old(self)@ }),
                forall|j: int| 0 <= j < k ==> self.keys_prev@[j] == old(self)@.keys[j],
            decreases NUM_KEYS - k,
        {
            self.keys_prev[k] = self.keys[k];
            k += 1;
        }
        assert(self.keys_prev@ =~= old(self)@.keys);
        self.keys[key] = state;
    }
}

impl Chip8 {
    /// Display pixel `p` (row by row, 64 pixels per row): whether it is on.
    pub fn pixel(&self, p: usize) -> (r: bool)
        requires
            p < 2048,
        ensures
            r == self@.screen[p as int],
    {
        self.screen[p]
    }

    /// The program counter.
    pub fn pc(&self) -> (r: u16)
        ensures
            r == self@.pc,
    {
        self.pc
    }

    /// Register V`x`.
    pub fn v_reg(&self, x: usize) -> (r: u8)
        requires
            x < 16,
        ensures
            r == self@.v_reg[x as int],
    {
        self.v_reg[x]
    }

    /// The index register I.
    pub fn i_reg(&self) -> (r: u16)
        ensures
            r == self@.i_reg,
    {
        self.i_reg
    }

    /// The number of return addresses on the stack.
    pub fn sp(&self) -> (r: u8)
        ensures
            r == self@.sp,
    {
        self.sp
    }

    /// The memory byte at `addr`.
    pub fn ram(&self, addr: usize) -> (r: u8)
        requires
            addr < 4096,
        ensures
            r == self@.ram[addr as int],
    {
        self.ram[addr]
    }

    /// The delay timer.
    pub fn dt(&self) -> (r: u8)
        ensures
            r == self@.dt,
    {
        self.dt
    }

    /// The sound timer.
    pub fn st(&self) -> (r: u8)
        ensures
            r == self@.st,
    {
        self.st
    }
}

} // verus!
