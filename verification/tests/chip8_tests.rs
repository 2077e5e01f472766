use rc8_core::Chip8;

fn machine(program: &[u8]) -> Chip8 {
    let mut c8 = Chip8::new(true, true, true, true);
    c8.load(program);
    c8
}

fn machine_no_quirks(program: &[u8]) -> Chip8 {
    let mut c8 = Chip8::new(false, false, false, false);
    c8.load(program);
    c8
}

fn run(c8: &mut Chip8, ticks: usize) {
    for _ in 0..ticks {
        assert!(c8.can_tick());
        c8.tick();
    }
}

fn pixel(c8: &Chip8, x: usize, y: usize) -> bool {
    c8.screen[x + 64 * y]
}

#[test]
fn new_machine_has_font_and_start_address() {
    let c8 = Chip8::new(true, false, true, false);
    assert_eq!(c8.pc(), 0x200);
    assert_eq!(c8.i_reg(), 0);
    assert_eq!(c8.sp(), 0);
    let glyph_zero = [0xF0, 0x90, 0x90, 0x90, 0xF0];
    for k in 0..5 {
        assert_eq!(c8.ram(k), glyph_zero[k]);
    }
    let glyph_f = [0xF0, 0x80, 0xF0, 0x80, 0x80];
    for k in 0..5 {
        assert_eq!(c8.ram(75 + k), glyph_f[k]);
    }
    assert_eq!(c8.ram(80), 0);
    assert!(c8.screen.iter().all(|p| !*p));
    for r in 0..16 {
        assert_eq!(c8.v_reg(r), 0);
    }
}

#[test]
fn load_copies_program_at_0x200_and_keeps_font() {
    let c8 = machine(&[0x12, 0x34, 0x56]);
    assert_eq!(c8.ram(0x200), 0x12);
    assert_eq!(c8.ram(0x201), 0x34);
    assert_eq!(c8.ram(0x202), 0x56);
    assert_eq!(c8.ram(0x203), 0);
    assert_eq!(c8.ram(0), 0xF0);
    assert_eq!(c8.ram(1), 0x90);
}

#[test]
fn load_fills_memory_to_the_end() {
    let data = vec![0xAB; 4096 - 0x200];
    let c8 = machine(&data);
    assert_eq!(c8.ram(4095), 0xAB);
    assert_eq!(c8.ram(0x1FF), 0);
}

#[test]
fn load_immediate_and_add_wraps_without_flag() {
    // V1 = 0xF0; V1 += 0x20; VF stays 0
    let mut c8 = machine(&[0x61, 0xF0, 0x71, 0x20]);
    run(&mut c8, 2);
    assert_eq!(c8.v_reg(1), 0x10);
    assert_eq!(c8.v_reg(0xF), 0);
    assert_eq!(c8.pc(), 0x204);
}

#[test]
fn jump_sets_pc() {
    let mut c8 = machine(&[0x13, 0x45]);
    run(&mut c8, 1);
    assert_eq!(c8.pc(), 0x345);
}

#[test]
fn jump_with_offset_adds_v0() {
    let mut c8 = machine(&[0x60, 0x10, 0xB3, 0x00]);
    run(&mut c8, 2);
    assert_eq!(c8.pc(), 0x310);
}

#[test]
fn call_then_return_resumes_after_call() {
    // 0x200: call 0x206; 0x202: V0 = 7; 0x204: jump 0x204; 0x206: V1 = 9; 0x208: return
    let mut c8 = machine(&[0x22, 0x06, 0x60, 0x07, 0x12, 0x04, 0x61, 0x09, 0x00, 0xEE]);
    run(&mut c8, 1);
    assert_eq!(c8.pc(), 0x206);
    assert_eq!(c8.sp(), 1);
    run(&mut c8, 2);
    assert_eq!(c8.pc(), 0x202);
    assert_eq!(c8.sp(), 0);
    assert_eq!(c8.v_reg(1), 9);
    run(&mut c8, 1);
    assert_eq!(c8.v_reg(0), 7);
}

#[test]
fn return_with_empty_stack_cannot_run() {
    let c8 = machine(&[0x00, 0xEE]);
    assert!(!c8.can_tick());
}

#[test]
fn sixteen_nested_calls_fill_the_stack() {
    // A call to itself: each tick pushes one return address
    let c8_program = [0x22, 0x00];
    let mut c8 = machine(&c8_program);
    run(&mut c8, 16);
    assert_eq!(c8.sp(), 16);
    assert!(!c8.can_tick());
}

#[test]
fn unknown_opcodes_cannot_run() {
    for program in [[0x01, 0x23], [0x50, 0x11], [0x80, 0x18], [0x90, 0x1F], [0xE0, 0x00], [0xF0, 0x99], [0x00, 0xE1]] {
        let c8 = machine(&program);
        assert!(!c8.can_tick());
    }
}

#[test]
fn zero_instruction_does_nothing_but_advance() {
    let mut c8 = machine(&[0x00, 0x00]);
    run(&mut c8, 1);
    assert_eq!(c8.pc(), 0x202);
}

#[test]
fn fetch_past_the_end_of_memory_cannot_run() {
    let mut c8 = machine(&[0x1F, 0xFF]);
    run(&mut c8, 1);
    assert_eq!(c8.pc(), 0xFFF);
    assert!(!c8.can_tick());
}

#[test]
fn skips_on_immediate_and_registers() {
    // V0 = 5; skip if V0 == 5 (skips V1 = 1); V2 = 2; skip if V0 != 5 (no skip); V3 = 3
    let mut c8 = machine(&[0x60, 0x05, 0x30, 0x05, 0x61, 0x01, 0x62, 0x02, 0x40, 0x05, 0x63, 0x03]);
    run(&mut c8, 5);
    assert_eq!(c8.v_reg(1), 0);
    assert_eq!(c8.v_reg(2), 2);
    assert_eq!(c8.v_reg(3), 3);
    // V4 = 5; skip if V0 == V4; (skipped) V5 = 1; skip if V0 != V4 (no); V6 = 6
    let mut c8 = machine(&[0x60, 0x05, 0x64, 0x05, 0x50, 0x40, 0x65, 0x01, 0x90, 0x40, 0x66, 0x06]);
    run(&mut c8, 5);
    assert_eq!(c8.v_reg(5), 0);
    assert_eq!(c8.v_reg(6), 6);
}

#[test]
fn logic_ops_reset_vf() {
    // VF = 1; V0 = 0b1100; V1 = 0b1010; V2 = V0; V2 |= V1
    let mut c8 = machine(&[0x6F, 0x01, 0x60, 0x0C, 0x61, 0x0A, 0x82, 0x00, 0x82, 0x11]);
    run(&mut c8, 5);
    assert_eq!(c8.v_reg(2), 0x0E);
    assert_eq!(c8.v_reg(0xF), 0);
    let mut c8 = machine(&[0x6F, 0x01, 0x60, 0x0C, 0x61, 0x0A, 0x80, 0x12]);
    run(&mut c8, 4);
    assert_eq!(c8.v_reg(0), 0x08);
    assert_eq!(c8.v_reg(0xF), 0);
    let mut c8 = machine(&[0x6F, 0x01, 0x60, 0x0C, 0x61, 0x0A, 0x80, 0x13]);
    run(&mut c8, 4);
    assert_eq!(c8.v_reg(0), 0x06);
    assert_eq!(c8.v_reg(0xF), 0);
}

#[test]
fn add_sets_carry() {
    let mut c8 = machine(&[0x60, 0xFF, 0x61, 0x02, 0x80, 0x14]);
    run(&mut c8, 3);
    assert_eq!(c8.v_reg(0), 0x01);
    assert_eq!(c8.v_reg(0xF), 1);
    let mut c8 = machine(&[0x60, 0x10, 0x61, 0x02, 0x80, 0x14]);
    run(&mut c8, 3);
    assert_eq!(c8.v_reg(0), 0x12);
    assert_eq!(c8.v_reg(0xF), 0);
}

#[test]
fn add_into_vf_keeps_the_flag() {
    // VF = 0x80; V1 = 0x90; VF += V1 -> the carry overwrites the sum
    let mut c8 = machine(&[0x6F, 0x80, 0x61, 0x90, 0x8F, 0x14]);
    run(&mut c8, 3);
    assert_eq!(c8.v_reg(0xF), 1);
}

#[test]
fn sub_sets_no_borrow_flag() {
    let mut c8 = machine(&[0x60, 0x05, 0x61, 0x03, 0x80, 0x15]);
    run(&mut c8, 3);
    assert_eq!(c8.v_reg(0), 2);
    assert_eq!(c8.v_reg(0xF), 1);
    let mut c8 = machine(&[0x60, 0x03, 0x61, 0x05, 0x80, 0x15]);
    run(&mut c8, 3);
    assert_eq!(c8.v_reg(0), 0xFE);
    assert_eq!(c8.v_reg(0xF), 0);
    // Equal values: no borrow
    let mut c8 = machine(&[0x60, 0x05, 0x61, 0x05, 0x80, 0x15]);
    run(&mut c8, 3);
    assert_eq!(c8.v_reg(0), 0);
    assert_eq!(c8.v_reg(0xF), 1);
}

#[test]
fn reverse_sub_sets_no_borrow_flag() {
    let mut c8 = machine(&[0x60, 0x03, 0x61, 0x05, 0x80, 0x17]);
    run(&mut c8, 3);
    assert_eq!(c8.v_reg(0), 2);
    assert_eq!(c8.v_reg(0xF), 1);
    let mut c8 = machine(&[0x60, 0x05, 0x61, 0x03, 0x80, 0x17]);
    run(&mut c8, 3);
    assert_eq!(c8.v_reg(0), 0xFE);
    assert_eq!(c8.v_reg(0xF), 0);
}

#[test]
fn shift_right_quirk_reads_vx() {
    // V0 = 0x05, V1 = 0x10, V0 = shift
    let program = [0x60, 0x05, 0x61, 0x10, 0x80, 0x16];
    let mut with = machine(&program);
    run(&mut with, 3);
    assert_eq!(with.v_reg(0), 0x02);
    assert_eq!(with.v_reg(0xF), 1);
    let mut without = machine_no_quirks(&program);
    run(&mut without, 3);
    assert_eq!(without.v_reg(0), 0x08);
    assert_eq!(without.v_reg(0xF), 0);
}

#[test]
fn shift_left_quirk_reads_vx() {
    let program = [0x60, 0x81, 0x61, 0x21, 0x80, 0x1E];
    let mut with = machine(&program);
    run(&mut with, 3);
    assert_eq!(with.v_reg(0), 0x02);
    assert_eq!(with.v_reg(0xF), 1);
    let mut without = machine_no_quirks(&program);
    run(&mut without, 3);
    assert_eq!(without.v_reg(0), 0x42);
    assert_eq!(without.v_reg(0xF), 0);
}

#[test]
fn random_is_masked() {
    let mut c8 = machine(&[0xC0, 0x0F, 0xC1, 0xF0]);
    c8.tick_with_random(0xAB);
    assert_eq!(c8.v_reg(0), 0x0B);
    c8.tick_with_random(0xAB);
    assert_eq!(c8.v_reg(1), 0xA0);
    let mut c8 = machine(&[0xC2, 0x00]);
    run(&mut c8, 1);
    assert_eq!(c8.v_reg(2), 0);
}

#[test]
fn draw_font_glyph_and_erase_it() {
    // V0 = 0x0A; I = glyph of V0; V1 = 2 (x), V2 = 3 (y); draw 5 rows at (V1, V2)
    let mut c8 = machine(&[0x60, 0x0A, 0xF0, 0x29, 0x61, 0x02, 0x62, 0x03, 0xD1, 0x25, 0xD1, 0x25]);
    run(&mut c8, 5);
    assert_eq!(c8.i_reg(), 50);
    // Glyph A: F0 90 F0 90 90
    let rows = [0xF0u8, 0x90, 0xF0, 0x90, 0x90];
    for (r, bits) in rows.iter().enumerate() {
        for col in 0..8 {
            let expected = bits & (0x80 >> col) != 0;
            assert_eq!(pixel(&c8, 2 + col, 3 + r), expected);
        }
    }
    assert_eq!(c8.screen.iter().filter(|p| **p).count(), 4 + 2 + 4 + 2 + 2);
    assert_eq!(c8.v_reg(0xF), 0);
    // Waiting for the vertical blank: ticks do nothing
    let pc = c8.pc();
    run(&mut c8, 3);
    assert_eq!(c8.pc(), pc);
    c8.notify_vblank();
    run(&mut c8, 1);
    assert!(c8.screen.iter().all(|p| !*p));
    assert_eq!(c8.v_reg(0xF), 1);
}

#[test]
fn draw_clips_at_the_edges() {
    // V0 = 62 (x), V1 = 31 (y); I = glyph 0; draw 2 rows
    let mut c8 = machine(&[0x60, 0x3E, 0x61, 0x1F, 0xA0, 0x00, 0xD0, 0x12]);
    run(&mut c8, 4);
    assert!(pixel(&c8, 62, 31));
    assert!(pixel(&c8, 63, 31));
    assert_eq!(c8.screen.iter().filter(|p| **p).count(), 2);
}

#[test]
fn draw_coordinates_wrap_modulo_the_display() {
    // V0 = 64 + 1, V1 = 32 + 2; draw one row of glyph 0 (0xF0)
    let mut c8 = machine(&[0x60, 0x41, 0x61, 0x22, 0xA0, 0x00, 0xD0, 0x11]);
    run(&mut c8, 4);
    for col in 0..4 {
        assert!(pixel(&c8, 1 + col, 2));
    }
    assert_eq!(c8.screen.iter().filter(|p| **p).count(), 4);
}

#[test]
fn draw_past_the_end_of_memory_cannot_run() {
    let mut c8 = machine(&[0xAF, 0xFE, 0xD0, 0x03]);
    run(&mut c8, 1);
    assert!(!c8.can_tick());
}

#[test]
fn clear_screen_blanks_the_display() {
    let mut c8 = machine(&[0xA0, 0x00, 0xD0, 0x05, 0x00, 0xE0]);
    run(&mut c8, 2);
    assert!(c8.screen.iter().any(|p| *p));
    c8.notify_vblank();
    run(&mut c8, 1);
    assert!(c8.screen.iter().all(|p| !*p));
}

#[test]
fn key_skips() {
    // V0 = 5; skip if key V0 down; V1 = 1; skip if key V0 up; V2 = 2
    let program = [0x60, 0x05, 0xE0, 0x9E, 0x61, 0x01, 0xE0, 0xA1, 0x62, 0x02];
    let mut c8 = machine(&program);
    c8.set_key(5, true);
    run(&mut c8, 5);
    assert_eq!(c8.v_reg(1), 0);
    assert_eq!(c8.v_reg(2), 2);
    let mut c8 = machine(&program);
    run(&mut c8, 4);
    assert_eq!(c8.v_reg(1), 1);
    assert_eq!(c8.v_reg(2), 0);
}

#[test]
fn key_skip_with_out_of_range_key_never_skips() {
    // V0 = 0x20; skip if key down; V1 = 1; skip if key up; V2 = 2
    let mut c8 = machine(&[0x60, 0x20, 0xE0, 0x9E, 0x61, 0x01, 0xE0, 0xA1, 0x62, 0x02]);
    run(&mut c8, 5);
    assert_eq!(c8.v_reg(1), 1);
    assert_eq!(c8.v_reg(2), 2);
}

#[test]
fn wait_for_key_needs_a_fresh_release() {
    // V3 = wait for key
    let mut c8 = machine(&[0xF3, 0x0A, 0x64, 0x01]);
    c8.set_key(7, true);
    // First run forgets the key that was already down
    run(&mut c8, 1);
    assert_eq!(c8.pc(), 0x200);
    c8.set_key(7, false);
    run(&mut c8, 1);
    assert_eq!(c8.pc(), 0x200);
    c8.set_key(9, true);
    run(&mut c8, 1);
    assert_eq!(c8.pc(), 0x200);
    c8.set_key(9, false);
    run(&mut c8, 1);
    assert_eq!(c8.v_reg(3), 9);
    assert_eq!(c8.pc(), 0x202);
    run(&mut c8, 1);
    assert_eq!(c8.v_reg(4), 1);
}

#[test]
fn timers_count_down_and_report_sound() {
    // V0 = 3; DT = V0; ST = V0; V1 = DT
    let mut c8 = machine(&[0x60, 0x03, 0xF0, 0x15, 0xF0, 0x18, 0xF1, 0x07]);
    run(&mut c8, 4);
    assert_eq!(c8.v_reg(1), 3);
    assert!(c8.tick_timers());
    assert_eq!(c8.dt(), 2);
    assert!(c8.tick_timers());
    assert!(!c8.tick_timers());
    assert!(!c8.tick_timers());
    assert_eq!(c8.dt(), 0);
    assert_eq!(c8.st(), 0);
}

#[test]
fn add_to_index_wraps() {
    // I = 0xFFF; V0 = 2; I += V0
    let mut c8 = machine(&[0xAF, 0xFF, 0x60, 0x02, 0xF0, 0x1E]);
    run(&mut c8, 3);
    assert_eq!(c8.i_reg(), 0x1001);
    // I = 0xFFF; V0 = 0xFF; loop { I += V0 }: 241 additions pass 0xFFFF
    let mut c8 = machine(&[0xAF, 0xFF, 0x60, 0xFF, 0xF0, 0x1E, 0x12, 0x04]);
    run(&mut c8, 2 + 2 * 241);
    assert_eq!(c8.i_reg(), 14);
}

#[test]
fn bcd_stores_decimal_digits() {
    let mut c8 = machine(&[0x60, 0xFE, 0xA3, 0x00, 0xF0, 0x33]);
    run(&mut c8, 3);
    assert_eq!(c8.ram(0x300), 2);
    assert_eq!(c8.ram(0x301), 5);
    assert_eq!(c8.ram(0x302), 4);
    assert_eq!(c8.i_reg(), 0x300);
}

#[test]
fn bcd_at_the_end_of_memory_cannot_run() {
    let mut c8 = machine(&[0xAF, 0xFE, 0xF0, 0x33]);
    run(&mut c8, 1);
    assert!(!c8.can_tick());
}

#[test]
fn store_and_load_registers_with_quirks() {
    // V0 = 1, V1 = 2, V2 = 3; I = 0x300; store V0..V2; clear V0..V2; load V0..V2
    let program = [
        0x60, 0x01, 0x61, 0x02, 0x62, 0x03, 0xA3, 0x00, 0xF2, 0x55, 0x60, 0x00, 0x61, 0x00, 0x62, 0x00, 0xF2, 0x65,
    ];
    let mut c8 = machine(&program);
    run(&mut c8, 5);
    assert_eq!(c8.ram(0x300), 1);
    assert_eq!(c8.ram(0x301), 2);
    assert_eq!(c8.ram(0x302), 3);
    assert_eq!(c8.ram(0x303), 0);
    assert_eq!(c8.i_reg(), 0x300);
    run(&mut c8, 4);
    assert_eq!(c8.v_reg(0), 1);
    assert_eq!(c8.v_reg(1), 2);
    assert_eq!(c8.v_reg(2), 3);
    assert_eq!(c8.i_reg(), 0x300);
}

#[test]
fn store_and_load_registers_without_quirks_advance_index() {
    let mut c8 = machine_no_quirks(&[0x60, 0x07, 0xA3, 0x00, 0xF1, 0x55, 0xF0, 0x65]);
    run(&mut c8, 3);
    assert_eq!(c8.ram(0x300), 7);
    assert_eq!(c8.ram(0x301), 0);
    assert_eq!(c8.i_reg(), 0x302);
    run(&mut c8, 1);
    assert_eq!(c8.v_reg(0), 0);
    assert_eq!(c8.i_reg(), 0x303);
}

#[test]
fn store_past_the_end_of_memory_cannot_run() {
    let mut c8 = machine(&[0xAF, 0xFE, 0xF2, 0x55]);
    run(&mut c8, 1);
    assert!(!c8.can_tick());
    let mut c8 = machine(&[0xAF, 0xFE, 0xF1, 0x65]);
    run(&mut c8, 1);
    assert!(c8.can_tick());
}

#[test]
fn set_key_keeps_previous_frame() {
    // After a press and a release of key 2, FX0A (already started) sees the release
    let mut c8 = machine(&[0xF5, 0x0A]);
    run(&mut c8, 1);
    c8.set_key(2, true);
    c8.set_key(2, false);
    run(&mut c8, 1);
    assert_eq!(c8.v_reg(5), 2);
}

#[test]
fn set_quirks_changes_behaviour() {
    let program = [0x60, 0x05, 0x61, 0x10, 0x80, 0x16];
    let mut c8 = machine(&program);
    c8.set_quirks(false, true, true, true);
    run(&mut c8, 3);
    assert_eq!(c8.v_reg(0), 0x08);
}

#[test]
fn pixel_reads_the_display() {
    let mut c8 = machine(&[0xA0, 0x00, 0xD0, 0x01]);
    run(&mut c8, 2);
    for p in 0..2048 {
        assert_eq!(c8.pixel(p), c8.screen[p]);
    }
    assert!(c8.pixel(0) && c8.pixel(3) && !c8.pixel(4));
}

#[test]
fn run_frame_runs_ten_ticks_then_timers() {
    // V0 = 5; ST = V0; then V1 += 1 forever
    let mut c8 = machine(&[0x60, 0x05, 0xF0, 0x18, 0x71, 0x01, 0x12, 0x04]);
    assert_eq!(c8.run_frame(), Some(true));
    // 2 setup ticks, then 8 ticks of the 2-instruction loop
    assert_eq!(c8.v_reg(1), 4);
    assert_eq!(c8.st(), 4);
    for _ in 0..3 {
        assert_eq!(c8.run_frame(), Some(true));
    }
    assert_eq!(c8.run_frame(), Some(false));
    assert_eq!(c8.st(), 0);
}

#[test]
fn run_frame_stops_at_an_instruction_that_cannot_run() {
    // V0 = 3; DT = V0; then an unimplemented opcode
    let mut c8 = machine(&[0x60, 0x03, 0xF0, 0x15, 0x01, 0x23]);
    assert_eq!(c8.run_frame(), None);
    assert_eq!(c8.pc(), 0x204);
    assert_eq!(c8.dt(), 3);
    assert!(!c8.can_tick());
}

#[test]
fn run_frame_after_a_draw_waits_for_the_blank() {
    let mut c8 = machine(&[0xA0, 0x00, 0xD0, 0x05, 0x60, 0x01]);
    assert_eq!(c8.run_frame(), Some(false));
    assert_eq!(c8.pc(), 0x204);
    assert_eq!(c8.v_reg(0), 0);
    c8.notify_vblank();
    // The rest of memory is zero: 0000 does nothing
    assert_eq!(c8.run_frame(), Some(false));
    assert_eq!(c8.v_reg(0), 1);
    assert_eq!(c8.pc(), 0x204 + 2 * 10);
}

#[test]
fn skip_eq_and_ne_are_complementary() {
    for v in [0x00u8, 0x41, 0x42, 0xFF] {
        let eq = machine(&[0x63, v, 0x33, 0x42]);
        let ne = machine(&[0x63, v, 0x43, 0x42]);
        let (mut eq, mut ne) = (eq, ne);
        run(&mut eq, 2);
        run(&mut ne, 2);
        assert_ne!(eq.pc() == 0x206, ne.pc() == 0x206);
    }
}
