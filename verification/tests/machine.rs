use chip8::cpu::{Cpu, ExecError, ProgramLoadError};

/// Loads a program image into a fresh machine.
fn boot(prog: &[u8]) -> Cpu {
    Cpu::init_from_buffer(prog.to_vec()).unwrap()
}

/// One step with a wall-clock time early enough that no timer tick fires.
fn step(cpu: &mut Cpu) -> Result<bool, ExecError> {
    cpu.fetch_and_execute(0)
}

#[test]
fn load_places_font_program_and_fresh_state() {
    let cpu = boot(&[0xAB, 0xCD]);
    assert_eq!(cpu.memory.len(), 0xFFF);
    assert_eq!(cpu.memory[0], 0xF0);
    assert_eq!(cpu.memory[4], 0xF0);
    assert_eq!(cpu.memory[79], 0x80);
    assert_eq!(cpu.memory[80], 0x00);
    assert_eq!(cpu.memory[0x1FF], 0x00);
    assert_eq!(cpu.memory[0x200], 0xAB);
    assert_eq!(cpu.memory[0x201], 0xCD);
    assert_eq!(cpu.memory[0x202], 0x00);
    assert_eq!(cpu.program_counter, 0x200);
    assert_eq!(cpu.program_length, 2);
    assert_eq!(cpu.stack_pointer, 0);
    assert_eq!(cpu.i_register, 0);
    assert_eq!(cpu.delay_timer, 0);
    assert_eq!(cpu.sound_timer, 0);
    assert!(!cpu.draw_flag);
    assert!(cpu.data_registers.iter().all(|&v| v == 0));
    assert!(cpu.vram.iter().all(|&p| !p));
}

#[test]
fn load_rejects_image_that_does_not_fit() {
    let r = Cpu::init_from_buffer(vec![0u8; 0xFFF - 0x200 + 1]);
    match r {
        Err(e) => assert_eq!(e, ProgramLoadError::ProgramTooLarge),
        Ok(_) => panic!("an image past the memory end must be rejected"),
    }
    // the largest image that fits is accepted
    let cpu = Cpu::init_from_buffer(vec![0x11u8; 0xFFF - 0x200]).unwrap();
    assert_eq!(cpu.program_length, 0xDFF);
    assert_eq!(cpu.memory[0xFFE], 0x11);
}

#[test]
fn empty_program_completes_immediately() {
    let mut cpu = boot(&[]);
    assert_eq!(step(&mut cpu), Ok(false));
    assert_eq!(cpu.program_counter, 0x200);
}

#[test]
fn one_byte_program_still_executes_its_last_instruction() {
    // execution continues while the program counter is before the end;
    // the instruction's second byte is read from the zeroed memory after
    // the image, so this runs as "load immediate 0 into register 0"
    let mut cpu = boot(&[0x60]);
    cpu.data_registers[0] = 9;
    assert_eq!(step(&mut cpu), Ok(true));
    assert_eq!(cpu.data_registers[0], 0);
    assert_eq!(cpu.program_counter, 0x202);
    assert_eq!(step(&mut cpu), Ok(false));
}

#[test]
fn end_to_end_load_then_jump_runs_indefinitely() {
    // load immediate 0x05 into register 0, then jump back to the start
    let mut cpu = boot(&[0x60, 0x05, 0x12, 0x00]);
    assert_eq!(step(&mut cpu), Ok(true));
    assert_eq!(cpu.data_registers[0], 5);
    assert_eq!(cpu.program_counter, 0x202);
    assert_eq!(step(&mut cpu), Ok(true));
    assert_eq!(cpu.program_counter, 0x200);
    // the program never reports completion by exhaustion
    for _ in 0..100 {
        assert_eq!(step(&mut cpu), Ok(true));
        assert_eq!(cpu.data_registers[0], 5);
        assert!(cpu.program_counter == 0x200 || cpu.program_counter == 0x202);
    }
}

#[test]
fn unimplemented_opcode_is_fatal_and_leaves_state() {
    let mut cpu = boot(&[0x80, 0x08]);
    assert_eq!(step(&mut cpu), Err(ExecError::UnimplementedOpcode(0x8008)));
    assert_eq!(cpu.program_counter, 0x200);
    let mut cpu = boot(&[0xE1, 0x00]);
    assert_eq!(step(&mut cpu), Err(ExecError::UnimplementedOpcode(0xE100)));
}

#[test]
fn sys_class_is_fatal() {
    // the 0x0 class has no handler besides clear-screen and return, and a
    // non-matching instruction stops execution rather than silently go on
    let mut cpu = boot(&[0x01, 0x23]);
    assert_eq!(step(&mut cpu), Err(ExecError::UnimplementedOpcode(0x0123)));
    assert_eq!(cpu.program_counter, 0x200);
}

#[test]
fn stack_discipline_sixteen_calls_then_overflow() {
    // a subroutine that calls its own address over and over
    let mut cpu = boot(&[0x22, 0x00]);
    for depth in 1..=16 {
        assert_eq!(step(&mut cpu), Ok(true));
        assert_eq!(cpu.stack_pointer, depth);
        assert_eq!(cpu.program_counter, 0x200);
    }
    assert_eq!(step(&mut cpu), Err(ExecError::StackOverflow));
    assert_eq!(cpu.stack_pointer, 16);
    assert_eq!(cpu.program_counter, 0x200);
}

#[test]
fn return_with_empty_stack_underflows() {
    let mut cpu = boot(&[0x00, 0xEE]);
    assert_eq!(step(&mut cpu), Err(ExecError::StackUnderflow));
    assert_eq!(cpu.stack_pointer, 0);
    assert_eq!(cpu.program_counter, 0x200);
}

#[test]
fn call_and_return_round_trip() {
    // call the subroutine at 0x204, which returns at once
    let mut cpu = boot(&[0x22, 0x04, 0x00, 0x00, 0x00, 0xEE]);
    assert_eq!(step(&mut cpu), Ok(true));
    assert_eq!(cpu.program_counter, 0x204);
    assert_eq!(cpu.stack_pointer, 1);
    assert_eq!(cpu.stack[0], 0x200);
    assert_eq!(step(&mut cpu), Ok(true));
    // the return lands just past the call instruction
    assert_eq!(cpu.program_counter, 0x202);
    assert_eq!(cpu.stack_pointer, 0);
}

#[test]
fn timer_saturates_at_zero_across_ticks() {
    let mut cpu = boot(&[0x12, 0x00]);
    cpu.delay_timer = 1;
    cpu.sound_timer = 1;
    // closer than one sixtieth of a second: no tick
    assert_eq!(cpu.fetch_and_execute(1), Ok(true));
    assert_eq!(cpu.delay_timer, 1);
    // first tick: one to zero
    assert_eq!(cpu.fetch_and_execute(20_000_000), Ok(true));
    assert_eq!(cpu.delay_timer, 0);
    assert_eq!(cpu.sound_timer, 0);
    // second tick: zero stays zero, no wrap below
    assert_eq!(cpu.fetch_and_execute(40_000_000), Ok(true));
    assert_eq!(cpu.delay_timer, 0);
    assert_eq!(cpu.sound_timer, 0);
}

#[test]
fn set_and_read_timers() {
    // V0 := 77; DT := V0; ST := V0; V1 := DT
    let mut cpu = boot(&[0x60, 0x4D, 0xF0, 0x15, 0xF0, 0x18, 0xF1, 0x07]);
    assert_eq!(step(&mut cpu), Ok(true));
    assert_eq!(step(&mut cpu), Ok(true));
    assert_eq!(cpu.delay_timer, 77);
    assert_eq!(step(&mut cpu), Ok(true));
    assert_eq!(cpu.sound_timer, 77);
    assert_eq!(step(&mut cpu), Ok(true));
    assert_eq!(cpu.data_registers[1], 77);
}

#[test]
fn add_immediate_wraps_without_touching_flag() {
    let mut cpu = boot(&[0x70, 0xFF]);
    cpu.data_registers[0] = 2;
    cpu.data_registers[0xF] = 9;
    assert_eq!(step(&mut cpu), Ok(true));
    assert_eq!(cpu.data_registers[0], 1);
    assert_eq!(cpu.data_registers[0xF], 9);
}

#[test]
fn add_registers_sets_carry() {
    let mut cpu = boot(&[0x80, 0x14]);
    cpu.data_registers[0] = 200;
    cpu.data_registers[1] = 100;
    assert_eq!(step(&mut cpu), Ok(true));
    assert_eq!(cpu.data_registers[0], 44);
    assert_eq!(cpu.data_registers[0xF], 1);

    let mut cpu = boot(&[0x80, 0x14]);
    cpu.data_registers[0] = 3;
    cpu.data_registers[1] = 4;
    assert_eq!(step(&mut cpu), Ok(true));
    assert_eq!(cpu.data_registers[0], 7);
    assert_eq!(cpu.data_registers[0xF], 0);
}

#[test]
fn sub_registers_sets_not_borrow() {
    let mut cpu = boot(&[0x80, 0x15]);
    cpu.data_registers[0] = 5;
    cpu.data_registers[1] = 10;
    assert_eq!(step(&mut cpu), Ok(true));
    assert_eq!(cpu.data_registers[0], 251);
    assert_eq!(cpu.data_registers[0xF], 0);

    let mut cpu = boot(&[0x80, 0x15]);
    cpu.data_registers[0] = 10;
    cpu.data_registers[1] = 5;
    assert_eq!(step(&mut cpu), Ok(true));
    assert_eq!(cpu.data_registers[0], 5);
    assert_eq!(cpu.data_registers[0xF], 1);
}

#[test]
fn subn_registers_reverse_difference() {
    let mut cpu = boot(&[0x80, 0x17]);
    cpu.data_registers[0] = 5;
    cpu.data_registers[1] = 10;
    assert_eq!(step(&mut cpu), Ok(true));
    assert_eq!(cpu.data_registers[0], 5);
    assert_eq!(cpu.data_registers[0xF], 1);

    let mut cpu = boot(&[0x80, 0x17]);
    cpu.data_registers[0] = 10;
    cpu.data_registers[1] = 5;
    assert_eq!(step(&mut cpu), Ok(true));
    assert_eq!(cpu.data_registers[0], 251);
    assert_eq!(cpu.data_registers[0xF], 0);
}

#[test]
fn shifts_capture_the_shifted_out_bit() {
    let mut cpu = boot(&[0x80, 0x16]);
    cpu.data_registers[0] = 5;
    assert_eq!(step(&mut cpu), Ok(true));
    assert_eq!(cpu.data_registers[0], 2);
    assert_eq!(cpu.data_registers[0xF], 1);

    let mut cpu = boot(&[0x80, 0x1E]);
    cpu.data_registers[0] = 0x81;
    assert_eq!(step(&mut cpu), Ok(true));
    assert_eq!(cpu.data_registers[0], 0x02);
    assert_eq!(cpu.data_registers[0xF], 1);
}

#[test]
fn bitwise_ops_and_copy() {
    let mut cpu = boot(&[0x80, 0x11, 0x82, 0x32, 0x84, 0x53, 0x86, 0x70]);
    cpu.data_registers[0] = 0b1100;
    cpu.data_registers[1] = 0b1010;
    cpu.data_registers[2] = 0b1100;
    cpu.data_registers[3] = 0b1010;
    cpu.data_registers[4] = 0b1100;
    cpu.data_registers[5] = 0b1010;
    cpu.data_registers[7] = 0x5A;
    assert_eq!(step(&mut cpu), Ok(true));
    assert_eq!(cpu.data_registers[0], 0b1110);
    assert_eq!(step(&mut cpu), Ok(true));
    assert_eq!(cpu.data_registers[2], 0b1000);
    assert_eq!(step(&mut cpu), Ok(true));
    assert_eq!(cpu.data_registers[4], 0b0110);
    assert_eq!(step(&mut cpu), Ok(true));
    assert_eq!(cpu.data_registers[6], 0x5A);
}

#[test]
fn flag_register_as_add_target_keeps_the_flag() {
    // ADD VF, V1: the carry flag write wins over the sum
    let mut cpu = boot(&[0x8F, 0x14]);
    cpu.data_registers[0xF] = 200;
    cpu.data_registers[1] = 100;
    assert_eq!(step(&mut cpu), Ok(true));
    assert_eq!(cpu.data_registers[0xF], 1);
}

#[test]
fn conditional_skips_on_immediate() {
    let mut cpu = boot(&[0x30, 0x05]);
    cpu.data_registers[0] = 5;
    assert_eq!(step(&mut cpu), Ok(true));
    assert_eq!(cpu.program_counter, 0x204);

    let mut cpu = boot(&[0x30, 0x05]);
    cpu.data_registers[0] = 6;
    assert_eq!(step(&mut cpu), Ok(true));
    assert_eq!(cpu.program_counter, 0x202);

    let mut cpu = boot(&[0x40, 0x05]);
    cpu.data_registers[0] = 6;
    assert_eq!(step(&mut cpu), Ok(true));
    assert_eq!(cpu.program_counter, 0x204);
}

#[test]
fn conditional_skips_on_registers() {
    let mut cpu = boot(&[0x50, 0x10]);
    cpu.data_registers[0] = 9;
    cpu.data_registers[1] = 9;
    assert_eq!(step(&mut cpu), Ok(true));
    assert_eq!(cpu.program_counter, 0x204);

    // the low nibble of a 0x5 instruction is not a selector
    let mut cpu = boot(&[0x50, 0x17]);
    cpu.data_registers[0] = 9;
    cpu.data_registers[1] = 9;
    assert_eq!(step(&mut cpu), Ok(true));
    assert_eq!(cpu.program_counter, 0x204);

    let mut cpu = boot(&[0x90, 0x10]);
    cpu.data_registers[0] = 9;
    cpu.data_registers[1] = 9;
    assert_eq!(step(&mut cpu), Ok(true));
    assert_eq!(cpu.program_counter, 0x202);
}

#[test]
fn key_skips_read_the_pad() {
    let mut cpu = boot(&[0xE0, 0x9E]);
    cpu.data_registers[0] = 4;
    cpu.keyboard.update_key(4, true);
    assert_eq!(step(&mut cpu), Ok(true));
    assert_eq!(cpu.program_counter, 0x204);

    let mut cpu = boot(&[0xE0, 0x9E]);
    cpu.data_registers[0] = 4;
    assert_eq!(step(&mut cpu), Ok(true));
    assert_eq!(cpu.program_counter, 0x202);

    let mut cpu = boot(&[0xE0, 0xA1]);
    cpu.data_registers[0] = 4;
    assert_eq!(step(&mut cpu), Ok(true));
    assert_eq!(cpu.program_counter, 0x204);

    // a register value past the pad never counts as pressed
    let mut cpu = boot(&[0xE0, 0x9E]);
    cpu.data_registers[0] = 200;
    assert_eq!(step(&mut cpu), Ok(true));
    assert_eq!(cpu.program_counter, 0x202);
}

#[test]
fn wait_for_key_stalls_then_takes_lowest_key() {
    let mut cpu = boot(&[0xF5, 0x0A, 0x12, 0x00]);
    cpu.data_registers[5] = 0xEE;
    for _ in 0..3 {
        assert_eq!(step(&mut cpu), Ok(true));
        assert_eq!(cpu.program_counter, 0x200);
        assert_eq!(cpu.data_registers[5], 0xEE);
    }
    cpu.keyboard.update_key(7, true);
    cpu.keyboard.update_key(3, true);
    assert_eq!(step(&mut cpu), Ok(true));
    assert_eq!(cpu.data_registers[5], 3);
    assert_eq!(cpu.program_counter, 0x202);
}

#[test]
fn keyboard_ignores_keys_past_the_pad() {
    let mut cpu = boot(&[0x12, 0x00]);
    cpu.keyboard.update_key(20, true);
    assert!(cpu.keyboard.keys.iter().all(|&k| !k));
    cpu.keyboard.update_key(15, true);
    assert!(cpu.keyboard.is_pressed(15));
    assert!(!cpu.keyboard.is_pressed(14));
    assert!(!cpu.keyboard.is_pressed(200));
    cpu.keyboard.update_key(15, false);
    assert!(!cpu.keyboard.is_pressed(15));
}

#[test]
fn draw_twice_collides_and_clears() {
    let mut cpu = boot(&[0xD0, 0x11, 0xD0, 0x11]);
    cpu.i_register = 0x300;
    cpu.memory[0x300] = 0xFF;
    assert_eq!(step(&mut cpu), Ok(true));
    // first draw on a clear screen: pixels on, no collision
    assert_eq!(cpu.data_registers[0xF], 0);
    assert!(cpu.draw_flag);
    for px in 0..8 {
        assert!(cpu.vram[px]);
    }
    assert!(!cpu.vram[8]);
    // second draw of the same sprite: XOR turns the pixels back off
    assert_eq!(step(&mut cpu), Ok(true));
    assert_eq!(cpu.data_registers[0xF], 1);
    assert!(cpu.vram.iter().all(|&p| !p));
}

#[test]
fn draw_wraps_around_both_axes() {
    let mut cpu = boot(&[0xD0, 0x12]);
    cpu.i_register = 0x300;
    cpu.memory[0x300] = 0xFF;
    cpu.memory[0x301] = 0xFF;
    cpu.data_registers[0] = 60;
    cpu.data_registers[1] = 31;
    assert_eq!(step(&mut cpu), Ok(true));
    assert_eq!(cpu.data_registers[0xF], 0);
    // row 31, columns 60..63 and wrapped 0..3
    assert!(cpu.vram[31 * 64 + 60]);
    assert!(cpu.vram[31 * 64 + 63]);
    assert!(cpu.vram[31 * 64 + 0]);
    assert!(cpu.vram[31 * 64 + 3]);
    assert!(!cpu.vram[31 * 64 + 4]);
    // the second sprite row wraps to row 0
    assert!(cpu.vram[0 * 64 + 60]);
    assert!(cpu.vram[0 * 64 + 2]);
    assert!(!cpu.vram[1 * 64 + 60]);
}

#[test]
fn clear_screen_blanks_and_marks_dirty() {
    let mut cpu = boot(&[0x00, 0xE0]);
    cpu.vram[123] = true;
    assert_eq!(step(&mut cpu), Ok(true));
    assert!(cpu.vram.iter().all(|&p| !p));
    assert!(cpu.draw_flag);
    assert_eq!(cpu.program_counter, 0x202);
}

#[test]
fn jumps_set_the_program_counter_absolutely() {
    let mut cpu = boot(&[0x14, 0x56]);
    assert_eq!(step(&mut cpu), Ok(true));
    assert_eq!(cpu.program_counter, 0x456);
    // past the program: the next step reports completion
    assert_eq!(step(&mut cpu), Ok(false));

    let mut cpu = boot(&[0xB3, 0x00]);
    cpu.data_registers[0] = 4;
    assert_eq!(step(&mut cpu), Ok(true));
    assert_eq!(cpu.program_counter, 0x304);
}

#[test]
fn load_address_and_font_address() {
    let mut cpu = boot(&[0xA4, 0x56, 0xF0, 0x29]);
    assert_eq!(step(&mut cpu), Ok(true));
    assert_eq!(cpu.i_register, 0x456);
    cpu.data_registers[0] = 7;
    assert_eq!(step(&mut cpu), Ok(true));
    assert_eq!(cpu.i_register, 35);
    // the glyph for digit 7 sits there
    assert_eq!(cpu.memory[35], 0xF0);
}

#[test]
fn add_to_address_wraps_and_flags() {
    let mut cpu = boot(&[0xF0, 0x1E]);
    cpu.i_register = 0xFFF0;
    cpu.data_registers[0] = 0x20;
    assert_eq!(step(&mut cpu), Ok(true));
    assert_eq!(cpu.i_register, 0x10);
    assert_eq!(cpu.data_registers[0xF], 1);

    let mut cpu = boot(&[0xF0, 0x1E]);
    cpu.i_register = 0x100;
    cpu.data_registers[0] = 0x20;
    assert_eq!(step(&mut cpu), Ok(true));
    assert_eq!(cpu.i_register, 0x120);
    assert_eq!(cpu.data_registers[0xF], 0);
}

#[test]
fn bcd_writes_three_decimal_digits() {
    let mut cpu = boot(&[0xF0, 0x33]);
    cpu.i_register = 0x400;
    cpu.data_registers[0] = 234;
    assert_eq!(step(&mut cpu), Ok(true));
    assert_eq!(cpu.memory[0x400], 2);
    assert_eq!(cpu.memory[0x401], 3);
    assert_eq!(cpu.memory[0x402], 4);

    let mut cpu = boot(&[0xF0, 0x33]);
    cpu.i_register = 0x400;
    cpu.data_registers[0] = 7;
    assert_eq!(step(&mut cpu), Ok(true));
    assert_eq!(cpu.memory[0x400], 0);
    assert_eq!(cpu.memory[0x401], 0);
    assert_eq!(cpu.memory[0x402], 7);
}

#[test]
fn store_and_load_registers_inclusive() {
    let mut cpu = boot(&[0xF2, 0x55]);
    cpu.i_register = 0x500;
    cpu.data_registers[0] = 7;
    cpu.data_registers[1] = 8;
    cpu.data_registers[2] = 9;
    cpu.data_registers[3] = 10;
    assert_eq!(step(&mut cpu), Ok(true));
    assert_eq!(cpu.memory[0x500], 7);
    assert_eq!(cpu.memory[0x501], 8);
    assert_eq!(cpu.memory[0x502], 9);
    // the range is inclusive and stops at V2
    assert_eq!(cpu.memory[0x503], 0);

    let mut cpu = boot(&[0xF3, 0x65]);
    cpu.i_register = 0x600;
    cpu.memory[0x600] = 1;
    cpu.memory[0x601] = 2;
    cpu.memory[0x602] = 3;
    cpu.memory[0x603] = 4;
    cpu.data_registers[4] = 0xAA;
    assert_eq!(step(&mut cpu), Ok(true));
    assert_eq!(&cpu.data_registers[0..4], &[1, 2, 3, 4]);
    assert_eq!(cpu.data_registers[4], 0xAA);
}

#[test]
fn store_registers_wraps_past_the_end_of_memory() {
    let mut cpu = boot(&[0xF1, 0x55]);
    cpu.i_register = 0xFFE;
    cpu.data_registers[0] = 0x21;
    cpu.data_registers[1] = 0x22;
    assert_eq!(step(&mut cpu), Ok(true));
    assert_eq!(cpu.memory[0xFFE], 0x21);
    // the second address wraps around to the bottom of memory
    assert_eq!(cpu.memory[0], 0x22);
}

#[test]
fn random_masks_with_the_immediate() {
    let mut cpu = boot(&[0xC0, 0x0F, 0x12, 0x00]);
    for _ in 0..50 {
        assert_eq!(step(&mut cpu), Ok(true));
        assert_eq!(cpu.data_registers[0] & 0xF0, 0);
        assert_eq!(step(&mut cpu), Ok(true));
    }

    let mut cpu = boot(&[0xC0, 0x00]);
    cpu.data_registers[0] = 99;
    assert_eq!(step(&mut cpu), Ok(true));
    assert_eq!(cpu.data_registers[0], 0);
}
