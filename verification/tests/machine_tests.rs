use chip8::{decode, first_key_down, Fault, Instruction, ProgramCounter, CPU};

const NO_KEYS: [bool; 16] = [false; 16];

fn keys_down(down: &[usize]) -> [bool; 16] {
    let mut keypad = [false; 16];
    for &k in down {
        keypad[k] = true;
    }
    keypad
}

fn machine_with_program(program: &[u8]) -> CPU {
    let mut cpu = CPU::new();
    cpu.load_game(program).unwrap();
    cpu
}

#[test]
fn new_machine_is_zeroed() {
    let cpu = CPU::new();
    assert_eq!(cpu.pc, 0x200);
    assert_eq!(cpu.i, 0);
    assert_eq!(cpu.sp, 0);
    assert_eq!(cpu.v, [0u8; 16]);
    assert_eq!(cpu.stack, [0usize; 16]);
    assert_eq!(cpu.keypad, [false; 16]);
    assert_eq!(cpu.delay_timer, 0);
    assert_eq!(cpu.sound_timer, 0);
    assert!(!cpu.waiting_keypad);
    assert!(!cpu.redraw);
    assert!(cpu.vram.iter().all(|row| row.iter().all(|&p| p == 0)));
    assert!(cpu.ram[..0x50].iter().all(|&b| b == 0));
    assert!(cpu.ram[0xA0..].iter().all(|&b| b == 0));
    assert_eq!(cpu.ram[0x50], 0xF0);
    assert_eq!(cpu.ram[0x55], 0x20);
    assert_eq!(cpu.ram[0x9F], 0x80);
}

#[test]
fn add_sets_carry_for_all_values() {
    for vx in 0..=255u8 {
        for vy in 0..=255u8 {
            let mut cpu = CPU::new();
            cpu.v[0x3] = vx;
            cpu.v[0x7] = vy;
            cpu.exec_opcode(0x8374).unwrap();
            let sum = vx as u16 + vy as u16;
            assert_eq!(cpu.v[0xF], if sum > 255 { 1 } else { 0 });
            assert_eq!(cpu.v[0x3] as u16, sum % 256);
            assert_eq!(cpu.v[0x7], vy);
        }
    }
}

#[test]
fn subtract_sets_flag_for_all_values() {
    for vx in 0..=255u8 {
        for vy in 0..=255u8 {
            let mut cpu = CPU::new();
            cpu.v[0x3] = vx;
            cpu.v[0x7] = vy;
            cpu.exec_opcode(0x8375).unwrap();
            assert_eq!(cpu.v[0xF], if vx > vy { 1 } else { 0 });
            assert_eq!(cpu.v[0x3] as i32, (vx as i32 - vy as i32).rem_euclid(256));
        }
    }
}

#[test]
fn reverse_subtract_sets_flag_for_all_values() {
    for vx in 0..=255u8 {
        for vy in 0..=255u8 {
            let mut cpu = CPU::new();
            cpu.v[0x3] = vx;
            cpu.v[0x7] = vy;
            cpu.exec_opcode(0x8377).unwrap();
            assert_eq!(cpu.v[0xF], if vy > vx { 1 } else { 0 });
            assert_eq!(cpu.v[0x3] as i32, (vy as i32 - vx as i32).rem_euclid(256));
        }
    }
}

#[test]
fn subtract_of_equal_values_clears_flag() {
    let mut cpu = CPU::new();
    cpu.v[0x0] = 0x42;
    cpu.v[0x1] = 0x42;
    cpu.exec_opcode(0x8015).unwrap();
    assert_eq!(cpu.v[0x0], 0);
    assert_eq!(cpu.v[0xF], 0);
}

#[test]
fn add_concrete_scenario() {
    let mut cpu = CPU::new();
    cpu.v[0x0] = 0x10;
    cpu.v[0x1] = 0xFF;
    assert_eq!(cpu.exec_opcode(0x8014), Ok(()));
    assert_eq!(cpu.v[0x0], 0x0F);
    assert_eq!(cpu.v[0xF], 0x01);
    assert_eq!(cpu.pc, 0x202);
}

#[test]
fn add_into_flag_register_keeps_the_carry() {
    let mut cpu = CPU::new();
    cpu.v[0xF] = 0xF0;
    cpu.v[0x1] = 0x20;
    cpu.exec_opcode(0x8F14).unwrap();
    assert_eq!(cpu.v[0xF], 1);
    cpu.v[0xF] = 0x01;
    cpu.v[0x1] = 0x02;
    cpu.exec_opcode(0x8F14).unwrap();
    assert_eq!(cpu.v[0xF], 0);
}

#[test]
fn subtract_with_flag_register_as_second_operand() {
    let mut cpu = CPU::new();
    cpu.v[0x0] = 5;
    cpu.v[0xF] = 3;
    cpu.exec_opcode(0x80F5).unwrap();
    assert_eq!(cpu.v[0x0], 2);
    assert_eq!(cpu.v[0xF], 1);
    cpu.v[0x2] = 0x10;
    cpu.v[0xF] = 0x20;
    cpu.exec_opcode(0x82F5).unwrap();
    assert_eq!(cpu.v[0x2], 0xF0);
    assert_eq!(cpu.v[0xF], 0);
}

#[test]
fn reverse_subtract_with_flag_register_as_second_operand() {
    let mut cpu = CPU::new();
    cpu.v[0x0] = 3;
    cpu.v[0xF] = 5;
    cpu.exec_opcode(0x80F7).unwrap();
    assert_eq!(cpu.v[0x0], 2);
    assert_eq!(cpu.v[0xF], 1);
    cpu.v[0x2] = 0x20;
    cpu.v[0xF] = 0x10;
    cpu.exec_opcode(0x82F7).unwrap();
    assert_eq!(cpu.v[0x2], 0xF0);
    assert_eq!(cpu.v[0xF], 0);
}

#[test]
fn subtract_into_flag_register_keeps_the_difference() {
    let mut cpu = CPU::new();
    cpu.v[0xF] = 9;
    cpu.v[0x1] = 4;
    cpu.exec_opcode(0x8F15).unwrap();
    assert_eq!(cpu.v[0xF], 5);
    cpu.v[0xF] = 9;
    cpu.exec_opcode(0x8F17).unwrap();
    assert_eq!(cpu.v[0xF], 0xFB);
    cpu.v[0xF] = 9;
    cpu.exec_opcode(0x8FF5).unwrap();
    assert_eq!(cpu.v[0xF], 0);
}

#[test]
fn shift_of_flag_register_keeps_the_shifted_value() {
    let mut cpu = CPU::new();
    cpu.v[0xF] = 0xFF;
    cpu.exec_opcode(0x8F06).unwrap();
    assert_eq!(cpu.v[0xF], 0x7F);
    cpu.v[0xF] = 0xC1;
    cpu.exec_opcode(0x8F0E).unwrap();
    assert_eq!(cpu.v[0xF], 0x82);
}

#[test]
fn shift_right_values() {
    let mut cpu = CPU::new();
    cpu.v[0x4] = 0xFF;
    cpu.exec_opcode(0x8406).unwrap();
    assert_eq!(cpu.v[0x4], 0x7F);
    assert_eq!(cpu.v[0xF], 1);
    cpu.v[0x4] = 0x0A;
    cpu.exec_opcode(0x8406).unwrap();
    assert_eq!(cpu.v[0x4], 0x05);
    assert_eq!(cpu.v[0xF], 0);
}

#[test]
fn shift_right_ignores_second_operand() {
    let mut cpu = CPU::new();
    cpu.v[0x4] = 0x09;
    cpu.v[0x5] = 0xF0;
    cpu.exec_opcode(0x8456).unwrap();
    assert_eq!(cpu.v[0x4], 0x04);
    assert_eq!(cpu.v[0x5], 0xF0);
    assert_eq!(cpu.v[0xF], 1);
}

#[test]
fn shift_left_values() {
    let mut cpu = CPU::new();
    cpu.v[0x4] = 0x81;
    cpu.exec_opcode(0x840E).unwrap();
    assert_eq!(cpu.v[0x4], 0x02);
    assert_eq!(cpu.v[0xF], 1);
    cpu.v[0x4] = 0x41;
    cpu.exec_opcode(0x840E).unwrap();
    assert_eq!(cpu.v[0x4], 0x82);
    assert_eq!(cpu.v[0xF], 0);
}

#[test]
fn shifts_for_all_values() {
    for value in 0..=255u8 {
        let mut cpu = CPU::new();
        cpu.v[0x1] = value;
        cpu.exec_opcode(0x8106).unwrap();
        assert_eq!(cpu.v[0x1], value / 2);
        assert_eq!(cpu.v[0xF], value % 2);
        cpu.v[0x1] = value;
        cpu.exec_opcode(0x810E).unwrap();
        assert_eq!(cpu.v[0x1] as u16, (value as u16 * 2) % 256);
        assert_eq!(cpu.v[0xF], value / 128);
    }
}

#[test]
fn add_byte_wraps_and_leaves_flag() {
    let mut cpu = CPU::new();
    cpu.v[0x5] = 0xFF;
    cpu.v[0xF] = 0x07;
    cpu.exec_opcode(0x7502).unwrap();
    assert_eq!(cpu.v[0x5], 0x01);
    assert_eq!(cpu.v[0xF], 0x07);
}

#[test]
fn draw_twice_restores_framebuffer() {
    let mut cpu = CPU::new();
    cpu.ram[0x300] = 0b1011_0001;
    cpu.ram[0x301] = 0b0110_1110;
    cpu.ram[0x302] = 0b1111_1111;
    cpu.i = 0x300;
    cpu.v[0x1] = 60;
    cpu.v[0x2] = 30;
    cpu.vram[30][61] = 1;
    cpu.vram[31][3] = 1;
    cpu.vram[5][5] = 1;
    let before = cpu.vram;
    cpu.exec_opcode(0xD123).unwrap();
    assert_ne!(cpu.vram, before);
    assert_eq!(cpu.v[0xF], 0);
    cpu.exec_opcode(0xD123).unwrap();
    assert_eq!(cpu.vram, before);
    assert_eq!(cpu.v[0xF], 1);
    assert!(cpu.redraw);
}

#[test]
fn draw_twice_on_lit_pixel_reports_each_draw_alone() {
    let mut cpu = CPU::new();
    cpu.ram[0x300] = 0b1000_0000;
    cpu.i = 0x300;
    cpu.vram[0][0] = 1;
    cpu.exec_opcode(0xD011).unwrap();
    assert_eq!(cpu.vram[0][0], 0);
    assert_eq!(cpu.v[0xF], 1);
    cpu.exec_opcode(0xD011).unwrap();
    assert_eq!(cpu.vram[0][0], 1);
    assert_eq!(cpu.v[0xF], 0);
}

#[test]
fn draw_of_empty_sprite_row_never_collides() {
    let mut cpu = CPU::new();
    cpu.i = 0x300;
    cpu.vram[0][0] = 1;
    cpu.v[0xF] = 1;
    cpu.exec_opcode(0xD011).unwrap();
    assert_eq!(cpu.vram[0][0], 1);
    assert_eq!(cpu.v[0xF], 0);
    assert!(cpu.redraw);
}

#[test]
fn draw_with_no_rows_lowers_flag_and_requests_redraw() {
    let mut cpu = CPU::new();
    cpu.i = 0xFFFF;
    cpu.v[0xF] = 1;
    assert_eq!(cpu.exec_opcode(0xD010), Ok(()));
    assert_eq!(cpu.v[0xF], 0);
    assert!(cpu.redraw);
    assert!(cpu.vram.iter().all(|row| row.iter().all(|&p| p == 0)));
}

#[test]
fn draw_wraps_around_the_right_edge() {
    let mut cpu = CPU::new();
    cpu.ram[0x300] = 0xFF;
    cpu.i = 0x300;
    cpu.v[0x0] = 63;
    cpu.v[0x1] = 0;
    cpu.exec_opcode(0xD011).unwrap();
    assert_eq!(cpu.vram[0][63], 1);
    for column in 0..7 {
        assert_eq!(cpu.vram[0][column], 1);
    }
    for column in 7..63 {
        assert_eq!(cpu.vram[0][column], 0);
    }
    assert!(cpu.vram[1..].iter().all(|row| row.iter().all(|&p| p == 0)));
    assert_eq!(cpu.v[0xF], 0);
}

#[test]
fn draw_wraps_around_the_bottom_edge() {
    let mut cpu = CPU::new();
    cpu.ram[0x300] = 0x80;
    cpu.ram[0x301] = 0x80;
    cpu.i = 0x300;
    cpu.v[0x0] = 10;
    cpu.v[0x1] = 31;
    cpu.exec_opcode(0xD012).unwrap();
    assert_eq!(cpu.vram[31][10], 1);
    assert_eq!(cpu.vram[0][10], 1);
    assert_eq!(cpu.vram[1][10], 0);
}

#[test]
fn draw_reduces_coordinates_beyond_the_screen() {
    let mut cpu = CPU::new();
    cpu.ram[0x300] = 0x80;
    cpu.i = 0x300;
    cpu.v[0x0] = 64 + 3;
    cpu.v[0x1] = 32 + 2;
    cpu.exec_opcode(0xD011).unwrap();
    assert_eq!(cpu.vram[2][3], 1);
}

#[test]
fn draw_leaves_index_and_memory() {
    let mut cpu = CPU::new();
    cpu.ram[0x300] = 0x3C;
    cpu.i = 0x300;
    let ram = cpu.ram;
    cpu.exec_opcode(0xD011).unwrap();
    assert_eq!(cpu.i, 0x300);
    assert_eq!(cpu.ram, ram);
    assert_eq!(cpu.pc, 0x202);
}

#[test]
fn draw_at_the_end_of_memory() {
    let mut cpu = CPU::new();
    cpu.ram[0xFFF] = 0x80;
    cpu.i = 0xFFF;
    assert_eq!(cpu.exec_opcode(0xD011), Ok(()));
    assert_eq!(cpu.vram[0][0], 1);
    let before = cpu.vram;
    assert_eq!(cpu.exec_opcode(0xD012), Err(Fault::MemoryOutOfRange));
    assert_eq!(cpu.vram, before);
    assert_eq!(cpu.pc, 0x202);
}

#[test]
fn clear_requests_redraw() {
    let mut cpu = CPU::new();
    cpu.vram[31][63] = 1;
    cpu.vram[10][20] = 1;
    cpu.exec_opcode(0x00E0).unwrap();
    assert!(cpu.vram.iter().all(|row| row.iter().all(|&p| p == 0)));
    assert!(cpu.redraw);
}

#[test]
fn call_then_return_round_trip() {
    let mut cpu = CPU::new();
    cpu.pc = 0x246;
    cpu.sp = 3;
    cpu.exec_opcode(0x2ABC).unwrap();
    assert_eq!(cpu.pc, 0xABC);
    assert_eq!(cpu.sp, 4);
    assert_eq!(cpu.stack[3], 0x246);
    cpu.exec_opcode(0x00EE).unwrap();
    assert_eq!(cpu.pc, 0x248);
    assert_eq!(cpu.sp, 3);
}

#[test]
fn nested_calls_return_in_reverse_order() {
    let mut cpu = CPU::new();
    cpu.exec_opcode(0x2300).unwrap();
    cpu.exec_opcode(0x2400).unwrap();
    assert_eq!(cpu.sp, 2);
    cpu.exec_opcode(0x00EE).unwrap();
    assert_eq!(cpu.pc, 0x302);
    cpu.exec_opcode(0x00EE).unwrap();
    assert_eq!(cpu.pc, 0x202);
    assert_eq!(cpu.sp, 0);
}

#[test]
fn stack_overflow_is_reported() {
    let mut cpu = CPU::new();
    for depth in 0..16 {
        assert_eq!(cpu.sp, depth);
        assert_eq!(cpu.exec_opcode(0x2300), Ok(()));
    }
    assert_eq!(cpu.sp, 16);
    let stack = cpu.stack;
    assert_eq!(cpu.exec_opcode(0x2300), Err(Fault::StackOverflow));
    assert_eq!(cpu.sp, 16);
    assert_eq!(cpu.pc, 0x300);
    assert_eq!(cpu.stack, stack);
}

#[test]
fn stack_underflow_is_reported() {
    let mut cpu = CPU::new();
    assert_eq!(cpu.exec_opcode(0x00EE), Err(Fault::StackUnderflow));
    assert_eq!(cpu.sp, 0);
    assert_eq!(cpu.pc, 0x200);
}

#[test]
fn return_with_stack_pointer_beyond_stack_is_reported() {
    let mut cpu = CPU::new();
    cpu.sp = 17;
    assert_eq!(cpu.exec_opcode(0x00EE), Err(Fault::StackOverflow));
    assert_eq!(cpu.sp, 17);
}

#[test]
fn return_to_unrepresentable_address_is_reported() {
    let mut cpu = CPU::new();
    cpu.stack[0] = usize::MAX - 1;
    cpu.sp = 1;
    assert_eq!(cpu.exec_opcode(0x00EE), Err(Fault::AddressOverflow));
    assert_eq!(cpu.sp, 1);
}

#[test]
fn unknown_opcode_is_reported_and_leaves_machine() {
    for opcode in [0x0000u16, 0x00E1, 0x0123, 0x5121, 0x8008, 0x800F, 0x9001, 0xE09F, 0xE0A0, 0xF000, 0xF0FF, 0xF166] {
        let mut cpu = CPU::new();
        cpu.v[0x1] = 7;
        assert_eq!(cpu.exec_opcode(opcode), Err(Fault::UnknownOpcode(opcode)));
        assert_eq!(cpu.pc, 0x200);
        assert_eq!(cpu.v[0x1], 7);
        assert_eq!(decode(opcode), None);
    }
}

#[test]
fn unknown_opcode_recurs_on_every_tick() {
    let mut cpu = machine_with_program(&[0xFF, 0xFF]);
    cpu.delay_timer = 3;
    assert_eq!(cpu.tick(NO_KEYS), Err(Fault::UnknownOpcode(0xFFFF)));
    assert_eq!(cpu.pc, 0x200);
    assert_eq!(cpu.delay_timer, 2);
    assert_eq!(cpu.tick(NO_KEYS), Err(Fault::UnknownOpcode(0xFFFF)));
    assert_eq!(cpu.pc, 0x200);
    assert_eq!(cpu.delay_timer, 1);
}

#[test]
fn fetch_beyond_memory_is_reported() {
    let mut cpu = CPU::new();
    cpu.pc = 4095;
    cpu.sound_timer = 2;
    assert_eq!(cpu.tick(keys_down(&[1])), Err(Fault::MemoryOutOfRange));
    assert_eq!(cpu.pc, 4095);
    assert_eq!(cpu.sound_timer, 1);
    assert!(cpu.keypad[1]);
    cpu.pc = usize::MAX;
    assert_eq!(cpu.tick(NO_KEYS), Err(Fault::MemoryOutOfRange));
}

#[test]
fn fetch_of_last_instruction_in_memory() {
    let mut cpu = CPU::new();
    cpu.ram[4094] = 0x6A;
    cpu.ram[4095] = 0x33;
    cpu.pc = 4094;
    assert_eq!(cpu.get_opcode(), 0x6A33);
    assert_eq!(cpu.tick(NO_KEYS), Ok(()));
    assert_eq!(cpu.v[0xA], 0x33);
    assert_eq!(cpu.pc, 4096);
}

#[test]
fn key_skip_on_value_without_key_is_reported() {
    let mut cpu = CPU::new();
    cpu.v[0x3] = 16;
    assert_eq!(cpu.exec_opcode(0xE39E), Err(Fault::KeyOutOfRange));
    assert_eq!(cpu.exec_opcode(0xE3A1), Err(Fault::KeyOutOfRange));
    assert_eq!(cpu.pc, 0x200);
    cpu.v[0x3] = 15;
    cpu.keypad[15] = true;
    assert_eq!(cpu.exec_opcode(0xE39E), Ok(()));
    assert_eq!(cpu.pc, 0x204);
}

#[test]
fn bcd_beyond_memory_is_reported() {
    let mut cpu = CPU::new();
    cpu.v[0x0] = 123;
    cpu.i = 4094;
    let ram = cpu.ram;
    assert_eq!(cpu.exec_opcode(0xF033), Err(Fault::MemoryOutOfRange));
    assert_eq!(cpu.ram, ram);
    cpu.i = 4093;
    assert_eq!(cpu.exec_opcode(0xF033), Ok(()));
    assert_eq!(&cpu.ram[4093..], &[1, 2, 3]);
}

#[test]
fn block_store_and_load_beyond_memory_are_reported() {
    let mut cpu = CPU::new();
    cpu.i = 4094;
    assert_eq!(cpu.exec_opcode(0xF255), Err(Fault::MemoryOutOfRange));
    assert_eq!(cpu.exec_opcode(0xF265), Err(Fault::MemoryOutOfRange));
    assert_eq!(cpu.exec_opcode(0xF155), Ok(()));
    assert_eq!(cpu.exec_opcode(0xF165), Ok(()));
    assert_eq!(cpu.pc, 0x204);
}

#[test]
fn index_overflow_is_reported() {
    let mut cpu = CPU::new();
    cpu.i = usize::MAX;
    cpu.v[0x0] = 1;
    assert_eq!(cpu.exec_opcode(0xF01E), Err(Fault::AddressOverflow));
    assert_eq!(cpu.i, usize::MAX);
    cpu.v[0x0] = 0;
    assert_eq!(cpu.exec_opcode(0xF01E), Ok(()));
    assert_eq!(cpu.i, usize::MAX);
    assert_eq!(cpu.v[0xF], 1);
}

#[test]
fn program_counter_overflow_is_reported() {
    let mut cpu = CPU::new();
    cpu.pc = usize::MAX - 1;
    assert_eq!(cpu.exec_opcode(0x6A10), Err(Fault::AddressOverflow));
    assert_eq!(cpu.v[0xA], 0);
    assert_eq!(cpu.pc, usize::MAX - 1);
    assert_eq!(cpu.exec_opcode(0x1234), Ok(()));
    assert_eq!(cpu.pc, 0x234);
    cpu.pc = usize::MAX - 2;
    assert_eq!(cpu.exec_opcode(0x6A10), Ok(()));
    assert_eq!(cpu.pc, usize::MAX);
}

#[test]
fn skip_needs_room_only_where_it_is_taken() {
    let mut cpu = CPU::new();
    cpu.pc = usize::MAX - 3;
    cpu.v[0x1] = 5;
    assert_eq!(cpu.exec_opcode(0x3105), Err(Fault::AddressOverflow));
    assert_eq!(cpu.pc, usize::MAX - 3);
    assert_eq!(cpu.exec_opcode(0x3106), Ok(()));
    assert_eq!(cpu.pc, usize::MAX - 1);
    cpu.pc = usize::MAX - 4;
    assert_eq!(cpu.exec_opcode(0x3105), Ok(()));
    assert_eq!(cpu.pc, usize::MAX);
}

#[test]
fn wait_with_unknown_register_is_reported() {
    let mut cpu = CPU::new();
    cpu.waiting_keypad = true;
    cpu.waiting_keypad_register = 16;
    assert_eq!(cpu.tick(NO_KEYS), Ok(()));
    assert!(cpu.waiting_keypad);
    assert_eq!(cpu.tick(keys_down(&[4])), Err(Fault::RegisterOutOfRange));
    assert!(cpu.waiting_keypad);
    assert_eq!(cpu.v, [0u8; 16]);
}

#[test]
fn load_places_image_at_program_start() {
    let image: Vec<u8> = (1..=20).collect();
    let mut cpu = CPU::new();
    cpu.pc = 0x345;
    assert_eq!(cpu.load_game(&image), Ok(()));
    assert_eq!(&cpu.ram[0x200..0x214], &image[..]);
    assert_eq!(cpu.ram[0x1FF], 0);
    assert_eq!(cpu.ram[0x214], 0);
    assert_eq!(cpu.pc, 0x200);
    assert_eq!(cpu.ram[0x50], 0xF0);
}

#[test]
fn load_of_empty_image_resets_program_counter() {
    let mut cpu = CPU::new();
    cpu.ram[0x200] = 9;
    cpu.pc = 0x300;
    assert_eq!(cpu.load_game(&[]), Ok(()));
    assert_eq!(cpu.ram[0x200], 9);
    assert_eq!(cpu.pc, 0x200);
}

#[test]
fn load_of_largest_image_fills_memory() {
    let image = vec![0xAB; 4096 - 0x200];
    let mut cpu = CPU::new();
    assert_eq!(cpu.load_game(&image), Ok(()));
    assert!(cpu.ram[0x200..].iter().all(|&b| b == 0xAB));
    assert_eq!(cpu.ram[0x1FF], 0);
}

#[test]
fn load_of_oversized_image_is_cut_and_reported() {
    let mut image = vec![0xAB; 4096 - 0x200];
    image.push(0xCD);
    let mut cpu = CPU::new();
    cpu.pc = 0x300;
    assert_eq!(cpu.load_game(&image), Err(Fault::ProgramTooLarge));
    assert!(cpu.ram[0x200..].iter().all(|&b| b == 0xAB));
    assert_eq!(cpu.ram[0x1FF], 0);
    assert_eq!(cpu.ram[0x50], 0xF0);
    assert_eq!(cpu.pc, 0x200);
}

#[test]
fn wait_for_key_holds_then_resolves() {
    let mut cpu = machine_with_program(&[0xF3, 0x0A, 0x6A, 0x10]);
    cpu.delay_timer = 10;
    cpu.sound_timer = 20;
    cpu.v[0x3] = 0x77;
    assert_eq!(cpu.tick(NO_KEYS), Ok(()));
    assert!(cpu.waiting_keypad);
    assert_eq!(cpu.waiting_keypad_register, 3);
    assert_eq!(cpu.pc, 0x202);
    assert_eq!(cpu.delay_timer, 9);
    assert_eq!(cpu.sound_timer, 19);

    for _ in 0..3 {
        assert_eq!(cpu.tick(NO_KEYS), Ok(()));
        assert!(cpu.waiting_keypad);
        assert_eq!(cpu.v[0x3], 0x77);
        assert_eq!(cpu.pc, 0x202);
        assert_eq!(cpu.delay_timer, 9);
        assert_eq!(cpu.sound_timer, 19);
    }

    assert_eq!(cpu.tick(keys_down(&[0xB])), Ok(()));
    assert!(!cpu.waiting_keypad);
    assert_eq!(cpu.waiting_keypad_register, 0);
    assert_eq!(cpu.v[0x3], 0xB);
    assert_eq!(cpu.pc, 0x202);
    assert_eq!(cpu.delay_timer, 9);
    assert_eq!(cpu.sound_timer, 19);
    assert_eq!(cpu.v[0xA], 0);

    assert_eq!(cpu.tick(NO_KEYS), Ok(()));
    assert_eq!(cpu.v[0xA], 0x10);
    assert_eq!(cpu.pc, 0x204);
    assert_eq!(cpu.delay_timer, 8);
    assert_eq!(cpu.sound_timer, 18);
}

#[test]
fn wait_takes_the_lowest_key_down() {
    let mut cpu = CPU::new();
    cpu.waiting_keypad = true;
    cpu.waiting_keypad_register = 0xE;
    assert_eq!(cpu.tick(keys_down(&[9, 2, 15])), Ok(()));
    assert_eq!(cpu.v[0xE], 2);
    assert!(!cpu.waiting_keypad);
}

#[test]
fn wait_resolves_with_key_zero() {
    let mut cpu = CPU::new();
    cpu.waiting_keypad = true;
    cpu.waiting_keypad_register = 5;
    cpu.v[0x5] = 0xEE;
    assert_eq!(cpu.tick(keys_down(&[0])), Ok(()));
    assert_eq!(cpu.v[0x5], 0);
    assert!(!cpu.waiting_keypad);
}

#[test]
fn first_key_down_finds_lowest() {
    assert_eq!(first_key_down(&NO_KEYS), None);
    assert_eq!(first_key_down(&keys_down(&[15])), Some(15));
    assert_eq!(first_key_down(&keys_down(&[7, 3, 12])), Some(3));
    assert_eq!(first_key_down(&[true; 16]), Some(0));
}

#[test]
fn timers_stop_at_zero() {
    let mut cpu = machine_with_program(&[0x60, 0x01, 0x60, 0x02, 0x60, 0x03]);
    cpu.delay_timer = 1;
    cpu.sound_timer = 2;
    cpu.tick(NO_KEYS).unwrap();
    assert_eq!((cpu.delay_timer, cpu.sound_timer), (0, 1));
    cpu.tick(NO_KEYS).unwrap();
    assert_eq!((cpu.delay_timer, cpu.sound_timer), (0, 0));
    cpu.tick(NO_KEYS).unwrap();
    assert_eq!((cpu.delay_timer, cpu.sound_timer), (0, 0));
    assert_eq!(cpu.v[0x0], 3);
}

#[test]
fn timer_set_in_a_tick_is_not_counted_down_in_it() {
    let mut cpu = machine_with_program(&[0xF1, 0x15, 0xF2, 0x07]);
    cpu.v[0x1] = 9;
    cpu.delay_timer = 4;
    cpu.tick(NO_KEYS).unwrap();
    assert_eq!(cpu.delay_timer, 9);
    cpu.tick(NO_KEYS).unwrap();
    assert_eq!(cpu.delay_timer, 8);
    assert_eq!(cpu.v[0x2], 8);
}

#[test]
fn tick_replaces_keypad_and_lowers_redraw() {
    let mut cpu = machine_with_program(&[0x00, 0xE0, 0x60, 0x01]);
    cpu.tick(keys_down(&[1, 2])).unwrap();
    assert!(cpu.redraw);
    assert_eq!(cpu.keypad, keys_down(&[1, 2]));
    cpu.tick(keys_down(&[7])).unwrap();
    assert!(!cpu.redraw);
    assert_eq!(cpu.keypad, keys_down(&[7]));
}

#[test]
fn key_skip_reads_the_snapshot_of_the_tick() {
    let mut cpu = machine_with_program(&[0xE0, 0x9E, 0x00, 0x00, 0xE0, 0xA1]);
    cpu.v[0x0] = 0xC;
    cpu.tick(keys_down(&[0xC])).unwrap();
    assert_eq!(cpu.pc, 0x204);
    cpu.tick(NO_KEYS).unwrap();
    assert_eq!(cpu.pc, 0x208);
}

#[test]
fn opcode_is_high_byte_first() {
    let mut cpu = CPU::new();
    cpu.ram[0x200] = 0x12;
    cpu.ram[0x201] = 0xAB;
    assert_eq!(cpu.get_opcode(), 0x12AB);
}

#[test]
fn random_is_masked() {
    for _ in 0..200 {
        let mut cpu = CPU::new();
        cpu.v[0x4] = 0xFF;
        cpu.v[0xF] = 0x5A;
        assert_eq!(cpu.exec_opcode(0xC40F), Ok(()));
        assert!(cpu.v[0x4] <= 0x0F);
        assert_eq!(cpu.v[0xF], 0x5A);
        assert_eq!(cpu.pc, 0x202);
        cpu.v[0x4] = 0xFF;
        cpu.exec_opcode(0xC400).unwrap();
        assert_eq!(cpu.v[0x4], 0);
        cpu.exec_opcode(0xC4A0).unwrap();
        assert_eq!(cpu.v[0x4] & !0xA0, 0);
    }
}

#[test]
fn random_with_given_byte() {
    let mut cpu = CPU::new();
    assert_eq!(cpu.op_cxkk_with(0x2, 0x3C, 0xA5), ProgramCounter::Next);
    assert_eq!(cpu.v[0x2], 0x24);
    assert_eq!(cpu.op_cxkk_with(0x2, 0xFF, 0xA5), ProgramCounter::Next);
    assert_eq!(cpu.v[0x2], 0xA5);
    assert_eq!(cpu.op_cxkk(0x2, 0x00), ProgramCounter::Next);
    assert_eq!(cpu.v[0x2], 0x00);
}

#[test]
fn add_index_sets_flag_above_0xf00() {
    let mut cpu = CPU::new();
    cpu.i = 0x0EFF;
    cpu.v[0x0] = 1;
    cpu.v[0xF] = 1;
    cpu.exec_opcode(0xF01E).unwrap();
    assert_eq!(cpu.i, 0x0F00);
    assert_eq!(cpu.v[0xF], 0);
    cpu.exec_opcode(0xF01E).unwrap();
    assert_eq!(cpu.i, 0x0F01);
    assert_eq!(cpu.v[0xF], 1);
}

#[test]
fn glyph_address_is_table_base_plus_five_times_digit() {
    let mut cpu = CPU::new();
    cpu.v[0x0] = 0x2;
    cpu.exec_opcode(0xF029).unwrap();
    assert_eq!(cpu.i, 0x5A);
    assert_eq!(&cpu.ram[cpu.i..cpu.i + 5], &[0xF0, 0x10, 0xF0, 0x80, 0xF0]);
    cpu.v[0x6] = 0x0;
    cpu.exec_opcode(0xF629).unwrap();
    assert_eq!(cpu.i, 0x50);
    assert_eq!(&cpu.ram[cpu.i..cpu.i + 5], &[0xF0, 0x90, 0x90, 0x90, 0xF0]);
    cpu.v[0x6] = 0xF;
    cpu.exec_opcode(0xF629).unwrap();
    assert_eq!(cpu.i, 0x50 + 75);
    assert_eq!(&cpu.ram[cpu.i..cpu.i + 5], &[0xF0, 0x80, 0xF0, 0x80, 0x80]);
    cpu.v[0x6] = 0xFF;
    cpu.exec_opcode(0xF629).unwrap();
    assert_eq!(cpu.i, 0x50 + 1275);
}

#[test]
fn glyph_is_drawn_from_the_table() {
    let mut cpu = machine_with_program(&[0x60, 0x07, 0xF0, 0x29, 0xD1, 0x25]);
    for _ in 0..3 {
        assert_eq!(cpu.tick(NO_KEYS), Ok(()));
    }
    let seven = [0xF0u8, 0x10, 0x20, 0x40, 0x40];
    for (row, byte) in seven.iter().enumerate() {
        for bit in 0..8 {
            assert_eq!(cpu.vram[row][bit], (byte >> (7 - bit)) & 1);
        }
    }
    assert_eq!(cpu.v[0xF], 0);
}

#[test]
fn bcd_digits() {
    let mut cpu = CPU::new();
    cpu.i = 0x400;
    for (value, digits) in [(0u8, [0u8, 0, 0]), (7, [0, 0, 7]), (42, [0, 4, 2]), (109, [1, 0, 9]), (255, [2, 5, 5])] {
        cpu.v[0x9] = value;
        cpu.exec_opcode(0xF933).unwrap();
        assert_eq!(&cpu.ram[0x400..0x403], &digits);
    }
    assert_eq!(cpu.i, 0x400);
    assert_eq!(cpu.ram[0x403], 0);
}

#[test]
fn block_store_is_inclusive_of_x() {
    let mut cpu = CPU::new();
    cpu.i = 0x300;
    for k in 0..16 {
        cpu.v[k] = 0x10 + k as u8;
    }
    cpu.exec_opcode(0xF355).unwrap();
    assert_eq!(&cpu.ram[0x300..0x305], &[0x10, 0x11, 0x12, 0x13, 0]);
    assert_eq!(cpu.i, 0x300);
    cpu.exec_opcode(0xFF55).unwrap();
    assert_eq!(cpu.ram[0x30F], 0x1F);
    assert_eq!(cpu.ram[0x310], 0);
}

#[test]
fn block_load_is_inclusive_of_x() {
    let mut cpu = CPU::new();
    cpu.i = 0x300;
    for k in 0..16 {
        cpu.ram[0x300 + k] = 0x20 + k as u8;
        cpu.v[k] = 0xEE;
    }
    cpu.exec_opcode(0xF065).unwrap();
    assert_eq!(cpu.v[0x0], 0x20);
    assert_eq!(cpu.v[0x1], 0xEE);
    cpu.exec_opcode(0xFF65).unwrap();
    assert_eq!(cpu.v[0xF], 0x2F);
    assert_eq!(cpu.i, 0x300);
}

#[test]
fn jump_with_offset_adds_register_zero() {
    let mut cpu = CPU::new();
    cpu.v[0x0] = 0xFF;
    cpu.exec_opcode(0xBFFF).unwrap();
    assert_eq!(cpu.pc, 0x10FE);
}

#[test]
fn handlers_report_their_effect() {
    let mut cpu = CPU::new();
    cpu.v[0x1] = 4;
    assert_eq!(cpu.op_3xkk(1, 4), ProgramCounter::Skip);
    assert_eq!(cpu.op_3xkk(1, 5), ProgramCounter::Next);
    assert_eq!(cpu.op_4xkk(1, 4), ProgramCounter::Next);
    assert_eq!(cpu.op_1nnn(0x987), ProgramCounter::Jump(0x987));
    assert_eq!(cpu.op_bnnn(0x100), ProgramCounter::Jump(0x100));
    assert_eq!(cpu.op_2nnn(0x555), ProgramCounter::Jump(0x555));
    assert_eq!(cpu.op_00ee(), ProgramCounter::Jump(0x202));
    assert_eq!(cpu.op_00e0(), ProgramCounter::Next);
    assert_eq!(cpu.pc, 0x200);
}

#[test]
fn fault_of_names_the_fault_before_execution() {
    let mut cpu = CPU::new();
    assert_eq!(cpu.fault_of(Instruction::Return), Some(Fault::StackUnderflow));
    assert_eq!(cpu.fault_of(Instruction::Call { nnn: 0x300 }), None);
    assert_eq!(cpu.fault_of(Instruction::Bcd { x: 0 }), None);
    cpu.i = 0xFFE;
    assert_eq!(cpu.fault_of(Instruction::Bcd { x: 0 }), Some(Fault::MemoryOutOfRange));
    assert_eq!(cpu.step(Instruction::Bcd { x: 0 }), Err(Fault::MemoryOutOfRange));
    assert_eq!(cpu.step(Instruction::LoadIndex { nnn: 0x123 }), Ok(()));
    assert_eq!(cpu.i, 0x123);
    assert_eq!(cpu.pc, 0x202);
}

#[test]
fn decode_reads_every_row_of_the_table() {
    let table = [
        (0x00E0u16, Instruction::Clear),
        (0x00EE, Instruction::Return),
        (0x1ABC, Instruction::Jump { nnn: 0xABC }),
        (0x2ABC, Instruction::Call { nnn: 0xABC }),
        (0x3A12, Instruction::SkipEqByte { x: 0xA, kk: 0x12 }),
        (0x4A12, Instruction::SkipNeByte { x: 0xA, kk: 0x12 }),
        (0x5AB0, Instruction::SkipEq { x: 0xA, y: 0xB }),
        (0x6A12, Instruction::LoadByte { x: 0xA, kk: 0x12 }),
        (0x7A12, Instruction::AddByte { x: 0xA, kk: 0x12 }),
        (0x8AB0, Instruction::Move { x: 0xA, y: 0xB }),
        (0x8AB1, Instruction::Or { x: 0xA, y: 0xB }),
        (0x8AB2, Instruction::And { x: 0xA, y: 0xB }),
        (0x8AB3, Instruction::Xor { x: 0xA, y: 0xB }),
        (0x8AB4, Instruction::Add { x: 0xA, y: 0xB }),
        (0x8AB5, Instruction::Sub { x: 0xA, y: 0xB }),
        (0x8AB6, Instruction::ShiftRight { x: 0xA }),
        (0x8AB7, Instruction::SubFrom { x: 0xA, y: 0xB }),
        (0x8ABE, Instruction::ShiftLeft { x: 0xA }),
        (0x9AB0, Instruction::SkipNe { x: 0xA, y: 0xB }),
        (0xAABC, Instruction::LoadIndex { nnn: 0xABC }),
        (0xBABC, Instruction::JumpOffset { nnn: 0xABC }),
        (0xCA12, Instruction::Random { x: 0xA, kk: 0x12 }),
        (0xDAB7, Instruction::Draw { x: 0xA, y: 0xB, n: 7 }),
        (0xEA9E, Instruction::SkipKey { x: 0xA }),
        (0xEAA1, Instruction::SkipNotKey { x: 0xA }),
        (0xFA07, Instruction::ReadDelay { x: 0xA }),
        (0xFA0A, Instruction::WaitKey { x: 0xA }),
        (0xFA15, Instruction::SetDelay { x: 0xA }),
        (0xFA18, Instruction::SetSound { x: 0xA }),
        (0xFA1E, Instruction::AddIndex { x: 0xA }),
        (0xFA29, Instruction::Glyph { x: 0xA }),
        (0xFA33, Instruction::Bcd { x: 0xA }),
        (0xFA55, Instruction::Store { x: 0xA }),
        (0xFA65, Instruction::Load { x: 0xA }),
    ];
    for (opcode, instruction) in table {
        assert_eq!(decode(opcode), Some(instruction));
    }
}

#[test]
fn decode_accepts_the_table_and_nothing_else() {
    let known = (0..=u16::MAX).filter(|&opcode| decode(opcode).is_some()).count();
    let expected = 2 + 10 * 0x1000 + 11 * 0x100 + 11 * 0x10;
    assert_eq!(known, expected);
}

#[test]
fn hello_world_runs() {
    let mut cpu = machine_with_program(&[
        0x62, 0x78, 0xA5, 0x00, 0x63, 0x01, 0x64, 0x01, 0xF1, 0x0A, 0x00, 0xE0, 0xF2, 0x18, 0xF1,
        0x29, 0xD3, 0x45, 0x12, 0x00,
    ]);
    for _ in 0..5 {
        assert_eq!(cpu.tick(NO_KEYS), Ok(()));
    }
    assert_eq!(cpu.v[0x2], 0x78);
    assert_eq!(cpu.i, 0x500);
    assert!(cpu.waiting_keypad);
    assert_eq!(cpu.tick(keys_down(&[3])), Ok(()));
    assert_eq!(cpu.v[0x1], 3);
    assert_eq!(cpu.tick(NO_KEYS), Ok(()));
    assert!(cpu.redraw);
    assert_eq!(cpu.tick(NO_KEYS), Ok(()));
    assert_eq!(cpu.sound_timer, 0x78);
    assert_eq!(cpu.tick(NO_KEYS), Ok(()));
    assert_eq!(cpu.i, 0x5F);
    assert_eq!(cpu.tick(NO_KEYS), Ok(()));
    assert!(cpu.redraw);
    assert_eq!(cpu.tick(NO_KEYS), Ok(()));
    assert_eq!(cpu.pc, 0x200);
    assert_eq!(cpu.sound_timer, 0x75);
}

#[test]
fn read_and_write_memory() {
    let mut cpu = CPU::new();
    assert_eq!(cpu.read(0x50), 0xF0);
    assert_eq!(cpu.read(0), 0);
    cpu.write(0xFFF, 0x5A);
    cpu.write(0, 0xA5);
    assert_eq!(cpu.read(0xFFF), 0x5A);
    assert_eq!(cpu.ram[0], 0xA5);
    assert_eq!(cpu.read(0x50), 0xF0);
}

#[test]
fn draw_with_column_from_flag_register_reads_it_before_lowering_it() {
    let mut cpu = CPU::new();
    cpu.ram[0x300] = 0b1100_0000;
    cpu.i = 0x300;
    cpu.v[0xF] = 9;
    cpu.vram[0][0] = 1;
    cpu.exec_opcode(0xDF01).unwrap();
    assert_eq!(&cpu.vram[0][..4], &[1, 0, 0, 0]);
    assert_eq!(&cpu.vram[0][8..12], &[0, 1, 1, 0]);
    assert_eq!(cpu.v[0xF], 0);
}

#[test]
fn draw_with_row_from_flag_register_reads_it_before_lowering_it() {
    let mut cpu = CPU::new();
    cpu.ram[0x300] = 0b1000_0000;
    cpu.ram[0x301] = 0b1000_0000;
    cpu.ram[0x302] = 0b1000_0000;
    cpu.i = 0x300;
    cpu.v[0xF] = 9;
    cpu.vram[10][0] = 1;
    cpu.exec_opcode(0xD0F3).unwrap();
    assert_eq!(cpu.vram[8][0], 0);
    assert_eq!(cpu.vram[9][0], 1);
    assert_eq!(cpu.vram[10][0], 0);
    assert_eq!(cpu.vram[11][0], 1);
    assert_eq!(cpu.vram[12][0], 0);
    assert_eq!(cpu.v[0xF], 1);
}

#[test]
fn tone_is_on_while_sound_timer_runs() {
    let mut cpu = machine_with_program(&[0x60, 0x01, 0x60, 0x02, 0x60, 0x03]);
    assert!(!cpu.tone_on());
    cpu.sound_timer = 2;
    assert!(cpu.tone_on());
    cpu.tick(NO_KEYS).unwrap();
    assert!(cpu.tone_on());
    cpu.tick(NO_KEYS).unwrap();
    assert!(!cpu.tone_on());
    cpu.tick(NO_KEYS).unwrap();
    assert!(!cpu.tone_on());
}
