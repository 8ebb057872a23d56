use chip8::executor::Outcome;
use chip8::loader::load_program;
use chip8::machine::{Fault, Machine, EXTENDED_STACK_DEPTH, STANDARD_STACK_DEPTH};
use chip8::opcode::Opcode;

fn fresh() -> Machine {
    Machine::new(STANDARD_STACK_DEPTH, 0)
}

fn with_registers(values: &[(u8, u8)]) -> Machine {
    let mut m = fresh();
    for &(x, v) in values {
        m.set_register(x, v);
    }
    m
}

fn lit_pixels(m: &Machine) -> Vec<(usize, usize)> {
    let mut out = Vec::new();
    for row in 0..32 {
        for col in 0..64 {
            if m.framebuffer().pixel(col, row) == Some(true) {
                out.push((col, row));
            }
        }
    }
    out
}

#[test]
fn load_immediate_sets_register_and_advances() {
    let mut m = fresh();
    assert_eq!(m.execute(Opcode::LoadImm { x: 3, byte: 0x7F }, 0), Ok(Outcome::Completed));
    assert_eq!(m.register(3), 0x7F);
    assert_eq!(m.pc(), 0x202);
}

#[test]
fn add_immediate_wraps_without_flag() {
    let mut m = with_registers(&[(2, 0xFE), (15, 0x55)]);
    m.execute(Opcode::AddImm { x: 2, byte: 0x05 }, 0).unwrap();
    assert_eq!(m.register(2), 0x03);
    assert_eq!(m.register(15), 0x55);
}

#[test]
fn move_copies_register() {
    let mut m = with_registers(&[(1, 9), (2, 42)]);
    m.execute(Opcode::Move { x: 1, y: 2 }, 0).unwrap();
    assert_eq!(m.register(1), 42);
    assert_eq!(m.register(2), 42);
}

#[test]
fn bitwise_operations() {
    let mut m = with_registers(&[(1, 0b1100), (2, 0b1010), (15, 7)]);
    m.execute(Opcode::Or { x: 1, y: 2 }, 0).unwrap();
    assert_eq!(m.register(1), 0b1110);
    m.set_register(1, 0b1100);
    m.execute(Opcode::And { x: 1, y: 2 }, 0).unwrap();
    assert_eq!(m.register(1), 0b1000);
    m.set_register(1, 0b1100);
    m.execute(Opcode::Xor { x: 1, y: 2 }, 0).unwrap();
    assert_eq!(m.register(1), 0b0110);
    assert_eq!(m.register(15), 7);
    assert_eq!(m.pc(), 0x206);
}

#[test]
fn add_with_overflow_wraps_and_sets_flag() {
    let mut m = with_registers(&[(1, 0xFF), (2, 0x01)]);
    m.execute(Opcode::Add { x: 1, y: 2 }, 0).unwrap();
    assert_eq!(m.register(1), 0x00);
    assert_eq!(m.register(15), 1);
}

#[test]
fn add_without_overflow_clears_flag() {
    let mut m = with_registers(&[(1, 0x10), (2, 0x20), (15, 1)]);
    m.execute(Opcode::Add { x: 1, y: 2 }, 0).unwrap();
    assert_eq!(m.register(1), 0x30);
    assert_eq!(m.register(15), 0);
    let mut m = with_registers(&[(1, 0xFF), (2, 0x00)]);
    m.execute(Opcode::Add { x: 1, y: 2 }, 0).unwrap();
    assert_eq!((m.register(1), m.register(15)), (0xFF, 0));
}

#[test]
fn subtract_with_borrow_wraps_and_clears_flag() {
    let mut m = with_registers(&[(1, 0x01), (2, 0x02), (15, 1)]);
    m.execute(Opcode::Sub { x: 1, y: 2 }, 0).unwrap();
    assert_eq!(m.register(1), 0xFF);
    assert_eq!(m.register(15), 0);
}

#[test]
fn subtract_without_borrow_sets_flag() {
    let mut m = with_registers(&[(1, 0x05), (2, 0x03)]);
    m.execute(Opcode::Sub { x: 1, y: 2 }, 0).unwrap();
    assert_eq!((m.register(1), m.register(15)), (0x02, 1));
    let mut m = with_registers(&[(1, 0x05), (2, 0x05)]);
    m.execute(Opcode::Sub { x: 1, y: 2 }, 0).unwrap();
    assert_eq!((m.register(1), m.register(15)), (0x00, 1));
}

#[test]
fn reverse_subtract() {
    let mut m = with_registers(&[(1, 0x03), (2, 0x05)]);
    m.execute(Opcode::SubReverse { x: 1, y: 2 }, 0).unwrap();
    assert_eq!((m.register(1), m.register(2), m.register(15)), (0x02, 0x05, 1));
    let mut m = with_registers(&[(1, 0x05), (2, 0x03)]);
    m.execute(Opcode::SubReverse { x: 1, y: 2 }, 0).unwrap();
    assert_eq!((m.register(1), m.register(15)), (0xFE, 0));
}

#[test]
fn shift_right_takes_source_from_vy() {
    let mut m = with_registers(&[(1, 0xFF), (2, 0b0000_0101)]);
    m.execute(Opcode::ShiftRight { x: 1, y: 2 }, 0).unwrap();
    assert_eq!((m.register(1), m.register(2), m.register(15)), (0b0000_0010, 0b0000_0101, 1));
    let mut m = with_registers(&[(2, 0b0000_0100), (15, 1)]);
    m.execute(Opcode::ShiftRight { x: 1, y: 2 }, 0).unwrap();
    assert_eq!((m.register(1), m.register(15)), (0b0000_0010, 0));
}

#[test]
fn shift_left_keeps_low_byte_and_flags_bit_seven() {
    let mut m = with_registers(&[(2, 0b1100_0001)]);
    m.execute(Opcode::ShiftLeft { x: 1, y: 2 }, 0).unwrap();
    assert_eq!((m.register(1), m.register(15)), (0b1000_0010, 1));
    let mut m = with_registers(&[(2, 0b0100_0001), (15, 1)]);
    m.execute(Opcode::ShiftLeft { x: 1, y: 2 }, 0).unwrap();
    assert_eq!((m.register(1), m.register(15)), (0b1000_0010, 0));
}

#[test]
fn flag_wins_when_the_target_is_the_flag_register() {
    let mut m = with_registers(&[(15, 0xFF), (2, 0x01)]);
    m.execute(Opcode::Add { x: 15, y: 2 }, 0).unwrap();
    assert_eq!(m.register(15), 1);
    let mut m = with_registers(&[(15, 0x10), (2, 0x01)]);
    m.execute(Opcode::Sub { x: 15, y: 2 }, 0).unwrap();
    assert_eq!(m.register(15), 1);
    let mut m = with_registers(&[(2, 0x06)]);
    m.execute(Opcode::ShiftRight { x: 15, y: 2 }, 0).unwrap();
    assert_eq!(m.register(15), 0);
}

#[test]
fn skips_on_immediate() {
    let mut m = with_registers(&[(4, 0x33)]);
    m.execute(Opcode::SkipEqImm { x: 4, byte: 0x33 }, 0).unwrap();
    assert_eq!(m.pc(), 0x204);
    m.execute(Opcode::SkipEqImm { x: 4, byte: 0x34 }, 0).unwrap();
    assert_eq!(m.pc(), 0x206);
    m.execute(Opcode::SkipNeImm { x: 4, byte: 0x34 }, 0).unwrap();
    assert_eq!(m.pc(), 0x20A);
    m.execute(Opcode::SkipNeImm { x: 4, byte: 0x33 }, 0).unwrap();
    assert_eq!(m.pc(), 0x20C);
}

#[test]
fn skips_on_registers() {
    let mut m = with_registers(&[(1, 8), (2, 8), (3, 9)]);
    m.execute(Opcode::SkipEqReg { x: 1, y: 2 }, 0).unwrap();
    assert_eq!(m.pc(), 0x204);
    m.execute(Opcode::SkipEqReg { x: 1, y: 3 }, 0).unwrap();
    assert_eq!(m.pc(), 0x206);
    m.execute(Opcode::SkipNeReg { x: 1, y: 3 }, 0).unwrap();
    assert_eq!(m.pc(), 0x20A);
    m.execute(Opcode::SkipNeReg { x: 1, y: 2 }, 0).unwrap();
    assert_eq!(m.pc(), 0x20C);
}

#[test]
fn jump_sets_program_counter() {
    let mut m = fresh();
    m.execute(Opcode::Jump { addr: 0xABC }, 0).unwrap();
    assert_eq!(m.pc(), 0xABC);
}

#[test]
fn jump_with_offset_adds_v0() {
    let mut m = with_registers(&[(0, 0x10)]);
    m.execute(Opcode::JumpOffset { addr: 0x300 }, 0).unwrap();
    assert_eq!(m.pc(), 0x310);
}

#[test]
fn jump_with_offset_past_memory_faults_at_next_fetch() {
    let mut m = with_registers(&[(0, 0xFF)]);
    m.execute(Opcode::JumpOffset { addr: 0xFFF }, 0).unwrap();
    assert_eq!(m.pc(), 0x10FE);
    assert_eq!(m.step_with(0), Err(Fault::MemoryFault { address: 0x10FE }));
    assert_eq!(m.pc(), 0x10FE);
}

#[test]
fn call_then_return_resumes_after_the_call() {
    let mut m = fresh();
    m.execute(Opcode::Call { addr: 0x400 }, 0).unwrap();
    assert_eq!(m.pc(), 0x400);
    assert_eq!(m.stack_depth(), 1);
    m.execute(Opcode::Return, 0).unwrap();
    assert_eq!(m.pc(), 0x202);
    assert_eq!(m.stack_depth(), 0);
}

#[test]
fn nested_calls_return_in_reverse_order() {
    let mut m = fresh();
    m.execute(Opcode::Call { addr: 0x300 }, 0).unwrap();
    m.execute(Opcode::Call { addr: 0x400 }, 0).unwrap();
    assert_eq!(m.stack_depth(), 2);
    m.execute(Opcode::Return, 0).unwrap();
    assert_eq!(m.pc(), 0x302);
    m.execute(Opcode::Return, 0).unwrap();
    assert_eq!(m.pc(), 0x202);
}

#[test]
fn return_on_empty_stack_is_underflow() {
    let mut m = fresh();
    assert_eq!(m.execute(Opcode::Return, 0), Err(Fault::StackUnderflow { address: 0x200 }));
    assert_eq!(m.pc(), 0x200);
    assert_eq!(m.stack_depth(), 0);
}

#[test]
fn call_past_the_limit_is_overflow() {
    let mut m = fresh();
    for depth in 0..STANDARD_STACK_DEPTH {
        assert_eq!(m.stack_depth(), depth);
        assert_eq!(m.execute(Opcode::Call { addr: 0x200 }, 0), Ok(Outcome::Completed));
    }
    assert_eq!(m.stack_depth(), 16);
    assert_eq!(
        m.execute(Opcode::Call { addr: 0x300 }, 0),
        Err(Fault::StackOverflow { address: 0x200 })
    );
    assert_eq!(m.stack_depth(), 16);
    assert_eq!(m.pc(), 0x200);
}

#[test]
fn stack_limit_is_configurable() {
    let mut m = Machine::new(EXTENDED_STACK_DEPTH, 0);
    assert_eq!(m.stack_limit(), 255);
    for _ in 0..255 {
        m.execute(Opcode::Call { addr: 0x200 }, 0).unwrap();
    }
    assert_eq!(
        m.execute(Opcode::Call { addr: 0x200 }, 0),
        Err(Fault::StackOverflow { address: 0x200 })
    );
    let mut none = Machine::new(0, 0);
    assert_eq!(
        none.execute(Opcode::Call { addr: 0x200 }, 0),
        Err(Fault::StackOverflow { address: 0x200 })
    );
}

#[test]
fn load_index_and_add_to_index() {
    let mut m = with_registers(&[(3, 0x20)]);
    m.execute(Opcode::LoadIndex { addr: 0xFFF }, 0).unwrap();
    assert_eq!(m.index(), 0xFFF);
    m.execute(Opcode::AddIndex { x: 3 }, 0).unwrap();
    assert_eq!(m.index(), 0x101F);
    assert_eq!(m.register(15), 0);
}

#[test]
fn add_to_index_is_sixteen_bit() {
    let mut m = with_registers(&[(3, 0x02)]);
    m.set_index(0xFFFF);
    m.execute(Opcode::AddIndex { x: 3 }, 0).unwrap();
    assert_eq!(m.index(), 0x0001);
}

#[test]
fn font_address_uses_low_nibble() {
    let mut m = with_registers(&[(1, 0x0A), (2, 0xF3)]);
    m.execute(Opcode::FontAddress { x: 1 }, 0).unwrap();
    assert_eq!(m.index(), 50);
    m.execute(Opcode::FontAddress { x: 2 }, 0).unwrap();
    assert_eq!(m.index(), 15);
}

#[test]
fn random_is_masked() {
    let mut m = fresh();
    m.execute(Opcode::Random { x: 1, mask: 0x0F }, 0xAB).unwrap();
    assert_eq!(m.register(1), 0x0B);
    m.execute(Opcode::Random { x: 1, mask: 0xF0 }, 0xAB).unwrap();
    assert_eq!(m.register(1), 0xA0);
    m.execute(Opcode::Random { x: 1, mask: 0x00 }, 0xFF).unwrap();
    assert_eq!(m.register(1), 0x00);
    assert_eq!(m.pc(), 0x206);
}

#[test]
fn timers_are_read_and_written() {
    let mut m = with_registers(&[(1, 0x3C), (2, 0x05)]);
    m.execute(Opcode::SetDelay { x: 1 }, 0).unwrap();
    m.execute(Opcode::SetSound { x: 2 }, 0).unwrap();
    assert_eq!((m.delay_timer(), m.sound_timer()), (0x3C, 0x05));
    assert!(m.tone_active());
    m.execute(Opcode::ReadDelay { x: 7 }, 0).unwrap();
    assert_eq!(m.register(7), 0x3C);
}

#[test]
fn bcd_stores_three_digits() {
    let mut m = with_registers(&[(1, 254), (2, 7), (3, 0)]);
    m.set_index(0x300);
    m.execute(Opcode::Bcd { x: 1 }, 0).unwrap();
    assert_eq!((m.read(0x300), m.read(0x301), m.read(0x302)), (Ok(2), Ok(5), Ok(4)));
    m.execute(Opcode::Bcd { x: 2 }, 0).unwrap();
    assert_eq!((m.read(0x300), m.read(0x301), m.read(0x302)), (Ok(0), Ok(0), Ok(7)));
    m.set_register(3, 100);
    m.execute(Opcode::Bcd { x: 3 }, 0).unwrap();
    assert_eq!((m.read(0x300), m.read(0x301), m.read(0x302)), (Ok(1), Ok(0), Ok(0)));
    assert_eq!(m.index(), 0x300);
}

#[test]
fn bcd_at_the_end_of_memory() {
    let mut m = with_registers(&[(1, 123)]);
    m.set_index(0xFFD);
    assert_eq!(m.execute(Opcode::Bcd { x: 1 }, 0), Ok(Outcome::Completed));
    assert_eq!(m.read(0xFFF), Ok(3));
    m.set_index(0xFFE);
    assert_eq!(m.execute(Opcode::Bcd { x: 1 }, 0), Err(Fault::MemoryFault { address: 0x1000 }));
    assert_eq!(m.read(0xFFE), Ok(2));
    assert_eq!(m.pc(), 0x202);
    m.set_index(0x2000);
    assert_eq!(m.execute(Opcode::Bcd { x: 1 }, 0), Err(Fault::MemoryFault { address: 0x2000 }));
}

#[test]
fn store_registers_is_inclusive() {
    let mut m = with_registers(&[(0, 10), (1, 11), (2, 12), (3, 13)]);
    m.set_index(0x400);
    m.write(0x403, 0xEE).unwrap();
    m.execute(Opcode::StoreRegisters { x: 2 }, 0).unwrap();
    assert_eq!(m.read(0x400), Ok(10));
    assert_eq!(m.read(0x401), Ok(11));
    assert_eq!(m.read(0x402), Ok(12));
    assert_eq!(m.read(0x403), Ok(0xEE));
    assert_eq!(m.index(), 0x400);
}

#[test]
fn load_registers_is_inclusive() {
    let mut m = with_registers(&[(3, 0x77)]);
    m.set_index(0x500);
    for (i, v) in [21u8, 22, 23, 24].iter().enumerate() {
        m.write(0x500 + i as u16, *v).unwrap();
    }
    m.execute(Opcode::LoadRegisters { x: 2 }, 0).unwrap();
    assert_eq!((m.register(0), m.register(1), m.register(2), m.register(3)), (21, 22, 23, 0x77));
    assert_eq!(m.index(), 0x500);
}

#[test]
fn store_and_load_all_sixteen_registers() {
    let mut m = fresh();
    for x in 0..16u8 {
        m.set_register(x, 0xA0 + x);
    }
    m.set_index(0xFF0);
    assert_eq!(m.execute(Opcode::StoreRegisters { x: 15 }, 0), Ok(Outcome::Completed));
    for x in 0..16u8 {
        m.set_register(x, 0);
    }
    assert_eq!(m.execute(Opcode::LoadRegisters { x: 15 }, 0), Ok(Outcome::Completed));
    for x in 0..16u8 {
        assert_eq!(m.register(x), 0xA0 + x);
    }
}

#[test]
fn register_block_past_memory_faults_without_writing() {
    let mut m = with_registers(&[(0, 1), (1, 2)]);
    m.set_index(0xFFF);
    assert_eq!(
        m.execute(Opcode::StoreRegisters { x: 1 }, 0),
        Err(Fault::MemoryFault { address: 0x1000 })
    );
    assert_eq!(m.read(0xFFF), Ok(0));
    assert_eq!(
        m.execute(Opcode::LoadRegisters { x: 1 }, 0),
        Err(Fault::MemoryFault { address: 0x1000 })
    );
    assert_eq!((m.register(0), m.register(1)), (1, 2));
    assert_eq!(m.execute(Opcode::StoreRegisters { x: 0 }, 0), Ok(Outcome::Completed));
    assert_eq!(m.read(0xFFF), Ok(1));
}

#[test]
fn key_skips() {
    let mut m = with_registers(&[(1, 0x0A)]);
    m.execute(Opcode::SkipKeyPressed { x: 1 }, 0).unwrap();
    assert_eq!(m.pc(), 0x202);
    m.execute(Opcode::SkipKeyReleased { x: 1 }, 0).unwrap();
    assert_eq!(m.pc(), 0x206);
    m.set_key(0x0A, true);
    m.execute(Opcode::SkipKeyPressed { x: 1 }, 0).unwrap();
    assert_eq!(m.pc(), 0x20A);
    m.execute(Opcode::SkipKeyReleased { x: 1 }, 0).unwrap();
    assert_eq!(m.pc(), 0x20C);
}

#[test]
fn key_checks_are_skipped_for_values_that_name_no_key() {
    let mut m = with_registers(&[(1, 0x10), (2, 0xFF)]);
    m.execute(Opcode::SkipKeyPressed { x: 1 }, 0).unwrap();
    assert_eq!(m.pc(), 0x202);
    m.execute(Opcode::SkipKeyReleased { x: 1 }, 0).unwrap();
    assert_eq!(m.pc(), 0x204);
    m.execute(Opcode::SkipKeyReleased { x: 2 }, 0).unwrap();
    assert_eq!(m.pc(), 0x206);
}

#[test]
fn wait_for_key_holds_the_program_counter() {
    let mut m = fresh();
    assert_eq!(m.execute(Opcode::WaitKey { x: 4 }, 0), Ok(Outcome::AwaitingKey));
    assert_eq!(m.pc(), 0x200);
    assert!(m.is_awaiting_key());
    assert_eq!(m.execute(Opcode::WaitKey { x: 4 }, 0), Ok(Outcome::AwaitingKey));
    assert_eq!(m.pc(), 0x200);
    m.set_key(7, true);
    assert_eq!(m.execute(Opcode::WaitKey { x: 4 }, 0), Ok(Outcome::Completed));
    assert_eq!(m.register(4), 7);
    assert_eq!(m.pc(), 0x202);
    assert!(!m.is_awaiting_key());
}

#[test]
fn wait_for_key_takes_the_lowest_pressed_key() {
    let mut m = fresh();
    m.set_key(0xC, true);
    m.set_key(0x3, true);
    m.set_key(0xF, true);
    assert_eq!(m.first_key(), Some(3));
    m.execute(Opcode::WaitKey { x: 0 }, 0).unwrap();
    assert_eq!(m.register(0), 3);
    let mut zero = fresh();
    zero.set_key(0, true);
    zero.set_register(5, 9);
    zero.execute(Opcode::WaitKey { x: 5 }, 0).unwrap();
    assert_eq!(zero.register(5), 0);
}

#[test]
fn unknown_opcode_is_reported_and_stepped_over() {
    let mut m = fresh();
    assert_eq!(
        m.execute(Opcode::Unknown(0x5121), 0),
        Ok(Outcome::UnknownOpcode { word: 0x5121, address: 0x200 })
    );
    assert_eq!(m.pc(), 0x202);
    assert_eq!(m.execute(Opcode::LoadImm { x: 0, byte: 1 }, 0), Ok(Outcome::Completed));
}

#[test]
fn clear_screen_blanks_the_framebuffer() {
    let mut m = fresh();
    load_program(&mut m, &[]).unwrap();
    m.execute(Opcode::Draw { x: 0, y: 0, rows: 5 }, 0).unwrap();
    assert!(!lit_pixels(&m).is_empty());
    m.execute(Opcode::ClearScreen, 0).unwrap();
    assert!(lit_pixels(&m).is_empty());
    assert_eq!(m.pc(), 0x204);
}

#[test]
fn draw_reads_sprite_rows_at_index() {
    let mut m = with_registers(&[(1, 8), (2, 4)]);
    load_program(&mut m, &[]).unwrap();
    m.execute(Opcode::LoadIndex { addr: 5 }, 0).unwrap();
    m.execute(Opcode::Draw { x: 1, y: 2, rows: 5 }, 0).unwrap();
    // Glyph "1": 0x20, 0x60, 0x20, 0x20, 0x70.
    assert_eq!(
        lit_pixels(&m),
        vec![(10, 4), (9, 5), (10, 5), (10, 6), (10, 7), (9, 8), (10, 8), (11, 8)]
    );
    assert_eq!(m.register(15), 0);
    assert_eq!(m.index(), 5);
}

#[test]
fn draw_twice_erases_and_sets_flag() {
    let mut m = with_registers(&[(1, 20), (2, 10)]);
    load_program(&mut m, &[]).unwrap();
    m.execute(Opcode::Draw { x: 1, y: 2, rows: 5 }, 0).unwrap();
    assert_eq!(m.register(15), 0);
    assert_eq!(lit_pixels(&m).len(), 14);
    m.execute(Opcode::Draw { x: 1, y: 2, rows: 5 }, 0).unwrap();
    assert_eq!(m.register(15), 1);
    assert!(lit_pixels(&m).is_empty());
}

#[test]
fn draw_resets_a_stale_flag() {
    let mut m = with_registers(&[(15, 1), (1, 0), (2, 0)]);
    load_program(&mut m, &[]).unwrap();
    m.execute(Opcode::Draw { x: 1, y: 2, rows: 5 }, 0).unwrap();
    assert_eq!(m.register(15), 0);
    m.set_register(15, 9);
    m.execute(Opcode::Draw { x: 1, y: 2, rows: 0 }, 0).unwrap();
    assert_eq!(m.register(15), 0);
}

#[test]
fn draw_at_column_60_clips() {
    let mut m = with_registers(&[(1, 60), (2, 0)]);
    m.write(0x300, 0xFF).unwrap();
    m.set_index(0x300);
    m.execute(Opcode::Draw { x: 1, y: 2, rows: 1 }, 0).unwrap();
    assert_eq!(lit_pixels(&m), vec![(60, 0), (61, 0), (62, 0), (63, 0)]);
    assert_eq!(m.register(15), 0);
}

#[test]
fn draw_wraps_the_starting_position_only() {
    let mut m = with_registers(&[(1, 64 + 62), (2, 32 + 31)]);
    m.write(0x300, 0xFF).unwrap();
    m.write(0x301, 0xFF).unwrap();
    m.set_index(0x300);
    m.execute(Opcode::Draw { x: 1, y: 2, rows: 2 }, 0).unwrap();
    assert_eq!(lit_pixels(&m), vec![(62, 31), (63, 31)]);
}

#[test]
fn draw_faults_only_on_rows_it_reads() {
    let mut m = with_registers(&[(1, 0), (2, 30)]);
    m.set_index(0xFFE);
    m.write(0xFFE, 0x80).unwrap();
    m.write(0xFFF, 0x80).unwrap();
    // Five rows are asked for, two fit on the screen and in memory.
    assert_eq!(m.execute(Opcode::Draw { x: 1, y: 2, rows: 5 }, 0), Ok(Outcome::Completed));
    assert_eq!(lit_pixels(&m), vec![(0, 30), (0, 31)]);
    m.set_register(2, 0);
    assert_eq!(
        m.execute(Opcode::Draw { x: 1, y: 2, rows: 5 }, 0),
        Err(Fault::MemoryFault { address: 0x1000 })
    );
    assert_eq!(lit_pixels(&m), vec![(0, 30), (0, 31)]);
    m.set_index(0x1234);
    assert_eq!(
        m.execute(Opcode::Draw { x: 1, y: 2, rows: 1 }, 0),
        Err(Fault::MemoryFault { address: 0x1234 })
    );
    assert_eq!(m.execute(Opcode::Draw { x: 1, y: 2, rows: 0 }, 0), Ok(Outcome::Completed));
}

#[test]
fn execute_outside_memory_is_a_fault() {
    let mut m = fresh();
    m.set_pc(0xFFF);
    assert_eq!(
        m.execute(Opcode::LoadImm { x: 0, byte: 1 }, 0),
        Err(Fault::MemoryFault { address: 0x1000 })
    );
    assert_eq!(m.register(0), 0);
    m.set_pc(0xFFE);
    assert_eq!(m.execute(Opcode::LoadImm { x: 0, byte: 1 }, 0), Ok(Outcome::Completed));
    assert_eq!(m.pc(), 0x1000);
    assert_eq!(
        m.execute(Opcode::LoadImm { x: 0, byte: 2 }, 0),
        Err(Fault::MemoryFault { address: 0x1000 })
    );
}

#[test]
fn draw_reads_its_position_before_it_resets_the_flag() {
    let mut m = with_registers(&[(15, 5)]);
    m.write(0x300, 0x80).unwrap();
    m.set_index(0x300);
    m.execute(Opcode::Draw { x: 15, y: 15, rows: 1 }, 0).unwrap();
    assert_eq!(lit_pixels(&m), vec![(5, 5)]);
    assert_eq!(m.register(15), 0);
    // The flag register now holds zero, so the same instruction draws at
    // another place and the first pixel stays lit.
    m.execute(Opcode::Draw { x: 15, y: 15, rows: 1 }, 0).unwrap();
    assert_eq!(lit_pixels(&m), vec![(0, 0), (5, 5)]);
    assert_eq!(m.register(15), 0);
}

#[test]
fn redraw_over_lit_pixels_only_leaves_the_flag_clear() {
    let mut m = with_registers(&[(1, 0), (2, 0), (3, 0)]);
    m.write(0x300, 0xF0).unwrap();
    m.set_index(0x300);
    m.execute(Opcode::Draw { x: 1, y: 2, rows: 1 }, 0).unwrap();
    assert_eq!(m.register(15), 0);
    // Every pixel of the sprite is lit now: the next drawing collides and
    // erases them, and the one after that finds nothing to collide with.
    m.execute(Opcode::Draw { x: 1, y: 2, rows: 1 }, 0).unwrap();
    assert_eq!(m.register(15), 1);
    assert!(lit_pixels(&m).is_empty());
    m.execute(Opcode::Draw { x: 1, y: 2, rows: 1 }, 0).unwrap();
    assert_eq!(m.register(15), 0);
    assert_eq!(lit_pixels(&m).len(), 4);
}

#[test]
fn machine_can_be_cloned_as_a_snapshot() {
    let mut m = with_registers(&[(1, 7)]);
    let snapshot = m.clone();
    m.execute(Opcode::LoadImm { x: 1, byte: 9 }, 0).unwrap();
    assert_eq!(m.register(1), 9);
    assert_eq!(snapshot.register(1), 7);
    assert_eq!(snapshot.pc(), 0x200);
}
