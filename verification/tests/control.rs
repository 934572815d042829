use chip_core::{Emulator, Fault};

#[test]
fn new_machine_is_in_the_initial_state() {
    let machine = Emulator::new();
    assert_eq!(machine.program_counter(), 0x200);
    assert_eq!(machine.index_register(), 0);
    assert_eq!(machine.stack_depth(), 0);
    assert_eq!(machine.delay_timer(), 0);
    assert_eq!(machine.sound_timer(), 0);
    assert!(!machine.is_waiting());
    for x in 0..16 {
        assert_eq!(machine.register(x), 0);
        assert!(!machine.key(x));
    }
    assert!(machine.display().iter().all(|cell| !*cell));
    assert_eq!(machine.display().len(), 64 * 32);
    for address in 80..4096 {
        assert_eq!(machine.memory_at(address), 0);
    }
}

#[test]
fn new_machine_holds_the_font() {
    let machine = Emulator::new();
    let glyph_0 = [0xF0, 0x90, 0x90, 0x90, 0xF0];
    let glyph_1 = [0x20, 0x60, 0x20, 0x20, 0x70];
    let glyph_7 = [0xF0, 0x10, 0x20, 0x40, 0x40];
    let glyph_f = [0xF0, 0x80, 0xF0, 0x80, 0x80];
    for row in 0..5 {
        assert_eq!(machine.memory_at(row), glyph_0[row]);
        assert_eq!(machine.memory_at(5 + row), glyph_1[row]);
        assert_eq!(machine.memory_at(35 + row), glyph_7[row]);
        assert_eq!(machine.memory_at(75 + row), glyph_f[row]);
    }
    let table = chip_core::font::font_bytes();
    for address in 0..80 {
        assert_eq!(machine.memory_at(address), table[address]);
    }
}

#[test]
fn load_fonts_restores_the_font_only() {
    let mut machine = Emulator::new();
    assert_eq!(machine.execute(0x61FF), Ok(()));
    assert_eq!(machine.execute(0xA000), Ok(()));
    assert_eq!(machine.execute(0xF155), Ok(()));
    assert_eq!(machine.execute(0xA100), Ok(()));
    assert_eq!(machine.execute(0xF155), Ok(()));
    assert_eq!(machine.memory_at(1), 0xFF);
    machine.load_fonts();
    assert_eq!(machine.memory_at(0), 0xF0);
    assert_eq!(machine.memory_at(1), 0x90);
    assert_eq!(machine.memory_at(0x101), 0xFF);
    assert_eq!(machine.register(1), 0xFF);
}

#[test]
fn fetch_reads_big_endian_and_advances() {
    let mut machine = Emulator::new();
    assert_eq!(machine.load(&[0x12, 0x34, 0xAB, 0xCD]), Ok(()));
    assert_eq!(machine.fetch(), Ok(0x1234));
    assert_eq!(machine.program_counter(), 0x202);
    assert_eq!(machine.fetch(), Ok(0xABCD));
    assert_eq!(machine.program_counter(), 0x204);
}

#[test]
fn fetch_at_the_last_byte_is_out_of_bounds() {
    let mut machine = Emulator::new();
    assert_eq!(machine.execute(0x1FFF), Ok(()));
    assert_eq!(machine.fetch(), Err(Fault::OutOfBounds));
    assert_eq!(machine.program_counter(), 0xFFF);
    assert_eq!(machine.tick(), Err(Fault::OutOfBounds));
    assert_eq!(machine.program_counter(), 0xFFF);
    assert_eq!(machine.execute(0x1FFE), Ok(()));
    assert_eq!(machine.fetch(), Ok(0));
    assert_eq!(machine.program_counter(), 0x1000);
    assert_eq!(machine.fetch(), Err(Fault::OutOfBounds));
}

#[test]
fn tick_fetches_and_executes_one_instruction() {
    let mut machine = Emulator::new();
    assert_eq!(machine.load(&[0x61, 0x2A, 0x71, 0x01, 0x12, 0x02]), Ok(()));
    assert_eq!(machine.tick(), Ok(()));
    assert_eq!(machine.register(1), 0x2A);
    assert_eq!(machine.program_counter(), 0x202);
    assert_eq!(machine.tick(), Ok(()));
    assert_eq!(machine.register(1), 0x2B);
    assert_eq!(machine.program_counter(), 0x204);
    assert_eq!(machine.tick(), Ok(()));
    assert_eq!(machine.program_counter(), 0x202);
    assert_eq!(machine.tick(), Ok(()));
    assert_eq!(machine.register(1), 0x2C);
}

#[test]
fn tick_on_an_unrecognized_word_changes_nothing() {
    let mut machine = Emulator::new();
    assert_eq!(machine.load(&[0x61, 0x2A, 0x51, 0x23]), Ok(()));
    assert_eq!(machine.tick(), Ok(()));
    assert_eq!(machine.tick(), Err(Fault::UnrecognizedOpcode));
    assert_eq!(machine.program_counter(), 0x202);
    assert_eq!(machine.register(1), 0x2A);
    assert_eq!(machine.tick(), Err(Fault::UnrecognizedOpcode));
    assert_eq!(machine.program_counter(), 0x202);
}

#[test]
fn set_then_skip_with_equal_constant_advances_by_four() {
    let mut machine = Emulator::new();
    assert_eq!(machine.load(&[0x6A, 0x15]), Ok(()));
    let before = machine.program_counter();
    assert_eq!(machine.tick(), Ok(()));
    assert_eq!(machine.execute(0x3A15), Ok(()));
    assert_eq!(machine.program_counter(), before + 4);
}

#[test]
fn set_then_skip_with_unequal_constant_advances_by_two() {
    let mut machine = Emulator::new();
    assert_eq!(machine.load(&[0x6A, 0x15]), Ok(()));
    let before = machine.program_counter();
    assert_eq!(machine.tick(), Ok(()));
    assert_eq!(machine.execute(0x3A16), Ok(()));
    assert_eq!(machine.program_counter(), before + 2);
}

#[test]
fn set_then_skip_over_two_ticks() {
    let mut machine = Emulator::new();
    assert_eq!(machine.load(&[0x6A, 0x15, 0x3A, 0x15, 0x00, 0x00, 0x3A, 0x16]), Ok(()));
    assert_eq!(machine.tick(), Ok(()));
    assert_eq!(machine.program_counter(), 0x202);
    assert_eq!(machine.tick(), Ok(()));
    assert_eq!(machine.program_counter(), 0x206);
    assert_eq!(machine.tick(), Ok(()));
    assert_eq!(machine.program_counter(), 0x208);
}

#[test]
fn call_then_return_restores_counter_and_depth() {
    let mut machine = Emulator::new();
    assert_eq!(machine.load(&[0x23, 0x00]), Ok(()));
    assert_eq!(machine.tick(), Ok(()));
    assert_eq!(machine.program_counter(), 0x300);
    assert_eq!(machine.stack_depth(), 1);
    assert_eq!(machine.execute(0x00EE), Ok(()));
    assert_eq!(machine.program_counter(), 0x202);
    assert_eq!(machine.stack_depth(), 0);
}

#[test]
fn nested_calls_return_in_reverse_order() {
    let mut machine = Emulator::new();
    assert_eq!(machine.execute(0x2300), Ok(()));
    assert_eq!(machine.execute(0x2400), Ok(()));
    assert_eq!(machine.execute(0x2500), Ok(()));
    assert_eq!(machine.stack_depth(), 3);
    assert_eq!(machine.execute(0x00EE), Ok(()));
    assert_eq!(machine.program_counter(), 0x400);
    assert_eq!(machine.execute(0x00EE), Ok(()));
    assert_eq!(machine.program_counter(), 0x300);
    assert_eq!(machine.execute(0x00EE), Ok(()));
    assert_eq!(machine.program_counter(), 0x200);
    assert_eq!(machine.stack_depth(), 0);
}

#[test]
fn seventeenth_call_exhausts_the_stack() {
    let mut machine = Emulator::new();
    for depth in 0..16 {
        assert_eq!(machine.stack_depth(), depth);
        assert_eq!(machine.execute(0x2300), Ok(()));
    }
    assert_eq!(machine.stack_depth(), 16);
    assert_eq!(machine.execute(0x1222), Ok(()));
    assert_eq!(machine.execute(0x2400), Err(Fault::StackExhausted));
    assert_eq!(machine.stack_depth(), 16);
    assert_eq!(machine.program_counter(), 0x222);
    assert_eq!(machine.execute(0x00EE), Ok(()));
    assert_eq!(machine.program_counter(), 0x300);
}

#[test]
fn return_on_an_empty_stack_exhausts_it() {
    let mut machine = Emulator::new();
    assert_eq!(machine.execute(0x00EE), Err(Fault::StackExhausted));
    assert_eq!(machine.program_counter(), 0x200);
    assert_eq!(machine.stack_depth(), 0);
}

#[test]
fn push_and_pop() {
    let mut machine = Emulator::new();
    assert_eq!(machine.pop(), Err(Fault::StackExhausted));
    assert_eq!(machine.push(0x123), Ok(()));
    assert_eq!(machine.push(0x456), Ok(()));
    assert_eq!(machine.stack_depth(), 2);
    assert_eq!(machine.pop(), Ok(0x456));
    assert_eq!(machine.pop(), Ok(0x123));
    assert_eq!(machine.pop(), Err(Fault::StackExhausted));
    for address in 0..16 {
        assert_eq!(machine.push(address), Ok(()));
    }
    assert_eq!(machine.push(16), Err(Fault::StackExhausted));
    assert_eq!(machine.pop(), Ok(15));
    assert_eq!(machine.program_counter(), 0x200);
}

#[test]
fn load_copies_the_image_to_the_program_origin() {
    let mut machine = Emulator::new();
    assert_eq!(machine.load(&[1, 2, 3]), Ok(()));
    assert_eq!(machine.memory_at(0x1FF), 0);
    assert_eq!(machine.memory_at(0x200), 1);
    assert_eq!(machine.memory_at(0x201), 2);
    assert_eq!(machine.memory_at(0x202), 3);
    assert_eq!(machine.memory_at(0x203), 0);
    assert_eq!(machine.memory_at(0), 0xF0);
    assert_eq!(machine.program_counter(), 0x200);
}

#[test]
fn load_takes_an_image_that_fills_memory() {
    let mut machine = Emulator::new();
    let image = vec![0xA5u8; 4096 - 512];
    assert_eq!(machine.load(&image), Ok(()));
    assert_eq!(machine.memory_at(0x200), 0xA5);
    assert_eq!(machine.memory_at(0xFFF), 0xA5);
    assert_eq!(machine.memory_at(0x1FF), 0);
    assert_eq!(machine.load(&[]), Ok(()));
    assert_eq!(machine.memory_at(0x200), 0xA5);
}

#[test]
fn load_refuses_an_image_that_is_too_long() {
    let mut machine = Emulator::new();
    let image = vec![0xA5u8; 4096 - 512 + 1];
    assert_eq!(machine.load(&image), Err(Fault::OutOfBounds));
    assert_eq!(machine.memory_at(0x200), 0);
    assert_eq!(machine.memory_at(0xFFF), 0);
}

#[test]
fn reset_restores_the_initial_state() {
    let mut machine = Emulator::new();
    assert_eq!(machine.load(&[0x61, 0x2A, 0x23, 0x00]), Ok(()));
    assert_eq!(machine.tick(), Ok(()));
    assert_eq!(machine.tick(), Ok(()));
    for opcode in [0xA000u16, 0xD005, 0xF115, 0xF118, 0xC2FF, 0xA050, 0xF155, 0xA001, 0xF10A] {
        assert_eq!(machine.execute(opcode), Ok(()));
    }
    machine.set_key(4, true);
    machine.set_key(4, false);
    machine.set_key(9, true);
    machine.seed(77);
    assert!(machine.is_waiting());
    machine.reset();
    let fresh = Emulator::new();
    assert_eq!(machine.program_counter(), 0x200);
    assert_eq!(machine.index_register(), 0);
    assert_eq!(machine.stack_depth(), 0);
    assert_eq!(machine.delay_timer(), 0);
    assert_eq!(machine.sound_timer(), 0);
    assert!(!machine.is_waiting());
    for x in 0..16 {
        assert_eq!(machine.register(x), 0);
        assert!(!machine.key(x));
    }
    for address in 0..4096 {
        assert_eq!(machine.memory_at(address), fresh.memory_at(address));
    }
    assert_eq!(machine.memory_at(0), 0xF0);
    assert_eq!(machine.memory_at(0x50), 0);
    assert_eq!(machine.memory_at(0x200), 0);
    assert_eq!(machine.display(), fresh.display());
    assert_eq!(machine.pop(), Err(Fault::StackExhausted));
    assert_eq!(machine.execute(0xC1FF), Ok(()));
    assert_eq!(machine.register(1), 0x36);
}

#[test]
fn a_counting_loop_runs_to_its_end() {
    let mut machine = Emulator::new();
    let image = [
        0x60, 0x05, // 200: V0 = 5
        0x61, 0x00, // 202: V1 = 0
        0x81, 0x04, // 204: V1 += V0
        0x70, 0xFF, // 206: V0 -= 1, by wrapping
        0x30, 0x00, // 208: skip the jump once V0 is 0
        0x12, 0x04, // 20A: back to 204
        0x12, 0x0C, // 20C: stay here
    ];
    assert_eq!(machine.load(&image), Ok(()));
    let mut ticks = 0;
    while machine.program_counter() != 0x20C {
        assert_eq!(machine.tick(), Ok(()));
        ticks += 1;
        assert!(ticks <= 21);
    }
    assert_eq!(ticks, 21);
    assert_eq!(machine.register(0), 0);
    assert_eq!(machine.register(1), 15);
    assert_eq!(machine.register(0xF), 0);
    assert_eq!(machine.tick(), Ok(()));
    assert_eq!(machine.program_counter(), 0x20C);
}
