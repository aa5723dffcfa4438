use chip8_core::cache::compile;
use chip8_core::cpu::CPU;
use chip8_core::decode::Jump;
use chip8_core::model::Fault;
use chip8_core::screen::ContextPixels;

fn machine() -> (CPU, Jump, ContextPixels) {
    (CPU::new(false), Jump::new(), ContextPixels::init())
}

#[test]
fn add_registers_sets_carry_on_overflow() {
    let (mut cpu, j, mut ctx) = machine();
    cpu.V[1] = 0xFF;
    cpu.V[2] = 0x01;
    cpu.interpret(0x8124, &j, &mut ctx).unwrap();
    assert_eq!(cpu.V[1], 0x00);
    assert_eq!(cpu.V[15], 1);
    assert_eq!(cpu.pc, 0x202);
}

#[test]
fn add_registers_clears_carry_without_overflow() {
    let (mut cpu, j, mut ctx) = machine();
    cpu.V[1] = 0x10;
    cpu.V[2] = 0x01;
    cpu.V[15] = 1;
    cpu.interpret(0x8124, &j, &mut ctx).unwrap();
    assert_eq!(cpu.V[1], 0x11);
    assert_eq!(cpu.V[15], 0);
}

#[test]
fn sub_with_borrow_clears_flag() {
    let (mut cpu, j, mut ctx) = machine();
    cpu.V[1] = 0x01;
    cpu.V[2] = 0x02;
    cpu.interpret(0x8125, &j, &mut ctx).unwrap();
    assert_eq!(cpu.V[1], 0xFF);
    assert_eq!(cpu.V[15], 0);
}

#[test]
fn sub_without_borrow_sets_flag() {
    let (mut cpu, j, mut ctx) = machine();
    cpu.V[1] = 0x05;
    cpu.V[2] = 0x02;
    cpu.interpret(0x8125, &j, &mut ctx).unwrap();
    assert_eq!(cpu.V[1], 0x03);
    assert_eq!(cpu.V[15], 1);
}

#[test]
fn reversed_sub_follows_the_same_polarity() {
    let (mut cpu, j, mut ctx) = machine();
    cpu.V[1] = 0x02;
    cpu.V[2] = 0x05;
    cpu.interpret(0x8127, &j, &mut ctx).unwrap();
    assert_eq!(cpu.V[1], 0x03);
    assert_eq!(cpu.V[15], 1);
    let (mut cpu2, j2, mut ctx2) = machine();
    cpu2.V[1] = 0x05;
    cpu2.V[2] = 0x02;
    cpu2.interpret(0x8127, &j2, &mut ctx2).unwrap();
    assert_eq!(cpu2.V[1], 0xFD);
    assert_eq!(cpu2.V[15], 0);
}

#[test]
fn shift_right_reports_the_low_bit() {
    let (mut cpu, j, mut ctx) = machine();
    cpu.V[1] = 0x03;
    cpu.interpret(0x8126, &j, &mut ctx).unwrap();
    assert_eq!(cpu.V[1], 0x01);
    assert_eq!(cpu.V[15], 1);
}

#[test]
fn shift_left_reports_the_high_bit() {
    let (mut cpu, j, mut ctx) = machine();
    cpu.V[1] = 0x81;
    cpu.interpret(0x812E, &j, &mut ctx).unwrap();
    assert_eq!(cpu.V[1], 0x02);
    assert_eq!(cpu.V[15], 1);
}

#[test]
fn add_immediate_wraps_without_flag() {
    let (mut cpu, j, mut ctx) = machine();
    cpu.V[1] = 0xFF;
    cpu.interpret(0x7102, &j, &mut ctx).unwrap();
    assert_eq!(cpu.V[1], 0x01);
    assert_eq!(cpu.V[15], 0);
}

#[test]
fn call_then_return_lands_after_the_call() {
    let (mut cpu, j, mut ctx) = machine();
    cpu.load_game(&vec![0x22, 0x04, 0x00, 0x00, 0x00, 0xEE]).unwrap();
    assert_eq!(cpu.pc, 0x200);
    let op = cpu.get_opcode();
    assert_eq!(op, 0x2204);
    cpu.interpret(op, &j, &mut ctx).unwrap();
    assert_eq!(cpu.pc, 0x204);
    assert_eq!(cpu.sp, 1);
    let op = cpu.get_opcode();
    assert_eq!(op, 0x00EE);
    cpu.interpret(op, &j, &mut ctx).unwrap();
    assert_eq!(cpu.pc, 0x202);
    assert_eq!(cpu.sp, 0);
}

#[test]
fn sixteen_nested_calls_fit_and_the_seventeenth_is_fatal() {
    let (mut cpu, j, mut ctx) = machine();
    for _ in 0..16 {
        cpu.interpret(0x2200, &j, &mut ctx).unwrap();
    }
    assert_eq!(cpu.sp, 16);
    assert_eq!(cpu.interpret(0x2200, &j, &mut ctx), Err(Fault::StackOverflow));
    assert_eq!(cpu.sp, 16);
}

#[test]
fn return_without_a_call_is_fatal() {
    let (mut cpu, j, mut ctx) = machine();
    assert_eq!(cpu.interpret(0x00EE, &j, &mut ctx), Err(Fault::StackUnderflow));
}

#[test]
fn key_wait_holds_until_a_press_arrives() {
    let (mut cpu, j, mut ctx) = machine();
    cpu.V[5] = 0xAA;
    // first evaluation arms the wait and holds the program counter
    cpu.interpret(0xF50A, &j, &mut ctx).unwrap();
    assert_eq!(ctx.keyboard.awaiting_key, Some(5));
    assert_eq!(cpu.pc, 0x200);
    assert_eq!(cpu.V[5], 0xAA);
    // further ticks without a press change nothing
    for _ in 0..3 {
        cpu.interpret(0xF50A, &j, &mut ctx).unwrap();
        assert_eq!(cpu.pc, 0x200);
        assert_eq!(cpu.V[5], 0xAA);
        assert_eq!(ctx.keyboard.awaiting_key, Some(5));
    }
    // once a key is pressed, its code lands and the counter advances
    ctx.keyboard.set_key(0x7, true);
    cpu.interpret(0xF50A, &j, &mut ctx).unwrap();
    assert_eq!(cpu.V[5], 0x7);
    assert_eq!(ctx.keyboard.awaiting_key, None);
    assert_eq!(cpu.pc, 0x202);
}

#[test]
fn sprite_draw_sets_pixels_then_xor_clears_them() {
    let (mut cpu, j, mut ctx) = machine();
    cpu.I = 0x300;
    cpu.mem[0x300] = 0xFF;
    // V0 and V1 are zero: draw one row at (0, 0)
    cpu.interpret(0xD011, &j, &mut ctx).unwrap();
    for x in 0..8 {
        assert_eq!(ctx.pixel[x * 32].color, 1);
    }
    assert_eq!(cpu.V[15], 0);
    // the identical sprite at the same place clears them and reports it
    cpu.interpret(0xD011, &j, &mut ctx).unwrap();
    for x in 0..8 {
        assert_eq!(ctx.pixel[x * 32].color, 0);
    }
    assert_eq!(cpu.V[15], 1);
}

#[test]
fn compiled_blocks_match_the_interpreter() {
    // every supported action, run once through a freshly compiled block
    // and once through the software path, from the same starting state
    let ops: [u16; 19] = [
        0x00EE, 0x1234, 0x2345, 0x317F, 0x417F, 0x5120, 0x6A12, 0x7A12, 0x8120, 0x8121, 0x8122,
        0x8123, 0x8124, 0x8125, 0x8126, 0x8127, 0x812E, 0x9120, 0xA123,
    ];
    let j = Jump::new();
    for &op in ops.iter() {
        let mut cpu_a = CPU::new(false);
        let mut ctx_a = ContextPixels::init();
        seed(&mut cpu_a);
        let mut cpu_b = CPU::new(false);
        seed(&mut cpu_b);

        let action = j.get_action(op);
        let a = cpu_a.execute_action(op, action, 0, &mut ctx_a);
        let block = compile(op, action);
        let b = block.execute(&mut cpu_b);
        assert_eq!(a, b);
        assert_eq!(cpu_a.V, cpu_b.V);
        assert_eq!(cpu_a.pc, cpu_b.pc);
        assert_eq!(cpu_a.sp, cpu_b.sp);
        assert_eq!(cpu_a.stack, cpu_b.stack);
        assert_eq!(cpu_a.I, cpu_b.I);
        assert_eq!(cpu_a.mem, cpu_b.mem);
        assert_eq!(cpu_a.game_count, cpu_b.game_count);
        assert_eq!(cpu_a.sound_count, cpu_b.sound_count);
    }
}

fn seed(cpu: &mut CPU) {
    for i in 0..16 {
        cpu.V[i] = (3 * i + 7) as u8;
    }
    cpu.sp = 1;
    cpu.stack[0] = 0x0321;
    cpu.I = 0x0123;
    cpu.game_count = 42;
    cpu.pc = 0x0400;
}

#[test]
fn repeated_cycles_reuse_the_cache_deterministically() {
    // the first run compiles, the second hits the cache; both must leave
    // the same state behind
    let j = Jump::new();
    let mut cpu1 = CPU::new(false);
    let mut ctx1 = ContextPixels::init();
    seed(&mut cpu1);
    cpu1.interpret(0x8124, &j, &mut ctx1).unwrap();
    let after_first = (cpu1.V.clone(), cpu1.pc);

    let mut cpu2 = CPU::new(false);
    let mut ctx2 = ContextPixels::init();
    seed(&mut cpu2);
    cpu2.interpret(0x8124, &j, &mut ctx2).unwrap(); // compiles and stores
    seed(&mut cpu2);
    cpu2.interpret(0x8124, &j, &mut ctx2).unwrap(); // cache hit
    assert_eq!((cpu2.V.clone(), cpu2.pc), after_first);
}

#[test]
fn skips_take_an_extra_instruction() {
    let (mut cpu, j, mut ctx) = machine();
    cpu.V[1] = 0x7F;
    cpu.interpret(0x317F, &j, &mut ctx).unwrap();
    assert_eq!(cpu.pc, 0x204);
    cpu.interpret(0x3100, &j, &mut ctx).unwrap();
    assert_eq!(cpu.pc, 0x206);
    cpu.interpret(0x4100, &j, &mut ctx).unwrap();
    assert_eq!(cpu.pc, 0x20A);
    cpu.V[2] = 0x7F;
    cpu.interpret(0x5120, &j, &mut ctx).unwrap();
    assert_eq!(cpu.pc, 0x20E);
    cpu.interpret(0x9120, &j, &mut ctx).unwrap();
    assert_eq!(cpu.pc, 0x210);
}

#[test]
fn keypad_skips_follow_the_pressed_state() {
    let (mut cpu, j, mut ctx) = machine();
    cpu.V[1] = 0x4;
    cpu.interpret(0xE19E, &j, &mut ctx).unwrap();
    assert_eq!(cpu.pc, 0x202); // not pressed: no skip
    ctx.keyboard.set_key(0x4, true);
    cpu.interpret(0xE19E, &j, &mut ctx).unwrap();
    assert_eq!(cpu.pc, 0x206); // pressed: skip
    cpu.interpret(0xE1A1, &j, &mut ctx).unwrap();
    assert_eq!(cpu.pc, 0x208); // pressed: no skip on the negated form
    ctx.keyboard.set_key(0x4, false);
    cpu.interpret(0xE1A1, &j, &mut ctx).unwrap();
    assert_eq!(cpu.pc, 0x20C);
}

#[test]
fn jump_with_offset_suppresses_the_advance() {
    let (mut cpu, j, mut ctx) = machine();
    cpu.V[0] = 0x4;
    cpu.interpret(0xB200, &j, &mut ctx).unwrap();
    assert_eq!(cpu.pc, 0x204);
}

#[test]
fn masked_random_byte_respects_the_mask() {
    let (mut cpu, j, mut ctx) = machine();
    cpu.V[1] = 0xEE;
    cpu.interpret(0xC100, &j, &mut ctx).unwrap();
    assert_eq!(cpu.V[1], 0); // mask 0x00 forces 0 whatever the byte
    cpu.interpret(0xC10F, &j, &mut ctx).unwrap();
    assert_eq!(cpu.V[1] & 0xF0, 0);
}

#[test]
fn unknown_opcode_is_a_no_op_that_advances() {
    let (mut cpu, j, mut ctx) = machine();
    cpu.interpret(0x0123, &j, &mut ctx).unwrap();
    assert_eq!(cpu.pc, 0x202);
    assert_eq!(cpu.V, CPU::new(false).V);
}
