use chip8_core::config::Config;
use chip8_core::cpu::{fontset, CPU};
use chip8_core::decode::Jump;
use chip8_core::keyboard::Keyboard;
use chip8_core::model::{Fault, CPU_SPEED, MEM_SIZE, START_ADRR};
use chip8_core::screen::ContextPixels;

#[test]
fn a_fresh_processor_is_zeroed_at_the_program_start() {
    let cpu = CPU::new(true);
    assert!(cpu.mem.iter().all(|&b| b == 0));
    assert!(cpu.V.iter().all(|&b| b == 0));
    assert!(cpu.stack.iter().all(|&w| w == 0));
    assert_eq!(cpu.pc, START_ADRR);
    assert_eq!(cpu.sp, 0);
    assert_eq!(cpu.I, 0);
    assert_eq!(cpu.game_count, 0);
    assert_eq!(cpu.sound_count, 0);
    assert!(cpu.debug);
    assert!(cpu.jit_cache.is_empty());
}

#[test]
fn init_memory_copies_the_font() {
    let mut cpu = CPU::new(false);
    cpu.init_memory();
    let font = fontset();
    assert_eq!(&cpu.mem[..80], &font[..]);
    assert_eq!(&cpu.mem[..5], &[0xF0, 0x90, 0x90, 0x90, 0xF0]);
    assert_eq!(&cpu.mem[75..80], &[0xF0, 0x80, 0xF0, 0x80, 0x80]);
    assert!(cpu.mem[80..].iter().all(|&b| b == 0));
}

#[test]
fn countdown_floors_at_zero() {
    let mut cpu = CPU::new(false);
    cpu.game_count = 2;
    cpu.sound_count = 1;
    cpu.countdown();
    assert_eq!((cpu.game_count, cpu.sound_count), (1, 0));
    cpu.countdown();
    assert_eq!((cpu.game_count, cpu.sound_count), (0, 0));
    // however often the tick fires, the timers never wrap below zero
    for _ in 0..300 {
        cpu.countdown();
        assert_eq!((cpu.game_count, cpu.sound_count), (0, 0));
    }
}

#[test]
fn timers_are_set_and_read_by_the_core() {
    let mut cpu = CPU::new(false);
    let j = Jump::new();
    let mut ctx = ContextPixels::init();
    cpu.V[3] = 9;
    cpu.interpret(0xF315, &j, &mut ctx).unwrap();
    assert_eq!(cpu.game_count, 9);
    cpu.interpret(0xF318, &j, &mut ctx).unwrap();
    assert_eq!(cpu.sound_count, 9);
    cpu.countdown();
    cpu.interpret(0xF407, &j, &mut ctx).unwrap();
    assert_eq!(cpu.V[4], 8);
}

#[test]
fn get_opcode_reads_big_endian() {
    let mut cpu = CPU::new(false);
    cpu.mem[0x200] = 0xAB;
    cpu.mem[0x201] = 0xCD;
    assert_eq!(cpu.get_opcode(), 0xABCD);
}

#[test]
fn load_game_rejects_an_image_that_overruns_memory() {
    let mut cpu = CPU::new(false);
    let too_big = vec![0u8; MEM_SIZE - START_ADRR as usize + 1];
    assert_eq!(cpu.load_game(&too_big), Err(Fault::RomTooBig));
    assert!(cpu.mem.iter().all(|&b| b == 0));
    let exact = vec![0x77u8; MEM_SIZE - START_ADRR as usize];
    assert_eq!(cpu.load_game(&exact), Ok(()));
    assert_eq!(cpu.mem[0x200], 0x77);
    assert_eq!(cpu.mem[0xFFF], 0x77);
}

#[test]
fn run_cycle_fetches_decodes_and_advances() {
    let mut cpu = CPU::new(false);
    let j = Jump::new();
    let mut ctx = ContextPixels::init();
    cpu.load_game(&vec![0x6A, 0x2F]).unwrap();
    cpu.run_cycle(&j, &mut ctx).unwrap();
    assert_eq!(cpu.V[10], 0x2F);
    assert_eq!(cpu.pc, 0x202);
}

#[test]
fn run_cycle_refuses_a_counter_at_the_end_of_memory() {
    let mut cpu = CPU::new(false);
    let j = Jump::new();
    let mut ctx = ContextPixels::init();
    cpu.pc = 4095;
    assert_eq!(cpu.run_cycle(&j, &mut ctx), Err(Fault::MemoryOutOfBounds));
    assert_eq!(cpu.pc, 4095);
}

#[test]
fn decimal_decomposition_lands_at_the_index() {
    let mut cpu = CPU::new(false);
    let j = Jump::new();
    let mut ctx = ContextPixels::init();
    cpu.V[2] = 254;
    cpu.I = 0x300;
    cpu.interpret(0xF233, &j, &mut ctx).unwrap();
    assert_eq!(&cpu.mem[0x300..0x303], &[2, 5, 4]);
}

#[test]
fn decimal_decomposition_out_of_range_is_a_fault() {
    let mut cpu = CPU::new(false);
    let j = Jump::new();
    let mut ctx = ContextPixels::init();
    cpu.I = 4094;
    assert_eq!(cpu.interpret(0xF233, &j, &mut ctx), Err(Fault::MemoryOutOfBounds));
}

#[test]
fn block_store_and_load_round_trip() {
    let mut cpu = CPU::new(false);
    let j = Jump::new();
    let mut ctx = ContextPixels::init();
    for i in 0..16 {
        cpu.V[i] = (10 + i) as u8;
    }
    cpu.I = 0x320;
    cpu.interpret(0xFF55, &j, &mut ctx).unwrap();
    for i in 0..16 {
        assert_eq!(cpu.mem[0x320 + i], (10 + i) as u8);
    }
    for i in 0..16 {
        cpu.V[i] = 0;
    }
    cpu.interpret(0xFF65, &j, &mut ctx).unwrap();
    for i in 0..16 {
        assert_eq!(cpu.V[i], (10 + i) as u8);
    }
}

#[test]
fn block_store_out_of_range_is_a_fault_and_writes_nothing() {
    let mut cpu = CPU::new(false);
    let j = Jump::new();
    let mut ctx = ContextPixels::init();
    cpu.I = 4090;
    cpu.V[0xA] = 1;
    assert_eq!(cpu.interpret(0xFA55, &j, &mut ctx), Err(Fault::MemoryOutOfBounds));
    assert!(cpu.mem.iter().all(|&b| b == 0));
}

#[test]
fn index_add_reports_the_range_overflow() {
    let mut cpu = CPU::new(false);
    let j = Jump::new();
    let mut ctx = ContextPixels::init();
    cpu.I = 0xFFF;
    cpu.V[1] = 1;
    cpu.interpret(0xF11E, &j, &mut ctx).unwrap();
    assert_eq!(cpu.I, 0x1000);
    assert_eq!(cpu.V[15], 1);
    let mut cpu2 = CPU::new(false);
    cpu2.I = 0x100;
    cpu2.V[1] = 1;
    cpu2.interpret(0xF11E, &j, &mut ctx).unwrap();
    assert_eq!(cpu2.I, 0x101);
    assert_eq!(cpu2.V[15], 0);
}

#[test]
fn font_lookup_uses_the_low_nibble() {
    let mut cpu = CPU::new(false);
    let j = Jump::new();
    let mut ctx = ContextPixels::init();
    cpu.V[1] = 0x12;
    cpu.interpret(0xF129, &j, &mut ctx).unwrap();
    assert_eq!(cpu.I, 10);
}

#[test]
fn keyboard_ignores_codes_outside_the_pad() {
    let mut k = Keyboard::new();
    k.set_key(20, true);
    assert!(!k.ispressed(20));
    assert!(k.keys.iter().all(|&p| !p));
    k.set_key(3, true);
    assert!(k.ispressed(3));
    k.set_key(3, false);
    assert!(!k.ispressed(3));
}

#[test]
fn clear_screen_blanks_every_pixel() {
    let mut cpu = CPU::new(false);
    let j = Jump::new();
    let mut ctx = ContextPixels::init();
    cpu.I = 0x300;
    cpu.mem[0x300] = 0xFF;
    cpu.interpret(0xD011, &j, &mut ctx).unwrap();
    assert!(ctx.pixel.iter().any(|p| p.color == 1));
    cpu.interpret(0x00E0, &j, &mut ctx).unwrap();
    assert!(ctx.pixel.iter().all(|p| p.color == 0));
}

#[test]
fn pixels_track_color_and_dirtiness() {
    let mut p = chip8_core::model::Pixel { color: 0, dirty: false };
    p.set_color(0);
    assert!(!p.dirty);
    p.set_color(1);
    assert!(p.dirty);
    assert_eq!(p.color, 1);
    let mut q = chip8_core::model::Pixel { color: 1, dirty: false };
    q.toggle_color();
    assert_eq!(q.color, 0);
    assert!(q.dirty);
}

#[test]
fn config_defaults_match_the_documented_surface() {
    let c = Config::new(String::from("game.ch8"));
    assert_eq!(c.rom_path, "game.ch8");
    assert_eq!(c.speed, CPU_SPEED);
    assert!(!c.debug);
    assert!(c.bench.is_none());
}

#[test]
fn register_ops_copy_and_combine() {
    let mut cpu = CPU::new(false);
    let j = Jump::new();
    let mut ctx = ContextPixels::init();
    cpu.V[1] = 0b1100;
    cpu.V[2] = 0b1010;
    cpu.interpret(0x8121, &j, &mut ctx).unwrap();
    assert_eq!(cpu.V[1], 0b1110);
    cpu.V[1] = 0b1100;
    cpu.interpret(0x8122, &j, &mut ctx).unwrap();
    assert_eq!(cpu.V[1], 0b1000);
    cpu.V[1] = 0b1100;
    cpu.interpret(0x8123, &j, &mut ctx).unwrap();
    assert_eq!(cpu.V[1], 0b0110);
    cpu.interpret(0x8320, &j, &mut ctx).unwrap();
    assert_eq!(cpu.V[3], cpu.V[2]);
    cpu.interpret(0x6499, &j, &mut ctx).unwrap();
    assert_eq!(cpu.V[4], 0x99);
    cpu.interpret(0xA123, &j, &mut ctx).unwrap();
    assert_eq!(cpu.I, 0x123);
    cpu.interpret(0x1456, &j, &mut ctx).unwrap();
    assert_eq!(cpu.pc, 0x456);
}
