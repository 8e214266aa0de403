use chip8::cpu::Cpu;
use chip8::decoder::{decode, Operation, Value};
use chip8::emulator::Emulator;
use chip8::fault::Fault;
use chip8::mem::Memory;

fn machine(prog: &[u8]) -> Emulator {
    let mut emu = Emulator::with_seed(1);
    emu.load_program(prog).unwrap();
    emu
}

fn run(emu: &mut Emulator, steps: usize) {
    for _ in 0..steps {
        emu.frame().unwrap();
    }
}

#[test]
fn decode_examples() {
    assert_eq!(decode(0x00E0), Ok(Operation::ClearScreen));
    assert_eq!(decode(0x1ABC), Ok(Operation::Jump(0xABC)));
    assert_eq!(decode(0x8013), Ok(Operation::Xor(0, 1)));
    assert_eq!(decode(0x00EE), Ok(Operation::Return));
}

#[test]
fn decode_whole_table() {
    assert_eq!(decode(0x0123), Ok(Operation::CallRCA(0x123)));
    assert_eq!(decode(0x2345), Ok(Operation::Call(0x345)));
    assert_eq!(decode(0x3A12), Ok(Operation::SkipIfEq(0xA, Value::Const(0x12))));
    assert_eq!(decode(0x4A12), Ok(Operation::SkipIfNotEq(0xA, Value::Const(0x12))));
    assert_eq!(decode(0x5AB0), Ok(Operation::SkipIfEq(0xA, Value::Reg(0xB))));
    assert_eq!(decode(0x6C7F), Ok(Operation::Assign(0xC, Value::Const(0x7F))));
    assert_eq!(decode(0x7C01), Ok(Operation::Add(0xC, Value::Const(0x01))));
    assert_eq!(decode(0x8120), Ok(Operation::Assign(1, Value::Reg(2))));
    assert_eq!(decode(0x8121), Ok(Operation::Or(1, 2)));
    assert_eq!(decode(0x8122), Ok(Operation::And(1, 2)));
    assert_eq!(decode(0x8124), Ok(Operation::Add(1, Value::Reg(2))));
    assert_eq!(decode(0x8125), Ok(Operation::Sub(1, 2)));
    assert_eq!(decode(0x8126), Ok(Operation::Shr(1, 2)));
    assert_eq!(decode(0x8127), Ok(Operation::SubRev(1, 2)));
    assert_eq!(decode(0x812E), Ok(Operation::Shl(1, 2)));
    assert_eq!(decode(0x9AB0), Ok(Operation::SkipIfNotEq(0xA, Value::Reg(0xB))));
    assert_eq!(decode(0xA123), Ok(Operation::SetAddr(0x123)));
    assert_eq!(decode(0xB123), Ok(Operation::JumpWithOffset(0x123)));
    assert_eq!(decode(0xC3F0), Ok(Operation::GetRandom(3, 0xF0)));
    assert_eq!(decode(0xD125), Ok(Operation::Draw(1, 2, 5)));
    assert_eq!(decode(0xE49E), Ok(Operation::SkipIfKeyPressed(4)));
    assert_eq!(decode(0xE4A1), Ok(Operation::SkipIfKeyNotPressed(4)));
    assert_eq!(decode(0xF507), Ok(Operation::GetDelay(5)));
    assert_eq!(decode(0xF50A), Ok(Operation::KeyWait(5)));
    assert_eq!(decode(0xF515), Ok(Operation::SetDelay(5)));
    assert_eq!(decode(0xF518), Ok(Operation::SetSound(5)));
    assert_eq!(decode(0xF51E), Ok(Operation::AddAddr(5)));
    assert_eq!(decode(0xF529), Ok(Operation::LoadGlyph(5)));
    assert_eq!(decode(0xF533), Ok(Operation::StoreBcd(5)));
    assert_eq!(decode(0xF555), Ok(Operation::StoreBytes(5)));
    assert_eq!(decode(0xF565), Ok(Operation::LoadBytes(5)));
    assert_eq!(decode(0xF575), Ok(Operation::Unimplemented(0xF575)));
    assert_eq!(decode(0xF585), Ok(Operation::Unimplemented(0xF585)));
}

#[test]
fn decode_rejects_unknown_patterns() {
    assert_eq!(decode(0x8128), Err(Fault::DecodeError(0x8128)));
    assert_eq!(decode(0x5AB1), Err(Fault::DecodeError(0x5AB1)));
    assert_eq!(decode(0x9AB2), Err(Fault::DecodeError(0x9AB2)));
    assert_eq!(decode(0xE400), Err(Fault::DecodeError(0xE400)));
    assert_eq!(decode(0xF5FF), Err(Fault::DecodeError(0xF5FF)));
}

#[test]
fn add_and_sub_through_instructions() {
    // V0 = FF, V1 = 01, V0 += V1
    let mut emu = machine(&[0x60, 0xFF, 0x61, 0x01, 0x80, 0x14]);
    run(&mut emu, 3);
    assert_eq!(emu.cpu.regs.V[0], 0x00);
    assert_eq!(emu.cpu.regs.V[0xF], 1);

    // V0 = 00, V1 = 01, V0 -= V1
    let mut emu = machine(&[0x60, 0x00, 0x61, 0x01, 0x80, 0x15]);
    run(&mut emu, 3);
    assert_eq!(emu.cpu.regs.V[0], 0xFF);
    assert_eq!(emu.cpu.regs.V[0xF], 0);

    // V0 = 0A, V1 = 04, V0 -= V1
    let mut emu = machine(&[0x60, 0x0A, 0x61, 0x04, 0x80, 0x15]);
    run(&mut emu, 3);
    assert_eq!(emu.cpu.regs.V[0], 0x06);
    assert_eq!(emu.cpu.regs.V[0xF], 1);
}

#[test]
fn shifts_through_instructions() {
    let mut emu = machine(&[0x61, 0x03, 0x80, 0x16]);
    run(&mut emu, 2);
    assert_eq!(emu.cpu.regs.V[0], 0x01);
    assert_eq!(emu.cpu.regs.V[0xF], 1);

    let mut emu = machine(&[0x61, 0x81, 0x80, 0x1E]);
    run(&mut emu, 2);
    assert_eq!(emu.cpu.regs.V[0], 0x02);
    assert_eq!(emu.cpu.regs.V[0xF], 1);
}

#[test]
fn immediate_add_leaves_flag() {
    let mut emu = machine(&[0x6F, 0x07, 0x60, 0xFF, 0x70, 0x02]);
    run(&mut emu, 3);
    assert_eq!(emu.cpu.regs.V[0], 0x01);
    assert_eq!(emu.cpu.regs.V[0xF], 0x07);
}

#[test]
fn sixteen_calls_then_overflow() {
    // 0x200: call 0x200, forever.
    let mut emu = machine(&[0x22, 0x00]);
    for _ in 0..16 {
        assert_eq!(emu.frame(), Ok(Operation::Call(0x200)));
    }
    assert_eq!(emu.frame(), Err(Fault::StackOverflow));
}

#[test]
fn return_on_empty_stack_underflows() {
    let mut emu = machine(&[0x00, 0xEE]);
    assert_eq!(emu.frame(), Err(Fault::StackUnderflow));
}

#[test]
fn call_and_return() {
    // 0x200: call 0x206; 0x202: V1 = 9; 0x204: jump 0x204; 0x206: V0 = 5; 0x208: return
    let mut emu = machine(&[0x22, 0x06, 0x61, 0x09, 0x12, 0x04, 0x60, 0x05, 0x00, 0xEE]);
    run(&mut emu, 4);
    assert_eq!(emu.cpu.regs.V[0], 5);
    assert_eq!(emu.cpu.regs.V[1], 9);
    assert_eq!(emu.cpu.pc, 0x204);
}

#[test]
fn skips_and_jumps() {
    // V0 = 3; skip if V0 == 3; V1 = 1 (skipped); skip if V0 != 3; V2 = 2
    let mut emu = machine(&[0x60, 0x03, 0x30, 0x03, 0x61, 0x01, 0x40, 0x03, 0x62, 0x02]);
    run(&mut emu, 4);
    assert_eq!(emu.cpu.regs.V[1], 0);
    assert_eq!(emu.cpu.regs.V[2], 2);

    // V0 = 4; jump 0x300 + V0
    let mut emu = machine(&[0x60, 0x04, 0xB3, 0x00]);
    run(&mut emu, 2);
    assert_eq!(emu.cpu.pc, 0x304);
}

#[test]
fn drawing_twice_collides_and_clears() {
    // I = 0x20A; draw V0,V1 x1; draw again; sprite byte at 0x20A
    let mut emu = machine(&[0xA2, 0x0A, 0xD0, 0x11, 0xD0, 0x11, 0x12, 0x06, 0x00, 0x00, 0xB5]);
    run(&mut emu, 2);
    assert_eq!(emu.cpu.regs.V[0xF], 0);
    assert_eq!(emu.display()[0], 0xB5);
    run(&mut emu, 1);
    assert_eq!(emu.cpu.regs.V[0xF], 1);
    assert!(emu.display().iter().all(|&b| b == 0));
}

#[test]
fn sprite_at_x4_straddles_bytes() {
    // V0 = 4; I = 0x208; draw V0,V1 x1; sprite 0xFF at 0x208
    let mut emu = machine(&[0x60, 0x04, 0xA2, 0x08, 0xD0, 0x11, 0x12, 0x06, 0xFF]);
    run(&mut emu, 3);
    assert_eq!(emu.display()[0], 0x0F);
    assert_eq!(emu.display()[1], 0xF0);
    assert_eq!(emu.cpu.regs.V[0xF], 0);
}

#[test]
fn key_wait_blocks_until_a_key_is_latched() {
    let mut emu = machine(&[0xF3, 0x0A, 0xF3, 0x0A]);
    assert_eq!(emu.frame(), Ok(Operation::KeyWait(3)));
    assert_eq!(emu.cpu.pc, 0x200);
    emu.keydown(5);
    emu.frame().unwrap();
    assert_eq!(emu.cpu.regs.V[3], 5);
    assert_eq!(emu.cpu.pc, 0x202);
    emu.frame().unwrap();
    assert_eq!(emu.cpu.pc, 0x202);
    assert_eq!(emu.mem.input.get_key(), None);
}

#[test]
fn released_key_is_not_waited_for() {
    let mut emu = machine(&[0xF3, 0x0A]);
    emu.keydown(5);
    emu.keyup(5);
    emu.frame().unwrap();
    assert_eq!(emu.cpu.pc, 0x200);
    emu.keydown(0x20);
    emu.frame().unwrap();
    assert_eq!(emu.cpu.pc, 0x200);
}

#[test]
fn key_skips() {
    // V0 = 7; skip if key V0 down; V1 = 1; skip if key V0 up; V2 = 2
    let mut emu = machine(&[0x60, 0x07, 0xE0, 0x9E, 0x61, 0x01, 0xE0, 0xA1, 0x62, 0x02]);
    emu.keydown(7);
    run(&mut emu, 5);
    assert_eq!(emu.cpu.regs.V[1], 0);
    assert_eq!(emu.cpu.regs.V[2], 2);
}

#[test]
fn store_bcd_writes_digits() {
    // V0 = 234; I = 0x300; BCD V0; V0..V2 <- [I]
    let mut emu = machine(&[0x60, 234, 0xA3, 0x00, 0xF0, 0x33, 0xF2, 0x65]);
    run(&mut emu, 3);
    assert_eq!(emu.mem.read_byte(0x300), Ok(2));
    assert_eq!(emu.mem.read_byte(0x301), Ok(3));
    assert_eq!(emu.mem.read_byte(0x302), Ok(4));
    run(&mut emu, 1);
    assert_eq!(emu.cpu.regs.V[0], 2);
    assert_eq!(emu.cpu.regs.V[1], 3);
    assert_eq!(emu.cpu.regs.V[2], 4);
    assert_eq!(emu.cpu.regs.I, 0x300);
}

#[test]
fn store_bytes_leaves_address_register() {
    // V0 = 1; V1 = 2; I = 0x400; store V0..V1
    let mut emu = machine(&[0x60, 0x01, 0x61, 0x02, 0xA4, 0x00, 0xF1, 0x55]);
    run(&mut emu, 4);
    assert_eq!(emu.mem.read_byte(0x400), Ok(1));
    assert_eq!(emu.mem.read_byte(0x401), Ok(2));
    assert_eq!(emu.mem.read_byte(0x402), Ok(0));
    assert_eq!(emu.cpu.regs.I, 0x400);
}

#[test]
fn store_into_glyphs_faults() {
    let mut emu = machine(&[0xA0, 0x00, 0xF0, 0x55]);
    run(&mut emu, 1);
    assert_eq!(emu.frame(), Err(Fault::ReadOnlyWrite(0)));
}

#[test]
fn address_register_overflow_sets_flag() {
    // I = 0xFFF; V0 = 2; I += V0
    let mut emu = machine(&[0xAF, 0xFF, 0x60, 0x02, 0xF0, 0x1E]);
    run(&mut emu, 3);
    assert_eq!(emu.cpu.regs.I, 0x001);
    assert_eq!(emu.cpu.regs.V[0xF], 1);
}

#[test]
fn glyph_instruction() {
    let mut emu = machine(&[0x60, 0x0B, 0xF0, 0x29, 0x60, 0x10, 0xF0, 0x29]);
    run(&mut emu, 2);
    assert_eq!(emu.cpu.regs.I, 55);
    run(&mut emu, 1);
    assert_eq!(emu.frame(), Err(Fault::InvalidGlyphIndex(0x10)));
}

#[test]
fn timers_count_down_to_zero() {
    // V0 = 2; delay = V0; sound = V0
    let mut emu = machine(&[0x60, 0x02, 0xF0, 0x15, 0xF0, 0x18, 0xF1, 0x07]);
    run(&mut emu, 3);
    emu.tick();
    run(&mut emu, 1);
    assert_eq!(emu.cpu.regs.V[1], 1);
    emu.tick();
    emu.tick();
    assert_eq!(emu.cpu.delay, 0);
    assert_eq!(emu.cpu.sound, 0);
}

#[test]
fn random_instruction_masks() {
    let mut emu = machine(&[0xC0, 0x00, 0xC1, 0x0F]);
    emu.cpu.regs.V[0] = 0xAA;
    run(&mut emu, 2);
    assert_eq!(emu.cpu.regs.V[0], 0);
    assert!(emu.cpu.regs.V[1] <= 0x0F);
}

#[test]
fn load_then_first_step_fetches_first_word() {
    let mut emu = machine(&[0x6A, 0x42]);
    assert_eq!(emu.frame(), Ok(Operation::Assign(0xA, Value::Const(0x42))));
    assert_eq!(emu.cpu.regs.V[0xA], 0x42);
    assert_eq!(emu.cpu.pc, 0x202);
}

#[test]
fn legacy_codes_are_reported_and_skipped() {
    let mut emu = machine(&[0x01, 0x23, 0xF0, 0x75]);
    assert_eq!(emu.frame(), Ok(Operation::CallRCA(0x123)));
    assert_eq!(emu.frame(), Ok(Operation::Unimplemented(0xF075)));
    assert_eq!(emu.cpu.pc, 0x204);
}

#[test]
fn invalid_word_is_a_decode_error() {
    let mut emu = machine(&[0x80, 0x0F]);
    assert_eq!(emu.frame(), Err(Fault::DecodeError(0x800F)));
}

#[test]
fn running_off_program_memory_faults() {
    let mut emu = machine(&[0x1E, 0xA0]);
    run(&mut emu, 1);
    assert_eq!(emu.frame(), Err(Fault::ReservedRegionAccess(0xEA0)));
}

#[test]
fn clear_screen_and_poll() {
    let mut emu = machine(&[0x00, 0xE0]);
    assert!(emu.poll_screen());
    assert!(!emu.poll_screen());
    emu.frame().unwrap();
    assert!(emu.poll_screen());
    assert!(emu.display().iter().all(|&b| b == 0));
}

#[test]
fn oversized_program_is_refused() {
    let mut emu = Emulator::new();
    let prog = vec![0u8; 0xCA1];
    assert_eq!(emu.load_program(&prog), Err(Fault::AddressOutOfRange(0xEA0)));
}

#[test]
fn cpu_execute_takes_the_random_byte() {
    let mut cpu = Cpu::new();
    let mut mem = Memory::new();
    cpu.execute(&mut mem, Operation::GetRandom(2, 0x3C), 0xFF).unwrap();
    assert_eq!(cpu.regs.V[2], 0x3C);
    cpu.execute(&mut mem, Operation::GetRandom(2, 0x3C), 0x81).unwrap();
    assert_eq!(cpu.regs.V[2], 0x00);
}
