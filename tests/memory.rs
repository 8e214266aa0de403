use chip8::fault::Fault;
use chip8::input::Input;
use chip8::mem::{Location, Memory, Stack, MAIN};
use chip8::video::{flipped, Video};

#[test]
fn test_read_write_byte() {
    let mut mem = Memory::new();
    assert_eq!(mem.rb(MAIN as u16), Ok(0x00));
    mem.wb(MAIN as u16, 0xFF).unwrap();
    assert_eq!(mem.rb(MAIN as u16), Ok(0xFF));
}

#[test]
fn test_read_write_word() {
    let mut mem = Memory::new();
    assert_eq!(mem.rw(MAIN as u16), Ok(0x0000));
    mem.ww(MAIN as u16, 0xFFFF).unwrap();
    assert_eq!(mem.rw(MAIN as u16), Ok(0xFFFF));
}

#[test]
fn video_test_flipped() {
    assert!(flipped(0b_0000_0000, 0b_0001_0000) == false);
    assert!(flipped(0b_0001_0000, 0b_0000_0000) == true);
    assert!(flipped(0b_1010_0101, 0b_1111_1111) == false);
    assert!(flipped(0b_1010_0101, 0b_0000_0000) == true);
    assert!(flipped(0b_1010_0101, 0b_1010_0100) == true);
    assert!(flipped(0b_1111_0000, 0b_1111_1111) == false);
    assert!(flipped(0b_1111_0000, 0b_0000_1111) == true);
}

#[test]
fn test_flipped() {
    assert!(flipped(0b_0000_0000, 0b_0001_0000) == false);
    assert!(flipped(0b_0001_0000, 0b_0000_0000) == true);
    assert!(flipped(0b_1010_0101, 0b_1111_1111) == false);
    assert!(flipped(0b_1010_0101, 0b_0000_0000) == true);
    assert!(flipped(0b_1010_0101, 0b_1010_0100) == true);
    assert!(flipped(0b_1111_0000, 0b_1111_1111) == false);
    assert!(flipped(0b_1111_0000, 0b_0000_1111) == true);
}

#[test]
fn words_are_big_endian() {
    let mut mem = Memory::new();
    mem.ww(0x300, 0x12AB).unwrap();
    assert_eq!(mem.read_byte(0x300), Ok(0x12));
    assert_eq!(mem.read_byte(0x301), Ok(0xAB));
    assert_eq!(mem.read_word(0x300), Ok(0x12AB));
}

#[test]
fn address_map_regions() {
    assert_eq!(Memory::map_addr(0x000), Location::Glyph(0));
    assert_eq!(Memory::map_addr(0x19F), Location::Glyph(0x19F));
    assert_eq!(Memory::map_addr(0x1A0), Location::Reserved);
    assert_eq!(Memory::map_addr(0x200), Location::Ram(0));
    assert_eq!(Memory::map_addr(0xE9F), Location::Ram(0xC9F));
    assert_eq!(Memory::map_addr(0xEA0), Location::Reserved);
    assert_eq!(Memory::map_addr(0xF00), Location::Display(0));
    assert_eq!(Memory::map_addr(0xFFF), Location::Display(0xFF));
    assert_eq!(Memory::map_addr(0x1000), Location::OutOfRange);
}

#[test]
fn glyph_table_is_readable_and_padded_with_zeros() {
    let mem = Memory::new();
    assert_eq!(mem.read_byte(0x000), Ok(0xF0));
    assert_eq!(mem.read_byte(0x005), Ok(0x20));
    assert_eq!(mem.read_byte(0x04F), Ok(0x80));
    assert_eq!(mem.read_byte(0x050), Ok(0x00));
    assert_eq!(mem.read_byte(0x19F), Ok(0x00));
}

#[test]
fn glyph_table_is_read_only() {
    let mut mem = Memory::new();
    assert_eq!(mem.write_byte(0x010, 1), Err(Fault::ReadOnlyWrite(0x010)));
    assert_eq!(mem.read_byte(0x010), Ok(0x10));
}

#[test]
fn reserved_gaps_fault() {
    let mut mem = Memory::new();
    assert_eq!(mem.read_byte(0x1A0), Err(Fault::ReservedRegionAccess(0x1A0)));
    assert_eq!(mem.read_byte(0x1FF), Err(Fault::ReservedRegionAccess(0x1FF)));
    assert_eq!(mem.write_byte(0xEA0, 1), Err(Fault::ReservedRegionAccess(0xEA0)));
    assert_eq!(mem.read_byte(0xEFF), Err(Fault::ReservedRegionAccess(0xEFF)));
}

#[test]
fn addresses_past_the_end_fault() {
    let mut mem = Memory::new();
    assert_eq!(mem.read_byte(0x1000), Err(Fault::AddressOutOfRange(0x1000)));
    assert_eq!(mem.write_byte(0xFFFF, 1), Err(Fault::AddressOutOfRange(0xFFFF)));
    assert_eq!(mem.read_word(0xFFF), Err(Fault::AddressOutOfRange(0x1000)));
}

#[test]
fn framebuffer_writes_mark_the_screen_changed() {
    let mut mem = Memory::new();
    assert!(mem.video.poll());
    assert!(!mem.video.poll());
    mem.write_byte(0xF03, 0x5A).unwrap();
    assert!(mem.video.poll());
    assert_eq!(mem.video.data()[3], 0x5A);
    assert_eq!(mem.read_byte(0xF03), Ok(0x5A));
}

#[test]
fn load_copies_into_program_memory() {
    let mut mem = Memory::new();
    mem.load(&[1, 2, 3], 0x200).unwrap();
    assert_eq!(mem.read_byte(0x200), Ok(1));
    assert_eq!(mem.read_byte(0x202), Ok(3));
    assert_eq!(mem.read_byte(0x203), Ok(0));
    let full = vec![0xAAu8; 0xCA0];
    assert_eq!(mem.load(&full, 0x200), Ok(()));
    assert_eq!(mem.read_byte(0xE9F), Ok(0xAA));
}

#[test]
fn load_rejects_ranges_outside_program_memory() {
    let mut mem = Memory::new();
    let too_long = vec![1u8; 0xCA1];
    assert_eq!(mem.load(&too_long, 0x200), Err(Fault::AddressOutOfRange(0xEA0)));
    assert_eq!(mem.read_byte(0x200), Ok(0));
    assert_eq!(mem.load(&[1], 0x100), Err(Fault::AddressOutOfRange(0x100)));
    assert_eq!(mem.load(&[1], 0xF00), Err(Fault::AddressOutOfRange(0xF00)));
    assert_eq!(mem.load(&[1, 2], 0xE9F), Err(Fault::AddressOutOfRange(0xEA0)));
}

#[test]
fn glyph_addresses() {
    let mem = Memory::new();
    assert_eq!(mem.load_glyph(0), Ok(0));
    assert_eq!(mem.load_glyph(0xA), Ok(50));
    assert_eq!(mem.glyph_addr(0xF), Ok(75));
    assert_eq!(mem.load_glyph(0x10), Err(Fault::InvalidGlyphIndex(0x10)));
}

#[test]
fn stack_holds_sixteen_addresses() {
    let mut s = Stack::new();
    for k in 0..16u16 {
        assert_eq!(s.push(0x200 + 2 * k), Ok(()));
    }
    assert_eq!(s.push(0x300), Err(Fault::StackOverflow));
    for k in (0..16u16).rev() {
        assert_eq!(s.pop(), Ok(0x200 + 2 * k));
    }
    assert_eq!(s.pop(), Err(Fault::StackUnderflow));
}

#[test]
fn memory_stack_push_and_pop() {
    let mut mem = Memory::new();
    assert_eq!(mem.stack_pop(), Err(Fault::StackUnderflow));
    mem.stack_push(0x234).unwrap();
    assert_eq!(mem.stack_pop(), Ok(0x234));
}

#[test]
fn input_latch_follows_presses_and_releases() {
    let mut input = Input::new();
    assert_eq!(input.get_key(), None);
    input.set_keydown(5);
    assert!(input.is_keydown(5));
    assert!(input.keydown(5));
    assert_eq!(input.get_key(), Some(5));
    assert_eq!(input.get_key(), None);
    assert!(input.is_keydown(5));

    input.set_keydown(7);
    input.set_keyup(7);
    assert!(!input.is_keydown(7));
    assert_eq!(input.get_key(), None);

    input.set_keydown(3);
    input.set_keyup(5);
    assert_eq!(input.get_key(), Some(3));
}

#[test]
fn input_ignores_codes_above_fifteen() {
    let mut input = Input::new();
    input.set_keydown(16);
    assert!(!input.is_keydown(16));
    assert_eq!(input.get_key(), None);
    input.set_keyup(200);
    assert_eq!(input.get_key(), None);
}

#[test]
fn draw_straddles_two_bytes_of_the_same_row() {
    let mut v = Video::new();
    assert_eq!(v.draw(4, 0, 0xFF), 0);
    assert_eq!(v.data()[0], 0x0F);
    assert_eq!(v.data()[1], 0xF0);

    let mut w = Video::new();
    assert_eq!(w.draw(60, 1, 0xFF), 0);
    assert_eq!(w.data()[15], 0x0F);
    assert_eq!(w.data()[8], 0xF0);
    assert_eq!(w.data()[16], 0x00);
}

#[test]
fn draw_twice_collides_and_restores() {
    let mut v = Video::new();
    assert_eq!(v.draw(10, 5, 0b1011_0001), 0);
    assert_eq!(v.draw(10, 5, 0b1011_0001), 1);
    assert!(v.data().iter().all(|&b| b == 0));
}

#[test]
fn draw_wraps_coordinates() {
    let mut v = Video::new();
    v.draw(64 + 8, 32 + 2, 0x81);
    assert_eq!(v.data()[2 * 8 + 1], 0x81);
    v.clear();
    assert!(v.data().iter().all(|&b| b == 0));
}

#[test]
fn memory_draw_reads_rows_and_marks_changed() {
    let mut mem = Memory::new();
    mem.load(&[0xC0, 0x30], 0x300).unwrap();
    mem.video.poll();
    assert_eq!(mem.draw(0, 31, 2, 0x300), Ok(0));
    assert_eq!(mem.video.data()[31 * 8], 0xC0);
    assert_eq!(mem.video.data()[0], 0x30);
    assert!(mem.video.poll());
    assert_eq!(mem.draw(0, 0, 0, 0x300), Ok(0));
    assert!(mem.video.poll());
    assert_eq!(mem.draw(0, 31, 2, 0x300), Ok(1));
    assert!(mem.video.data().iter().all(|&b| b == 0));
    assert_eq!(mem.draw(0, 0, 1, 0x1A0), Err(Fault::ReservedRegionAccess(0x1A0)));
}

#[test]
fn unpack_lists_pixels_leftmost_first() {
    let pixels = chip8::video::unpack(&[0b1000_0001, 0x00, 0xF0]);
    assert_eq!(pixels.len(), 24);
    assert!(pixels[0]);
    assert!(!pixels[1]);
    assert!(pixels[7]);
    assert!(pixels[8..16].iter().all(|&p| !p));
    assert_eq!(&pixels[16..24], &[true, true, true, true, false, false, false, false]);
}
