use nes::util::bit::{bit16, bit8, bits16, bits8, bits_abs16, bits_abs8, Bit};
use nes::util::shift_reg::ShiftRegister;
use nes::util::{add16, add8, crosses_page, hi8, lo8, make_word, sub16, sub8, to_offset, Config};

#[test]
fn page_is_crossed_when_the_low_byte_carries_or_borrows() {
    assert!(crosses_page(0x80F2, 0x10));
    assert!(!crosses_page(0x80F2, 0x0D));
    assert!(crosses_page(0x8000, -1));
    assert!(!crosses_page(0x8001, -1));
    assert!(crosses_page(0x12FF, 1));
    assert!(!crosses_page(0x1200, 0xFF));
    assert!(crosses_page(0x1201, 0xFF));
}

#[test]
fn single_bits_are_read() {
    assert!(bit8(0b1000_0000, 7));
    assert!(!bit8(0b0111_1111, 7));
    assert!(bit8(1, 0));
    assert!(bit16(0x8000, 15));
    assert!(!bit16(0x7FFF, 15));
    assert!(0b0100u8.bit(2));
    assert!(0x0100u16.bit(8));
}

#[test]
fn bit_fields_are_extracted() {
    assert_eq!(bits8(0b1011_0100, 2, 5), 0b1101);
    assert_eq!(bits_abs8(0b1011_0100, 2, 5), 0b0011_0100);
    assert_eq!(bits8(0xFF, 4, 7), 0x0F);
    assert_eq!(bits8(0xFF, 3, 30), 0x1F);
    assert_eq!(bits8(0xFF, 5, 2), 0);
    assert_eq!(bits16(0xABCD, 8, 15), 0xAB);
    assert_eq!(bits_abs16(0xABCD, 8, 15), 0xAB00);
    assert_eq!(bits16(0x7FFF, 12, 14), 7);
    assert_eq!(bits_abs16(0xFFFF, 0, 14), 0x7FFF);
    assert_eq!(bits_abs16(0xFFFF, 20, 25), 0);
    assert_eq!(0xABCDu16.bits(4, 11), 0xBC);
    assert_eq!(0xABCDu16.bits_abs(4, 11), 0x0BC0);
    assert_eq!(0xA5u8.bits(0, 3), 5);
    assert_eq!(0xA5u8.bits_abs(4, 7), 0xA0);
}

#[test]
fn words_are_split_and_joined() {
    assert_eq!(lo8(0x1234), 0x34);
    assert_eq!(hi8(0x1234), 0x12);
    assert_eq!(make_word(0x34, 0x12), 0x1234);
    assert_eq!(add8(0xFF, 2), 1);
    assert_eq!(sub8(0, 3), 0xFD);
    assert_eq!(add16(0xFFFF, 2), 1);
    assert_eq!(sub16(0, 1), 0xFFFF);
    assert_eq!(to_offset(0x10), 0x10);
    assert_eq!(to_offset(0xFF), -1);
    assert_eq!(to_offset(0x80), -128);
    assert_eq!(to_offset(0x7F), 127);
}

#[test]
fn serial_register_collects_five_bits_lowest_first() {
    let mut reg = ShiftRegister::<u8, 5>::new();
    for bit in [1u8, 0, 1, 1, 0] {
        reg.push(bit);
    }
    assert_eq!(reg.data, 0b01101);
    assert_eq!(reg.take(), 0b01101);
    assert_eq!(reg.data, 0);
}

#[test]
fn pattern_register_takes_a_byte_into_its_upper_half() {
    let mut reg = ShiftRegister::<u16, 16>::new();
    reg.load(0x00FF);
    reg.push_n(0b1100_0000, 8);
    assert_eq!(reg.data, 0x03FF);
    assert_eq!(reg.peek(), 1);
    assert_eq!(reg.peek_n(8), 0x01FF);
    reg.pop();
    assert_eq!(reg.data, 0x01FF);
    reg.clear();
    assert_eq!(reg.data, 0);
}

#[test]
fn sprite_register_takes_a_byte_mirrored() {
    let mut reg = ShiftRegister::<u8, 8>::new();
    reg.load(0xFF);
    reg.push_n(0b1101_0000, 8);
    assert_eq!(reg.data, 0b0000_1011);
    assert_eq!(reg.pop(), 1);
    assert_eq!(reg.data, 0b0000_0101);
    assert_eq!(reg.pop(), 0);
    assert_eq!(reg.peek(), 0);
}

#[test]
fn configuration_keeps_the_file_name() {
    let config = Config::new("game.nes");
    assert_eq!(config.filename, "game.nes");
}
