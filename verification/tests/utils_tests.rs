use retrobrite::utils::{
    bit_is_set, bit_is_set_u16, clear_bit, make_word, same_page, set_bit, set_bit_from,
    set_bits_from_mask_u16,
};

#[test]
fn test_bit_is_set() {
    let test_pattern = 0b00101110;

    assert!(!bit_is_set(0, test_pattern));
    assert!(bit_is_set(1, test_pattern));
    assert!(bit_is_set(2, test_pattern));
    assert!(bit_is_set(3, test_pattern));
    assert!(!bit_is_set(4, test_pattern));
    assert!(bit_is_set(5, test_pattern));
    assert!(!bit_is_set(6, test_pattern));
    assert!(!bit_is_set(7, test_pattern));
}

#[test]
fn test_set_bit() {
    let mut test_pattern = 0b00000000;
    set_bit(0, &mut test_pattern);
    assert!(test_pattern == 1);
}

#[test]
fn test_clear_bit() {
    let mut test_pattern = 0b01000000;
    clear_bit(6, &mut test_pattern);
    assert!(test_pattern == 0);
}

#[test]
fn test_set_bit_from() {
    let input = 0b01010101;
    let mut output_val = 0b11110001;

    for i in 0..8 {
        set_bit_from(i, input, &mut output_val);
    }

    assert!(output_val == input);
}

#[test]
fn test_set_bits_from_mask_u16() {
    let input: u16 = 0x01AB;
    let mut dest: u16 = 0xF0DD;
    let expected: u16 = 0xF1DD;

    set_bits_from_mask_u16(input, 0x0300, &mut dest);

    assert!(dest == expected);
}

#[test]
fn test_same_page() {
    assert!(same_page(0x0000, 0x00ff));
    assert!(same_page(0xff00, 0xffff));
    assert!(!same_page(0xff00, 0xfeff));
    assert!(!same_page(0x0000, 0x0100));
}

#[test]
fn test_bit_is_set_u16() {
    assert!(bit_is_set_u16(15, 0x8000));
    assert!(!bit_is_set_u16(14, 0x8000));
    assert!(bit_is_set_u16(6, 0x0040));
    assert!(!bit_is_set_u16(1, 0x0040));
}

#[test]
fn test_make_word_is_little_endian() {
    assert_eq!(make_word(0x34, 0x12), 0x1234);
    assert_eq!(make_word(0xFF, 0x00), 0x00FF);
    assert_eq!(make_word(0x00, 0xFF), 0xFF00);
}

#[test]
fn test_set_bit_from_leaves_other_bits() {
    let mut value = 0b1010_1010;
    set_bit_from(0, 0b0000_0001, &mut value);
    assert_eq!(value, 0b1010_1011);
    set_bit_from(7, 0b0000_0000, &mut value);
    assert_eq!(value, 0b0010_1011);
}
