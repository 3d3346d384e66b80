use dmg_core::bits::{bit_is_set, check_bit, get_bit_value, reset_bit, set_bit};

#[test]
fn test_bit_it_set() {
    let set = bit_is_set(0b00000100, 2);
    let not_set = bit_is_set(0b00000001, 1);
    assert!(set);
    assert!(!not_set);
}

#[test]
fn test_reset_bit() {
    let reset = reset_bit(0b11011111, 1);
    assert_eq!(reset, 0b11011101)
}

#[test]
fn test_check_bit_and_value() {
    assert!(check_bit(0x80, 7));
    assert!(!check_bit(0x7f, 7));
    assert_eq!(get_bit_value(0b1010, 1), 1);
    assert_eq!(get_bit_value(0b1010, 2), 0);
}

#[test]
fn test_set_bit() {
    assert_eq!(set_bit(0, 4), 0x10);
    assert_eq!(set_bit(0xff, 3), 0xff);
}
