use rscom::hex::parse_hex_byte;

#[test]
fn single_digits_parse() {
    for (c, v) in [('0', 0u8), ('9', 9), ('a', 10), ('f', 15), ('A', 10), ('F', 15)] {
        assert_eq!(parse_hex_byte(&vec![c]), Some(v));
    }
}

#[test]
fn two_digit_values_parse() {
    assert_eq!(parse_hex_byte(&vec!['1', 'F']), Some(0x1F));
    assert_eq!(parse_hex_byte(&vec!['2', '0']), Some(0x20));
    assert_eq!(parse_hex_byte(&vec!['f', 'f']), Some(0xFF));
    assert_eq!(parse_hex_byte(&vec!['0', '0']), Some(0x00));
}

#[test]
fn long_entries_keep_the_low_byte() {
    assert_eq!(parse_hex_byte(&vec!['1', 'F', 'F']), Some(0xFF));
    assert_eq!(parse_hex_byte(&vec!['1', '0', '0']), Some(0x00));
    assert_eq!(parse_hex_byte(&vec!['A', 'B', 'C', 'D']), Some(0xCD));
}

#[test]
fn empty_entry_is_rejected() {
    assert_eq!(parse_hex_byte(&Vec::new()), None);
}

#[test]
fn non_hex_characters_are_rejected() {
    assert_eq!(parse_hex_byte(&vec!['1', 'G']), None);
    assert_eq!(parse_hex_byte(&vec!['g']), None);
    assert_eq!(parse_hex_byte(&vec![' ']), None);
    assert_eq!(parse_hex_byte(&vec!['x', '1']), None);
    assert_eq!(parse_hex_byte(&vec!['-', '1']), None);
}
