use inventario::text::u8_to_string;

#[test]
fn one_digit_values() {
    assert_eq!(u8_to_string(0), "0");
    assert_eq!(u8_to_string(9), "9");
}

#[test]
fn two_digit_values() {
    assert_eq!(u8_to_string(10), "10");
    assert_eq!(u8_to_string(42), "42");
    assert_eq!(u8_to_string(99), "99");
}

#[test]
fn three_digit_values() {
    assert_eq!(u8_to_string(100), "100");
    assert_eq!(u8_to_string(107), "107");
    assert_eq!(u8_to_string(250), "250");
    assert_eq!(u8_to_string(255), "255");
}
