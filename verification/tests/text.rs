use pico_timing::text::{push_decimal, to_decimal};

#[test]
fn decimal_numerals() {
    assert_eq!(to_decimal(0), "0");
    assert_eq!(to_decimal(7), "7");
    assert_eq!(to_decimal(9), "9");
    assert_eq!(to_decimal(10), "10");
    assert_eq!(to_decimal(20), "20");
    assert_eq!(to_decimal(101), "101");
    assert_eq!(to_decimal(125_000_000), "125000000");
    assert_eq!(to_decimal(1_234_567_890), "1234567890");
    assert_eq!(to_decimal(u32::MAX), "4294967295");
}

#[test]
fn decimal_numerals_agree_with_the_standard_library() {
    for n in (0u32..3000).chain([65_535, 65_536, 999_999, 1_000_000, u32::MAX - 1]) {
        assert_eq!(to_decimal(n), format!("{}", n));
    }
}

#[test]
fn push_decimal_appends() {
    let mut s = String::from("Test ");
    push_decimal(&mut s, 20);
    assert_eq!(s, "Test 20");
    push_decimal(&mut s, 0);
    assert_eq!(s, "Test 200");
}
