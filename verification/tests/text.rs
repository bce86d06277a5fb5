use force_graph::decimal::signed_decimal;
use force_graph::decimal::unsigned_decimal;
use force_graph::text::link_id;
use force_graph::text::record_id;
use force_graph::DebugText;
use force_graph::DisplayText;

#[test]
fn unsigned_decimal_writes_digits() {
    assert_eq!(unsigned_decimal(0), "0");
    assert_eq!(unsigned_decimal(7), "7");
    assert_eq!(unsigned_decimal(10), "10");
    assert_eq!(unsigned_decimal(1234567890), "1234567890");
    assert_eq!(unsigned_decimal(u128::MAX), format!("{:?}", u128::MAX));
}

#[test]
fn signed_decimal_writes_the_sign() {
    assert_eq!(signed_decimal(0), "0");
    assert_eq!(signed_decimal(-1), "-1");
    assert_eq!(signed_decimal(-120), "-120");
    assert_eq!(signed_decimal(99), "99");
    assert_eq!(signed_decimal(i128::MIN), format!("{:?}", i128::MIN));
    assert_eq!(signed_decimal(i128::MAX), format!("{:?}", i128::MAX));
}

#[test]
fn integer_keys_have_their_std_debug_form() {
    assert_eq!(i8::MIN.to_debug_text(), format!("{:?}", i8::MIN));
    assert_eq!(i16::MIN.to_debug_text(), format!("{:?}", i16::MIN));
    assert_eq!(i32::MIN.to_debug_text(), format!("{:?}", i32::MIN));
    assert_eq!(i64::MIN.to_debug_text(), format!("{:?}", i64::MIN));
    assert_eq!(isize::MIN.to_debug_text(), format!("{:?}", isize::MIN));
    assert_eq!(u8::MAX.to_debug_text(), format!("{:?}", u8::MAX));
    assert_eq!(u16::MAX.to_debug_text(), format!("{:?}", u16::MAX));
    assert_eq!(u32::MAX.to_debug_text(), format!("{:?}", u32::MAX));
    assert_eq!(u64::MAX.to_debug_text(), format!("{:?}", u64::MAX));
    assert_eq!(usize::MAX.to_debug_text(), format!("{:?}", usize::MAX));
    assert_eq!(0i32.to_debug_text(), "0");
    assert_eq!(305i64.to_debug_text(), "305");
}

#[test]
fn text_keys_are_quoted_and_escaped() {
    assert_eq!(String::from("abc").to_debug_text(), "\"abc\"");
    assert_eq!(String::from("a\"b\n").to_debug_text(), "\"a\\\"b\\n\"");
    assert_eq!("x|y".to_debug_text(), "\"x|y\"");
    assert_eq!(String::new().to_debug_text(), "\"\"");
}

#[test]
fn pair_keys_stand_between_brackets() {
    assert_eq!((1i32, 2i32).to_debug_text(), "(1, 2)");
    assert_eq!((1i32, 2i32).to_debug_text(), format!("{:?}", (1i32, 2i32)));
    assert_eq!((-3i64, String::from("b")).to_debug_text(), "(-3, \"b\")");
    assert_eq!(((1u8, 2u8), 3u8).to_debug_text(), format!("{:?}", ((1u8, 2u8), 3u8)));
}

#[test]
fn texts_display_as_they_are() {
    assert_eq!(String::from("person").to_display_text(), "person");
    assert_eq!("knows".to_display_text(), "knows");
    assert_eq!(String::new().to_display_text(), "");
}

#[test]
fn record_id_is_variant_separator_key() {
    assert_eq!(record_id(&String::from("person"), &1i32), "person|1");
    assert_eq!(record_id(&"doc", &String::from("a")), "doc|\"a\"");
    assert_eq!(record_id(&"pair", &(1u8, 2u8)), "pair|(1, 2)");
    assert_eq!(record_id(&"", &0u8), "|0");
}

#[test]
fn record_id_does_not_escape_the_separator() {
    assert_eq!(record_id(&"a|b", &1u8), "a|b|1");
    assert_eq!(record_id(&"a", &String::from("b|1")), "a|\"b|1\"");
}

#[test]
fn link_id_is_source_variant_target() {
    assert_eq!(link_id(&1i32, &String::from("knows"), &2i32), "1|knows|2");
    assert_eq!(link_id(&String::from("a"), &"likes", &-5i64), "\"a\"|likes|-5");
}

#[test]
fn unit_key_is_a_pair_of_brackets() {
    assert_eq!(().to_debug_text(), "()");
    assert_eq!(().to_debug_text(), format!("{:?}", ()));
    assert_eq!(((), 1u8).to_debug_text(), "((), 1)");
}
