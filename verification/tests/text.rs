use ifvms_decompiler::text::{
    decimal_string, fill1_string, fill2_string, fill3_string, fill4_string, push_digits,
};

#[test]
fn decimal_of_small_numbers() {
    for n in 0..=9i64 {
        assert_eq!(decimal_string(n), n.to_string());
    }
    assert_eq!(decimal_string(0), "0");
    assert_eq!(decimal_string(7), "7");
    assert_eq!(decimal_string(10), "10");
    assert_eq!(decimal_string(99), "99");
    assert_eq!(decimal_string(100), "100");
    assert_eq!(decimal_string(1030), "1030");
    assert_eq!(decimal_string(65535), "65535");
    assert_eq!(decimal_string(4294967295), "4294967295");
}

#[test]
fn decimal_of_negative_numbers() {
    assert_eq!(decimal_string(-1), "-1");
    assert_eq!(decimal_string(-10), "-10");
    assert_eq!(decimal_string(-8192), "-8192");
    assert_eq!(decimal_string(-32768), "-32768");
}

#[test]
fn decimal_at_the_limits() {
    assert_eq!(decimal_string(i64::MAX), "9223372036854775807");
    assert_eq!(decimal_string(i64::MIN), "-9223372036854775808");
}

#[test]
fn decimal_agrees_with_the_standard_library() {
    let mut n: i64 = 1;
    for _ in 0..62 {
        assert_eq!(decimal_string(n), n.to_string());
        assert_eq!(decimal_string(-n), (-n).to_string());
        assert_eq!(decimal_string(n - 1), (n - 1).to_string());
        n *= 2;
    }
}

#[test]
fn digits_are_appended() {
    let mut text = String::from("pc=");
    push_digits(&mut text, 0);
    assert_eq!(text, "pc=0");
    push_digits(&mut text, 1234567890);
    assert_eq!(text, "pc=01234567890");
    push_digits(&mut text, u64::MAX);
    assert_eq!(text, "pc=0123456789018446744073709551615");
}

#[test]
fn templates_are_filled_in_order() {
    assert_eq!(fill1_string("a", "1", "b"), "a1b");
    assert_eq!(fill1_string("", "", ""), "");
    assert_eq!(fill2_string("a", "1", "b", "2", "c"), "a1b2c");
    assert_eq!(fill3_string("a", "1", "b", "2", "c", "3", "d"), "a1b2c3d");
    assert_eq!(fill4_string("a", "1", "b", "2", "c", "3", "d", "4", "e"), "a1b2c3d4e");
}
