use mobilecli::text::{push_decimal, push_field, push_spaces};

fn field_text(n: u128, width: usize) -> String {
    let mut text = String::new();
    push_field(&mut text, n, width);
    text
}

#[test]
fn field_pads_on_the_left() {
    assert_eq!(field_text(0, 3), "  0");
    assert_eq!(field_text(7, 3), "  7");
    assert_eq!(field_text(50, 3), " 50");
    assert_eq!(field_text(100, 3), "100");
    assert_eq!(field_text(100, 4), " 100");
    assert_eq!(field_text(40, 5), "   40");
}

#[test]
fn field_never_cuts_a_numeral() {
    assert_eq!(field_text(1000, 3), "1000");
    assert_eq!(field_text(123456, 5), "123456");
    assert_eq!(field_text(12, 0), "12");
    assert_eq!(field_text(12, 1), "12");
    assert_eq!(field_text(12, 2), "12");
}

#[test]
fn field_of_width_zero_is_the_numeral() {
    assert_eq!(field_text(0, 0), "0");
    assert_eq!(field_text(9, 0), "9");
    assert_eq!(field_text(10, 0), "10");
    assert_eq!(field_text(1234567890, 0), "1234567890");
}

#[test]
fn field_agrees_with_std_formatting() {
    let mut values: Vec<u128> = (0..1200).collect();
    values.extend([9_999, 10_000, 99_999, 100_000, 999_999, 1_000_000]);
    values.extend([u32::MAX as u128, u64::MAX as u128, 100 * (u64::MAX as u128), u128::MAX]);
    for n in values {
        assert_eq!(field_text(n, 0), format!("{}", n));
        assert_eq!(field_text(n, 1), format!("{:1}", n));
        assert_eq!(field_text(n, 3), format!("{:3}", n));
        assert_eq!(field_text(n, 4), format!("{:4}", n));
        assert_eq!(field_text(n, 5), format!("{:5}", n));
        assert_eq!(field_text(n, 45), format!("{:45}", n));
    }
}

#[test]
fn largest_number_has_39_digits() {
    let text = field_text(u128::MAX, 3);
    assert_eq!(text, "340282366920938463463374607431768211455");
    assert_eq!(text.len(), 39);
}

#[test]
fn push_spaces_appends_blanks() {
    let mut out = String::from("a");
    push_spaces(&mut out, 0);
    assert_eq!(out, "a");
    push_spaces(&mut out, 3);
    assert_eq!(out, "a   ");
}

#[test]
fn push_decimal_appends_the_numeral() {
    let mut out = String::from("n=");
    push_decimal(&mut out, 0);
    push_decimal(&mut out, 42);
    push_decimal(&mut out, 1005);
    assert_eq!(out, "n=0421005");
}

#[test]
fn push_field_appends_after_what_is_there() {
    let mut out = String::from("(");
    push_field(&mut out, 5, 4);
    out.push('/');
    push_field(&mut out, 12345, 4);
    out.push(')');
    assert_eq!(out, "(   5/12345)");
}
