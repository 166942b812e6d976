use nicopad::decimal::{decimal, push_nat};

#[test]
fn decimal_text() {
    assert_eq!(decimal(0), "0");
    assert_eq!(decimal(7), "7");
    assert_eq!(decimal(10), "10");
    assert_eq!(decimal(-305), "-305");
    assert_eq!(decimal(i64::MAX), "9223372036854775807");
    assert_eq!(decimal(i64::MIN), "-9223372036854775808");
}

#[test]
fn push_nat_appends() {
    let mut s = "n=".to_string();
    push_nat(&mut s, 1200);
    assert_eq!(s, "n=1200");
}
