use preexplorer::text::{index_text, int_text, nat_text};

#[test]
fn decimal_notation() {
    assert_eq!(int_text(0), "0");
    assert_eq!(int_text(-7), "-7");
    assert_eq!(int_text(1200), "1200");
    assert_eq!(int_text(i64::MIN), "-9223372036854775808");
    assert_eq!(int_text(i64::MAX), "9223372036854775807");
    assert_eq!(nat_text(u64::MAX), "18446744073709551615");
    assert_eq!(nat_text(10), "10");
    assert_eq!(index_text(9), "9");
    assert_eq!(index_text(305), "305");
}
