use geokernels::decimal::{decimal_string, digit_str, indexed_name};

#[test]
fn decimal_renders_single_digits() {
    for d in 0..10usize {
        assert_eq!(digit_str(d), d.to_string());
        assert_eq!(decimal_string(d), d.to_string());
    }
}

#[test]
fn decimal_renders_multi_digit_values() {
    assert_eq!(decimal_string(10), "10");
    assert_eq!(decimal_string(123), "123");
    assert_eq!(decimal_string(100400), "100400");
    assert_eq!(decimal_string(usize::MAX), usize::MAX.to_string());
}

#[test]
fn indexed_names_concatenate() {
    assert_eq!(indexed_name("IN", 0), "IN0");
    assert_eq!(indexed_name("OUT_INFO", 12), "OUT_INFO12");
}
