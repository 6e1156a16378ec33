use swqos_rpc::text::{push_byte_list, push_decimal};

fn decimal(n: u64) -> String {
    let mut out = String::new();
    push_decimal(&mut out, n);
    out
}

fn byte_list(bytes: Vec<u8>) -> String {
    let mut out = String::new();
    push_byte_list(&mut out, &bytes);
    out
}

#[test]
fn decimal_of_zero_is_a_single_digit() {
    assert_eq!(decimal(0), "0");
}

#[test]
fn decimal_has_no_leading_zero() {
    assert_eq!(decimal(7), "7");
    assert_eq!(decimal(10), "10");
    assert_eq!(decimal(109), "109");
    assert_eq!(decimal(255), "255");
}

#[test]
fn decimal_of_the_largest_value() {
    assert_eq!(decimal(u64::MAX), "18446744073709551615");
}

#[test]
fn decimal_agrees_with_std_formatting() {
    let mut n: u64 = 1;
    for _ in 0..19 {
        assert_eq!(decimal(n), format!("{}", n));
        assert_eq!(decimal(n - 1), format!("{}", n - 1));
        n *= 10;
    }
}

#[test]
fn decimal_appends_to_what_is_there() {
    let mut out = String::from("n = ");
    push_decimal(&mut out, 42);
    assert_eq!(out, "n = 42");
}

#[test]
fn empty_byte_list() {
    assert_eq!(byte_list(vec![]), "[]");
}

#[test]
fn single_byte_list() {
    assert_eq!(byte_list(vec![7]), "[7]");
}

#[test]
fn byte_list_separates_with_comma_and_space() {
    assert_eq!(byte_list(vec![1, 2, 3]), "[1, 2, 3]");
    assert_eq!(byte_list(vec![0, 255, 16]), "[0, 255, 16]");
}

#[test]
fn byte_list_agrees_with_std_debug_formatting() {
    let all: Vec<u8> = (0..=255).collect();
    assert_eq!(byte_list(all.clone()), format!("{:?}", all));
}

#[test]
fn byte_list_appends_to_what_is_there() {
    let mut out = String::from("data: ");
    push_byte_list(&mut out, &vec![9, 8]);
    assert_eq!(out, "data: [9, 8]");
}
