use mod_loader::host::HostCall;
use mod_loader::text::{push_decimal, push_signed_decimal};

fn decimal(n: u64) -> String {
    let mut out = String::new();
    push_decimal(&mut out, n);
    out
}

fn signed(n: i64) -> String {
    let mut out = String::new();
    push_signed_decimal(&mut out, n);
    out
}

#[test]
fn decimal_of_small_numbers() {
    assert_eq!(decimal(0), "0");
    assert_eq!(decimal(4), "4");
    assert_eq!(decimal(9), "9");
    assert_eq!(decimal(10), "10");
    assert_eq!(decimal(1234567890), "1234567890");
}

#[test]
fn decimal_of_the_largest_number() {
    assert_eq!(decimal(u64::MAX), "18446744073709551615");
    assert_eq!(decimal(u32::MAX as u64), "4294967295");
}

#[test]
fn decimal_agrees_with_the_standard_formatting() {
    let mut n: u64 = 1;
    for _ in 0..64 {
        assert_eq!(decimal(n), n.to_string());
        assert_eq!(decimal(n - 1), (n - 1).to_string());
        n = n.wrapping_mul(2);
    }
}

#[test]
fn decimal_appends_to_what_is_there() {
    let mut out = String::from("n = ");
    push_decimal(&mut out, 705);
    assert_eq!(out, "n = 705");
    push_signed_decimal(&mut out, -3);
    assert_eq!(out, "n = 705-3");
}

#[test]
fn signed_decimal_puts_a_minus_before_negative_numbers() {
    assert_eq!(signed(0), "0");
    assert_eq!(signed(17), "17");
    assert_eq!(signed(-1), "-1");
    assert_eq!(signed(-42), "-42");
    assert_eq!(signed(i64::MAX), "9223372036854775807");
    assert_eq!(signed(i64::MIN), "-9223372036854775808");
}

#[test]
fn host_call_lines() {
    let (first, second) = HostCall { param: 7, state: 4 }.lines();
    assert_eq!(first, "Got 7 from WebAssembly");
    assert_eq!(second, "my host state is: 4");
}

#[test]
fn host_call_lines_at_the_ends_of_the_ranges() {
    let (first, second) = HostCall { param: i32::MIN, state: u32::MAX }.lines();
    assert_eq!(first, "Got -2147483648 from WebAssembly");
    assert_eq!(second, "my host state is: 4294967295");
    let (first, second) = HostCall { param: i32::MAX, state: 0 }.lines();
    assert_eq!(first, "Got 2147483647 from WebAssembly");
    assert_eq!(second, "my host state is: 0");
}
