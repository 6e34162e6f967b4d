use seccomp::numfmt::{bytes_to_list_string, i32_to_string, i64_to_string, u64_to_string};

#[test]
fn test_u64_to_string() {
    assert_eq!(u64_to_string(0), "0");
    assert_eq!(u64_to_string(7), "7");
    assert_eq!(u64_to_string(42), "42");
    assert_eq!(u64_to_string(4096), "4096");
    assert_eq!(u64_to_string(u64::MAX), "18446744073709551615");
}

#[test]
fn test_i64_to_string() {
    assert_eq!(i64_to_string(0), "0");
    assert_eq!(i64_to_string(-1), "-1");
    assert_eq!(i64_to_string(318), "318");
    assert_eq!(i64_to_string(i64::MIN), "-9223372036854775808");
    assert_eq!(i64_to_string(i64::MAX), "9223372036854775807");
}

#[test]
fn test_i32_to_string() {
    assert_eq!(i32_to_string(42), "42");
    assert_eq!(i32_to_string(-42), "-42");
    assert_eq!(i32_to_string(i32::MIN), "-2147483648");
}

#[test]
fn test_bytes_to_list_string() {
    assert_eq!(bytes_to_list_string(&vec![]), "[]");
    assert_eq!(bytes_to_list_string(&vec![5]), "[5]");
    assert_eq!(bytes_to_list_string(&vec![47, 0]), "[47, 0]");
    assert_eq!(bytes_to_list_string(&vec![1, 22, 255]), "[1, 22, 255]");
}
