use empty_master::codec::{i32_to_string, json_count};

#[test]
fn renders_zero() {
    assert_eq!("0", i32_to_string(0));
}

#[test]
fn renders_positive_values() {
    assert_eq!("5", i32_to_string(5));
    assert_eq!("17", i32_to_string(17));
    assert_eq!("9552", i32_to_string(9552));
    assert_eq!("2147483647", i32_to_string(i32::MAX));
}

#[test]
fn renders_negative_values() {
    assert_eq!("-1", i32_to_string(-1));
    assert_eq!("-10", i32_to_string(-10));
    assert_eq!("-2147483648", i32_to_string(i32::MIN));
}

#[test]
fn frames_count_as_json() {
    assert_eq!(b"{\"count\":5}".to_vec(), json_count(5));
    assert_eq!(b"{\"count\":0}".to_vec(), json_count(0));
    assert_eq!(b"{\"count\":-2147483648}".to_vec(), json_count(i32::MIN));
}
