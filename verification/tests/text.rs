use vkrs::text::{i64_to_string, join, push_numeral, u64_to_string};

#[test]
fn unsigned_numerals() {
    assert_eq!(u64_to_string(0), "0");
    assert_eq!(u64_to_string(5), "5");
    assert_eq!(u64_to_string(10), "10");
    assert_eq!(u64_to_string(1234567890), "1234567890");
    assert_eq!(u64_to_string(u64::MAX), "18446744073709551615");
}

#[test]
fn signed_numerals() {
    assert_eq!(i64_to_string(0), "0");
    assert_eq!(i64_to_string(-1), "-1");
    assert_eq!(i64_to_string(42), "42");
    assert_eq!(i64_to_string(-100), "-100");
    assert_eq!(i64_to_string(i64::MAX), "9223372036854775807");
    assert_eq!(i64_to_string(i64::MIN), "-9223372036854775808");
}

#[test]
fn numerals_agree_with_the_standard_library() {
    let mut n: u64 = 1;
    for _ in 0..64 {
        assert_eq!(u64_to_string(n), n.to_string());
        assert_eq!(u64_to_string(n - 1), (n - 1).to_string());
        let i = n as i64;
        assert_eq!(i64_to_string(i), i.to_string());
        assert_eq!(i64_to_string(i.wrapping_neg()), i.wrapping_neg().to_string());
        n = n.wrapping_mul(2);
    }
}

#[test]
fn push_numeral_appends() {
    let mut out = String::from("n=");
    push_numeral(&mut out, 907);
    assert_eq!(out, "n=907");
}

#[test]
fn join_puts_the_separator_between() {
    assert_eq!(join(&[], ","), "");
    assert_eq!(join(&["a"], ","), "a");
    assert_eq!(join(&["a", "b", "c"], ","), "a,b,c");
    assert_eq!(join(&["a", "", "c"], ", "), "a, , c");
}
