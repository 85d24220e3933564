use seek::text::append_count;
use seek::text::count_string;
use seek::text::decimal_string;
use seek::text::joined;
use seek::text::push_line;
use seek::text::with_count;

#[test]
fn decimal_numerals() {
    assert_eq!(decimal_string(0), "0");
    assert_eq!(decimal_string(7), "7");
    assert_eq!(decimal_string(9), "9");
    assert_eq!(decimal_string(10), "10");
    assert_eq!(decimal_string(99), "99");
    assert_eq!(decimal_string(100), "100");
    assert_eq!(decimal_string(1234567890), "1234567890");
    assert_eq!(decimal_string(500000), "500000");
    assert_eq!(decimal_string(u64::MAX as u128), "18446744073709551615");
    assert_eq!(
        decimal_string(u128::MAX),
        "340282366920938463463374607431768211455"
    );
}

#[test]
fn decimal_agrees_with_std() {
    let mut n: u128 = 1;
    for _ in 0..120 {
        assert_eq!(decimal_string(n), n.to_string());
        assert_eq!(decimal_string(n - 1), (n - 1).to_string());
        n = n.wrapping_mul(2).wrapping_add(n / 3).max(1);
    }
    for n in 0..2000usize {
        assert_eq!(count_string(n), n.to_string());
    }
    assert_eq!(count_string(usize::MAX), usize::MAX.to_string());
}

#[test]
fn joining_text() {
    assert_eq!(joined("ab", "cd"), "abcd");
    assert_eq!(joined("", ""), "");
    assert_eq!(joined("x", ""), "x");
    assert_eq!(with_count("Found ", 12, " matches"), "Found 12 matches");
    assert_eq!(with_count("", 0, ""), "0");
    let mut line = String::from("(");
    append_count(&mut line, "scanned ", 3, " files");
    assert_eq!(line, "(scanned 3 files");
    let mut lines = vec!["one".to_string()];
    push_line(&mut lines, "two".to_string());
    assert_eq!(lines, vec!["one", "two"]);
}
