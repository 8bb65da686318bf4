use toolkit_rs::text::push_decimal;
use toolkit_rs::time::{get_local_time, DATETIME_FORMAT};

fn numeral(n: u32) -> String {
    let mut out = String::new();
    push_decimal(&mut out, n);
    out
}

#[test]
fn numerals_of_small_numbers() {
    assert_eq!(numeral(0), "0");
    assert_eq!(numeral(7), "7");
    assert_eq!(numeral(9), "9");
    assert_eq!(numeral(10), "10");
    assert_eq!(numeral(42), "42");
    assert_eq!(numeral(100), "100");
    assert_eq!(numeral(109), "109");
}

#[test]
fn numerals_of_large_numbers() {
    assert_eq!(numeral(1_000_000), "1000000");
    assert_eq!(numeral(4_294_967_295), "4294967295");
    assert_eq!(numeral(2_147_483_648), "2147483648");
}

#[test]
fn numerals_agree_with_the_standard_library() {
    let mut n: u32 = 1;
    for _ in 0..32 {
        assert_eq!(numeral(n), n.to_string());
        assert_eq!(numeral(n - 1), (n - 1).to_string());
        n = n.wrapping_mul(2);
    }
}

#[test]
fn numerals_are_appended() {
    let mut out = "line ".to_string();
    push_decimal(&mut out, 12);
    push_decimal(&mut out, 3);
    assert_eq!(out, "line 123");
}

#[test]
fn local_time_has_the_documented_layout() {
    assert_eq!(DATETIME_FORMAT, "%Y.%m.%d %H:%M:%S");
    let now = get_local_time();
    let chars: Vec<char> = now.chars().collect();
    assert_eq!(chars.len(), 19);
    for (i, c) in chars.iter().enumerate() {
        match i {
            4 | 7 => assert_eq!(*c, '.'),
            10 => assert_eq!(*c, ' '),
            13 | 16 => assert_eq!(*c, ':'),
            _ => assert!(c.is_ascii_digit()),
        }
    }
}
