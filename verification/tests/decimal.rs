use mower::decimal::{format_decimal, is_digit_char};

#[test]
fn digits_are_the_ten_ascii_digits() {
    for c in "0123456789".chars() {
        assert!(is_digit_char(c));
    }
    for c in ['/', ':', ' ', 'a', 'F', '+', '-', '.', '\u{663}', '\u{ff11}', '\u{b2}'] {
        assert!(!is_digit_char(c));
    }
}

#[test]
fn small_numbers_in_base_ten() {
    assert_eq!(format_decimal(0), "0");
    assert_eq!(format_decimal(1), "1");
    assert_eq!(format_decimal(9), "9");
    assert_eq!(format_decimal(10), "10");
    assert_eq!(format_decimal(11), "11");
    assert_eq!(format_decimal(99), "99");
    assert_eq!(format_decimal(100), "100");
    assert_eq!(format_decimal(4096), "4096");
    assert_eq!(format_decimal(1000000007), "1000000007");
}

#[test]
fn largest_number_in_base_ten() {
    assert_eq!(format_decimal(usize::MAX), usize::MAX.to_string());
    assert_eq!(format_decimal(usize::MAX - 1), (usize::MAX - 1).to_string());
}

#[test]
fn writing_agrees_with_the_standard_library() {
    let mut n: usize = 0;
    while n < 30000 {
        assert_eq!(format_decimal(n), n.to_string());
        n += 7;
    }
    let mut power: usize = 1;
    for _ in 0..9 {
        assert_eq!(format_decimal(power), power.to_string());
        assert_eq!(format_decimal(power - 1), (power - 1).to_string());
        power *= 10;
    }
}

#[test]
fn no_leading_zero() {
    for n in [1usize, 5, 10, 101, 1000, 90909, usize::MAX] {
        assert!(!format_decimal(n).starts_with('0'));
    }
}
