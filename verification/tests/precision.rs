use compute_tau::error::TauError;
use compute_tau::precision::{check_digits, working_precision, GUARD_BITS, MAX_DIGITS};

/// The least number of bits `b` with `10^digits <= 2^b`, by trying them all.
fn information_bits_by_search(digits: u32) -> u32 {
    let value = 10u128.pow(digits);
    let mut bits = 0u32;
    while (1u128 << bits) < value {
        bits += 1;
    }
    bits
}

#[test]
fn precision_of_no_digits_is_the_guard_bits() {
    assert_eq!(GUARD_BITS, 11);
    assert_eq!(working_precision(0), 11);
}

#[test]
fn precision_of_small_digit_counts() {
    assert_eq!(working_precision(1), 15);
    assert_eq!(working_precision(2), 18);
    assert_eq!(working_precision(3), 21);
    assert_eq!(working_precision(5), 28);
    assert_eq!(working_precision(10), 45);
    assert_eq!(working_precision(100), 344);
    assert_eq!(working_precision(1000), 3333);
}

#[test]
fn precision_agrees_with_search() {
    for digits in 0..=38u32 {
        assert_eq!(
            working_precision(digits as usize),
            information_bits_by_search(digits) + 11,
            "digits = {}",
            digits
        );
    }
}

#[test]
fn precision_where_a_power_of_ten_comes_close_to_a_power_of_two() {
    // 10^1936274 lies just below 2^6432163.
    assert_eq!(working_precision(1_936_274), 6_432_163 + 11);
    assert_eq!(working_precision(1_936_273), 6_432_160 + 11);
    assert_eq!(working_precision(1_936_275), 6_432_167 + 11);
    // 10^579001193 lies just above 2^1923400330.
    assert_eq!(working_precision(579_001_193), 1_923_400_331 + 11);
}

#[test]
fn precision_at_the_ceiling_still_fits() {
    assert_eq!(MAX_DIGITS, 1_292_913_982);
    assert_eq!(working_precision(MAX_DIGITS), 4_294_967_293);
    assert_eq!(working_precision(MAX_DIGITS - 1), 4_294_967_289);
}

#[test]
fn precision_never_decreases() {
    let mut previous = working_precision(0);
    for digits in 1..=5000usize {
        let precision = working_precision(digits);
        assert!(precision >= previous + 3);
        assert!(precision <= previous + 4);
        previous = precision;
    }
}

#[test]
fn digits_up_to_the_ceiling_are_accepted() {
    assert_eq!(check_digits(0), Ok(()));
    assert_eq!(check_digits(10), Ok(()));
    assert_eq!(check_digits(MAX_DIGITS), Ok(()));
}

#[test]
fn digits_beyond_the_ceiling_are_rejected() {
    assert_eq!(check_digits(MAX_DIGITS + 1), Err(TauError::DigitsOutOfRange));
    assert_eq!(check_digits(usize::MAX), Err(TauError::DigitsOutOfRange));
}
