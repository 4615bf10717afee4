use compute_tau::converger::{Converger, Phase};
use compute_tau::format::compute_tau_str;

/// Runs the Gauss-Legendre rounds in double precision under the control of
/// the library; enough for the digit counts whose working precision fits in
/// a double's 53 bits.
fn tau_in_double_precision(digits: usize) -> (f64, u32) {
    let mut converger = Converger::new(digits).unwrap();
    assert!(converger.precision() <= 53);
    let threshold = 10f64.powi(converger.threshold_exponent());
    let mut a = 1.0f64;
    let mut b = 1.0 / 2f64.sqrt();
    let mut t = 0.25f64;
    let mut p = 1.0f64;
    let mut pi_old = 0.0f64;
    loop {
        let sum = a + b;
        let a_next = sum / 2.0;
        b = (a * b).sqrt();
        let difference = a - a_next;
        t -= p * difference * difference;
        a = a_next;
        p *= 2.0;
        let pi = sum * sum / (4.0 * t);
        let below = (pi - pi_old).abs() < threshold;
        match converger.record(below) {
            Phase::Iterating => pi_old = pi,
            Phase::Converged => return (pi * 2.0, converger.rounds()),
            Phase::Exhausted => panic!("no convergence within {} rounds", converger.rounds()),
        }
    }
}

/// Renders with as many significant digits as the library asks for.
fn render(digits: usize, tau: f64) -> String {
    let significant = Converger::new(digits).unwrap().rendered_digits();
    format!("{:.*}", significant - 1, tau)
}

#[test]
fn test_compute_tau_10_digits() {
    let (tau_computed, _) = tau_in_double_precision(10);
    let tau_expected = 6.2831853071f64;
    assert!((tau_computed - tau_expected).abs() < 1e-10);
}

#[test]
fn test_compute_tau_str() {
    // Test with 5 digits
    let (tau_5, _) = tau_in_double_precision(5);
    let tau_str_5 = compute_tau_str(5, &render(5, tau_5));
    assert_eq!(tau_str_5, Ok(String::from("6.28318")));

    // Test with 10 digits
    let (tau_10, _) = tau_in_double_precision(10);
    let tau_str_10 = compute_tau_str(10, &render(10, tau_10));
    assert_eq!(tau_str_10, Ok(String::from("6.2831853071")));
}

#[test]
fn rendering_has_guard_digits() {
    let (tau, _) = tau_in_double_precision(5);
    assert_eq!(render(5, tau), "6.283185307");
    let (tau, _) = tau_in_double_precision(0);
    assert_eq!(render(0, tau).len(), 6);
}

#[test]
fn output_of_a_run_has_its_length_and_begins_with_six() {
    for digits in 0..=10usize {
        let (tau, _) = tau_in_double_precision(digits);
        let text = compute_tau_str(digits, &render(digits, tau)).unwrap();
        assert_eq!(text.len(), digits + 2);
        assert!(text.starts_with("6."));
        assert_eq!(text, "6.2831853071"[..digits + 2]);
    }
}

#[test]
fn zero_digits_gives_the_integer_part_and_the_point() {
    let (tau, rounds) = tau_in_double_precision(0);
    assert_eq!(rounds, 2);
    assert_eq!(compute_tau_str(0, &render(0, tau)), Ok(String::from("6.")));
}

#[test]
fn rounds_grow_with_the_logarithm_of_the_digits() {
    let expected: [(usize, u32); 4] = [(0, 2), (1, 2), (5, 4), (10, 5)];
    for (digits, rounds) in expected {
        let (_, taken) = tau_in_double_precision(digits);
        assert_eq!(taken, rounds, "digits = {}", digits);
        assert!(taken <= Converger::new(digits).unwrap().round_limit() / 2);
        assert!(taken <= (digits + 2).next_power_of_two().trailing_zeros() + 1);
    }
}

#[test]
fn repeated_runs_agree_bit_for_bit() {
    let (first, first_rounds) = tau_in_double_precision(10);
    let (second, second_rounds) = tau_in_double_precision(10);
    assert_eq!(first.to_bits(), second.to_bits());
    assert_eq!(first_rounds, second_rounds);
    assert_eq!(
        compute_tau_str(10, &render(10, first)),
        compute_tau_str(10, &render(10, second))
    );
}

#[test]
fn one_more_digit_keeps_the_digits_before_it() {
    let mut previous = compute_tau_str(0, &render(0, tau_in_double_precision(0).0)).unwrap();
    for digits in 1..=10usize {
        let (tau, _) = tau_in_double_precision(digits);
        let text = compute_tau_str(digits, &render(digits, tau)).unwrap();
        assert!(text.starts_with(&previous), "{} then {}", previous, text);
        previous = text;
    }
}
