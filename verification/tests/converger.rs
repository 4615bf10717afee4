use compute_tau::converger::{
    rendered_digits, round_limit, threshold_exponent, Converger, Phase, RENDER_GUARD_DIGITS,
};
use compute_tau::error::TauError;
use compute_tau::precision::MAX_DIGITS;

#[test]
fn threshold_exponent_is_the_negated_digit_count() {
    assert_eq!(threshold_exponent(0), 0);
    assert_eq!(threshold_exponent(5), -5);
    assert_eq!(threshold_exponent(MAX_DIGITS), -1_292_913_982);
    assert_eq!(threshold_exponent(i32::MAX as usize), -i32::MAX);
}

#[test]
fn renderer_is_asked_for_five_digits_more() {
    assert_eq!(RENDER_GUARD_DIGITS, 5);
    assert_eq!(rendered_digits(0), 5);
    assert_eq!(rendered_digits(5), 10);
    assert_eq!(rendered_digits(MAX_DIGITS), 1_292_913_987);
}

#[test]
fn round_limit_is_twice_the_bits_and_three_more() {
    assert_eq!(round_limit(0), 5);
    assert_eq!(round_limit(1), 7);
    assert_eq!(round_limit(2), 7);
    assert_eq!(round_limit(3), 9);
    assert_eq!(round_limit(5), 9);
    assert_eq!(round_limit(6), 9);
    assert_eq!(round_limit(7), 11);
    assert_eq!(round_limit(10), 11);
    assert_eq!(round_limit(1022), 23);
    assert_eq!(round_limit(1023), 25);
    assert_eq!(round_limit(MAX_DIGITS), 65);
    assert_eq!(round_limit(usize::MAX), 2 * (usize::BITS + 1) + 3);
}

#[test]
fn new_converger_has_taken_no_round() {
    let converger = Converger::new(10).unwrap();
    assert_eq!(converger.digits(), 10);
    assert_eq!(converger.rounds(), 0);
    assert_eq!(converger.phase(), Phase::Iterating);
    assert_eq!(converger.outcome(), None);
    assert_eq!(converger.precision(), 45);
    assert_eq!(converger.threshold_exponent(), -10);
    assert_eq!(converger.rendered_digits(), 15);
    assert_eq!(converger.round_limit(), 11);
}

#[test]
fn converger_rejects_digits_beyond_the_ceiling() {
    assert!(Converger::new(MAX_DIGITS).is_ok());
    assert_eq!(Converger::new(MAX_DIGITS + 1).err(), Some(TauError::DigitsOutOfRange));
    assert_eq!(Converger::new(2_000_000_000).err(), Some(TauError::DigitsOutOfRange));
}

#[test]
fn converges_in_the_first_round_that_agrees() {
    let mut converger = Converger::new(5).unwrap();
    assert_eq!(converger.record(false), Phase::Iterating);
    assert_eq!(converger.record(false), Phase::Iterating);
    assert_eq!(converger.rounds(), 2);
    assert_eq!(converger.record(true), Phase::Converged);
    assert_eq!(converger.rounds(), 3);
    assert_eq!(converger.outcome(), Some(Ok(3)));
}

#[test]
fn finished_converger_stays_as_it_is() {
    let mut converger = Converger::new(5).unwrap();
    assert_eq!(converger.record(true), Phase::Converged);
    assert_eq!(converger.record(false), Phase::Converged);
    assert_eq!(converger.record(true), Phase::Converged);
    assert_eq!(converger.rounds(), 1);
    assert_eq!(converger.outcome(), Some(Ok(1)));
}

#[test]
fn exhausted_after_the_round_limit() {
    let mut converger = Converger::new(0).unwrap();
    assert_eq!(converger.round_limit(), 5);
    for _ in 0..4 {
        assert_eq!(converger.record(false), Phase::Iterating);
    }
    assert_eq!(converger.record(false), Phase::Exhausted);
    assert_eq!(converger.rounds(), 5);
    assert_eq!(converger.outcome(), Some(Err(TauError::NotConverged)));
    assert_eq!(converger.record(true), Phase::Exhausted);
    assert_eq!(converger.rounds(), 5);
}

#[test]
fn agreement_in_the_last_round_still_converges() {
    let mut converger = Converger::new(0).unwrap();
    for _ in 0..4 {
        assert_eq!(converger.record(false), Phase::Iterating);
    }
    assert_eq!(converger.record(true), Phase::Converged);
    assert_eq!(converger.outcome(), Some(Ok(5)));
}

#[test]
fn every_iteration_ends_within_its_limit() {
    for digits in [0usize, 1, 7, 100, 65_536, MAX_DIGITS] {
        let mut converger = Converger::new(digits).unwrap();
        let limit = converger.round_limit();
        let mut taken = 0u32;
        while converger.record(false) == Phase::Iterating {
            taken += 1;
            assert!(taken < limit);
        }
        assert_eq!(converger.rounds(), limit);
        assert_eq!(converger.phase(), Phase::Exhausted);
    }
}

#[test]
fn same_reports_give_the_same_end() {
    let reports = [false, false, true, false, true];
    let mut first = Converger::new(10).unwrap();
    let mut second = Converger::new(10).unwrap();
    for report in reports {
        assert_eq!(first.record(report), second.record(report));
        assert_eq!(first.rounds(), second.rounds());
    }
    assert_eq!(first.outcome(), second.outcome());
    assert_eq!(first.outcome(), Some(Ok(3)));
}
