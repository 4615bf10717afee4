use compute_tau::error::TauError;
use compute_tau::format::compute_tau_str;
use compute_tau::precision::MAX_DIGITS;

fn cut(text: &str) -> Result<String, TauError> {
    Ok(String::from(text))
}

#[test]
fn truncation_does_not_round() {
    // The digit after the cut is a 9: the kept digits stay as rendered.
    assert_eq!(compute_tau_str(13, "6.283185307179586477"), cut("6.2831853071795"));
    assert_eq!(compute_tau_str(3, "6.28399"), cut("6.283"));
}

#[test]
fn truncation_keeps_the_whole_rendering_when_it_is_just_long_enough() {
    assert_eq!(compute_tau_str(4, "6.2832"), cut("6.2832"));
}

#[test]
fn truncation_to_no_digits() {
    assert_eq!(compute_tau_str(0, "6.2832"), cut("6."));
    assert_eq!(compute_tau_str(0, "6."), cut("6."));
}

#[test]
fn truncation_of_a_rendering() {
    assert_eq!(compute_tau_str(5, "6.283185307"), cut("6.28318"));
    assert_eq!(compute_tau_str(10, "6.28318530717959"), cut("6.2831853071"));
}

#[test]
fn digits_beyond_the_ceiling_give_no_string() {
    assert_eq!(compute_tau_str(MAX_DIGITS + 1, "6.2832"), Err(TauError::DigitsOutOfRange));
    assert_eq!(compute_tau_str(1_292_913_984, "6.2832"), Err(TauError::DigitsOutOfRange));
    assert_eq!(compute_tau_str(usize::MAX, "6.2832"), Err(TauError::DigitsOutOfRange));
    // The digit count is judged before the rendering.
    assert_eq!(compute_tau_str(MAX_DIGITS + 1, "3.14"), Err(TauError::DigitsOutOfRange));
}

#[test]
fn a_short_rendering_gives_no_string() {
    assert_eq!(compute_tau_str(5, "6.2831"), Err(TauError::MalformedRendering));
    assert_eq!(compute_tau_str(0, "6"), Err(TauError::MalformedRendering));
    assert_eq!(compute_tau_str(0, ""), Err(TauError::MalformedRendering));
}

#[test]
fn what_is_not_tau_gives_no_string() {
    assert_eq!(compute_tau_str(2, "3.14159"), Err(TauError::MalformedRendering));
    assert_eq!(compute_tau_str(2, "6,28318"), Err(TauError::MalformedRendering));
    assert_eq!(compute_tau_str(2, "62.8318"), Err(TauError::MalformedRendering));
    assert_eq!(compute_tau_str(2, "6.2831e0"), Err(TauError::MalformedRendering));
    assert_eq!(compute_tau_str(2, "6.28-18"), Err(TauError::MalformedRendering));
    assert_eq!(compute_tau_str(2, "6.28/18"), Err(TauError::MalformedRendering));
    assert_eq!(compute_tau_str(2, "6.28:18"), Err(TauError::MalformedRendering));
    assert_eq!(compute_tau_str(2, "6.2831８"), Err(TauError::MalformedRendering));
    assert_eq!(compute_tau_str(2, "τ=6.28"), Err(TauError::MalformedRendering));
    assert_eq!(compute_tau_str(2, "inf"), Err(TauError::MalformedRendering));
}

#[test]
fn more_digits_of_one_rendering_extend_the_output() {
    let rendered = "6.283185307179586";
    for fewer in 0..=14usize {
        let short = compute_tau_str(fewer, rendered).unwrap();
        let long = compute_tau_str(fewer + 1, rendered).unwrap();
        assert_eq!(short.len(), fewer + 2);
        assert!(long.starts_with(&short));
    }
}

#[test]
fn the_cut_keeps_the_correct_digits_of_the_rendering() {
    let exact = "6.283185307179586476925";
    // Correct in its first eight characters only.
    let rendered = "6.283185999999";
    let agreement = |text: &str| text.bytes().zip(exact.bytes()).take_while(|(a, b)| a == b).count();
    assert_eq!(agreement(rendered), 8);
    for digits in 0..=12usize {
        let text = compute_tau_str(digits, rendered).unwrap();
        assert_eq!(agreement(&text), (digits + 2).min(8));
    }
}

#[test]
fn the_same_rendering_gives_the_same_string() {
    let first = String::from("6.283185307");
    let second = format!("6.{}", 283185307u32);
    assert_eq!(compute_tau_str(5, &first), compute_tau_str(5, &second));
    assert_eq!(compute_tau_str(5, &first), compute_tau_str(5, &first));
}

#[test]
fn error_messages() {
    assert_eq!(TauError::DigitsOutOfRange.message(), "Digits should not exceed 1,292,913,982.");
    assert_eq!(
        TauError::NotConverged.message(),
        "The iteration did not converge within its round limit."
    );
    assert_eq!(
        TauError::MalformedRendering.message(),
        "The rendered value is not tau with the requested digits."
    );
}
