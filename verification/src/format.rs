//! Cutting the decimal rendering of τ to the requested number of digits.

use vstd::prelude::*;
use vstd::string::*;
use crate::error::TauError;
use crate::precision::MAX_DIGITS;

verus! {

/// The first `digits + 2` characters of a rendering: one integer digit, the
/// decimal point and `digits` fractional digits.
pub open spec fn truncated(digits: nat, rendered: Seq<char>) -> Seq<char> {
    rendered.subrange(0, (digits + 2) as int)
}

/// One of the characters `0` to `9`.
pub open spec fn is_decimal_digit(c: char) -> bool {
    '0' <= c <= '9'
}

/// The shape of τ rendered in decimal with at least `digits` fractional
/// digits: a `6`, the decimal point, and decimal digits to the end.
pub open spec fn is_tau_rendering(digits: nat, rendered: Seq<char>) -> bool {
    &&& rendered.len() >= digits + 2
    &&& rendered[0] == '6'
    &&& rendered[1] == '.'
    &&& forall|i: int| 2 <= i < rendered.len() ==> is_decimal_digit(#[trigger] rendered[i])
}

/// What is made of a rendering for a digit count: the cut, or why there is
/// none.
pub open spec fn tau_str_of(digits: nat, rendered: Seq<char>) -> Result<Seq<char>, TauError> {
    if digits > MAX_DIGITS {
        Err(TauError::DigitsOutOfRange)
    } else if !is_tau_rendering(digits, rendered) {
        Err(TauError::MalformedRendering)
    } else {
        Ok(truncated(digits, rendered))
    }
}

/// The number of leading characters in which `text` agrees with `exact`.
pub open spec fn agreement(text: Seq<char>, exact: Seq<char>) -> nat
    decreases text.len(),
{
    if text.len() == 0 || exact.len() == 0 || text[0] != exact[0] {
        0
    } else {
        1 + agreement(text.drop_first(), exact.drop_first())
    }
}

/// Cutting a rendering of τ gives exactly `digits + 2` characters: `6.` and
/// `digits` decimal digits.
pub proof fn lemma_truncated_shape(digits: nat, rendered: Seq<char>)
    requires
        is_tau_rendering(digits, rendered),
    ensures
        truncated(digits, rendered).len() == digits + 2,
        is_tau_rendering(digits, truncated(digits, rendered)),
{
}

/// Every string that is given out has `digits + 2` characters, begins with
/// `6.` and goes on with decimal digits only.
pub proof fn lemma_tau_str_shape(digits: nat, rendered: Seq<char>)
    requires
        tau_str_of(digits, rendered) is Ok,
    ensures
        tau_str_of(digits, rendered)->Ok_0.len() == digits + 2,
        tau_str_of(digits, rendered)->Ok_0[0] == '6',
        tau_str_of(digits, rendered)->Ok_0[1] == '.',
        forall|i: int|
            2 <= i < digits + 2 ==> is_decimal_digit(
                #[trigger] tau_str_of(digits, rendered)->Ok_0[i],
            ),
{
    lemma_truncated_shape(digits, rendered);
}

/// What is given out depends on the digit count and on the characters of the
/// rendering alone: the same rendering always gives the same answer.
pub proof fn lemma_same_rendering_same_string(digits: nat, first: Seq<char>, second: Seq<char>)
    requires
        first.len() == second.len(),
        forall|i: int| 0 <= i < first.len() ==> first[i] == second[i],
    ensures
        tau_str_of(digits, first) == tau_str_of(digits, second),
{
    assert(first =~= second);
}

/// Asking for more digits of one rendering only extends what is kept.
pub proof fn lemma_truncated_extends(fewer: nat, more: nat, rendered: Seq<char>)
    requires
        fewer <= more,
        more + 2 <= rendered.len(),
    ensures
        truncated(fewer, rendered) == truncated(fewer, truncated(more, rendered)),
        truncated(fewer, rendered).is_prefix_of(truncated(more, rendered)),
{
    assert(truncated(fewer, rendered) =~= truncated(fewer, truncated(more, rendered)));
}

/// The first `keep` characters of a text agree with `exact` as far as the
/// text does, up to `keep`.
pub proof fn lemma_prefix_agreement(keep: nat, text: Seq<char>, exact: Seq<char>)
    requires
        keep <= text.len(),
    ensures
        agreement(text.subrange(0, keep as int), exact) == if keep <= agreement(text, exact) {
            keep
        } else {
            agreement(text, exact)
        },
    decreases keep,
{
    let kept = text.subrange(0, keep as int);
    if keep > 0 && exact.len() > 0 && text[0] == exact[0] {
        assert(kept[0] == text[0]);
        assert(kept.drop_first() =~= text.drop_first().subrange(0, keep - 1));
        lemma_prefix_agreement((keep - 1) as nat, text.drop_first(), exact.drop_first());
    } else if keep > 0 {
        assert(kept[0] == text[0]);
    }
}

/// The cut loses no correct digit but by its length: it agrees with `exact`
/// in as many leading characters as the rendering does, up to `digits + 2`.
pub proof fn lemma_truncated_agreement(digits: nat, rendered: Seq<char>, exact: Seq<char>)
    requires
        digits + 2 <= rendered.len(),
    ensures
        agreement(truncated(digits, rendered), exact) == if digits + 2 <= agreement(
            rendered,
            exact,
        ) {
            digits + 2
        } else {
            agreement(rendered, exact)
        },
{
    lemma_prefix_agreement(digits + 2, rendered, exact);
}

/// One digit more never loses a correct leading digit, as long as the
/// rendering for the longer request agrees with `exact` at least as far as
/// the rendering for the shorter one does.
pub proof fn lemma_one_more_digit_keeps_agreement(
    digits: nat,
    shorter: Seq<char>,
    longer: Seq<char>,
    exact: Seq<char>,
)
    requires
        digits + 2 <= shorter.len(),
        digits + 3 <= longer.len(),
        agreement(shorter, exact) <= agreement(longer, exact),
    ensures
        agreement(truncated(digits, shorter), exact) <= agreement(
            truncated(digits + 1, longer),
            exact,
        ),
{
    lemma_truncated_agreement(digits, shorter, exact);
    lemma_truncated_agreement(digits + 1, longer, exact);
}

/// Cuts the decimal rendering of τ to `digits` fractional digits, after
/// checking that the digit count is within range and that the rendering has
/// the shape of τ with that many digits.
///
/// This is a plain truncation: the digits that are cut off never change
/// the ones that are kept.
pub fn compute_tau_str(digits: usize, rendered: &str) -> (cut: Result<String, TauError>)
    ensures
        digits > MAX_DIGITS ==> cut is Err && cut->Err_0 == TauError::DigitsOutOfRange,
        digits <= MAX_DIGITS && !is_tau_rendering(digits as nat, rendered@) ==> cut is Err
            && cut->Err_0 == TauError::MalformedRendering,
        digits <= MAX_DIGITS && is_tau_rendering(digits as nat, rendered@) ==> cut is Ok
            && cut->Ok_0@ == truncated(digits as nat, rendered@),
        cut is Ok ==> cut->Ok_0@.len() == digits + 2 && cut->Ok_0@[0] == '6' && cut->Ok_0@[1]
            == '.',
        cut is Ok ==> tau_str_of(digits as nat, rendered@) == Ok::<Seq<char>, TauError>(
            cut->Ok_0@,
        ),
        cut is Err ==> tau_str_of(digits as nat, rendered@) == Err::<Seq<char>, TauError>(
            cut->Err_0,
        ),
{
    if digits > MAX_DIGITS {
        return Err(TauError::DigitsOutOfRange);
    }
    if !rendered.is_ascii() {
        return Err(TauError::MalformedRendering);
    }
    proof {
        is_ascii_spec_bytes(rendered);
    }
    let bytes = rendered.as_bytes();
    let length = bytes.len();
    if length < digits + 2 {
        return Err(TauError::MalformedRendering);
    }
    if bytes[0] != '6' as u8 || bytes[1] != '.' as u8 {
        return Err(TauError::MalformedRendering);
    }
    let mut at: usize = 2;
    while at < length
        invariant
            2 <= at <= length,
            digits <= MAX_DIGITS,
            digits + 2 <= length,
            rendered@[0] == '6',
            rendered@[1] == '.',
            length == rendered@.len(),
            bytes@.len() == length,
            is_ascii(rendered),
            forall|i: int| 0 <= i < length ==> bytes@[i] == rendered@[i] as u8,
            forall|i: int| 2 <= i < at ==> is_decimal_digit(#[trigger] rendered@[i]),
        decreases length - at,
    {
        let byte = bytes[at];
        if byte < '0' as u8 || byte > '9' as u8 {
            assert(!is_decimal_digit(rendered@[at as int]));
            return Err(TauError::MalformedRendering);
        }
        assert(is_decimal_digit(rendered@[at as int]));
        at = at + 1;
    }
    Ok(rendered.substring_ascii(0, digits + 2).to_owned())
}

} // verus!
