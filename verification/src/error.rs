use vstd::prelude::*;

verus! {

/// Why a request for τ could not be served.
#[derive(Clone, Copy, Debug, PartialEq, Eq, Structural)]
pub enum TauError {
    /// More digits were asked for than the working precision can cover.
    DigitsOutOfRange,
    /// The round limit was reached before two successive estimates agreed.
    NotConverged,
    /// The rendered value does not have the shape of τ with enough digits.
    MalformedRendering,
}

impl TauError {
    /// A one-line description for the user.
    pub fn message(&self) -> (text: &'static str)
        ensures
            text@ == match *self {
                TauError::DigitsOutOfRange => "Digits should not exceed 1,292,913,982."@,
                TauError::NotConverged => "The iteration did not converge within its round limit."@,
                TauError::MalformedRendering => "The rendered value is not tau with the requested digits."@,
            },
    {
        match self {
            TauError::DigitsOutOfRange => "Digits should not exceed 1,292,913,982.",
            TauError::NotConverged => "The iteration did not converge within its round limit.",
            TauError::MalformedRendering => "The rendered value is not tau with the requested digits.",
        }
    }
}

} // verus!
