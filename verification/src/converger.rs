//! Control of the Gauss–Legendre iteration: what the arithmetic engine is
//! asked to do for a digit count, and when the iteration ends.
//!
//! One round of the iteration turns the means `a`, `b`, the error term `t`
//! and the weight `p` into the next ones and into an estimate of π. After
//! each round the engine reports whether the estimate moved by less than the
//! threshold `10^-digits`; the converger answers whether to go on.

use vstd::prelude::*;
use vstd::arithmetic::power::*;
use vstd::arithmetic::power2::{lemma2_to64, lemma_pow2};
use crate::error::TauError;
use crate::precision::{
    MAX_DIGITS, ceil_log2, lemma_ceil_log2_bounds, lemma_ceil_log2_unique, precision_bits,
    working_precision,
};

verus! {

/// Decimal digits that the renderer is asked for beyond the requested ones.
pub const RENDER_GUARD_DIGITS: usize = 5;

/// Where an iteration stands.
#[derive(Clone, Copy, Debug, PartialEq, Eq, Structural)]
pub enum Phase {
    /// Another round is to be computed.
    Iterating,
    /// Two successive estimates agreed within the threshold.
    Converged,
    /// The round limit was used up without agreement.
    Exhausted,
}

/// The most rounds an iteration for `digits` digits may take:
/// `2 · ⌈log₂(digits + 2)⌉ + 3`. Every round about doubles the number of
/// correct digits, so an iteration takes about `⌈log₂(digits + 2)⌉ + 1`
/// rounds; the limit leaves room for twice as many.
pub open spec fn round_limit_of(digits: nat) -> nat {
    2 * ceil_log2((digits + 2) as int) + 3
}

/// The mathematical state of a converger.
pub struct Progress {
    pub digits: nat,
    pub rounds: nat,
    pub phase: Phase,
}

/// The state before the first round.
pub open spec fn start(digits: nat) -> Progress {
    Progress { digits, rounds: 0, phase: Phase::Iterating }
}

/// The state after a round whose estimate moved by less than the threshold
/// (`below`) or not. A finished iteration stays as it is.
pub open spec fn advance(from: Progress, below: bool) -> Progress {
    if from.phase != Phase::Iterating {
        from
    } else if below {
        Progress { digits: from.digits, rounds: from.rounds + 1, phase: Phase::Converged }
    } else if from.rounds + 1 >= round_limit_of(from.digits) {
        Progress { digits: from.digits, rounds: from.rounds + 1, phase: Phase::Exhausted }
    } else {
        Progress { digits: from.digits, rounds: from.rounds + 1, phase: Phase::Iterating }
    }
}

/// The state after a whole sequence of rounds.
pub open spec fn advance_all(from: Progress, below: Seq<bool>) -> Progress
    decreases below.len(),
{
    if below.len() == 0 {
        from
    } else {
        advance_all(advance(from, below[0]), below.drop_first())
    }
}

/// The round limit grows with the logarithm of the digit count: half of
/// what it allows beyond its three spare rounds is the least number of bits
/// that covers `digits + 2`.
pub proof fn lemma_round_limit_logarithmic(digits: nat)
    ensures
        round_limit_of(digits) == 2 * ceil_log2((digits + 2) as int) + 3,
        digits + 2 <= pow(2, ceil_log2((digits + 2) as int)),
        pow(2, (ceil_log2((digits + 2) as int) - 1) as nat) < digits + 2,
{
    lemma_ceil_log2_bounds((digits + 2) as int);
    assert(ceil_log2((digits + 2) as int) == 1 + ceil_log2((digits + 3) as int / 2));
}

/// A round never takes back what was recorded: the digit count stays, the
/// rounds never exceed the limit, and a finished iteration stays finished.
pub proof fn lemma_advance_keeps_bounds(from: Progress, below: bool)
    requires
        from.rounds <= round_limit_of(from.digits),
        from.phase == Phase::Iterating ==> from.rounds < round_limit_of(from.digits),
    ensures
        advance(from, below).digits == from.digits,
        advance(from, below).rounds <= round_limit_of(from.digits),
        advance(from, below).phase == Phase::Iterating ==> advance(from, below).rounds
            < round_limit_of(from.digits),
        from.phase != Phase::Iterating ==> advance(from, below) == from,
{
}

/// Every iteration ends: after as many rounds as the limit allows, whatever
/// was reported, it has converged or is exhausted.
pub proof fn lemma_iteration_ends(digits: nat, below: Seq<bool>)
    requires
        below.len() >= round_limit_of(digits),
    ensures
        advance_all(start(digits), below).phase != Phase::Iterating,
        advance_all(start(digits), below).rounds <= round_limit_of(digits),
{
    lemma_ends_from(start(digits), below);
}

proof fn lemma_ends_from(from: Progress, below: Seq<bool>)
    requires
        from.rounds <= round_limit_of(from.digits),
        from.phase == Phase::Iterating ==> from.rounds < round_limit_of(from.digits)
            <= from.rounds + below.len(),
    ensures
        advance_all(from, below).phase != Phase::Iterating,
        advance_all(from, below).rounds <= round_limit_of(from.digits),
        advance_all(from, below).digits == from.digits,
    decreases below.len(),
{
    if below.len() > 0 {
        lemma_ends_from(advance(from, below[0]), below.drop_first());
    }
}

/// An iteration converges in the first round that reports agreement, if
/// that round is within the limit; what is reported afterwards changes
/// nothing.
pub proof fn lemma_converges_at_first_agreement(digits: nat, below: Seq<bool>, round: int)
    requires
        0 <= round < below.len(),
        round < round_limit_of(digits),
        below[round],
        forall|earlier: int| 0 <= earlier < round ==> !below[earlier],
    ensures
        advance_all(start(digits), below) == (Progress {
            digits,
            rounds: (round + 1) as nat,
            phase: Phase::Converged,
        }),
{
    lemma_converges_from(start(digits), below, round);
}

proof fn lemma_converges_from(from: Progress, below: Seq<bool>, round: int)
    requires
        from.phase == Phase::Iterating,
        0 <= round < below.len(),
        from.rounds + round < round_limit_of(from.digits),
        below[round],
        forall|earlier: int| 0 <= earlier < round ==> !below[earlier],
    ensures
        advance_all(from, below) == (Progress {
            digits: from.digits,
            rounds: (from.rounds + round + 1) as nat,
            phase: Phase::Converged,
        }),
    decreases below.len(),
{
    let rest = below.drop_first();
    if round == 0 {
        lemma_finished_stays(advance(from, true), rest);
    } else {
        assert forall|earlier: int| 0 <= earlier < round - 1 implies !rest[earlier] by {
            assert(rest[earlier] == below[earlier + 1]);
        }
        assert(!below[0]);
        lemma_converges_from(advance(from, false), rest, round - 1);
    }
}

proof fn lemma_finished_stays(from: Progress, below: Seq<bool>)
    requires
        from.phase != Phase::Iterating,
    ensures
        advance_all(from, below) == from,
    decreases below.len(),
{
    if below.len() > 0 {
        lemma_finished_stays(from, below.drop_first());
    }
}

/// An iteration that never reports agreement within the limit is exhausted
/// after exactly as many rounds as the limit allows.
pub proof fn lemma_exhausted_without_agreement(digits: nat, below: Seq<bool>)
    requires
        below.len() >= round_limit_of(digits),
        forall|round: int| 0 <= round < round_limit_of(digits) ==> !below[round],
    ensures
        advance_all(start(digits), below) == (Progress {
            digits,
            rounds: round_limit_of(digits),
            phase: Phase::Exhausted,
        }),
{
    lemma_exhausted_from(start(digits), below);
}

proof fn lemma_exhausted_from(from: Progress, below: Seq<bool>)
    requires
        from.phase == Phase::Iterating,
        from.rounds < round_limit_of(from.digits),
        from.rounds + below.len() >= round_limit_of(from.digits),
        forall|round: int| 0 <= round < round_limit_of(from.digits) - from.rounds ==> !below[round],
    ensures
        advance_all(from, below) == (Progress {
            digits: from.digits,
            rounds: round_limit_of(from.digits),
            phase: Phase::Exhausted,
        }),
    decreases below.len(),
{
    let rest = below.drop_first();
    assert(!below[0]);
    let next = advance(from, false);
    if next.phase == Phase::Iterating {
        assert forall|round: int| 0 <= round < round_limit_of(next.digits) - next.rounds implies
            !rest[round] by {
            assert(rest[round] == below[round + 1]);
        }
        lemma_exhausted_from(next, rest);
    } else {
        lemma_finished_stays(next, rest);
    }
}

/// The end of an iteration depends on the digit count and on the reports
/// alone: two runs that get the same reports end alike.
pub proof fn lemma_same_reports_same_end(digits: nat, first: Seq<bool>, second: Seq<bool>)
    requires
        first.len() == second.len(),
        forall|round: int| 0 <= round < first.len() ==> first[round] == second[round],
    ensures
        advance_all(start(digits), first) == advance_all(start(digits), second),
{
    assert(first =~= second);
}

/// The exponent `e` of the stopping threshold `10^e`.
pub fn threshold_exponent(digits: usize) -> (exponent: i32)
    requires
        digits <= i32::MAX,
    ensures
        exponent == -(digits as int),
{
    let magnitude: i32 = digits as i32;
    -magnitude
}

/// The number of significant decimal digits to ask the renderer for.
pub fn rendered_digits(digits: usize) -> (count: usize)
    requires
        digits + RENDER_GUARD_DIGITS <= usize::MAX,
    ensures
        count == digits + RENDER_GUARD_DIGITS,
{
    digits + RENDER_GUARD_DIGITS
}

/// The round limit for `digits` digits.
pub fn round_limit(digits: usize) -> (limit: u32)
    ensures
        limit == round_limit_of(digits as nat),
        limit <= 133,
{
    let target: u128 = digits as u128 + 2;
    let mut power: u128 = 1;
    let mut bits: u32 = 0;
    proof {
        lemma_pow0(2);
        lemma2_to64();
        lemma_pow2(64);
    }
    while power < target
        invariant
            power == pow(2, bits as nat),
            bits > 0 ==> pow(2, (bits - 1) as nat) < target,
            target <= 0x1_0000_0000_0000_0001,
            pow(2, 64) == 0x1_0000_0000_0000_0000,
            bits <= 65,
        decreases 65 - bits,
    {
        proof {
            lemma_pow_increases_converse(2, bits as nat, 64);
            lemma_pow_adds(2, bits as nat, 1);
            lemma_pow1(2);
        }
        power = power * 2;
        bits = bits + 1;
    }
    proof {
        lemma_ceil_log2_unique(target as int, bits as nat);
    }
    2 * bits + 3
}

/// Decides, round by round, whether a Gauss–Legendre iteration goes on.
#[derive(Clone, Copy, Debug)]
pub struct Converger {
    digits: usize,
    limit: u32,
    rounds: u32,
    phase: Phase,
}

impl View for Converger {
    type V = Progress;

    closed spec fn view(&self) -> Progress {
        Progress { digits: self.digits as nat, rounds: self.rounds as nat, phase: self.phase }
    }
}

impl Converger {
    #[verifier::type_invariant]
    spec fn well_formed(self) -> bool {
        &&& self.digits <= MAX_DIGITS
        &&& self.limit == round_limit_of(self.digits as nat)
        &&& self.rounds <= self.limit
        &&& self.phase == Phase::Iterating ==> self.rounds < self.limit
        &&& self.phase != Phase::Iterating ==> self.rounds >= 1
    }

    /// A converger before its first round, for a digit count within range.
    pub fn new(digits: usize) -> (made: Result<Converger, TauError>)
        ensures
            digits <= MAX_DIGITS ==> made is Ok && made->Ok_0@ == start(digits as nat),
            digits > MAX_DIGITS ==> made is Err && made->Err_0 == TauError::DigitsOutOfRange,
    {
        if digits > MAX_DIGITS {
            return Err(TauError::DigitsOutOfRange);
        }
        let limit = round_limit(digits);
        Ok(Converger { digits, limit, rounds: 0, phase: Phase::Iterating })
    }

    /// The requested number of decimal digits.
    pub fn digits(&self) -> (digits: usize)
        ensures
            digits == self@.digits,
            digits <= MAX_DIGITS,
    {
        proof {
            use_type_invariant(self);
        }
        self.digits
    }

    /// The precision, in bits, of every value of the iteration.
    pub fn precision(&self) -> (precision: u32)
        ensures
            precision == precision_bits(self@.digits),
    {
        proof {
            use_type_invariant(self);
        }
        working_precision(self.digits)
    }

    /// The exponent `e` of the stopping threshold `10^e`.
    pub fn threshold_exponent(&self) -> (exponent: i32)
        ensures
            exponent == -(self@.digits as int),
    {
        proof {
            use_type_invariant(self);
        }
        threshold_exponent(self.digits)
    }

    /// The number of significant decimal digits to ask the renderer for.
    pub fn rendered_digits(&self) -> (count: usize)
        ensures
            count == self@.digits + RENDER_GUARD_DIGITS,
    {
        proof {
            use_type_invariant(self);
        }
        rendered_digits(self.digits)
    }

    /// The most rounds this iteration may take.
    pub fn round_limit(&self) -> (limit: u32)
        ensures
            limit == round_limit_of(self@.digits),
    {
        proof {
            use_type_invariant(self);
        }
        self.limit
    }

    /// The rounds recorded so far.
    pub fn rounds(&self) -> (rounds: u32)
        ensures
            rounds == self@.rounds,
            rounds <= round_limit_of(self@.digits),
    {
        proof {
            use_type_invariant(self);
        }
        self.rounds
    }

    /// Where the iteration stands.
    pub fn phase(&self) -> (phase: Phase)
        ensures
            phase == self@.phase,
    {
        self.phase
    }

    /// Records the round just computed: `below_threshold` says whether its
    /// estimate differs from the one before by less than the threshold.
    /// Returns where the iteration stands now.
    pub fn record(&mut self, below_threshold: bool) -> (phase: Phase)
        ensures
            final(self)@ == advance(old(self)@, below_threshold),
            phase == final(self)@.phase,
    {
        proof {
            use_type_invariant(&*self);
        }
        match self.phase {
            Phase::Iterating => {
                let rounds: u32 = self.rounds + 1;
                let phase = if below_threshold {
                    Phase::Converged
                } else if rounds >= self.limit {
                    Phase::Exhausted
                } else {
                    Phase::Iterating
                };
                *self = Converger { digits: self.digits, limit: self.limit, rounds, phase };
                phase
            },
            finished => finished,
        }
    }

    /// The number of rounds a finished iteration took, or why it has no
    /// result. `None` while the iteration is still going on.
    pub fn outcome(&self) -> (outcome: Option<Result<u32, TauError>>)
        ensures
            outcome == match self@.phase {
                Phase::Iterating => None::<Result<u32, TauError>>,
                Phase::Converged => Some(Ok::<u32, TauError>(self@.rounds as u32)),
                Phase::Exhausted => Some(Err::<u32, TauError>(TauError::NotConverged)),
            },
            outcome matches Some(Ok(rounds)) ==> 1 <= rounds <= round_limit_of(self@.digits),
    {
        proof {
            use_type_invariant(self);
        }
        match self.phase {
            Phase::Iterating => None,
            Phase::Converged => Some(Ok(self.rounds)),
            Phase::Exhausted => Some(Err(TauError::NotConverged)),
        }
    }
}

} // verus!
