//! Exponential backoff on whole nanoseconds.
//!
//! A wait grows by a constant factor from one retry to the next. The factor
//! is a ratio of two whole numbers, and a wait is a whole number of
//! nanoseconds: each step multiplies the previous wait by the numerator and
//! divides by the denominator, dropping any fraction of a nanosecond. The
//! wait that is handed out never exceeds a ceiling.

use crate::time::max_duration_nanos;
use vstd::arithmetic::power::pow;
use vstd::prelude::*;

verus! {

/// The wait after `steps` multiplications of `start` by
/// `numerator / denominator`, before the ceiling is applied.
pub open spec fn scaled_delay(start: nat, numerator: nat, denominator: nat, steps: nat) -> nat
    decreases steps,
{
    if steps == 0 {
        start
    } else {
        scaled_delay(start, numerator, denominator, (steps - 1) as nat) * numerator / denominator
    }
}

/// The wait before retry number `steps` (the first retry is number 0): the
/// scaled wait, or `cap` where the scaled wait is longer.
pub open spec fn capped_delay(
    start: nat,
    numerator: nat,
    denominator: nat,
    cap: nat,
    steps: nat,
) -> nat {
    let scaled = scaled_delay(start, numerator, denominator, steps);
    if scaled <= cap {
        scaled
    } else {
        cap
    }
}

/// The factor by which a wait grows from one retry to the next, as a ratio
/// of two whole numbers. The denominator is never zero.
#[derive(Clone, Copy, Debug)]
pub struct BackoffFactor {
    numerator: u32,
    denominator: u32,
}

impl BackoffFactor {
    #[verifier::type_invariant]
    spec fn nonzero_denominator(self) -> bool {
        self.denominator > 0
    }

    /// The numerator of the ratio.
    pub closed spec fn spec_numerator(self) -> nat {
        self.numerator as nat
    }

    /// The denominator of the ratio.
    pub closed spec fn spec_denominator(self) -> nat {
        self.denominator as nat
    }

    /// The factor `numerator / denominator`, or `None` for a zero denominator.
    pub fn new(numerator: u32, denominator: u32) -> (factor: Option<Self>)
        ensures
            factor is None <==> denominator == 0,
            factor matches Some(f) ==> f.spec_numerator() == numerator && f.spec_denominator()
                == denominator,
    {
        if denominator == 0 {
            None
        } else {
            Some(BackoffFactor { numerator, denominator })
        }
    }

    /// The whole-number factor `factor / 1`.
    pub fn whole(factor: u32) -> (f: Self)
        ensures
            f.spec_numerator() == factor,
            f.spec_denominator() == 1,
    {
        BackoffFactor { numerator: factor, denominator: 1 }
    }

    /// The numerator of the ratio.
    pub fn numerator(&self) -> (n: u32)
        ensures
            n == self.spec_numerator(),
    {
        self.numerator
    }

    /// The denominator of the ratio, which is not zero.
    pub fn denominator(&self) -> (d: u32)
        ensures
            d == self.spec_denominator(),
            d > 0,
    {
        proof {
            use_type_invariant(self);
        }
        self.denominator
    }
}

/// One step never shortens a wait when the factor is at least one.
proof fn lemma_step_grows(wait: nat, numerator: nat, denominator: nat)
    requires
        0 < denominator <= numerator,
    ensures
        wait <= wait * numerator / denominator,
{
    assert(wait * denominator <= wait * numerator) by (nonlinear_arith)
        requires
            denominator <= numerator,
    ;
    assert(wait * denominator / denominator == wait) by (nonlinear_arith)
        requires
            denominator > 0,
    ;
    assert(wait * denominator / denominator <= wait * numerator / denominator)
        by (nonlinear_arith)
        requires
            wait * denominator <= wait * numerator,
            denominator > 0,
    ;
}

/// One step never lengthens a wait when the factor is at most one.
proof fn lemma_step_shrinks(wait: nat, numerator: nat, denominator: nat)
    requires
        numerator <= denominator,
        0 < denominator,
    ensures
        wait * numerator / denominator <= wait,
{
    assert(wait * numerator <= wait * denominator) by (nonlinear_arith)
        requires
            numerator <= denominator,
    ;
    assert(wait * denominator / denominator == wait) by (nonlinear_arith)
        requires
            denominator > 0,
    ;
    assert(wait * numerator / denominator <= wait * denominator / denominator)
        by (nonlinear_arith)
        requires
            wait * numerator <= wait * denominator,
            denominator > 0,
    ;
}

/// With a factor of at least one, the scaled wait never decreases from one
/// retry to a later one.
pub proof fn lemma_scaled_delay_monotonic(
    start: nat,
    numerator: nat,
    denominator: nat,
    earlier: nat,
    later: nat,
)
    requires
        0 < denominator <= numerator,
        earlier <= later,
    ensures
        scaled_delay(start, numerator, denominator, earlier) <= scaled_delay(
            start,
            numerator,
            denominator,
            later,
        ),
    decreases later,
{
    if earlier < later {
        let before = (later - 1) as nat;
        lemma_scaled_delay_monotonic(start, numerator, denominator, earlier, before);
        lemma_step_grows(scaled_delay(start, numerator, denominator, before), numerator, denominator);
    }
}

/// With a factor of at most one, the scaled wait never exceeds the first one.
pub proof fn lemma_scaled_delay_bounded_by_start(
    start: nat,
    numerator: nat,
    denominator: nat,
    steps: nat,
)
    requires
        numerator <= denominator,
        0 < denominator,
    ensures
        scaled_delay(start, numerator, denominator, steps) <= start,
    decreases steps,
{
    if steps > 0 {
        let before = (steps - 1) as nat;
        lemma_scaled_delay_bounded_by_start(start, numerator, denominator, before);
        lemma_step_shrinks(scaled_delay(start, numerator, denominator, before), numerator, denominator);
    }
}

/// Once a step leaves the wait unchanged, every later step does too.
pub proof fn lemma_scaled_delay_settles(
    start: nat,
    numerator: nat,
    denominator: nat,
    settled: nat,
    later: nat,
)
    requires
        settled <= later,
        scaled_delay(start, numerator, denominator, settled + 1) == scaled_delay(
            start,
            numerator,
            denominator,
            settled,
        ),
    ensures
        scaled_delay(start, numerator, denominator, later) == scaled_delay(
            start,
            numerator,
            denominator,
            settled,
        ),
    decreases later,
{
    if settled < later {
        lemma_scaled_delay_settles(start, numerator, denominator, settled, (later - 1) as nat);
    }
}

/// Each step drops less than one nanosecond: the next wait is the whole
/// part of the previous wait times the factor.
pub proof fn lemma_scaled_delay_step(start: nat, numerator: nat, denominator: nat, steps: nat)
    requires
        denominator > 0,
    ensures
        scaled_delay(start, numerator, denominator, steps + 1) * denominator <= scaled_delay(
            start,
            numerator,
            denominator,
            steps,
        ) * numerator,
        scaled_delay(start, numerator, denominator, steps) * numerator < (scaled_delay(
            start,
            numerator,
            denominator,
            steps + 1,
        ) + 1) * denominator,
{
    let product = scaled_delay(start, numerator, denominator, steps) * numerator;
    assert(scaled_delay(start, numerator, denominator, steps + 1) == product / denominator);
    assert((product / denominator) * denominator <= product < (product / denominator + 1)
        * denominator) by (nonlinear_arith)
        requires
            denominator > 0,
            product >= 0,
    ;
}

/// With a whole-number factor nothing is dropped: the scaled wait is the
/// first wait times the factor raised to the number of steps.
pub proof fn lemma_scaled_delay_whole_factor(start: nat, factor: nat, steps: nat)
    ensures
        scaled_delay(start, factor, 1, steps) == start * pow(factor as int, steps),
    decreases steps,
{
    reveal(pow);
    if steps > 0 {
        let before = (steps - 1) as nat;
        lemma_scaled_delay_whole_factor(start, factor, before);
        assert(start * pow(factor as int, before) * factor == start * (factor * pow(
            factor as int,
            before,
        ))) by (nonlinear_arith);
    }
}

/// Dropping fractions only ever shortens a wait: the scaled wait is at most
/// the first wait times the exact power of the factor.
pub proof fn lemma_scaled_delay_at_most_exact(
    start: nat,
    numerator: nat,
    denominator: nat,
    steps: nat,
)
    requires
        denominator > 0,
    ensures
        scaled_delay(start, numerator, denominator, steps) * pow(denominator as int, steps)
            <= start * pow(numerator as int, steps),
    decreases steps,
{
    reveal(pow);
    if steps > 0 {
        let before = (steps - 1) as nat;
        lemma_scaled_delay_at_most_exact(start, numerator, denominator, before);
        let prev = scaled_delay(start, numerator, denominator, before);
        let dp = pow(denominator as int, before);
        let np = pow(numerator as int, before);
        vstd::arithmetic::power::lemma_pow_positive(denominator as int, before);
        assert(np >= 0) by {
            if numerator == 0 && before > 0 {
                vstd::arithmetic::power::lemma0_pow(before);
            } else if numerator > 0 {
                vstd::arithmetic::power::lemma_pow_positive(numerator as int, before);
            }
        }
        assert((prev * numerator / denominator) * denominator <= prev * numerator)
            by (nonlinear_arith)
            requires
                denominator > 0,
        ;
        assert((prev * numerator / denominator) * (denominator * dp) <= start * (numerator * np))
            by (nonlinear_arith)
            requires
                (prev * numerator / denominator) * denominator <= prev * numerator,
                prev * dp <= start * np,
                dp > 0,
                np >= 0,
                denominator > 0,
        ;
    }
}

/// The wait before retry number `steps`, computed on whole nanoseconds.
pub fn capped_delay_nanos(
    start: u128,
    numerator: u32,
    denominator: u32,
    cap: u128,
    steps: u32,
) -> (wait: u128)
    requires
        denominator > 0,
        start <= max_duration_nanos(),
        cap <= max_duration_nanos(),
    ensures
        wait == capped_delay(
            start as nat,
            numerator as nat,
            denominator as nat,
            cap as nat,
            steps as nat,
        ),
        wait <= cap,
{
    let n: u128 = numerator as u128;
    let d: u128 = denominator as u128;
    let mut current: u128 = start;
    let mut done: u32 = 0;
    while done < steps
        invariant
            done <= steps,
            n == numerator,
            d == denominator,
            d > 0,
            start <= max_duration_nanos(),
            cap <= max_duration_nanos(),
            current == scaled_delay(start as nat, n as nat, d as nat, done as nat),
            n < d ==> current <= start,
        decreases steps - done,
    {
        if n >= d && current >= cap {
            proof {
                lemma_scaled_delay_monotonic(
                    start as nat,
                    n as nat,
                    d as nat,
                    done as nat,
                    steps as nat,
                );
            }
            return cap;
        }
        assert(current * n <= u128::MAX) by (nonlinear_arith)
            requires
                current <= 18_446_744_073_709_551_615 * 1_000_000_000 + 999_999_999,
                n <= 0xffff_ffff,
        ;
        let next: u128 = current * n / d;
        assert(next == scaled_delay(start as nat, n as nat, d as nat, (done + 1) as nat));
        if next == current {
            proof {
                lemma_scaled_delay_settles(
                    start as nat,
                    n as nat,
                    d as nat,
                    done as nat,
                    steps as nat,
                );
            }
            return if current <= cap {
                current
            } else {
                cap
            };
        }
        proof {
            if n < d {
                lemma_scaled_delay_bounded_by_start(
                    start as nat,
                    n as nat,
                    d as nat,
                    (done + 1) as nat,
                );
            }
        }
        current = next;
        done = done + 1;
    }
    if current <= cap {
        current
    } else {
        cap
    }
}

} // verus!
