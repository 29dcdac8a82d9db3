//! The strategy and signal contract, and the bundled strategies.
//!
//! A strategy is a pure state machine over an input stream: each step
//! consumes one input, updates the internal state, and emits at most one
//! [`Signal`]. The contract pins both effects down as functions of the prior
//! state and the input alone, so every strategy in this crate is
//! deterministic by construction — no hidden global state, no look-ahead.
//!
//! Prices inside signals are integers (`i64`), e.g. a fixed-point tick count;
//! the signal copies the triggering price rather than borrowing it, so a
//! signal stream never ties its lifetime to the input buffer.

use vstd::prelude::*;
use vstd::arithmetic::div_mod::lemma_fundamental_div_mod;
use vstd::arithmetic::div_mod::lemma_fundamental_div_mod_converse;
use vstd::arithmetic::div_mod::lemma_mod_division_less_than_divisor;
use vstd::arithmetic::div_mod::lemma_div_nonincreasing;
use vstd::arithmetic::mul::lemma_mul_inequality;
use crate::errors::Error;

verus! {

/// A point-in-time trading event, carrying the price that triggered it.
#[derive(Clone, Copy, PartialEq, Eq, Structural, Debug)]
pub enum Signal {
    Buy { entry_price: i64 },
    Sell { entry_price: i64 },
}

/// A single-step, no-look-ahead transform: each call consumes one input,
/// advances the internal state, and returns one output. Both effects are
/// pure functions of the prior state and the input, which implementors spell
/// out as the two spec functions.
pub trait Indicator<Input, Output>: Sized {
    /// The output the next step will return.
    spec fn output_spec(&self, input: Input) -> Output;

    /// The state the next step will leave behind.
    spec fn advanced_spec(&self, input: Input) -> Self;

    fn next(&mut self, input: &Input) -> (r: Output)
        ensures
            r == old(self).output_spec(*input),
            *final(self) == old(self).advanced_spec(*input),
    ;
}

/// A stateful strategy over an input stream: each step consumes one input,
/// advances the internal state, and emits at most one [`Signal`]. As with
/// [`Indicator`], both effects are pure functions of the prior state and the
/// input, so replaying the same stream from the same state always yields the
/// same signal sequence.
pub trait Strategy<Input>: Sized {
    /// The signal, if any, the next step will emit.
    spec fn emitted_spec(&self, input: Input) -> Option<Signal>;

    /// The state the next step will leave behind.
    spec fn advanced_spec(&self, input: Input) -> Self;

    fn next(&mut self, input: &Input) -> (r: Option<Signal>)
        ensures
            r == old(self).emitted_spec(*input),
            *final(self) == old(self).advanced_spec(*input),
    ;
}

/// A stateful filter over an input stream, for scanning instruments in or
/// out of a candidate set. No implementation ships with the core.
pub trait Scanner<Input> {
    fn filter(&mut self, input: Input) -> bool;
}

/// Placeholder for a strategy that reads several sampling intervals at once.
pub struct MultiTimeFrameStrategy {}

/// Placeholder for a strategy that reads several instruments at once.
pub struct MultiTickerStrategy {}

/// A smoothing indicator over integer prices. The smoothing recurrence
/// itself is a collaborator concern and out of the core's scope; the core
/// ships a placeholder transform that doubles its input (saturating at the
/// `i64` bounds) and keeps no state between steps.
#[derive(Clone, Copy, PartialEq, Eq, Structural, Debug)]
pub struct EMAIndicator {
    pub period: usize,
}

/// `x` doubled, clamped into the `i64` range.
pub open spec fn double_saturating(x: i64) -> i64 {
    if 2 * x > i64::MAX {
        i64::MAX
    } else if 2 * x < i64::MIN {
        i64::MIN
    } else {
        (2 * x) as i64
    }
}

impl Indicator<i64, i64> for EMAIndicator {
    open spec fn output_spec(&self, input: i64) -> i64 {
        double_saturating(input)
    }

    open spec fn advanced_spec(&self, input: i64) -> EMAIndicator {
        *self
    }

    fn next(&mut self, input: &i64) -> (r: i64) {
        if *input > i64::MAX / 2 {
            i64::MAX
        } else if *input < i64::MIN / 2 {
            i64::MIN
        } else {
            *input * 2
        }
    }
}

/// A two-indicator crossover strategy: each step feeds the input to a fast
/// and a slow indicator and emits `Buy` at the triggering price when the fast
/// output exceeds the slow one, `Sell` otherwise — a tie counts as `Sell`.
/// One signal is emitted on every step.
#[derive(Clone, Copy, PartialEq, Eq, Structural, Debug)]
pub struct EMACrossOverStrategy {
    pub fast_ema: EMAIndicator,
    pub slow_ema: EMAIndicator,
}

impl EMACrossOverStrategy {
    pub fn new(fast_period: usize, slow_period: usize) -> (r: EMACrossOverStrategy)
        ensures
            r.fast_ema.period == fast_period,
            r.slow_ema.period == slow_period,
    {
        EMACrossOverStrategy {
            fast_ema: EMAIndicator { period: fast_period },
            slow_ema: EMAIndicator { period: slow_period },
        }
    }
}

impl Strategy<i64> for EMACrossOverStrategy {
    open spec fn emitted_spec(&self, input: i64) -> Option<Signal> {
        if self.slow_ema.output_spec(input) < self.fast_ema.output_spec(input) {
            Some(Signal::Buy { entry_price: input })
        } else {
            Some(Signal::Sell { entry_price: input })
        }
    }

    open spec fn advanced_spec(&self, input: i64) -> EMACrossOverStrategy {
        EMACrossOverStrategy {
            fast_ema: self.fast_ema.advanced_spec(input),
            slow_ema: self.slow_ema.advanced_spec(input),
        }
    }

    fn next(&mut self, input: &i64) -> (r: Option<Signal>) {
        let slow_ema_value = self.slow_ema.next(input);
        let fast_ema_value = self.fast_ema.next(input);
        if slow_ema_value < fast_ema_value {
            Some(Signal::Buy { entry_price: *input })
        } else {
            Some(Signal::Sell { entry_price: *input })
        }
    }
}

/// The simplest bundled strategy: emits `Buy` at the triggering price when
/// the input rises above a fixed threshold and `Sell` otherwise, keeping no
/// state between steps. Handy for driving a harness through both sides of
/// its position accounting.
#[derive(Clone, Copy, PartialEq, Eq, Structural, Debug)]
pub struct ThresholdStrategy {
    pub threshold: i64,
}

impl Strategy<i64> for ThresholdStrategy {
    open spec fn emitted_spec(&self, input: i64) -> Option<Signal> {
        if input > self.threshold {
            Some(Signal::Buy { entry_price: input })
        } else {
            Some(Signal::Sell { entry_price: input })
        }
    }

    open spec fn advanced_spec(&self, input: i64) -> ThresholdStrategy {
        *self
    }

    fn next(&mut self, input: &i64) -> (r: Option<Signal>) {
        if *input > self.threshold {
            Some(Signal::Buy { entry_price: *input })
        } else {
            Some(Signal::Sell { entry_price: *input })
        }
    }
}

/// One numeric range for a parameter sweep: the candidate values are
/// `from, from + step, from + 2 * step, ...`, strictly below `to`.
#[derive(Clone, Debug)]
pub struct Params<I> {
    pub name: String,
    pub from: I,
    pub to: I,
    pub step: I,
}

/// How many candidates the range `{from, from + step, ...} < to` yields.
pub open spec fn sweep_count(from: int, to: int, step: int) -> int {
    if from >= to || step <= 0 {
        0
    } else {
        (to - from - 1) / step + 1
    }
}

/// The `k`-th candidate of a non-empty sweep range stays strictly below `to`.
pub proof fn lemma_sweep_value_in_range(from: int, to: int, step: int, k: int)
    requires
        step >= 1,
        from < to,
        0 <= k < sweep_count(from, to, step),
    ensures
        k * step <= to - from - 1,
        from + k * step < to,
{
    let d = to - from - 1;
    lemma_mul_inequality(k, d / step, step);
    lemma_fundamental_div_mod(d, step);
    lemma_mod_division_less_than_divisor(d, step);
}

/// A grid of crossover strategies built by crossing two parameter ranges:
/// one sub-strategy per pair `(x, y)` with `x` a fast period from the first
/// range and `y` a slow period from the second, laid out row by row — the
/// sub-strategy at index `k` carries the pair number `k` of the cross
/// product, so a later score can be attributed to its parameter pair.
pub struct ParameterizedEMACrossOverStrategy {
    pub strategies: Vec<EMACrossOverStrategy>,
}

impl ParameterizedEMACrossOverStrategy {
    /// Builds the full cross product of the two ranges. Either range yielding
    /// no candidate (`from >= to`) makes the sweep degenerate, which is
    /// refused with `EmptyRange`. A zero step would make a range endless, so
    /// the caller must pass positive steps.
    pub fn from_params(p1: &Params<usize>, p2: &Params<usize>) -> (r: Result<
        ParameterizedEMACrossOverStrategy,
        Error,
    >)
        requires
            p1.step >= 1,
            p2.step >= 1,
        ensures
            r is Err <==> (p1.from >= p1.to || p2.from >= p2.to),
            match r {
                Ok(s) => {
                    &&& s.strategies@.len() == sweep_count(
                        p1.from as int,
                        p1.to as int,
                        p1.step as int,
                    ) * sweep_count(p2.from as int, p2.to as int, p2.step as int)
                    &&& forall|k: int|
                        0 <= k < s.strategies@.len() ==> {
                            let n2 = sweep_count(p2.from as int, p2.to as int, p2.step as int);
                            &&& (#[trigger] s.strategies@[k]).fast_ema.period == p1.from + (k / n2)
                                * p1.step
                            &&& s.strategies@[k].slow_ema.period == p2.from + (k % n2) * p2.step
                        }
                },
                Err(e) => e == Error::EmptyRange,
            },
    {
        if p1.from >= p1.to || p2.from >= p2.to {
            return Err(Error::EmptyRange);
        }
        proof {
            lemma_div_nonincreasing((p1.to - p1.from - 1) as int, p1.step as int);
            lemma_div_nonincreasing((p2.to - p2.from - 1) as int, p2.step as int);
        }
        let n1: usize = (p1.to - p1.from - 1) / p1.step + 1;
        let n2: usize = (p2.to - p2.from - 1) / p2.step + 1;
        let mut strategies: Vec<EMACrossOverStrategy> = Vec::new();
        let mut i: usize = 0;
        while i < n1
            invariant
                p1.step >= 1,
                p2.step >= 1,
                p1.from < p1.to,
                p2.from < p2.to,
                n1 == sweep_count(p1.from as int, p1.to as int, p1.step as int),
                n2 == sweep_count(p2.from as int, p2.to as int, p2.step as int),
                i <= n1,
                strategies@.len() == i * n2,
                forall|k: int|
                    0 <= k < strategies@.len() ==> {
                        &&& (#[trigger] strategies@[k]).fast_ema.period == p1.from + (k / (
                        n2 as int)) * p1.step
                        &&& strategies@[k].slow_ema.period == p2.from + (k % (n2 as int))
                            * p2.step
                    },
            decreases n1 - i,
        {
            proof {
                lemma_sweep_value_in_range(p1.from as int, p1.to as int, p1.step as int, i as int);
            }
            let x: usize = p1.from + i * p1.step;
            let mut j: usize = 0;
            while j < n2
                invariant
                    p1.step >= 1,
                    p2.step >= 1,
                    p1.from < p1.to,
                    p2.from < p2.to,
                    n1 == sweep_count(p1.from as int, p1.to as int, p1.step as int),
                    n2 == sweep_count(p2.from as int, p2.to as int, p2.step as int),
                    i < n1,
                    j <= n2,
                    x == p1.from + i * p1.step,
                    strategies@.len() == i * n2 + j,
                    forall|k: int|
                        0 <= k < strategies@.len() ==> {
                            &&& (#[trigger] strategies@[k]).fast_ema.period == p1.from + (k / (
                            n2 as int)) * p1.step
                            &&& strategies@[k].slow_ema.period == p2.from + (k % (n2 as int))
                                * p2.step
                        },
                decreases n2 - j,
            {
                proof {
                    lemma_sweep_value_in_range(
                        p2.from as int,
                        p2.to as int,
                        p2.step as int,
                        j as int,
                    );
                }
                let y: usize = p2.from + j * p2.step;
                strategies.push(EMACrossOverStrategy::new(x, y));
                proof {
                    lemma_fundamental_div_mod_converse(
                        i * (n2 as int) + j,
                        n2 as int,
                        i as int,
                        j as int,
                    );
                }
                j = j + 1;
            }
            proof {
                assert((i + 1) * (n2 as int) == i * (n2 as int) + n2 as int) by (nonlinear_arith);
            }
            i = i + 1;
        }
        Ok(ParameterizedEMACrossOverStrategy { strategies })
    }
}

impl Strategy<i64> for ParameterizedEMACrossOverStrategy {
    /// Aggregation policy: pass-through-none. The composite drives every
    /// sub-strategy but contributes no signal of its own; scoring the
    /// sub-strategies' emissions is the harness caller's concern.
    open spec fn emitted_spec(&self, input: i64) -> Option<Signal> {
        None
    }

    /// The bundled crossover sub-strategies keep no state between steps, so
    /// one step over the grid leaves the composite exactly as it was.
    open spec fn advanced_spec(&self, input: i64) -> ParameterizedEMACrossOverStrategy {
        *self
    }

    fn next(&mut self, input: &i64) -> (r: Option<Signal>) {
        let mut k: usize = 0;
        while k < self.strategies.len()
            invariant
                k <= self.strategies@.len(),
            decreases self.strategies@.len() - k,
        {
            // Each sub-strategy is driven on a copy: its step contract says
            // the advanced state equals the stored one, so nothing needs to
            // be written back.
            let mut s = self.strategies[k];
            let _ = s.next(input);
            k = k + 1;
        }
        None
    }
}

} // verus!

