//! Replay harnesses: BackTest for bounded, pre-collected input, LiveRun for
//! an open-ended stream fed in batches.
//!
//! Both feed one input at a time to a strategy in sequence order. BackTest
//! additionally folds every emitted signal into a running
//! [`StrategySummary`], under this position-accounting rule: the harness
//! holds at most one open long position. A `Buy` while flat opens a position
//! at the signal's price; a `Buy` while already open only marks the open
//! position to market (`open_pnl` becomes the price moved since entry); a
//! `Sell` while open realizes the difference into `pnl` (saturating at the
//! `i128` bounds) and closes the position; a `Sell` while flat changes
//! nothing. The whole replay is a pure function of the starting state and
//! the input sequence, so identical runs produce identical summaries.

use vstd::prelude::*;
use core::marker::PhantomData;
use crate::strategy::Signal;
use crate::strategy::Strategy;
use crate::series::Timestamp;

verus! {

/// The running outcome of a replay: realized profit-and-loss, and the
/// unrealized (marked-to-market) profit-and-loss of the open position.
/// Mutated only by the harness as it folds signals; strategies never touch
/// it.
#[derive(Clone, Copy, PartialEq, Eq, Structural, Debug)]
pub struct StrategySummary {
    pub pnl: i128,
    pub open_pnl: i128,
}

/// Where a harness stands in its lifecycle. A backtest ends `Completed`; a
/// live run has no natural end and leaves `Running` only by an external
/// [`LiveRun::cancel`].
#[derive(Clone, Copy, PartialEq, Eq, Structural, Debug)]
pub enum RunState {
    Idle,
    Running,
    Completed,
    Cancelled,
}

/// `x` clamped into the `i128` range.
pub open spec fn clamp_i128(x: int) -> i128 {
    if x > i128::MAX {
        i128::MAX
    } else if x < i128::MIN {
        i128::MIN
    } else {
        x as i128
    }
}

/// One signal folded into the running position and summary, under the
/// accounting rule documented at the module head.
pub open spec fn apply_signal(
    position: Option<i64>,
    summary: StrategySummary,
    sig: Option<Signal>,
) -> (Option<i64>, StrategySummary) {
    match sig {
        None => (position, summary),
        Some(Signal::Buy { entry_price }) => match position {
            None => (Some(entry_price), StrategySummary { pnl: summary.pnl, open_pnl: 0 }),
            Some(entry) => (
                Some(entry),
                StrategySummary { pnl: summary.pnl, open_pnl: (entry_price - entry) as i128 },
            ),
        },
        Some(Signal::Sell { entry_price }) => match position {
            Some(entry) => (
                None,
                StrategySummary {
                    pnl: clamp_i128(summary.pnl + entry_price - entry),
                    open_pnl: 0,
                },
            ),
            None => (position, summary),
        },
    }
}

/// The strategy state, position and summary that a replay of `inputs` leaves
/// behind: each input is fed to the strategy in sequence order and the
/// emitted signal folded into the account.
pub open spec fn replay<Input, S: Strategy<Input>>(
    strategy: S,
    position: Option<i64>,
    summary: StrategySummary,
    inputs: Seq<Input>,
) -> (S, Option<i64>, StrategySummary)
    decreases inputs.len(),
{
    if inputs.len() == 0 {
        (strategy, position, summary)
    } else {
        let sig = strategy.emitted_spec(inputs[0]);
        let folded = apply_signal(position, summary, sig);
        replay(strategy.advanced_spec(inputs[0]), folded.0, folded.1, inputs.drop_first())
    }
}

/// Replaying one more input equals replaying the prefix, then folding that
/// input into the result.
pub proof fn lemma_replay_snoc<Input, S: Strategy<Input>>(
    strategy: S,
    position: Option<i64>,
    summary: StrategySummary,
    inputs: Seq<Input>,
    x: Input,
)
    ensures
        replay(strategy, position, summary, inputs.push(x)) == {
            let mid = replay(strategy, position, summary, inputs);
            let folded = apply_signal(mid.1, mid.2, mid.0.emitted_spec(x));
            (mid.0.advanced_spec(x), folded.0, folded.1)
        },
    decreases inputs.len(),
{
    if inputs.len() == 0 {
        let folded = apply_signal(position, summary, strategy.emitted_spec(x));
        assert(inputs.push(x)[0] == x);
        assert(inputs.push(x).drop_first() =~= Seq::<Input>::empty());
        assert(replay(strategy.advanced_spec(x), folded.0, folded.1, inputs.push(x).drop_first())
            == (strategy.advanced_spec(x), folded.0, folded.1));
        assert(replay(strategy, position, summary, inputs.push(x)) == (
            strategy.advanced_spec(x),
            folded.0,
            folded.1,
        ));
        assert(replay(strategy, position, summary, inputs) == (strategy, position, summary));
    } else {
        let sig = strategy.emitted_spec(inputs[0]);
        let folded = apply_signal(position, summary, sig);
        assert(inputs.push(x)[0] == inputs[0]);
        assert(inputs.push(x).drop_first() =~= inputs.drop_first().push(x));
        lemma_replay_snoc(
            strategy.advanced_spec(inputs[0]),
            folded.0,
            folded.1,
            inputs.drop_first(),
            x,
        );
        assert(replay(strategy, position, summary, inputs.push(x)) == replay(
            strategy.advanced_spec(inputs[0]),
            folded.0,
            folded.1,
            inputs.drop_first().push(x),
        ));
        assert(replay(strategy, position, summary, inputs) == replay(
            strategy.advanced_spec(inputs[0]),
            folded.0,
            folded.1,
            inputs.drop_first(),
        ));
    }
}

/// Law: a replay is a pure function of the starting state and the input
/// sequence. Two harnesses that start from the same strategy state, position
/// and summary and are fed the identical input sequence end in the identical
/// state — in particular, with the identical summary.
pub proof fn lemma_replay_deterministic<Input, S: Strategy<Input>>(
    first: BackTest<Input, S>,
    second: BackTest<Input, S>,
    inputs: Seq<Input>,
)
    requires
        first.strategy == second.strategy,
        first.position == second.position,
        first.summary == second.summary,
    ensures
        replay(first.strategy, first.position, first.summary, inputs) == replay(
            second.strategy,
            second.position,
            second.summary,
            inputs,
        ),
{
}

/// `a + b`, saturating at the `i128` bounds.
fn saturating_add_i128(a: i128, b: i128) -> (r: i128)
    ensures
        r == clamp_i128(a + b),
{
    if b >= 0 {
        if a > i128::MAX - b {
            i128::MAX
        } else {
            a + b
        }
    } else {
        if a < i128::MIN - b {
            i128::MIN
        } else {
            a + b
        }
    }
}

/// Bounded replay over a finite, pre-collected input slice between two
/// timestamps. `run` drives the strategy over the whole slice and folds the
/// emitted signals into the summary; the timestamps record which window the
/// input was collected from.
pub struct BackTest<Input, S: Strategy<Input>> {
    pub strategy: S,
    pub from: Timestamp,
    pub to: Timestamp,
    pub summary: StrategySummary,
    pub position: Option<i64>,
    pub state: RunState,
    pub _input: PhantomData<Input>,
}

impl<Input, S: Strategy<Input>> BackTest<Input, S> {
    /// A fresh, idle backtest with a zeroed summary and no open position.
    pub fn new(strategy: S, from: Timestamp, to: Timestamp) -> (r: BackTest<Input, S>)
        ensures
            r.strategy == strategy,
            r.from == from,
            r.to == to,
            r.summary == (StrategySummary { pnl: 0, open_pnl: 0 }),
            r.position.is_none(),
            r.state == RunState::Idle,
    {
        BackTest {
            strategy,
            from,
            to,
            summary: StrategySummary { pnl: 0, open_pnl: 0 },
            position: None,
            state: RunState::Idle,
            _input: PhantomData,
        }
    }

    /// Replays `data` in sequence order: each input is fed to the strategy
    /// once, every emitted signal is folded into the summary, and the run
    /// ends `Completed`. Returns the summary as of the end of the run.
    pub fn run(&mut self, data: &[Input]) -> (r: StrategySummary)
        ensures
            ({
                let end = replay(
                    old(self).strategy,
                    old(self).position,
                    old(self).summary,
                    data@,
                );
                &&& final(self).strategy == end.0
                &&& final(self).position == end.1
                &&& final(self).summary == end.2
                &&& r == end.2
            }),
            final(self).from == old(self).from,
            final(self).to == old(self).to,
            final(self).state == RunState::Completed,
    {
        self.state = RunState::Running;
        let n: usize = data.len();
        let mut idx: usize = 0;
        while idx < n
            invariant
                n == data@.len(),
                idx <= n,
                (self.strategy, self.position, self.summary) == replay(
                    old(self).strategy,
                    old(self).position,
                    old(self).summary,
                    data@.take(idx as int),
                ),
                self.from == old(self).from,
                self.to == old(self).to,
            decreases n - idx,
        {
            let input = vstd::slice::slice_index_get(data, idx);
            let sig = self.strategy.next(input);
            match sig {
                None => {},
                Some(Signal::Buy { entry_price }) => {
                    match self.position {
                        None => {
                            self.position = Some(entry_price);
                            self.summary.open_pnl = 0;
                        },
                        Some(entry) => {
                            self.summary.open_pnl = entry_price as i128 - entry as i128;
                        },
                    }
                },
                Some(Signal::Sell { entry_price }) => {
                    match self.position {
                        Some(entry) => {
                            let delta: i128 = entry_price as i128 - entry as i128;
                            self.summary.pnl = saturating_add_i128(self.summary.pnl, delta);
                            self.summary.open_pnl = 0;
                            self.position = None;
                        },
                        None => {},
                    }
                },
            }
            proof {
                assert(data@.take(idx as int + 1) =~= data@.take(idx as int).push(
                    data@[idx as int],
                ));
                lemma_replay_snoc(
                    old(self).strategy,
                    old(self).position,
                    old(self).summary,
                    data@.take(idx as int),
                    data@[idx as int],
                );
            }
            idx = idx + 1;
        }
        proof {
            assert(data@.take(n as int) =~= data@);
        }
        self.state = RunState::Completed;
        self.summary
    }
}

/// The strategy state left behind by driving a strategy over `inputs`
/// without folding any signals.
pub open spec fn stepped_through<Input, S: Strategy<Input>>(strategy: S, inputs: Seq<Input>) -> S
    decreases inputs.len(),
{
    if inputs.len() == 0 {
        strategy
    } else {
        stepped_through(strategy.advanced_spec(inputs[0]), inputs.drop_first())
    }
}

/// Stepping one more input equals stepping the prefix, then advancing once.
pub proof fn lemma_stepped_through_snoc<Input, S: Strategy<Input>>(
    strategy: S,
    inputs: Seq<Input>,
    x: Input,
)
    ensures
        stepped_through(strategy, inputs.push(x)) == stepped_through(
            strategy,
            inputs,
        ).advanced_spec(x),
    decreases inputs.len(),
{
    if inputs.len() == 0 {
        assert(inputs.push(x)[0] == x);
        assert(inputs.push(x).drop_first() =~= Seq::<Input>::empty());
        assert(stepped_through(strategy.advanced_spec(x), inputs.push(x).drop_first())
            == strategy.advanced_spec(x));
        assert(stepped_through(strategy, inputs.push(x)) == strategy.advanced_spec(x));
        assert(stepped_through(strategy, inputs) == strategy);
    } else {
        assert(inputs.push(x)[0] == inputs[0]);
        assert(inputs.push(x).drop_first() =~= inputs.drop_first().push(x));
        lemma_stepped_through_snoc(strategy.advanced_spec(inputs[0]), inputs.drop_first(), x);
    }
}

/// Unbounded replay: the same per-input strategy invocation as [`BackTest`],
/// but over a stream with no fixed end, fed in batches. The run stays
/// `Running` between batches and ends only by an external [`LiveRun::cancel`],
/// which takes effect at the next batch boundary: a cancelled run accepts no
/// further batch.
pub struct LiveRun<Input, S: Strategy<Input>> {
    pub strategy: S,
    pub state: RunState,
    pub _input: PhantomData<Input>,
}

impl<Input, S: Strategy<Input>> LiveRun<Input, S> {
    /// A fresh, idle live run.
    pub fn new(strategy: S) -> (r: LiveRun<Input, S>)
        ensures
            r.strategy == strategy,
            r.state == RunState::Idle,
    {
        LiveRun { strategy, state: RunState::Idle, _input: PhantomData }
    }

    /// Feeds one batch of the stream to the strategy, one input at a time in
    /// sequence order, and leaves the run `Running`, ready for the next
    /// batch.
    pub fn start(&mut self, data: &[Input])
        requires
            old(self).state == RunState::Idle || old(self).state == RunState::Running,
        ensures
            final(self).strategy == stepped_through(old(self).strategy, data@),
            final(self).state == RunState::Running,
    {
        self.state = RunState::Running;
        let n: usize = data.len();
        let mut idx: usize = 0;
        while idx < n
            invariant
                n == data@.len(),
                idx <= n,
                self.strategy == stepped_through(old(self).strategy, data@.take(idx as int)),
                self.state == RunState::Running,
            decreases n - idx,
        {
            let input = vstd::slice::slice_index_get(data, idx);
            let _ = self.strategy.next(input);
            proof {
                assert(data@.take(idx as int + 1) =~= data@.take(idx as int).push(
                    data@[idx as int],
                ));
                lemma_stepped_through_snoc(
                    old(self).strategy,
                    data@.take(idx as int),
                    data@[idx as int],
                );
            }
            idx = idx + 1;
        }
        proof {
            assert(data@.take(n as int) =~= data@);
        }
    }

    /// Cancels the run: the external transition that ends a stream with no
    /// natural end. Takes effect at the next batch boundary — the strategy
    /// state is left as the last batch left it.
    pub fn cancel(&mut self)
        ensures
            final(self).strategy == old(self).strategy,
            final(self).state == RunState::Cancelled,
    {
        self.state = RunState::Cancelled;
    }
}

} // verus!
