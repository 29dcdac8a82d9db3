use backtesting::errors::Error;
use backtesting::harness::BackTest;
use backtesting::harness::LiveRun;
use backtesting::harness::RunState;
use backtesting::series::OHLCV;
use backtesting::series::TimeSeries;
use backtesting::series::Timestamp;
use backtesting::strategy::EMACrossOverStrategy;
use backtesting::strategy::EMAIndicator;
use backtesting::strategy::Indicator;
use backtesting::strategy::ParameterizedEMACrossOverStrategy;
use backtesting::strategy::Params;
use backtesting::strategy::Signal;
use backtesting::strategy::Strategy;
use backtesting::strategy::ThresholdStrategy;

fn ts(epoch_seconds: i64) -> Timestamp {
    Timestamp { epoch_seconds }
}

fn filled_series(capacity: usize, start: i64, values: &[i64]) -> TimeSeries<i64> {
    let mut series = TimeSeries::new(capacity, ts(start)).unwrap();
    for v in values {
        series.push(*v).unwrap();
    }
    series
}

#[test]
fn fresh_series_is_empty_and_rejects_reads() {
    let series: TimeSeries<i64> = TimeSeries::new(8, ts(100)).unwrap();
    assert_eq!(series.len(), 0);
    assert_eq!(series.get_by_index(0), Err(Error::OutOfRange));
    assert_eq!(series.get_by_elapsed(0), Err(Error::OutOfRange));
    assert_eq!(series.get_timed(ts(100)), Err(Error::OutOfRange));
    assert_eq!(series.get_timed(ts(107)), Err(Error::OutOfRange));
}

#[test]
fn zero_capacity_is_rejected() {
    assert_eq!(
        TimeSeries::<i64>::new(0, ts(0)).err(),
        Some(Error::InvalidCapacity)
    );
    assert_eq!(OHLCV::<i64>::new(0, ts(0)).err(), Some(Error::InvalidCapacity));
}

#[test]
fn push_tracks_length_and_rejects_overflow() {
    let mut series: TimeSeries<i64> = TimeSeries::new(3, ts(0)).unwrap();
    for count in 1..=3 {
        series.push(count as i64 * 10).unwrap();
        assert_eq!(series.len(), count);
    }
    assert_eq!(series.push(40), Err(Error::CapacityExceeded));
    assert_eq!(series.len(), 3);
    assert_eq!(series.get_by_index(2), Ok(30));
}

#[test]
fn timed_read_matches_positional() {
    let series = filled_series(8, 1000, &[5, 6, 7, 8]);
    for t in 1000..1004 {
        let by_time = series.get_timed(ts(t)).unwrap();
        let by_index = series.get_by_index((t - 1000) as usize).unwrap();
        assert_eq!(by_time, by_index);
    }
    assert_eq!(series.get_timed(ts(999)), Err(Error::OutOfRange));
    assert_eq!(series.get_timed(ts(1004)), Err(Error::OutOfRange));
}

#[test]
fn elapsed_read_counts_back_from_latest() {
    let series = filled_series(4, 0, &[5, 6, 7]);
    assert_eq!(series.get_by_elapsed(0), Ok(7));
    assert_eq!(series.get_by_elapsed(1), Ok(6));
    assert_eq!(series.get_by_elapsed(2), Ok(5));
    assert_eq!(series.get_by_elapsed(3), Err(Error::OutOfRange));
}

#[test]
fn backwards_window_fails_invalid_range() {
    let series = filled_series(8, 1000, &[1, 2, 3]);
    assert_eq!(
        series.get_timed_range(ts(1002), ts(1001)).err(),
        Some(Error::InvalidRange)
    );
}

#[test]
fn window_outside_layout_fails_out_of_range() {
    let series = filled_series(8, 1000, &[1, 2, 3]);
    assert_eq!(
        series.get_timed_range(ts(999), ts(1001)).err(),
        Some(Error::OutOfRange)
    );
    assert_eq!(
        series.get_timed_range(ts(1000), ts(1008)).err(),
        Some(Error::OutOfRange)
    );
}

#[test]
fn single_second_window_reads_one_recorded_sample() {
    let series = filled_series(8, 1000, &[1, 2, 3]);
    assert_eq!(series.get_timed_range(ts(1001), ts(1001)).unwrap(), vec![2]);
    // The same single-second window beyond the recorded region, but inside
    // the layout, is "not yet recorded": empty, not an error.
    assert_eq!(series.get_timed_range(ts(1005), ts(1005)).unwrap(), vec![]);
}

#[test]
fn window_clips_to_recorded_prefix() {
    let series = filled_series(8, 1000, &[1, 2, 3]);
    assert_eq!(series.get_timed_range(ts(1000), ts(1002)).unwrap(), vec![1, 2, 3]);
    assert_eq!(series.get_timed_range(ts(1001), ts(1006)).unwrap(), vec![2, 3]);
    assert_eq!(series.get_timed_range(ts(1004), ts(1007)).unwrap(), vec![]);
}

#[test]
fn series_holds_floating_point_samples() {
    let mut series: TimeSeries<f64> = TimeSeries::new(4, ts(0)).unwrap();
    series.push(1.5).unwrap();
    series.push(2.25).unwrap();
    assert_eq!(series.get_by_index(0), Ok(1.5));
    assert_eq!(series.get_timed(ts(1)), Ok(2.25));
}

#[test]
fn ohlcv_appends_and_reads_in_lock_step() {
    let mut bars: OHLCV<i64> = OHLCV::new(4, ts(500)).unwrap();
    bars.append_bar(10, 15, 9, 12, 100).unwrap();
    bars.append_bar(12, 18, 11, 17, 200).unwrap();
    assert_eq!(bars.get_at(0), Ok((10, 15, 9, 12, 100)));
    assert_eq!(bars.get_at(1), Ok((12, 18, 11, 17, 200)));
    assert_eq!(bars.get_at(2), Err(Error::OutOfRange));
    assert_eq!(bars.get_timed_at(ts(501)), Ok((12, 18, 11, 17, 200)));
    let (o, h, l, c, v) = bars.get_timed_at_range(ts(500), ts(501)).unwrap();
    assert_eq!(o, vec![10, 12]);
    assert_eq!(h, vec![15, 18]);
    assert_eq!(l, vec![9, 11]);
    assert_eq!(c, vec![12, 17]);
    assert_eq!(v, vec![100, 200]);
}

#[test]
fn ohlcv_append_is_atomic_when_full() {
    let mut bars: OHLCV<i64> = OHLCV::new(1, ts(0)).unwrap();
    bars.append_bar(1, 2, 3, 4, 5).unwrap();
    assert_eq!(bars.append_bar(6, 7, 8, 9, 10), Err(Error::PartialAppendRejected));
    assert_eq!(bars.open.len(), 1);
    assert_eq!(bars.high.len(), 1);
    assert_eq!(bars.low.len(), 1);
    assert_eq!(bars.close.len(), 1);
    assert_eq!(bars.volume.len(), 1);
    assert_eq!(bars.get_at(0), Ok((1, 2, 3, 4, 5)));
}

fn params(from: usize, to: usize, step: usize) -> Params<usize> {
    Params { name: String::from("period"), from, to, step }
}

#[test]
fn sweep_builds_the_exact_grid() {
    let sweep =
        ParameterizedEMACrossOverStrategy::from_params(&params(0, 6, 2), &params(0, 4, 2))
            .unwrap();
    let pairs: Vec<(usize, usize)> = sweep
        .strategies
        .iter()
        .map(|s| (s.fast_ema.period, s.slow_ema.period))
        .collect();
    assert_eq!(pairs, vec![(0, 0), (0, 2), (2, 0), (2, 2), (4, 0), (4, 2)]);
}

#[test]
fn degenerate_sweep_is_rejected() {
    assert_eq!(
        ParameterizedEMACrossOverStrategy::from_params(&params(3, 3, 1), &params(0, 4, 2)).err(),
        Some(Error::EmptyRange)
    );
    assert_eq!(
        ParameterizedEMACrossOverStrategy::from_params(&params(0, 6, 2), &params(5, 2, 1)).err(),
        Some(Error::EmptyRange)
    );
}

#[test]
fn composite_strategy_contributes_no_signal() {
    let mut sweep =
        ParameterizedEMACrossOverStrategy::from_params(&params(0, 6, 2), &params(0, 4, 2))
            .unwrap();
    assert_eq!(sweep.next(&5), None);
    assert_eq!(sweep.strategies.len(), 6);
}

#[test]
fn indicator_stub_doubles_and_saturates() {
    let mut indicator = EMAIndicator { period: 3 };
    assert_eq!(indicator.next(&5), 10);
    assert_eq!(indicator.next(&-7), -14);
    assert_eq!(indicator.next(&i64::MAX), i64::MAX);
    assert_eq!(indicator.next(&i64::MIN), i64::MIN);
}

#[test]
fn crossover_signals_are_deterministic() {
    let inputs: Vec<i64> = vec![1, 2, 3];
    let mut first_run: Vec<Option<Signal>> = Vec::new();
    let mut second_run: Vec<Option<Signal>> = Vec::new();
    let mut strategy = EMACrossOverStrategy::new(1, 2);
    for input in &inputs {
        first_run.push(strategy.next(input));
    }
    let mut strategy = EMACrossOverStrategy::new(1, 2);
    for input in &inputs {
        second_run.push(strategy.next(input));
    }
    assert_eq!(first_run, second_run);
    // With the stub indicator both outputs tie, and a tie sells.
    assert_eq!(
        first_run,
        vec![
            Some(Signal::Sell { entry_price: 1 }),
            Some(Signal::Sell { entry_price: 2 }),
            Some(Signal::Sell { entry_price: 3 }),
        ]
    );
}

#[test]
fn backtest_runs_are_deterministic() {
    let data: Vec<i64> = vec![10, 20, 2, 6, 1];
    let mut first = BackTest::new(ThresholdStrategy { threshold: 5 }, ts(0), ts(4));
    let mut second = BackTest::new(ThresholdStrategy { threshold: 5 }, ts(0), ts(4));
    let first_summary = first.run(&data);
    let second_summary = second.run(&data);
    assert_eq!(first_summary, second_summary);
    assert_eq!(first.state, RunState::Completed);
}

#[test]
fn backtest_accounts_positions_exactly() {
    // threshold 5: 10 buys (opens at 10), 20 buys while open (marks to
    // market: 20 - 10), 2 sells (realizes 2 - 10 = -8 and closes).
    let data: Vec<i64> = vec![10, 20, 2];
    let mut harness = BackTest::new(ThresholdStrategy { threshold: 5 }, ts(0), ts(2));
    let summary = harness.run(&data);
    assert_eq!(summary.pnl, -8);
    assert_eq!(summary.open_pnl, 0);
    assert_eq!(harness.position, None);

    // A second batch through the same harness: 7 buys again (opens at 7).
    let summary = harness.run(&[7]);
    assert_eq!(summary.pnl, -8);
    assert_eq!(summary.open_pnl, 0);
    assert_eq!(harness.position, Some(7));
}

#[test]
fn backtest_with_crossover_never_opens_a_position() {
    let data: Vec<i64> = vec![1, 2, 3];
    let mut harness = BackTest::new(EMACrossOverStrategy::new(1, 2), ts(0), ts(2));
    let summary = harness.run(&data);
    assert_eq!(summary.pnl, 0);
    assert_eq!(summary.open_pnl, 0);
    assert_eq!(harness.position, None);
}

#[test]
fn live_run_feeds_batches_until_cancelled() {
    let mut live = LiveRun::new(ThresholdStrategy { threshold: 5 });
    assert_eq!(live.state, RunState::Idle);
    live.start(&[1, 9, 4]);
    assert_eq!(live.state, RunState::Running);
    live.start(&[2, 8]);
    assert_eq!(live.state, RunState::Running);
    live.cancel();
    assert_eq!(live.state, RunState::Cancelled);
    assert_eq!(live.strategy, ThresholdStrategy { threshold: 5 });
}

use backtesting::series::Interval;
use backtesting::series::Ticker;
use backtesting::series::TickerMap;

fn ticker(interval: Interval, id: &str) -> Ticker {
    Ticker { interval, instrument_id: String::from(id) }
}

#[test]
fn ticker_identity_is_by_parts() {
    let a = ticker(Interval::OneMinute, "3");
    let b = ticker(Interval::OneMinute, "3");
    let c = ticker(Interval::FiveMinutes, "3");
    let d = ticker(Interval::OneMinute, "4");
    assert!(a.same_key(&b));
    assert!(!a.same_key(&c));
    assert!(!a.same_key(&d));
    assert_eq!(a, b);
    assert_ne!(a, c);
}

#[test]
fn ticker_map_inserts_and_looks_up_by_key() {
    let mut map: TickerMap<i64> = TickerMap::new();
    assert_eq!(map.len(), 0);
    map.insert(ticker(Interval::OneMinute, "ES"), OHLCV::new(4, ts(0)).unwrap());
    assert_eq!(map.len(), 1);
    assert!(map.get(&ticker(Interval::OneMinute, "ES")).is_some());
    assert!(map.get(&ticker(Interval::OneHour, "ES")).is_none());
    assert!(map.get(&ticker(Interval::OneMinute, "NQ")).is_none());
}

#[test]
fn ticker_map_replaces_an_existing_binding() {
    let mut map: TickerMap<i64> = TickerMap::new();
    let mut bars = OHLCV::new(2, ts(0)).unwrap();
    bars.append_bar(1, 2, 3, 4, 5).unwrap();
    map.insert(ticker(Interval::OneDay, "A"), bars);
    assert_eq!(map.get(&ticker(Interval::OneDay, "A")).unwrap().open.len(), 1);
    map.insert(ticker(Interval::OneDay, "A"), OHLCV::new(2, ts(0)).unwrap());
    assert_eq!(map.len(), 1);
    assert_eq!(map.get(&ticker(Interval::OneDay, "A")).unwrap().open.len(), 0);
    map.insert(ticker(Interval::OneDay, "B"), OHLCV::new(2, ts(0)).unwrap());
    assert_eq!(map.len(), 2);
}
