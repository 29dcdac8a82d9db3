//! Fixed-capacity, time-indexed sample storage.
//!
//! A [`TimeSeries`] is an append-only sequence of samples with a fixed
//! capacity and a fixed time base: the series is assumed to hold exactly one
//! sample per second starting at `start`, so the sample for wall-clock time
//! `t` lives at offset `t - start`. An [`OHLCV`] bundles five co-indexed
//! series into one bar store.

use vstd::prelude::*;
use crate::errors::Error;

verus! {

/// A point on the wall clock, as seconds since the Unix epoch.
///
/// The core never asks the machine what time it is; callers that hold a
/// calendar date convert it to epoch seconds before handing it in.
#[derive(Clone, Copy, PartialEq, Eq, Structural, Debug)]
pub struct Timestamp {
    pub epoch_seconds: i64,
}

/// The sampling period of a ticker's bars.
#[derive(Clone, PartialEq, Eq, Structural, Hash, Debug)]
pub enum Interval {
    OneMinute,
    FiveMinutes,
    TenMinutes,
    FifteenMinutes,
    ThirtyMinutes,
    OneHour,
    FourHours,
    OneDay,
}

/// The identity of one instrument at one sampling interval; two tickers are
/// equal exactly when both parts match, which makes a ticker the key that
/// picks one [`OHLCV`] dataset among many.
#[derive(PartialEq, Eq, Hash, Debug)]
pub struct Ticker {
    pub interval: Interval,
    pub instrument_id: String,
}

impl Ticker {
    /// Ticker identity: two tickers name the same dataset exactly when both
    /// the interval and the instrument identifier match.
    pub open spec fn same_key_spec(&self, other: &Ticker) -> bool {
        self.interval == other.interval && self.instrument_id@ == other.instrument_id@
    }

    /// Whether `self` and `other` name the same dataset.
    pub fn same_key(&self, other: &Ticker) -> (r: bool)
        ensures
            r == self.same_key_spec(other),
    {
        self.interval == other.interval && self.instrument_id == other.instrument_id
    }
}

/// A window of wall-clock time at one sampling interval.
#[derive(Clone, PartialEq, Eq, Structural, Debug)]
pub struct TimeFrame {
    pub interval: Interval,
    pub from: Timestamp,
    pub to: Timestamp,
}

/// A fixed-capacity, append-only sequence of samples on a dense
/// one-sample-per-second time base.
pub struct TimeSeries<T> {
    capacity: usize,
    data: Vec<T>,
    start_index: i64,
    last_index: usize,
}

impl<T> View for TimeSeries<T> {
    type V = Seq<T>;

    closed spec fn view(&self) -> Seq<T> {
        self.data@
    }
}

impl<T> TimeSeries<T> {
    /// The maximum number of samples the series will ever hold.
    pub closed spec fn spec_capacity(&self) -> usize {
        self.capacity
    }

    /// The epoch-seconds timestamp of the sample at offset zero.
    pub closed spec fn spec_start(&self) -> i64 {
        self.start_index
    }

    /// Internal consistency: the sample count never passes the capacity, the
    /// capacity is positive, and `last_index` tracks the next free offset.
    pub closed spec fn wf(&self) -> bool {
        &&& 0 < self.capacity
        &&& self.data@.len() <= self.capacity
        &&& self.last_index == self.data@.len()
    }

    /// Whether absolute offset `i` addresses a recorded sample.
    pub open spec fn index_in_bounds(&self, i: int) -> bool {
        0 <= i < self@.len()
    }

    /// The recorded sample at absolute offset `i`.
    pub open spec fn value_at(&self, i: int) -> T {
        self@[i]
    }

    /// Whether elapsed offset `k` (measured backward from the most recent
    /// sample, `k == 0` being that sample itself) addresses a recorded sample.
    pub open spec fn elapsed_in_bounds(&self, k: int) -> bool {
        0 <= k < self@.len()
    }

    /// The recorded sample `k` positions behind the most recent one.
    pub open spec fn elapsed_value(&self, k: int) -> T {
        self@[self@.len() - 1 - k]
    }

    /// The dense-layout offset of wall-clock time `at`: one sample per second
    /// from the series' start.
    pub open spec fn timed_offset(&self, at: Timestamp) -> int {
        at.epoch_seconds - self.spec_start()
    }

    /// Whether wall-clock time `at` addresses a recorded sample.
    pub open spec fn timed_in_bounds(&self, at: Timestamp) -> bool {
        0 <= self.timed_offset(at) < self@.len()
    }

    /// The recorded sample for wall-clock time `at`.
    pub open spec fn timed_value(&self, at: Timestamp) -> T {
        self@[self.timed_offset(at)]
    }

    /// An offset clipped to the recorded region: offsets past the last
    /// recorded sample stand for "not yet recorded" and clip to the length.
    pub open spec fn clipped(&self, off: int) -> int {
        if off <= self@.len() {
            off
        } else {
            self@.len() as int
        }
    }

    /// The recorded samples inside the inclusive wall-clock window
    /// `[from, to]`: the window's offsets, intersected with the recorded
    /// region. Empty when the whole window lies beyond the recorded region.
    pub open spec fn recorded_window(&self, from: Timestamp, to: Timestamp) -> Seq<T> {
        self@.subrange(
            self.clipped(self.timed_offset(from)),
            self.clipped(self.timed_offset(to) + 1),
        )
    }

    /// Allocates an empty series with the given capacity and time base.
    /// A zero capacity is rejected: such a series could never accept a sample.
    pub fn new(capacity: usize, from: Timestamp) -> (r: Result<TimeSeries<T>, Error>)
        ensures
            match r {
                Ok(ts) => {
                    &&& capacity > 0
                    &&& ts.wf()
                    &&& ts@ =~= Seq::<T>::empty()
                    &&& ts.spec_capacity() == capacity
                    &&& ts.spec_start() == from.epoch_seconds
                },
                Err(e) => e == Error::InvalidCapacity && capacity == 0,
            },
    {
        if capacity == 0 {
            Err(Error::InvalidCapacity)
        } else {
            Ok(TimeSeries {
                capacity,
                data: Vec::new(),
                start_index: from.epoch_seconds,
                last_index: 0,
            })
        }
    }

    /// The number of samples recorded so far.
    pub fn len(&self) -> (r: usize)
        ensures
            r == self@.len(),
    {
        self.data.len()
    }

    /// Appends one sample at the next free offset. A push on a full series is
    /// refused with `CapacityExceeded` and leaves the series untouched.
    pub fn push(&mut self, value: T) -> (r: Result<(), Error>)
        requires
            old(self).wf(),
        ensures
            final(self).wf(),
            final(self).spec_capacity() == old(self).spec_capacity(),
            final(self).spec_start() == old(self).spec_start(),
            match r {
                Ok(()) => {
                    &&& old(self)@.len() < old(self).spec_capacity()
                    &&& final(self)@ =~= old(self)@.push(value)
                },
                Err(e) => {
                    &&& e == Error::CapacityExceeded
                    &&& old(self)@.len() == old(self).spec_capacity()
                    &&& final(self)@ =~= old(self)@
                },
            },
    {
        if self.data.len() == self.capacity {
            Err(Error::CapacityExceeded)
        } else {
            self.data.push(value);
            self.last_index = self.last_index + 1;
            Ok(())
        }
    }
}

impl<T: Copy> TimeSeries<T> {
    /// Reads the sample at absolute offset `index`.
    pub fn get_by_index(&self, index: usize) -> (r: Result<T, Error>)
        ensures
            r is Err <==> !self.index_in_bounds(index as int),
            match r {
                Ok(v) => v == self.value_at(index as int),
                Err(e) => e == Error::OutOfRange,
            },
    {
        if index < self.data.len() {
            Ok(self.data[index])
        } else {
            Err(Error::OutOfRange)
        }
    }

    /// Reads the sample `index` positions behind the most recent one
    /// (`index == 0` reads the most recent sample). The elapsed offset is
    /// never allowed to run off the front of the series: a backward distance
    /// at or past the sample count is refused.
    pub fn get_by_elapsed(&self, index: usize) -> (r: Result<T, Error>)
        ensures
            r is Err <==> !self.elapsed_in_bounds(index as int),
            match r {
                Ok(v) => v == self.elapsed_value(index as int),
                Err(e) => e == Error::OutOfRange,
            },
    {
        if index < self.data.len() {
            Ok(self.data[self.data.len() - 1 - index])
        } else {
            Err(Error::OutOfRange)
        }
    }

    /// Reads the sample recorded for wall-clock time `at`, at offset
    /// `at - start` on the dense one-sample-per-second layout. A time before
    /// the start (negative offset), at or past the capacity, or at or past
    /// the recorded length is refused.
    pub fn get_timed(&self, at: Timestamp) -> (r: Result<T, Error>)
        requires
            self.wf(),
        ensures
            r is Err <==> !self.timed_in_bounds(at),
            match r {
                Ok(v) => v == self.timed_value(at),
                Err(e) => e == Error::OutOfRange,
            },
    {
        let offset: i128 = at.epoch_seconds as i128 - self.start_index as i128;
        if offset < 0 || offset >= self.capacity as i128 || offset >= self.data.len() as i128 {
            Err(Error::OutOfRange)
        } else {
            Ok(self.data[offset as usize])
        }
    }

    /// Reads the recorded samples inside the inclusive wall-clock window
    /// `[from, to]`.
    ///
    /// Policy: a backwards window (`to` before `from`) is a usage error and
    /// fails with `InvalidRange`; a window reaching outside the series' layout
    /// (before its start, or at or past its capacity) is a usage error and
    /// fails with `OutOfRange`; a window that lies inside the layout but
    /// beyond what has been recorded so far is not an error — it reads as
    /// empty (or as the recorded prefix), because those offsets stand for
    /// "not yet recorded". In particular `from == to` reads exactly one
    /// sample once that second has been recorded, and none before.
    pub fn get_timed_range(&self, from: Timestamp, to: Timestamp) -> (r: Result<Vec<T>, Error>)
        requires
            self.wf(),
        ensures
            r is Err <==> (to.epoch_seconds < from.epoch_seconds
                || self.timed_offset(from) < 0
                || self.timed_offset(to) >= self.spec_capacity()),
            match r {
                Ok(v) => v@ =~= self.recorded_window(from, to),
                Err(e) => e == (if to.epoch_seconds < from.epoch_seconds {
                    Error::InvalidRange
                } else {
                    Error::OutOfRange
                }),
            },
    {
        if to.epoch_seconds < from.epoch_seconds {
            return Err(Error::InvalidRange);
        }
        let from_offset: i128 = from.epoch_seconds as i128 - self.start_index as i128;
        let to_offset: i128 = to.epoch_seconds as i128 - self.start_index as i128;
        if from_offset < 0 || to_offset >= self.capacity as i128 {
            return Err(Error::OutOfRange);
        }
        let len: usize = self.data.len();
        let lo: usize = if from_offset >= len as i128 { len } else { from_offset as usize };
        let hi: usize = if to_offset + 1 >= len as i128 { len } else { (to_offset + 1) as usize };
        let mut out: Vec<T> = Vec::new();
        let mut i: usize = lo;
        while i < hi
            invariant
                lo <= i <= hi <= self.data.len(),
                out@ =~= self.data@.subrange(lo as int, i as int),
            decreases hi - i,
        {
            out.push(self.data[i]);
            i = i + 1;
        }
        Ok(out)
    }
}

/// Five co-indexed series — open, high, low, close, volume — sharing one
/// capacity and one time base. A valid bar store never has mismatched series:
/// bars are appended to all five as one unit.
pub struct OHLCV<T> {
    pub open: TimeSeries<T>,
    pub high: TimeSeries<T>,
    pub low: TimeSeries<T>,
    pub close: TimeSeries<T>,
    pub volume: TimeSeries<T>,
}

impl<T> OHLCV<T> {
    /// Internal consistency: all five series are well formed and share the
    /// same capacity, the same time base, and the same length.
    pub open spec fn wf(&self) -> bool {
        &&& self.open.wf() && self.high.wf() && self.low.wf() && self.close.wf()
            && self.volume.wf()
        &&& self.high.spec_capacity() == self.open.spec_capacity()
        &&& self.low.spec_capacity() == self.open.spec_capacity()
        &&& self.close.spec_capacity() == self.open.spec_capacity()
        &&& self.volume.spec_capacity() == self.open.spec_capacity()
        &&& self.high.spec_start() == self.open.spec_start()
        &&& self.low.spec_start() == self.open.spec_start()
        &&& self.close.spec_start() == self.open.spec_start()
        &&& self.volume.spec_start() == self.open.spec_start()
        &&& self.high@.len() == self.open@.len()
        &&& self.low@.len() == self.open@.len()
        &&& self.close@.len() == self.open@.len()
        &&& self.volume@.len() == self.open@.len()
    }

    /// The number of bars recorded so far.
    pub open spec fn spec_len(&self) -> int {
        self.open@.len() as int
    }

    /// Builds an empty bar store with the given capacity and time base.
    pub fn new(capacity: usize, from: Timestamp) -> (r: Result<OHLCV<T>, Error>)
        ensures
            match r {
                Ok(b) => {
                    &&& capacity > 0
                    &&& b.wf()
                    &&& b.spec_len() == 0
                    &&& b.open.spec_capacity() == capacity
                    &&& b.open.spec_start() == from.epoch_seconds
                },
                Err(e) => e == Error::InvalidCapacity && capacity == 0,
            },
    {
        let open = match TimeSeries::new(capacity, from) {
            Ok(s) => s,
            Err(e) => {
                return Err(e);
            },
        };
        let high = match TimeSeries::new(capacity, from) {
            Ok(s) => s,
            Err(e) => {
                return Err(e);
            },
        };
        let low = match TimeSeries::new(capacity, from) {
            Ok(s) => s,
            Err(e) => {
                return Err(e);
            },
        };
        let close = match TimeSeries::new(capacity, from) {
            Ok(s) => s,
            Err(e) => {
                return Err(e);
            },
        };
        let volume = match TimeSeries::new(capacity, from) {
            Ok(s) => s,
            Err(e) => {
                return Err(e);
            },
        };
        Ok(OHLCV { open, high, low, close, volume })
    }

    /// Appends one bar to all five series as one unit. If any single push
    /// would be refused — with one shared capacity and length, that means the
    /// store is full — the whole append fails with `PartialAppendRejected`
    /// and none of the five series is touched.
    pub fn append_bar(&mut self, o: T, h: T, l: T, c: T, v: T) -> (r: Result<(), Error>)
        requires
            old(self).wf(),
        ensures
            final(self).wf(),
            final(self).open.spec_capacity() == old(self).open.spec_capacity(),
            final(self).open.spec_start() == old(self).open.spec_start(),
            match r {
                Ok(()) => {
                    &&& old(self).spec_len() < old(self).open.spec_capacity()
                    &&& final(self).open@ =~= old(self).open@.push(o)
                    &&& final(self).high@ =~= old(self).high@.push(h)
                    &&& final(self).low@ =~= old(self).low@.push(l)
                    &&& final(self).close@ =~= old(self).close@.push(c)
                    &&& final(self).volume@ =~= old(self).volume@.push(v)
                },
                Err(e) => {
                    &&& e == Error::PartialAppendRejected
                    &&& old(self).spec_len() == old(self).open.spec_capacity()
                    &&& *final(self) == *old(self)
                },
            },
    {
        if self.open.len() == self.open.capacity {
            return Err(Error::PartialAppendRejected);
        }
        let _ = self.open.push(o);
        let _ = self.high.push(h);
        let _ = self.low.push(l);
        let _ = self.close.push(c);
        let _ = self.volume.push(v);
        Ok(())
    }
}

impl<T: Copy> OHLCV<T> {
    /// Reads the bar at absolute offset `index` as one
    /// `(open, high, low, close, volume)` tuple: all five reads observe the
    /// same index, so no read ever sees a partially appended bar.
    pub fn get_at(&self, index: usize) -> (r: Result<(T, T, T, T, T), Error>)
        requires
            self.wf(),
        ensures
            r is Err <==> !(index < self.spec_len()),
            match r {
                Ok(bar) => {
                    &&& bar.0 == self.open.value_at(index as int)
                    &&& bar.1 == self.high.value_at(index as int)
                    &&& bar.2 == self.low.value_at(index as int)
                    &&& bar.3 == self.close.value_at(index as int)
                    &&& bar.4 == self.volume.value_at(index as int)
                },
                Err(e) => e == Error::OutOfRange,
            },
    {
        let o = match self.open.get_by_index(index) {
            Ok(x) => x,
            Err(e) => {
                return Err(e);
            },
        };
        let h = match self.high.get_by_index(index) {
            Ok(x) => x,
            Err(e) => {
                return Err(e);
            },
        };
        let l = match self.low.get_by_index(index) {
            Ok(x) => x,
            Err(e) => {
                return Err(e);
            },
        };
        let c = match self.close.get_by_index(index) {
            Ok(x) => x,
            Err(e) => {
                return Err(e);
            },
        };
        let v = match self.volume.get_by_index(index) {
            Ok(x) => x,
            Err(e) => {
                return Err(e);
            },
        };
        Ok((o, h, l, c, v))
    }

    /// Reads the bar recorded for wall-clock time `at`, bounds checked as
    /// [`TimeSeries::get_timed`] does.
    pub fn get_timed_at(&self, at: Timestamp) -> (r: Result<(T, T, T, T, T), Error>)
        requires
            self.wf(),
        ensures
            r is Err <==> !self.open.timed_in_bounds(at),
            match r {
                Ok(bar) => {
                    &&& bar.0 == self.open.timed_value(at)
                    &&& bar.1 == self.high.timed_value(at)
                    &&& bar.2 == self.low.timed_value(at)
                    &&& bar.3 == self.close.timed_value(at)
                    &&& bar.4 == self.volume.timed_value(at)
                },
                Err(e) => e == Error::OutOfRange,
            },
    {
        let o = match self.open.get_timed(at) {
            Ok(x) => x,
            Err(e) => {
                return Err(e);
            },
        };
        let h = match self.high.get_timed(at) {
            Ok(x) => x,
            Err(e) => {
                return Err(e);
            },
        };
        let l = match self.low.get_timed(at) {
            Ok(x) => x,
            Err(e) => {
                return Err(e);
            },
        };
        let c = match self.close.get_timed(at) {
            Ok(x) => x,
            Err(e) => {
                return Err(e);
            },
        };
        let v = match self.volume.get_timed(at) {
            Ok(x) => x,
            Err(e) => {
                return Err(e);
            },
        };
        Ok((o, h, l, c, v))
    }

    /// Reads the recorded bars inside the inclusive wall-clock window
    /// `[from, to]`, one vector per series, all five covering the same
    /// offsets. Bounds policy as in [`TimeSeries::get_timed_range`].
    pub fn get_timed_at_range(&self, from: Timestamp, to: Timestamp) -> (r: Result<
        (Vec<T>, Vec<T>, Vec<T>, Vec<T>, Vec<T>),
        Error,
    >)
        requires
            self.wf(),
        ensures
            r is Err <==> (to.epoch_seconds < from.epoch_seconds
                || self.open.timed_offset(from) < 0
                || self.open.timed_offset(to) >= self.open.spec_capacity()),
            match r {
                Ok(bars) => {
                    &&& bars.0@ =~= self.open.recorded_window(from, to)
                    &&& bars.1@ =~= self.high.recorded_window(from, to)
                    &&& bars.2@ =~= self.low.recorded_window(from, to)
                    &&& bars.3@ =~= self.close.recorded_window(from, to)
                    &&& bars.4@ =~= self.volume.recorded_window(from, to)
                },
                Err(e) => e == (if to.epoch_seconds < from.epoch_seconds {
                    Error::InvalidRange
                } else {
                    Error::OutOfRange
                }),
            },
    {
        let o = match self.open.get_timed_range(from, to) {
            Ok(x) => x,
            Err(e) => {
                return Err(e);
            },
        };
        let h = match self.high.get_timed_range(from, to) {
            Ok(x) => x,
            Err(e) => {
                return Err(e);
            },
        };
        let l = match self.low.get_timed_range(from, to) {
            Ok(x) => x,
            Err(e) => {
                return Err(e);
            },
        };
        let c = match self.close.get_timed_range(from, to) {
            Ok(x) => x,
            Err(e) => {
                return Err(e);
            },
        };
        let v = match self.volume.get_timed_range(from, to) {
            Ok(x) => x,
            Err(e) => {
                return Err(e);
            },
        };
        Ok((o, h, l, c, v))
    }
}

/// A process-scoped keyed collection of bar stores: one [`OHLCV`] dataset per
/// [`Ticker`]. Built and torn down explicitly by its owner and passed by
/// reference to whichever component needs lookup — never an ambient
/// singleton. It has one writer; synchronizing concurrent readers against an
/// insert is the owner's concern.
pub struct TickerMap<T> {
    entries: Vec<(Ticker, OHLCV<T>)>,
}

impl<T> TickerMap<T> {
    /// The keyed datasets held, in insertion order.
    pub closed spec fn entries_view(&self) -> Seq<(Ticker, OHLCV<T>)> {
        self.entries@
    }

    /// Whether `i` names an entry whose ticker is the same key as `t`.
    pub open spec fn key_at(&self, i: int, t: &Ticker) -> bool {
        0 <= i < self.entries_view().len() && self.entries_view()[i].0.same_key_spec(t)
    }

    /// Whether some entry's ticker is the same key as `t`.
    pub open spec fn contains_key(&self, t: &Ticker) -> bool {
        exists|i: int| self.key_at(i, t)
    }

    /// Internal consistency: no two entries share a key.
    pub open spec fn wf(&self) -> bool {
        forall|i: int, j: int|
            0 <= i < j < self.entries_view().len() ==> !(#[trigger] self.entries_view()[i]).0.same_key_spec(
                &(#[trigger] self.entries_view()[j]).0,
            )
    }

    /// An empty collection.
    pub fn new() -> (r: TickerMap<T>)
        ensures
            r.wf(),
            r.entries_view() =~= Seq::<(Ticker, OHLCV<T>)>::empty(),
    {
        TickerMap { entries: Vec::new() }
    }

    /// How many datasets are held.
    pub fn len(&self) -> (r: usize)
        ensures
            r == self.entries_view().len(),
    {
        self.entries.len()
    }

    /// Binds `ticker` to `bars`: replaces the dataset of the entry that
    /// already carries the same key, or appends a new entry when none does.
    pub fn insert(&mut self, ticker: Ticker, bars: OHLCV<T>)
        requires
            old(self).wf(),
        ensures
            final(self).wf(),
            old(self).contains_key(&ticker) ==> exists|i: int|
                #[trigger] old(self).key_at(i, &ticker) && final(self).entries_view()
                    =~= old(self).entries_view().update(i, (ticker, bars)),
            !old(self).contains_key(&ticker) ==> final(self).entries_view() =~= old(
                self,
            ).entries_view().push((ticker, bars)),
    {
        let ghost pair = (ticker, bars);
        let n: usize = self.entries.len();
        let mut i: usize = 0;
        while i < n
            invariant
                old(self).wf(),
                pair == (ticker, bars),
                *self == *old(self),
                n == self.entries_view().len(),
                i <= n,
                forall|j: int| 0 <= j < i ==> !(#[trigger] self.key_at(j, &ticker)),
            decreases n - i,
        {
            if self.entries[i].0.same_key(&ticker) {
                proof {
                    assert(old(self).key_at(i as int, &ticker));
                }
                let _ = self.entries.remove(i);
                self.entries.insert(i, (ticker, bars));
                proof {
                    let prev = old(self).entries_view();
                    let newv = self.entries_view();
                    assert(newv =~= prev.update(i as int, pair));
                    assert forall|a: int, b: int| 0 <= a < b < newv.len() implies !(
                    newv[a]).0.same_key_spec(&(newv[b]).0) by {
                        assert(!(old(self).entries_view()[a]).0.same_key_spec(
                            &(old(self).entries_view()[b]).0,
                        ));
                    }
                }
                return ;
            }
            i = i + 1;
        }
        self.entries.push((ticker, bars));
        proof {
            let prev = old(self).entries_view();
            let newv = self.entries_view();
            assert(newv =~= prev.push(pair));
            assert forall|a: int, b: int| 0 <= a < b < newv.len() implies !(
            newv[a]).0.same_key_spec(&(newv[b]).0) by {
                if b < prev.len() {
                    assert(!(old(self).entries_view()[a]).0.same_key_spec(
                        &(old(self).entries_view()[b]).0,
                    ));
                } else {
                    assert(!old(self).key_at(a, &pair.0));
                }
            }
        }
    }

    /// Looks the dataset of `ticker` up, by key.
    pub fn get(&self, ticker: &Ticker) -> (r: Option<&OHLCV<T>>)
        requires
            self.wf(),
        ensures
            match r {
                Some(bars) => exists|i: int|
                    #[trigger] self.key_at(i, ticker) && *bars == self.entries_view()[i].1,
                None => !self.contains_key(ticker),
            },
    {
        let n: usize = self.entries.len();
        let mut i: usize = 0;
        while i < n
            invariant
                n == self.entries_view().len(),
                i <= n,
                forall|j: int| 0 <= j < i ==> !(#[trigger] self.key_at(j, ticker)),
            decreases n - i,
        {
            if self.entries[i].0.same_key(ticker) {
                proof {
                    assert(self.key_at(i as int, ticker));
                }
                return Some(&self.entries[i].1);
            }
            i = i + 1;
        }
        None
    }
}

/// The length a series of the given capacity reaches after `count` pushes,
/// each push landing exactly when the series is below capacity — the
/// spec-level transition that [`TimeSeries::push`] promises step by step.
pub open spec fn len_after_pushes(len: int, capacity: int, count: int) -> int
    decreases count,
{
    if count <= 0 {
        len
    } else {
        len_after_pushes(
            if len < capacity {
                len + 1
            } else {
                len
            },
            capacity,
            count - 1,
        )
    }
}

/// Law: the length tracks the push count exactly while the pushes fit, and
/// sticks at the capacity from then on — a refused push never moves it.
pub proof fn lemma_len_after_pushes(len: int, capacity: int, count: int)
    requires
        0 <= len <= capacity,
        0 <= count,
    ensures
        len_after_pushes(len, capacity, count) == if len + count <= capacity {
            len + count
        } else {
            capacity
        },
    decreases count,
{
    if count > 0 {
        if len < capacity {
            lemma_len_after_pushes(len + 1, capacity, count - 1);
        } else {
            lemma_len_after_pushes(len, capacity, count - 1);
        }
    }
}

/// Law: a freshly constructed series has recorded nothing, so every
/// positional, elapsed, and timed read misses — which is exactly the
/// condition under which the three getters promise `OutOfRange`.
pub proof fn lemma_fresh_series_rejects_every_read<T>(
    ts: TimeSeries<T>,
    i: usize,
    k: usize,
    at: Timestamp,
)
    requires
        ts@.len() == 0,
    ensures
        !ts.index_in_bounds(i as int),
        !ts.elapsed_in_bounds(k as int),
        !ts.timed_in_bounds(at),
{
}

/// Law: reading by wall-clock time agrees with reading by position. For any
/// time inside the recorded window, the timed read and the positional read at
/// offset `at - start` both land and return the same sample.
pub proof fn lemma_timed_read_matches_positional<T>(ts: TimeSeries<T>, at: Timestamp)
    requires
        ts.spec_start() <= at.epoch_seconds,
        at.epoch_seconds - ts.spec_start() < ts@.len(),
    ensures
        ts.timed_in_bounds(at),
        ts.index_in_bounds(at.epoch_seconds - ts.spec_start()),
        ts.timed_value(at) == ts.value_at(at.epoch_seconds - ts.spec_start()),
{
}

/// Law: a single-second window (`from == to`) inside the series' layout reads
/// exactly the one sample of that second once it has been recorded, and reads
/// empty before then — never an error either way.
pub proof fn lemma_single_second_window<T>(ts: TimeSeries<T>, at: Timestamp)
    requires
        ts.wf(),
        0 <= ts.timed_offset(at),
        ts.timed_offset(at) < ts.spec_capacity(),
    ensures
        ts.timed_in_bounds(at) ==> ts.recorded_window(at, at) =~= seq![ts.timed_value(at)],
        !ts.timed_in_bounds(at) ==> ts.recorded_window(at, at) =~= Seq::<T>::empty(),
{
}

} // verus!
