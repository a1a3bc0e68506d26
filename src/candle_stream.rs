//! A short rolling history of bars and the formations of two and three
//! consecutive bars read from it.
use vstd::prelude::*;
use crate::candle_stick::{CandleStick, doji_shape};

verus! {

/// Number of bars the stream retains.
pub const SERIES_SIZE: usize = 5;

/// Closes above its open.
pub open spec fn bullish<T: CandleStick>(c: &T) -> bool {
    c.spec_open() < c.spec_close()
}

/// Closes below its open.
pub open spec fn bearish<T: CandleStick>(c: &T) -> bool {
    c.spec_open() > c.spec_close()
}

/// The body is under the bar's `doji_body` share of its range.
pub open spec fn doji<T: CandleStick>(c: &T) -> bool {
    doji_shape(
        c.spec_open(),
        c.spec_high(),
        c.spec_low(),
        c.spec_close(),
        c.spec_thresholds().doji_body as int,
    )
}

/// `x < (a + b) / 2`.
pub open spec fn below_midpoint(x: int, a: int, b: int) -> bool {
    2 * x < a + b
}

/// `x > (a + b) / 2`.
pub open spec fn above_midpoint(x: int, a: int, b: int) -> bool {
    2 * x > a + b
}

pub open spec fn bullish_doji_star<T: CandleStick>(prev: &T, cur: &T) -> bool {
    bearish(prev) && doji(cur) && cur.spec_high() < prev.spec_low()
}

pub open spec fn bearish_doji_star<T: CandleStick>(prev: &T, cur: &T) -> bool {
    bullish(prev) && doji(cur) && cur.spec_low() > prev.spec_high()
}

pub open spec fn bullish_engulfing<T: CandleStick>(prev: &T, cur: &T) -> bool {
    bearish(prev) && bullish(cur) && cur.spec_open() < prev.spec_close() && cur.spec_close()
        > prev.spec_open()
}

pub open spec fn bearish_engulfing<T: CandleStick>(prev: &T, cur: &T) -> bool {
    bullish(prev) && bearish(cur) && cur.spec_open() > prev.spec_close() && cur.spec_close()
        < prev.spec_open()
}

/// The inequalities are those of `bearish_engulfing` with the colours of
/// the two bars swapped; with `prev` bearish and `cur` bullish they place
/// `cur`'s body inside `prev`'s.
pub open spec fn bullish_harami<T: CandleStick>(prev: &T, cur: &T) -> bool {
    bearish(prev) && bullish(cur) && cur.spec_open() > prev.spec_close() && cur.spec_close()
        < prev.spec_open()
}

/// The inequalities are those of `bullish_engulfing` with the colours of
/// the two bars swapped; with `prev` bullish and `cur` bearish they place
/// `cur`'s body inside `prev`'s.
pub open spec fn bearish_harami<T: CandleStick>(prev: &T, cur: &T) -> bool {
    bullish(prev) && bearish(cur) && cur.spec_open() < prev.spec_close() && cur.spec_close()
        > prev.spec_open()
}

pub open spec fn dark_cloud_cover<T: CandleStick>(prev: &T, cur: &T) -> bool {
    bearish(cur) && bullish(prev) && cur.spec_open() > prev.spec_close() && below_midpoint(
        cur.spec_close(),
        prev.spec_open(),
        prev.spec_close(),
    )
}

pub open spec fn evening_star<T: CandleStick>(p2: &T, p1: &T, cur: &T) -> bool {
    bullish(p2) && (doji(p1) || p1.spec_open() < p1.spec_close()) && bearish(cur)
        && below_midpoint(cur.spec_close(), p2.spec_open(), p2.spec_close())
}

pub open spec fn evening_star_doji<T: CandleStick>(p2: &T, p1: &T, cur: &T) -> bool {
    bullish(p2) && doji(p1) && bearish(cur) && below_midpoint(
        cur.spec_close(),
        p2.spec_open(),
        p2.spec_close(),
    )
}

pub open spec fn morning_star<T: CandleStick>(p2: &T, p1: &T, cur: &T) -> bool {
    bearish(p2) && (doji(p1) || p1.spec_open() < p1.spec_close()) && bullish(cur)
        && above_midpoint(cur.spec_close(), p2.spec_open(), p2.spec_close())
}

pub open spec fn morning_star_doji<T: CandleStick>(p2: &T, p1: &T, cur: &T) -> bool {
    bearish(p2) && doji(p1) && bullish(cur) && above_midpoint(
        cur.spec_close(),
        p2.spec_open(),
        p2.spec_close(),
    )
}

pub open spec fn three_white_soldiers<T: CandleStick>(p2: &T, p1: &T, cur: &T) -> bool {
    &&& bullish(p2)
    &&& bullish(p1)
    &&& p1.spec_open() > p2.spec_close()
    &&& p1.spec_close() > p2.spec_close()
    &&& bullish(cur)
    &&& cur.spec_open() > p1.spec_close()
    &&& cur.spec_close() > p1.spec_close()
}

pub open spec fn three_black_crows<T: CandleStick>(p2: &T, p1: &T, cur: &T) -> bool {
    &&& bearish(p2)
    &&& bearish(p1)
    &&& p1.spec_open() < p2.spec_close()
    &&& p1.spec_close() < p2.spec_close()
    &&& bearish(cur)
    &&& cur.spec_open() < p1.spec_close()
    &&& cur.spec_close() < p1.spec_close()
}

pub open spec fn three_inside_up<T: CandleStick>(p2: &T, p1: &T, cur: &T) -> bool {
    &&& bearish(p2)
    &&& bullish(p1)
    &&& p1.spec_open() > p2.spec_close()
    &&& p1.spec_close() < p2.spec_open()
    &&& bullish(cur)
    &&& cur.spec_close() > p1.spec_close()
    &&& !doji(cur)
}

pub open spec fn three_inside_down<T: CandleStick>(p2: &T, p1: &T, cur: &T) -> bool {
    &&& bullish(p2)
    &&& bearish(p1)
    &&& p1.spec_open() < p2.spec_close()
    &&& p1.spec_close() > p2.spec_open()
    &&& bearish(cur)
    &&& cur.spec_close() < p1.spec_close()
    &&& !doji(cur)
}

/// How many pushes ago the bar in slot `j` was written, for a stream whose
/// next write goes to slot `cursor`.
pub open spec fn age_of_slot(cursor: int, j: int) -> int {
    (cursor + SERIES_SIZE - 1 - j) % (SERIES_SIZE as int)
}

/// A ring buffer of references to the last `SERIES_SIZE` bars pushed.
///
/// Its model is the sequence of every bar pushed so far, oldest first; only
/// the last `SERIES_SIZE` of them can be read back.
pub struct CandleStream<'s, T> {
    series: [Option<&'s T>; SERIES_SIZE],
    idx: usize,
    pushed: Ghost<Seq<&'s T>>,
}

impl<'s, T> View for CandleStream<'s, T> {
    type V = Seq<&'s T>;

    closed spec fn view(&self) -> Seq<&'s T> {
        self.pushed@
    }
}

impl<'s, T> CandleStream<'s, T> {
    /// The slot that the next push writes.
    pub closed spec fn cursor(&self) -> int {
        self.idx as int
    }

    /// Each slot holds the bar pushed as many pushes ago as its age says,
    /// or nothing where fewer bars than that were pushed.
    pub closed spec fn wf(&self) -> bool {
        &&& self.idx < SERIES_SIZE
        &&& forall|j: int|
            0 <= j < SERIES_SIZE ==> #[trigger] self.series[j] == self.ago(
                age_of_slot(self.idx as int, j),
            )
    }

    /// The bar pushed `k` pushes before the latest (`k == 0`: the latest),
    /// where the stream still holds it.
    pub open spec fn ago(&self, k: int) -> Option<&'s T> {
        if 0 <= k < SERIES_SIZE && k < self@.len() {
            Some(self@[self@.len() - 1 - k])
        } else {
            None
        }
    }

    /// The bar pushed `k` pushes before the latest, in the full history.
    pub open spec fn back(&self, k: int) -> &'s T {
        self@[self@.len() - 1 - k]
    }

    /// An empty stream.
    pub fn new() -> (r: Self)
        ensures
            r.wf(),
            r@ == Seq::<&'s T>::empty(),
            r.cursor() == 0,
    {
        CandleStream { series: [None, None, None, None, None], idx: 0, pushed: Ghost(Seq::empty()) }
    }

    /// The slot of the bar `n - 1` pushes before the latest, for `n` from 1
    /// to `SERIES_SIZE`; `n == 0` names the slot that the next push writes.
    pub fn nth_index(&self, n: usize) -> (r: Option<usize>)
        requires
            self.wf(),
        ensures
            r == (if n > SERIES_SIZE {
                None
            } else {
                Some(((self.cursor() + SERIES_SIZE - n) % (SERIES_SIZE as int)) as usize)
            }),
    {
        if n > SERIES_SIZE {
            return None;
        }
        Some((self.idx + SERIES_SIZE - n) % SERIES_SIZE)
    }

    /// The content of slot `idx`.
    pub fn at(&self, idx: usize) -> (r: Option<&'s T>)
        requires
            self.wf(),
        ensures
            r == (if idx < SERIES_SIZE {
                self.ago(age_of_slot(self.cursor(), idx as int))
            } else {
                None
            }),
    {
        if idx < SERIES_SIZE {
            self.series[idx]
        } else {
            None
        }
    }

    /// The latest bar.
    pub fn get(&self) -> (r: Option<&'s T>)
        requires
            self.wf(),
        ensures
            r == self.ago(0),
    {
        match self.nth_index(1) {
            Some(i) => self.at(i),
            None => None,
        }
    }

    /// The bar `n` pushes before the latest.
    pub fn prev(&self, n: usize) -> (r: Option<&'s T>)
        requires
            self.wf(),
        ensures
            r == self.ago(n as int),
    {
        if n >= SERIES_SIZE {
            return None;
        }
        match self.nth_index(n + 1) {
            Some(i) => self.at(i),
            None => None,
        }
    }

    /// Appends `candle`, overwriting the oldest bar once the stream is full.
    pub fn push(&mut self, candle: &'s T) -> (r: &mut Self)
        requires
            old(self).wf(),
        ensures
            (*r).wf(),
            (*r)@ == old(self)@.push(candle),
            (*r).cursor() == (old(self).cursor() + 1) % (SERIES_SIZE as int),
            *final(self) == *final(r),
    {
        self.series[self.idx] = Some(candle);
        self.idx = (self.idx + 1) % SERIES_SIZE;
        self.pushed = Ghost(self.pushed@.push(candle));
        self
    }
}

impl<'s, T> Default for CandleStream<'s, T> {
    fn default() -> (r: Self)
        ensures
            r.wf(),
            r@ == Seq::<&'s T>::empty(),
            r.cursor() == 0,
    {
        Self::new()
    }
}

impl<'s, T: CandleStick> CandleStream<'s, T> {
    /// Each `spec_` function below says whether the last two (or three) bars
    /// pushed show the formation it names; too short a history shows none.
    pub open spec fn spec_bullish_doji_star(&self) -> bool {
        self@.len() >= 2 && bullish_doji_star(self.back(1), self.back(0))
    }

    pub open spec fn spec_bearish_doji_star(&self) -> bool {
        self@.len() >= 2 && bearish_doji_star(self.back(1), self.back(0))
    }

    pub open spec fn spec_bullish_engulfing(&self) -> bool {
        self@.len() >= 2 && bullish_engulfing(self.back(1), self.back(0))
    }

    pub open spec fn spec_bearish_engulfing(&self) -> bool {
        self@.len() >= 2 && bearish_engulfing(self.back(1), self.back(0))
    }

    pub open spec fn spec_bullish_harami(&self) -> bool {
        self@.len() >= 2 && bullish_harami(self.back(1), self.back(0))
    }

    pub open spec fn spec_bearish_harami(&self) -> bool {
        self@.len() >= 2 && bearish_harami(self.back(1), self.back(0))
    }

    pub open spec fn spec_dark_cloud_cover(&self) -> bool {
        self@.len() >= 2 && dark_cloud_cover(self.back(1), self.back(0))
    }

    pub open spec fn spec_evening_star(&self) -> bool {
        self@.len() >= 3 && evening_star(self.back(2), self.back(1), self.back(0))
    }

    pub open spec fn spec_evening_star_doji(&self) -> bool {
        self@.len() >= 3 && evening_star_doji(self.back(2), self.back(1), self.back(0))
    }

    pub open spec fn spec_morning_star(&self) -> bool {
        self@.len() >= 3 && morning_star(self.back(2), self.back(1), self.back(0))
    }

    pub open spec fn spec_morning_star_doji(&self) -> bool {
        self@.len() >= 3 && morning_star_doji(self.back(2), self.back(1), self.back(0))
    }

    pub open spec fn spec_three_white_soldiers(&self) -> bool {
        self@.len() >= 3 && three_white_soldiers(self.back(2), self.back(1), self.back(0))
    }

    pub open spec fn spec_three_black_crows(&self) -> bool {
        self@.len() >= 3 && three_black_crows(self.back(2), self.back(1), self.back(0))
    }

    pub open spec fn spec_three_inside_up(&self) -> bool {
        self@.len() >= 3 && three_inside_up(self.back(2), self.back(1), self.back(0))
    }

    pub open spec fn spec_three_inside_down(&self) -> bool {
        self@.len() >= 3 && three_inside_down(self.back(2), self.back(1), self.back(0))
    }

    /// A bearish bar followed by a doji that gaps below its low.
    pub fn is_bullish_doji_star(&self) -> (r: bool)
        requires
            self.wf(),
        ensures
            r == self.spec_bullish_doji_star(),
    {
        match (self.get(), self.prev(1)) {
            (Some(c), Some(p)) => p.is_bearish() && c.is_doji() && c.high() < p.low(),
            _ => false,
        }
    }

    /// A bullish bar followed by a doji that gaps above its high.
    pub fn is_bearish_doji_star(&self) -> (r: bool)
        requires
            self.wf(),
        ensures
            r == self.spec_bearish_doji_star(),
    {
        match (self.get(), self.prev(1)) {
            (Some(c), Some(p)) => p.is_bullish() && c.is_doji() && c.low() > p.high(),
            _ => false,
        }
    }

    /// A bearish bar whose body the following bullish body spans.
    pub fn is_bullish_engulfing(&self) -> (r: bool)
        requires
            self.wf(),
        ensures
            r == self.spec_bullish_engulfing(),
    {
        match (self.get(), self.prev(1)) {
            (Some(c), Some(p)) => p.is_bearish() && c.is_bullish() && c.open() < p.close() && c.close() > p.open(),
            _ => false,
        }
    }

    /// A bullish bar whose body the following bearish body spans.
    pub fn is_bearish_engulfing(&self) -> (r: bool)
        requires
            self.wf(),
        ensures
            r == self.spec_bearish_engulfing(),
    {
        match (self.get(), self.prev(1)) {
            (Some(c), Some(p)) => p.is_bullish() && c.is_bearish() && c.open() > p.close() && c.close() < p.open(),
            _ => false,
        }
    }

    /// A bearish bar followed by a bullish bar that opens above its close and
    /// closes below its open.
    pub fn is_bullish_harami(&self) -> (r: bool)
        requires
            self.wf(),
        ensures
            r == self.spec_bullish_harami(),
    {
        match (self.get(), self.prev(1)) {
            (Some(c), Some(p)) => p.is_bearish() && c.is_bullish() && c.open() > p.close() && c.close() < p.open(),
            _ => false,
        }
    }

    /// A bullish bar followed by a bearish bar that opens below its close and
    /// closes above its open.
    pub fn is_bearish_harami(&self) -> (r: bool)
        requires
            self.wf(),
        ensures
            r == self.spec_bearish_harami(),
    {
        match (self.get(), self.prev(1)) {
            (Some(c), Some(p)) => p.is_bullish() && c.is_bearish() && c.open() < p.close() && c.close() > p.open(),
            _ => false,
        }
    }

    /// A bullish bar followed by a bearish bar that opens above its close and
    /// closes below its midpoint.
    pub fn is_dark_cloud_cover(&self) -> (r: bool)
        requires
            self.wf(),
        ensures
            r == self.spec_dark_cloud_cover(),
    {
        match (self.get(), self.prev(1)) {
            (Some(c), Some(p)) => c.is_bearish() && p.is_bullish() && c.open() > p.close() && 2 * (c.close() as i128)
                < p.open() as i128 + p.close() as i128,
            _ => false,
        }
    }

    /// A bullish bar, then a doji or a bullish bar, then a bearish bar that
    /// closes below the first bar's midpoint.
    pub fn is_evening_star(&self) -> (r: bool)
        requires
            self.wf(),
        ensures
            r == self.spec_evening_star(),
    {
        match (self.get(), self.prev(1), self.prev(2)) {
            (Some(c), Some(p1), Some(p2)) => p2.is_bullish() && (p1.is_doji() || p1.open() < p1.close()) && c.is_bearish() && 2
                * (c.close() as i128) < p2.open() as i128 + p2.close() as i128,
            _ => false,
        }
    }

    /// A bullish bar, then a doji, then a bearish bar that closes below the
    /// first bar's midpoint.
    pub fn is_evening_star_doji(&self) -> (r: bool)
        requires
            self.wf(),
        ensures
            r == self.spec_evening_star_doji(),
    {
        match (self.get(), self.prev(1), self.prev(2)) {
            (Some(c), Some(p1), Some(p2)) => p2.is_bullish() && p1.is_doji() && c.is_bearish() && 2 * (c.close() as i128)
                < p2.open() as i128 + p2.close() as i128,
            _ => false,
        }
    }

    /// A bearish bar, then a doji or a bullish bar, then a bullish bar that
    /// closes above the first bar's midpoint.
    pub fn is_morning_star(&self) -> (r: bool)
        requires
            self.wf(),
        ensures
            r == self.spec_morning_star(),
    {
        match (self.get(), self.prev(1), self.prev(2)) {
            (Some(c), Some(p1), Some(p2)) => p2.is_bearish() && (p1.is_doji() || p1.open() < p1.close()) && c.is_bullish() && 2
                * (c.close() as i128) > p2.open() as i128 + p2.close() as i128,
            _ => false,
        }
    }

    /// A bearish bar, then a doji, then a bullish bar that closes above the
    /// first bar's midpoint.
    pub fn is_morning_star_doji(&self) -> (r: bool)
        requires
            self.wf(),
        ensures
            r == self.spec_morning_star_doji(),
    {
        match (self.get(), self.prev(1), self.prev(2)) {
            (Some(c), Some(p1), Some(p2)) => p2.is_bearish() && p1.is_doji() && c.is_bullish() && 2 * (c.close() as i128)
                > p2.open() as i128 + p2.close() as i128,
            _ => false,
        }
    }

    /// Three bullish bars, each opening and closing above the previous close.
    pub fn is_three_white_soldiers(&self) -> (r: bool)
        requires
            self.wf(),
        ensures
            r == self.spec_three_white_soldiers(),
    {
        match (self.get(), self.prev(1), self.prev(2)) {
            (Some(c), Some(p1), Some(p2)) => p2.is_bullish() && p1.is_bullish() && p1.open() > p2.close() && p1.close()
                > p2.close() && c.is_bullish() && c.open() > p1.close() && c.close() > p1.close(),
            _ => false,
        }
    }

    /// Three bearish bars, each opening and closing below the previous close.
    pub fn is_three_black_crows(&self) -> (r: bool)
        requires
            self.wf(),
        ensures
            r == self.spec_three_black_crows(),
    {
        match (self.get(), self.prev(1), self.prev(2)) {
            (Some(c), Some(p1), Some(p2)) => p2.is_bearish() && p1.is_bearish() && p1.open() < p2.close() && p1.close()
                < p2.close() && c.is_bearish() && c.open() < p1.close() && c.close() < p1.close(),
            _ => false,
        }
    }

    /// A bearish bar, a bullish bar inside its body, then a bullish bar that is
    /// no doji and closes above the second.
    pub fn is_three_inside_up(&self) -> (r: bool)
        requires
            self.wf(),
        ensures
            r == self.spec_three_inside_up(),
    {
        match (self.get(), self.prev(1), self.prev(2)) {
            (Some(c), Some(p1), Some(p2)) => p2.is_bearish() && p1.is_bullish() && p1.open() > p2.close() && p1.close()
                < p2.open() && c.is_bullish() && c.close() > p1.close() && !c.is_doji(),
            _ => false,
        }
    }

    /// A bullish bar, a bearish bar inside its body, then a bearish bar that is
    /// no doji and closes below the second.
    pub fn is_three_inside_down(&self) -> (r: bool)
        requires
            self.wf(),
        ensures
            r == self.spec_three_inside_down(),
    {
        match (self.get(), self.prev(1), self.prev(2)) {
            (Some(c), Some(p1), Some(p2)) => p2.is_bullish() && p1.is_bearish() && p1.open() < p2.close() && p1.close()
                > p2.open() && c.is_bearish() && c.close() < p1.close() && !c.is_doji(),
            _ => false,
        }
    }
}

} // verus!
