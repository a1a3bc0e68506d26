//! Single-bar geometry and classification.
//!
//! Prices are integers in units of one ten-thousandth (a price of `52.25`
//! is written `522_500`), so every ratio test below is an exact comparison
//! of cross products. Ratio thresholds are given in parts per ten thousand
//! (`1_000` stands for 10%).
use vstd::prelude::*;

verus! {

/// Price units per whole price unit.
pub const PRICE_SCALE: i64 = 10_000;

/// Denominator of every ratio threshold.
pub const RATIO_SCALE: i128 = 10_000;

/// Smallest range a bar is given (0.001), so that ratios over it are defined.
pub const RANGE_FLOOR: i128 = 10;

/// Smallest body a bar is given (0.0001), so that ratios over it are defined.
pub const BODY_FLOOR: i128 = 1;

/// The ratio thresholds that govern the single-bar formations, each in
/// parts per ten thousand.
#[derive(Clone, Copy, Debug, PartialEq, Eq, Structural)]
pub struct Thresholds {
    pub hammer_body: u32,
    pub hammer_wick: u32,
    pub hammer_tail: u32,
    pub spinning_top_body: u32,
    pub spinning_top_shadow: u32,
    pub doji_body: u32,
    pub doji_long_leg: u32,
    pub doji_tail: u32,
    pub doji_wick: u32,
    pub doji_min: u32,
    pub marubozu: u32,
}

impl Thresholds {
    /// The customary thresholds.
    pub open spec fn spec_standard() -> Thresholds {
        Thresholds {
            hammer_body: 3_000,
            hammer_wick: 2_000,
            hammer_tail: 6_000,
            spinning_top_body: 2_000,
            spinning_top_shadow: 3_000,
            doji_body: 1_000,
            doji_long_leg: 3_000,
            doji_tail: 3_000,
            doji_wick: 3_000,
            doji_min: 500,
            marubozu: 2_000,
        }
    }

    /// Hammer body 30%, wick 20%, tail 60%; spinning top body 20%, shadows
    /// 30%; doji body 10%, long legs 30%, tail 30%, wick 30%, short side 5%;
    /// marubozu shadows 20% of the body.
    pub fn standard() -> (r: Thresholds)
        ensures
            r == Thresholds::spec_standard(),
    {
        Thresholds {
            hammer_body: 3_000,
            hammer_wick: 2_000,
            hammer_tail: 6_000,
            spinning_top_body: 2_000,
            spinning_top_shadow: 3_000,
            doji_body: 1_000,
            doji_long_leg: 3_000,
            doji_tail: 3_000,
            doji_wick: 3_000,
            doji_min: 500,
            marubozu: 2_000,
        }
    }
}

/// `x`, or `least` where `x` falls below it.
pub open spec fn at_least(x: int, least: int) -> int {
    if x > least {
        x
    } else {
        least
    }
}

/// The greater of `a` and `b`.
pub open spec fn max_of(a: int, b: int) -> int {
    if a > b {
        a
    } else {
        b
    }
}

/// The lesser of `a` and `b`.
pub open spec fn min_of(a: int, b: int) -> int {
    if a < b {
        a
    } else {
        b
    }
}

/// The magnitude of `a`.
pub open spec fn abs_of(a: int) -> int {
    if a < 0 {
        -a
    } else {
        a
    }
}

/// `num / den < ratio / RATIO_SCALE`, for a positive `den`.
pub open spec fn ratio_below(num: int, den: int, ratio: int) -> bool {
    num * RATIO_SCALE < ratio * den
}

/// `num / den > ratio / RATIO_SCALE`, for a positive `den`.
pub open spec fn ratio_above(num: int, den: int, ratio: int) -> bool {
    num * RATIO_SCALE > ratio * den
}

/// High minus low, but never below `RANGE_FLOOR`.
pub open spec fn range_of(high: int, low: int) -> int {
    at_least(high - low, RANGE_FLOOR as int)
}

/// Distance between open and close, but never below `BODY_FLOOR`.
pub open spec fn body_of(open: int, close: int) -> int {
    at_least(abs_of(open - close), BODY_FLOOR as int)
}

/// Upper shadow: high minus the greater of open and close.
pub open spec fn wick_of(open: int, high: int, close: int) -> int {
    high - max_of(open, close)
}

/// Lower shadow: the lesser of open and close minus low.
pub open spec fn tail_of(open: int, low: int, close: int) -> int {
    min_of(open, close) - low
}

/// The body is under `ratio` (parts per ten thousand) of the range.
pub open spec fn doji_shape(open: int, high: int, low: int, close: int, ratio: int) -> bool {
    ratio_below(body_of(open, close), range_of(high, low), ratio)
}

/// Upper and lower shadows both under `marubozu` of the body.
pub open spec fn marubozu_shape(open: int, high: int, low: int, close: int, t: Thresholds) -> bool {
    &&& ratio_below(wick_of(open, high, close), body_of(open, close), t.marubozu as int)
    &&& ratio_below(tail_of(open, low, close), body_of(open, close), t.marubozu as int)
}

/// A small body, a short upper shadow and a long lower shadow.
pub open spec fn hammer_shape(open: int, high: int, low: int, close: int, t: Thresholds) -> bool {
    &&& ratio_below(body_of(open, close), range_of(high, low), t.hammer_body as int)
    &&& ratio_below(wick_of(open, high, close), range_of(high, low), t.hammer_wick as int)
    &&& ratio_above(tail_of(open, low, close), range_of(high, low), t.hammer_tail as int)
}

/// A small body, a long upper shadow and a short lower shadow.
pub open spec fn inverted_hammer_shape(
    open: int,
    high: int,
    low: int,
    close: int,
    t: Thresholds,
) -> bool {
    &&& ratio_below(body_of(open, close), range_of(high, low), t.hammer_body as int)
    &&& ratio_above(wick_of(open, high, close), range_of(high, low), t.hammer_tail as int)
    &&& ratio_below(tail_of(open, low, close), range_of(high, low), t.hammer_wick as int)
}

/// A small body between two long shadows.
pub open spec fn spinning_top_shape(
    open: int,
    high: int,
    low: int,
    close: int,
    t: Thresholds,
) -> bool {
    &&& ratio_below(body_of(open, close), range_of(high, low), t.spinning_top_body as int)
    &&& ratio_above(wick_of(open, high, close), range_of(high, low), t.spinning_top_shadow as int)
    &&& ratio_above(tail_of(open, low, close), range_of(high, low), t.spinning_top_shadow as int)
}

/// A doji with both shadows long.
pub open spec fn long_legged_doji_shape(
    open: int,
    high: int,
    low: int,
    close: int,
    t: Thresholds,
) -> bool {
    &&& doji_shape(open, high, low, close, t.doji_body as int)
    &&& ratio_above(tail_of(open, low, close), range_of(high, low), t.doji_long_leg as int)
    &&& ratio_above(wick_of(open, high, close), range_of(high, low), t.doji_long_leg as int)
}

/// A doji with a long lower shadow and almost no upper one.
pub open spec fn dragonfly_doji_shape(
    open: int,
    high: int,
    low: int,
    close: int,
    t: Thresholds,
) -> bool {
    &&& doji_shape(open, high, low, close, t.doji_body as int)
    &&& ratio_above(tail_of(open, low, close), range_of(high, low), t.doji_tail as int)
    &&& ratio_below(wick_of(open, high, close), range_of(high, low), t.doji_min as int)
}

/// A doji with a long upper shadow and almost no lower one.
pub open spec fn gravestone_doji_shape(
    open: int,
    high: int,
    low: int,
    close: int,
    t: Thresholds,
) -> bool {
    &&& doji_shape(open, high, low, close, t.doji_body as int)
    &&& ratio_above(wick_of(open, high, close), range_of(high, low), t.doji_wick as int)
    &&& ratio_below(tail_of(open, low, close), range_of(high, low), t.doji_min as int)
}

/// Bound on the magnitude of any difference of two prices.
pub const SPAN: i128 = 0x1_0000_0000_0000_0000;

/// Decides `ratio_below(num, den, ratio)` without overflow.
fn below(num: i128, den: i128, ratio: u32) -> (r: bool)
    requires
        -SPAN <= num <= SPAN,
        0 < den <= SPAN,
    ensures
        r == ratio_below(num as int, den as int, ratio as int),
{
    proof {
        assert(-SPAN * RATIO_SCALE <= num * RATIO_SCALE <= SPAN * RATIO_SCALE) by (nonlinear_arith)
            requires
                -SPAN <= num <= SPAN,
        ;
        assert(0 <= ratio * den <= 0x1_0000_0000 * SPAN) by (nonlinear_arith)
            requires
                0 < den <= SPAN,
                0 <= ratio < 0x1_0000_0000,
        ;
    }
    num * RATIO_SCALE < ratio as i128 * den
}

/// Decides `ratio_above(num, den, ratio)` without overflow.
fn above(num: i128, den: i128, ratio: u32) -> (r: bool)
    requires
        -SPAN <= num <= SPAN,
        0 < den <= SPAN,
    ensures
        r == ratio_above(num as int, den as int, ratio as int),
{
    proof {
        assert(-SPAN * RATIO_SCALE <= num * RATIO_SCALE <= SPAN * RATIO_SCALE) by (nonlinear_arith)
            requires
                -SPAN <= num <= SPAN,
        ;
        assert(0 <= ratio * den <= 0x1_0000_0000 * SPAN) by (nonlinear_arith)
            requires
                0 < den <= SPAN,
                0 <= ratio < 0x1_0000_0000,
        ;
    }
    num * RATIO_SCALE > ratio as i128 * den
}

/// A price bar: open, high, low, close and volume, with the thresholds that
/// classify it. Implementors supply the accessors; the geometry and the
/// formations follow from them.
pub trait CandleStick {
    spec fn spec_open(&self) -> int;

    spec fn spec_high(&self) -> int;

    spec fn spec_low(&self) -> int;

    spec fn spec_close(&self) -> int;

    spec fn spec_volume(&self) -> int;

    spec fn spec_thresholds(&self) -> Thresholds;

    /// Opening price.
    fn open(&self) -> (r: i64)
        ensures
            r == self.spec_open(),
    ;

    /// Highest price.
    fn high(&self) -> (r: i64)
        ensures
            r == self.spec_high(),
    ;

    /// Lowest price.
    fn low(&self) -> (r: i64)
        ensures
            r == self.spec_low(),
    ;

    /// Closing price.
    fn close(&self) -> (r: i64)
        ensures
            r == self.spec_close(),
    ;

    /// Traded volume; no formation reads it.
    fn volume(&self) -> (r: i64)
        ensures
            r == self.spec_volume(),
    ;

    /// The thresholds that classify this bar.
    fn thresholds(&self) -> (r: Thresholds)
        ensures
            r == self.spec_thresholds(),
    ;

    /// High minus low, at least `RANGE_FLOOR`.
    fn range(&self) -> (r: i128)
        ensures
            r == range_of(self.spec_high(), self.spec_low()),
            RANGE_FLOOR <= r <= SPAN,
    {
        let d = self.high() as i128 - self.low() as i128;
        if d > RANGE_FLOOR {
            d
        } else {
            RANGE_FLOOR
        }
    }

    /// Distance between open and close, at least `BODY_FLOOR`.
    fn body(&self) -> (r: i128)
        ensures
            r == body_of(self.spec_open(), self.spec_close()),
            BODY_FLOOR <= r <= SPAN,
    {
        let d = self.open() as i128 - self.close() as i128;
        let a = if d < 0 {
            -d
        } else {
            d
        };
        if a > BODY_FLOOR {
            a
        } else {
            BODY_FLOOR
        }
    }

    /// Upper shadow.
    fn wick(&self) -> (r: i128)
        ensures
            r == wick_of(self.spec_open(), self.spec_high(), self.spec_close()),
            -SPAN < r < SPAN,
    {
        let o = self.open();
        let c = self.close();
        let top = if o > c {
            o
        } else {
            c
        };
        self.high() as i128 - top as i128
    }

    /// Lower shadow.
    fn tail(&self) -> (r: i128)
        ensures
            r == tail_of(self.spec_open(), self.spec_low(), self.spec_close()),
            -SPAN < r < SPAN,
    {
        let o = self.open();
        let c = self.close();
        let bottom = if o < c {
            o
        } else {
            c
        };
        bottom as i128 - self.low() as i128
    }

    /// Open, high, low and close.
    fn ohlc(&self) -> (r: (i64, i64, i64, i64))
        ensures
            r.0 == self.spec_open(),
            r.1 == self.spec_high(),
            r.2 == self.spec_low(),
            r.3 == self.spec_close(),
    {
        (self.open(), self.high(), self.low(), self.close())
    }

    /// Both shadows are short against the body.
    fn is_marubozu(&self) -> (r: bool)
        ensures
            r == marubozu_shape(
                self.spec_open(),
                self.spec_high(),
                self.spec_low(),
                self.spec_close(),
                self.spec_thresholds(),
            ),
    {
        let t = self.thresholds();
        let body = self.body();
        below(self.wick(), body, t.marubozu) && below(self.tail(), body, t.marubozu)
    }

    /// A bullish marubozu.
    fn is_bullish_marubozu(&self) -> (r: bool)
        ensures
            r == (self.spec_open() < self.spec_close() && marubozu_shape(
                self.spec_open(),
                self.spec_high(),
                self.spec_low(),
                self.spec_close(),
                self.spec_thresholds(),
            )),
    {
        self.is_bullish() && self.is_marubozu()
    }

    /// A bearish marubozu.
    fn is_bearish_marubozu(&self) -> (r: bool)
        ensures
            r == (self.spec_open() > self.spec_close() && marubozu_shape(
                self.spec_open(),
                self.spec_high(),
                self.spec_low(),
                self.spec_close(),
                self.spec_thresholds(),
            )),
    {
        self.is_bearish() && self.is_marubozu()
    }

    /// A small body at the top of the range, with a long lower shadow.
    fn is_hammer(&self) -> (r: bool)
        ensures
            r == hammer_shape(
                self.spec_open(),
                self.spec_high(),
                self.spec_low(),
                self.spec_close(),
                self.spec_thresholds(),
            ),
    {
        let t = self.thresholds();
        let range = self.range();
        below(self.body(), range, t.hammer_body) && below(self.wick(), range, t.hammer_wick)
            && above(self.tail(), range, t.hammer_tail)
    }

    /// A small body at the bottom of the range, with a long upper shadow.
    fn is_inverted_hammer(&self) -> (r: bool)
        ensures
            r == inverted_hammer_shape(
                self.spec_open(),
                self.spec_high(),
                self.spec_low(),
                self.spec_close(),
                self.spec_thresholds(),
            ),
    {
        let t = self.thresholds();
        let range = self.range();
        below(self.body(), range, t.hammer_body) && above(self.wick(), range, t.hammer_tail)
            && below(self.tail(), range, t.hammer_wick)
    }

    /// The hammer shape; telling the two apart takes the trend, which one bar
    /// does not show.
    fn is_hanging_man(&self) -> (r: bool)
        ensures
            r == hammer_shape(
                self.spec_open(),
                self.spec_high(),
                self.spec_low(),
                self.spec_close(),
                self.spec_thresholds(),
            ),
    {
        self.is_hammer()
    }

    /// The inverted hammer shape; telling the two apart takes the trend, which
    /// one bar does not show.
    fn is_shooting_star(&self) -> (r: bool)
        ensures
            r == inverted_hammer_shape(
                self.spec_open(),
                self.spec_high(),
                self.spec_low(),
                self.spec_close(),
                self.spec_thresholds(),
            ),
    {
        self.is_inverted_hammer()
    }

    /// A small body between two long shadows.
    fn is_spinning_top(&self) -> (r: bool)
        ensures
            r == spinning_top_shape(
                self.spec_open(),
                self.spec_high(),
                self.spec_low(),
                self.spec_close(),
                self.spec_thresholds(),
            ),
    {
        let t = self.thresholds();
        let range = self.range();
        below(self.body(), range, t.spinning_top_body) && above(self.wick(), range, t.spinning_top_shadow)
            && above(self.tail(), range, t.spinning_top_shadow)
    }

    /// Closes above its open.
    fn is_bullish(&self) -> (r: bool)
        ensures
            r == (self.spec_open() < self.spec_close()),
    {
        self.open() < self.close()
    }

    /// Closes below its open.
    fn is_bearish(&self) -> (r: bool)
        ensures
            r == (self.spec_open() > self.spec_close()),
    {
        self.open() > self.close()
    }

    /// The body is under `doji_body` of the range.
    fn is_doji(&self) -> (r: bool)
        ensures
            r == doji_shape(
                self.spec_open(),
                self.spec_high(),
                self.spec_low(),
                self.spec_close(),
                self.spec_thresholds().doji_body as int,
            ),
    {
        below(self.body(), self.range(), self.thresholds().doji_body)
    }

    /// A doji with long shadows on both sides.
    fn is_long_legged_doji(&self) -> (r: bool)
        ensures
            r == long_legged_doji_shape(
                self.spec_open(),
                self.spec_high(),
                self.spec_low(),
                self.spec_close(),
                self.spec_thresholds(),
            ),
    {
        let t = self.thresholds();
        let range = self.range();
        self.is_doji() && above(self.tail(), range, t.doji_long_leg) && above(self.wick(), range, t.doji_long_leg)
    }

    /// A doji with a long lower shadow and almost no upper one.
    fn is_dragonfly_doji(&self) -> (r: bool)
        ensures
            r == dragonfly_doji_shape(
                self.spec_open(),
                self.spec_high(),
                self.spec_low(),
                self.spec_close(),
                self.spec_thresholds(),
            ),
    {
        let t = self.thresholds();
        let range = self.range();
        self.is_doji() && above(self.tail(), range, t.doji_tail) && below(self.wick(), range, t.doji_min)
    }

    /// A doji with a long upper shadow and almost no lower one.
    fn is_gravestone_doji(&self) -> (r: bool)
        ensures
            r == gravestone_doji_shape(
                self.spec_open(),
                self.spec_high(),
                self.spec_low(),
                self.spec_close(),
                self.spec_thresholds(),
            ),
    {
        let t = self.thresholds();
        let range = self.range();
        self.is_doji() && above(self.wick(), range, t.doji_wick) && below(self.tail(), range, t.doji_min)
    }
}

/// A bar written as `(open, high, low, close, volume)`, classified with the
/// standard thresholds.
impl CandleStick for (i64, i64, i64, i64, i64) {
    open spec fn spec_open(&self) -> int {
        self.0 as int
    }

    open spec fn spec_high(&self) -> int {
        self.1 as int
    }

    open spec fn spec_low(&self) -> int {
        self.2 as int
    }

    open spec fn spec_close(&self) -> int {
        self.3 as int
    }

    open spec fn spec_volume(&self) -> int {
        self.4 as int
    }

    open spec fn spec_thresholds(&self) -> Thresholds {
        Thresholds::spec_standard()
    }

    fn open(&self) -> (r: i64) {
        self.0
    }

    fn high(&self) -> (r: i64) {
        self.1
    }

    fn low(&self) -> (r: i64) {
        self.2
    }

    fn close(&self) -> (r: i64) {
        self.3
    }

    fn volume(&self) -> (r: i64) {
        self.4
    }

    fn thresholds(&self) -> (r: Thresholds) {
        Thresholds::standard()
    }
}

/// A bar that carries its own thresholds, so that each bar can be
/// classified by its own measure.
#[derive(Clone, Copy, Debug, PartialEq, Eq, Structural)]
pub struct Candle {
    pub open: i64,
    pub high: i64,
    pub low: i64,
    pub close: i64,
    pub volume: i64,
    pub thresholds: Thresholds,
}

impl Candle {
    /// A bar with the standard thresholds.
    pub fn new(open: i64, high: i64, low: i64, close: i64, volume: i64) -> (r: Candle)
        ensures
            r == (Candle { open, high, low, close, volume, thresholds: Thresholds::spec_standard() }),
    {
        Candle { open, high, low, close, volume, thresholds: Thresholds::standard() }
    }

    /// The same bar, classified by `thresholds`.
    pub fn with_thresholds(self, thresholds: Thresholds) -> (r: Candle)
        ensures
            r == (Candle { thresholds, ..self }),
    {
        Candle { thresholds, ..self }
    }
}

impl CandleStick for Candle {
    open spec fn spec_open(&self) -> int {
        self.open as int
    }

    open spec fn spec_high(&self) -> int {
        self.high as int
    }

    open spec fn spec_low(&self) -> int {
        self.low as int
    }

    open spec fn spec_close(&self) -> int {
        self.close as int
    }

    open spec fn spec_volume(&self) -> int {
        self.volume as int
    }

    open spec fn spec_thresholds(&self) -> Thresholds {
        self.thresholds
    }

    fn open(&self) -> (r: i64) {
        self.open
    }

    fn high(&self) -> (r: i64) {
        self.high
    }

    fn low(&self) -> (r: i64) {
        self.low
    }

    fn close(&self) -> (r: i64) {
        self.close
    }

    fn volume(&self) -> (r: i64) {
        self.volume
    }

    fn thresholds(&self) -> (r: Thresholds) {
        self.thresholds
    }
}

} // verus!
