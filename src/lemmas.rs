//! Laws of the stream that relate its operations to one another.
use vstd::prelude::*;
use crate::candle_stick::CandleStick;
use crate::candle_stream::{CandleStream, SERIES_SIZE};

verus! {

/// No bar lies `SERIES_SIZE` or more pushes back, however many bars were
/// pushed: `prev(k)` is `None` for every such `k`.
pub proof fn lemma_nothing_beyond_capacity<'s, T>(s: &CandleStream<'s, T>, k: int)
    requires
        k >= SERIES_SIZE,
    ensures
        s.ago(k) is None,
{
}

/// A stream that has seen no push holds no bar and shows no formation.
pub proof fn lemma_empty_stream<'s, T: CandleStick>(s: &CandleStream<'s, T>)
    requires
        s@ == Seq::<&'s T>::empty(),
    ensures
        forall|k: int| #[trigger] s.ago(k) is None,
            !s.spec_bullish_doji_star(),
            !s.spec_bearish_doji_star(),
            !s.spec_bullish_engulfing(),
            !s.spec_bearish_engulfing(),
            !s.spec_bullish_harami(),
            !s.spec_bearish_harami(),
            !s.spec_dark_cloud_cover(),
            !s.spec_evening_star(),
            !s.spec_evening_star_doji(),
            !s.spec_morning_star(),
            !s.spec_morning_star_doji(),
            !s.spec_three_white_soldiers(),
            !s.spec_three_black_crows(),
            !s.spec_three_inside_up(),
            !s.spec_three_inside_down(),
{
}

/// Too short a history never shows a formation: two-bar formations need two
/// bars, three-bar formations three.
pub proof fn lemma_insufficient_history<'s, T: CandleStick>(s: &CandleStream<'s, T>)
    ensures
            s@.len() < 2 ==> !s.spec_bullish_doji_star(),
            s@.len() < 2 ==> !s.spec_bearish_doji_star(),
            s@.len() < 2 ==> !s.spec_bullish_engulfing(),
            s@.len() < 2 ==> !s.spec_bearish_engulfing(),
            s@.len() < 2 ==> !s.spec_bullish_harami(),
            s@.len() < 2 ==> !s.spec_bearish_harami(),
            s@.len() < 2 ==> !s.spec_dark_cloud_cover(),
            s@.len() < 3 ==> !s.spec_evening_star(),
            s@.len() < 3 ==> !s.spec_evening_star_doji(),
            s@.len() < 3 ==> !s.spec_morning_star(),
            s@.len() < 3 ==> !s.spec_morning_star_doji(),
            s@.len() < 3 ==> !s.spec_three_white_soldiers(),
            s@.len() < 3 ==> !s.spec_three_black_crows(),
            s@.len() < 3 ==> !s.spec_three_inside_up(),
            s@.len() < 3 ==> !s.spec_three_inside_down(),
{
}

/// After the first push the latest bar is the one pushed, and there is no
/// bar before it.
pub proof fn lemma_first_push<'s, T>(s: &CandleStream<'s, T>, t: &CandleStream<'s, T>, c: &'s T)
    requires
        s@ == Seq::<&'s T>::empty(),
        t@ == s@.push(c),
    ensures
        t.ago(0) == Some(c),
        t.ago(1) is None,
{
}

/// Once `SERIES_SIZE + 1` bars were pushed, the first is gone: the oldest
/// bar still held, `SERIES_SIZE - 1` pushes back, is the second pushed, and
/// every bar held is one of the last `SERIES_SIZE`.
pub proof fn lemma_oldest_is_evicted<'s, T>(s: &CandleStream<'s, T>)
    requires
        s@.len() == SERIES_SIZE + 1,
    ensures
        s.ago(SERIES_SIZE - 1) == Some(s@[1]),
        forall|k: int| 0 <= k < SERIES_SIZE ==> #[trigger] s.ago(k) == Some(s@[SERIES_SIZE - k]),
{
}

/// Every lookup and every formation query is a function of the bars pushed
/// alone, so asking twice with no push in between gives the same answer.
pub proof fn lemma_queries_depend_on_history<'s, T: CandleStick>(
    s: &CandleStream<'s, T>,
    t: &CandleStream<'s, T>,
)
    requires
        s@ == t@,
    ensures
        forall|k: int| #[trigger] s.ago(k) == t.ago(k),
            s.spec_bullish_doji_star() == t.spec_bullish_doji_star(),
            s.spec_bearish_doji_star() == t.spec_bearish_doji_star(),
            s.spec_bullish_engulfing() == t.spec_bullish_engulfing(),
            s.spec_bearish_engulfing() == t.spec_bearish_engulfing(),
            s.spec_bullish_harami() == t.spec_bullish_harami(),
            s.spec_bearish_harami() == t.spec_bearish_harami(),
            s.spec_dark_cloud_cover() == t.spec_dark_cloud_cover(),
            s.spec_evening_star() == t.spec_evening_star(),
            s.spec_evening_star_doji() == t.spec_evening_star_doji(),
            s.spec_morning_star() == t.spec_morning_star(),
            s.spec_morning_star_doji() == t.spec_morning_star_doji(),
            s.spec_three_white_soldiers() == t.spec_three_white_soldiers(),
            s.spec_three_black_crows() == t.spec_three_black_crows(),
            s.spec_three_inside_up() == t.spec_three_inside_up(),
            s.spec_three_inside_down() == t.spec_three_inside_down(),
{
}

/// Swapping the last two bars pushed undoes an engulfing formation: where
/// `a` then `b` is bullish (bearish) engulfing, `b` then `a` is neither
/// bullish nor bearish engulfing.
pub proof fn lemma_engulfing_depends_on_order<'s, T: CandleStick>(
    s: &CandleStream<'s, T>,
    t: &CandleStream<'s, T>,
    h: Seq<&'s T>,
    a: &'s T,
    b: &'s T,
)
    requires
        s@ == h.push(a).push(b),
        t@ == h.push(b).push(a),
    ensures
        s.spec_bullish_engulfing() ==> !t.spec_bullish_engulfing() && !t.spec_bearish_engulfing(),
        s.spec_bearish_engulfing() ==> !t.spec_bearish_engulfing() && !t.spec_bullish_engulfing(),
{
    assert(s.back(0) == b && s.back(1) == a);
    assert(t.back(0) == a && t.back(1) == b);
}

} // verus!
