//! Lookups and formations of a stream. Prices are in ten-thousandths.
use candlestick_rs::CandleStream;

type Bar = (i64, i64, i64, i64, i64);

#[test]
fn test_nth_index() {
    let candle1: Bar = (1_000_000, 1_050_000, 990_000, 1_040_000, 0);
    let candle2: Bar = (1_045_000, 1_100_000, 1_040_000, 1_090_000, 0);
    let candle3: Bar = (1_095_000, 1_120_000, 1_080_000, 1_110_000, 0);
    let candle4: Bar = (1_115_000, 1_150_000, 1_100_000, 1_140_000, 0);
    let candle5: Bar = (1_145_000, 1_180_000, 1_130_000, 1_170_000, 0);
    let candle6: Bar = (1_175_000, 1_200_000, 1_160_000, 1_190_000, 0);

    let mut stream = CandleStream::new();

    assert_eq!(stream.nth_index(6), None);

    stream.push(&candle1).push(&candle2);

    assert_eq!(stream.nth_index(0), Some(2));
    assert_eq!(stream.nth_index(1), Some(1));
    assert_eq!(stream.nth_index(2), Some(0));

    stream.push(&candle3).push(&candle4).push(&candle5);

    assert_eq!(stream.nth_index(0), Some(0));
    assert_eq!(stream.nth_index(1), Some(4));
    assert_eq!(stream.nth_index(2), Some(3));
    assert_eq!(stream.nth_index(3), Some(2));
    assert_eq!(stream.nth_index(4), Some(1));
    assert_eq!(stream.nth_index(5), Some(0));

    stream.push(&candle6);

    assert_eq!(stream.nth_index(0), Some(1));
    assert_eq!(stream.nth_index(1), Some(0));
    assert_eq!(stream.nth_index(2), Some(4));
    assert_eq!(stream.nth_index(3), Some(3));
    assert_eq!(stream.nth_index(4), Some(2));
    assert_eq!(stream.nth_index(5), Some(1));
}

#[test]
fn test_at() {
    let candle1: Bar = (1_000_000, 1_050_000, 990_000, 1_040_000, 0);
    let candle2: Bar = (1_045_000, 1_100_000, 1_040_000, 1_090_000, 0);
    let candle3: Bar = (1_095_000, 1_120_000, 1_080_000, 1_110_000, 0);
    let candle4: Bar = (1_115_000, 1_150_000, 1_100_000, 1_140_000, 0);
    let candle5: Bar = (1_145_000, 1_180_000, 1_130_000, 1_170_000, 0);
    let candle6: Bar = (1_175_000, 1_200_000, 1_160_000, 1_190_000, 0);

    let mut stream = CandleStream::new();
    stream.push(&candle1).push(&candle2);

    assert_eq!(stream.at(0), Some(&candle1));
    assert_eq!(stream.at(1), Some(&candle2));
    assert_eq!(stream.at(2), None);

    stream.push(&candle3).push(&candle4).push(&candle5);

    assert_eq!(stream.at(0), Some(&candle1));
    assert_eq!(stream.at(1), Some(&candle2));
    assert_eq!(stream.at(2), Some(&candle3));
    assert_eq!(stream.at(3), Some(&candle4));
    assert_eq!(stream.at(4), Some(&candle5));

    stream.push(&candle6);

    assert_eq!(stream.at(0), Some(&candle6));
    assert_eq!(stream.at(1), Some(&candle2));
    assert_eq!(stream.at(2), Some(&candle3));
    assert_eq!(stream.at(3), Some(&candle4));
    assert_eq!(stream.at(4), Some(&candle5));
}

#[test]
fn test_get() {
    let candle1: Bar = (1_000_000, 1_050_000, 990_000, 1_040_000, 0);
    let candle2: Bar = (1_045_000, 1_100_000, 1_040_000, 1_090_000, 0);
    let candle3: Bar = (1_095_000, 1_120_000, 1_080_000, 1_110_000, 0);

    let mut stream = CandleStream::new();
    assert_eq!(stream.get(), None);

    stream.push(&candle1);
    assert_eq!(stream.get(), Some(&candle1));

    stream.push(&candle2);
    assert_eq!(stream.get(), Some(&candle2));

    stream.push(&candle3).push(&candle1).push(&candle2);
    assert_eq!(stream.get(), Some(&candle2));

    stream.push(&candle3);
    assert_eq!(stream.get(), Some(&candle3));
}

#[test]
fn test_prev() {
    let candle1: Bar = (1_000_000, 1_050_000, 990_000, 1_040_000, 0);
    let candle2: Bar = (1_045_000, 1_100_000, 1_040_000, 1_090_000, 0);
    let candle3: Bar = (1_095_000, 1_120_000, 1_080_000, 1_110_000, 0);

    let mut stream = CandleStream::new();
    assert_eq!(stream.prev(1), None);

    stream.push(&candle1);
    assert_eq!(stream.prev(1), None);

    stream.push(&candle2);
    assert_eq!(stream.prev(1), Some(&candle1));

    stream.push(&candle3);
    assert_eq!(stream.prev(1), Some(&candle2));
    assert_eq!(stream.prev(2), Some(&candle1));
}

#[test]
fn test_is_three_inside_up() {
    let prev2: Bar = (540_000, 545_000, 518_000, 520_000, 0);
    let prev1: Bar = (522_000, 530_000, 520_000, 528_000, 0);
    let curr: Bar = (529_000, 550_000, 527_000, 545_000, 0);

    let mut series = CandleStream::new();

    assert!(series
        .push(&prev2)
        .push(&prev1)
        .push(&curr)
        .is_three_inside_up());
}

#[test]
fn test_is_three_inside_up_if_curr_engulfs_prev1() {
    let prev2: Bar = (540_000, 545_000, 518_000, 520_000, 0);
    let prev1: Bar = (522_000, 530_000, 520_000, 528_000, 0);
    let curr_engulf_prev1: Bar = (520_000, 550_000, 519_000, 535_000, 0);

    let mut series = CandleStream::new();

    assert!(series
        .push(&prev2)
        .push(&prev1)
        .push(&curr_engulf_prev1)
        .is_three_inside_up());
}

#[test]
fn test_is_not_three_inside_up_if_curr_is_doji() {
    let prev2: Bar = (540_000, 545_000, 518_000, 520_000, 0);
    let prev1: Bar = (522_000, 530_000, 520_000, 528_000, 0);
    let doji: Bar = (534_000, 550_000, 527_000, 535_000, 0);

    let mut series = CandleStream::new();

    assert!(!series
        .push(&prev2)
        .push(&prev1)
        .push(&doji)
        .is_three_inside_up());
}

#[test]
fn test_is_not_three_inside_up_if_prev2_not_bearish() {
    let not_bearish_prev2: Bar = (520_000, 545_000, 518_000, 540_000, 0);
    let prev1: Bar = (522_000, 530_000, 520_000, 528_000, 0);
    let curr: Bar = (529_000, 550_000, 527_000, 545_000, 0); // valid curr

    let mut series = CandleStream::new();

    assert!(!series
        .push(&not_bearish_prev2)
        .push(&prev1)
        .push(&curr)
        .is_three_inside_up());
}

#[test]
fn test_is_not_three_inside_up_if_prev2_is_doji() {
    let doji_prev2: Bar = (530_000, 545_000, 518_000, 530_000, 0);
    let prev1: Bar = (522_000, 530_000, 520_000, 528_000, 0);
    let curr: Bar = (529_000, 550_000, 527_000, 545_000, 0);

    let mut series = CandleStream::new();

    assert!(!series
        .push(&doji_prev2)
        .push(&prev1)
        .push(&curr)
        .is_three_inside_up());
}

#[test]
fn test_is_not_three_inside_up_if_prev1_not_bullish() {
    let prev2: Bar = (540_000, 545_000, 518_000, 520_000, 0);
    let not_bullish_prev1: Bar = (528_000, 530_000, 520_000, 522_000, 0); // open > close
    let curr: Bar = (529_000, 550_000, 527_000, 545_000, 0);

    let mut series = CandleStream::new();

    assert!(!series
        .push(&prev2)
        .push(&not_bullish_prev1)
        .push(&curr)
        .is_three_inside_up());
}

#[test]
fn test_is_not_three_inside_up_if_prev1_opens_below_prev2_close() {
    let prev2: Bar = (540_000, 545_000, 518_000, 520_000, 0);
    let prev1_open_below_prev2: Bar = (519_000, 530_000, 518_000, 525_000, 0);
    let curr: Bar = (529_000, 550_000, 527_000, 545_000, 0);

    let mut series = CandleStream::new();

    assert!(!series
        .push(&prev2)
        .push(&prev1_open_below_prev2)
        .push(&curr)
        .is_three_inside_up());
}

#[test]
fn test_is_not_three_inside_up_if_prev1_closes_above_prev2_open() {
    let prev2: Bar = (540_000, 545_000, 518_000, 520_000, 0);
    let prev1_close_above_prev2: Bar = (522_000, 550_000, 520_000, 545_000, 0);
    let curr: Bar = (546_000, 560_000, 527_000, 550_000, 0);

    let mut series = CandleStream::new();

    assert!(!series
        .push(&prev2)
        .push(&prev1_close_above_prev2)
        .push(&curr)
        .is_three_inside_up());
}

#[test]
fn test_is_not_three_inside_up_if_prev1_engulfs_prev2() {
    let prev2: Bar = (540_000, 545_000, 518_000, 520_000, 0);
    let prev1_engulf_prev2: Bar = (515_000, 550_000, 510_000, 545_000, 0);
    let curr: Bar = (546_000, 560_000, 535_000, 555_000, 0);

    let mut series = CandleStream::new();

    assert!(!series
        .push(&prev2)
        .push(&prev1_engulf_prev2)
        .push(&curr)
        .is_three_inside_up());
}

#[test]
fn test_is_not_three_inside_up_if_prev1_is_doji() {
    let prev2: Bar = (540_000, 545_000, 518_000, 520_000, 0);
    let doji_prev1: Bar = (528_000, 530_000, 520_000, 528_000, 0);
    let curr: Bar = (529_000, 550_000, 527_000, 545_000, 0);

    let mut series = CandleStream::new();

    assert!(!series
        .push(&prev2)
        .push(&doji_prev1)
        .push(&curr)
        .is_three_inside_up());
}

#[test]
fn test_is_not_three_inside_up_if_curr_is_inside_prev1() {
    let prev2: Bar = (540_000, 545_000, 518_000, 520_000, 0);
    let prev1: Bar = (522_000, 530_000, 520_000, 528_000, 0);
    let curr_inside_prev1: Bar = (523_000, 531_000, 521_000, 527_000, 0);

    let mut series = CandleStream::new();

    assert!(!series
        .push(&prev2)
        .push(&prev1)
        .push(&curr_inside_prev1)
        .is_three_inside_up());
}

#[test]
fn test_is_not_three_inside_up_if_curr_not_bullish() {
    let prev2: Bar = (540_000, 545_000, 518_000, 520_000, 0);
    let prev1: Bar = (522_000, 530_000, 520_000, 528_000, 0);
    let not_bullish_curr: Bar = (550_000, 555_000, 527_000, 530_000, 0);

    let mut series = CandleStream::new();

    assert!(!series
        .push(&prev2)
        .push(&prev1)
        .push(&not_bullish_curr)
        .is_three_inside_up());
}

#[test]
fn test_is_not_three_inside_up_with_insufficient_candles() {
    let prev2: Bar = (540_000, 545_000, 518_000, 520_000, 0);
    let prev1: Bar = (522_000, 530_000, 520_000, 528_000, 0);

    let mut series = CandleStream::new();

    assert!(!series.push(&prev2).is_three_inside_up());
    assert!(!series.push(&prev1).is_three_inside_up());
}

#[test]
fn test_is_three_inside_down() {
    let prev2: Bar = (480_000, 505_000, 478_000, 500_000, 0);
    let prev1: Bar = (495_000, 498_000, 485_000, 490_000, 0);
    let curr: Bar = (488_000, 490_000, 475_000, 479_000, 0);

    let mut series: CandleStream<'_, Bar> = CandleStream::new();

    assert!(series
        .push(&prev2)
        .push(&prev1)
        .push(&curr)
        .is_three_inside_down());
}

#[test]
fn test_is_three_inside_down_if_curr_engulfs_prev1() {
    let prev2: Bar = (480_000, 505_000, 478_000, 500_000, 0);
    let prev1: Bar = (495_000, 498_000, 485_000, 490_000, 0);
    let curr_engulf_prev1: Bar = (498_000, 500_000, 475_000, 488_000, 0); // open > prev1.open, close < prev1.close

    let mut series = CandleStream::new();

    assert!(series
        .push(&prev2)
        .push(&prev1)
        .push(&curr_engulf_prev1)
        .is_three_inside_down());
}

#[test]
fn test_is_not_three_inside_down_if_curr_is_doji() {
    let prev2: Bar = (480_000, 505_000, 478_000, 500_000, 0);
    let prev1: Bar = (495_000, 498_000, 485_000, 490_000, 0);
    let doji: Bar = (485_000, 500_000, 475_000, 485_000, 0); // open == close

    let mut series = CandleStream::new();

    assert!(!series
        .push(&prev2)
        .push(&prev1)
        .push(&doji)
        .is_three_inside_down());
}

#[test]
fn test_is_not_three_inside_down_if_prev2_not_bullish() {
    let not_bullish_prev2: Bar = (500_000, 505_000, 478_000, 480_000, 0); // bearish instead of bullish
    let prev1: Bar = (495_000, 498_000, 485_000, 490_000, 0);
    let curr: Bar = (488_000, 490_000, 475_000, 479_000, 0); // valid curr

    let mut series = CandleStream::new();

    assert!(!series
        .push(&not_bullish_prev2)
        .push(&prev1)
        .push(&curr)
        .is_three_inside_down());
}

#[test]
fn test_is_not_three_inside_down_if_prev2_is_doji() {
    let doji_prev2: Bar = (490_000, 505_000, 478_000, 490_000, 0); // open == close
    let prev1: Bar = (495_000, 498_000, 485_000, 490_000, 0);
    let curr: Bar = (488_000, 490_000, 475_000, 479_000, 0);

    let mut series = CandleStream::new();

    assert!(!series
        .push(&doji_prev2)
        .push(&prev1)
        .push(&curr)
        .is_three_inside_down());
}

#[test]
fn test_is_not_three_inside_down_if_prev1_not_bearish() {
    let prev2: Bar = (480_000, 505_000, 478_000, 500_000, 0);
    let not_bearish_prev1: Bar = (485_000, 495_000, 480_000, 492_000, 0); // open < close
    let curr: Bar = (488_000, 490_000, 475_000, 479_000, 0);

    let mut series = CandleStream::new();

    assert!(!series
        .push(&prev2)
        .push(&not_bearish_prev1)
        .push(&curr)
        .is_three_inside_down());
}

#[test]
fn test_is_not_three_inside_down_if_prev1_opens_above_prev2_close() {
    let prev2: Bar = (480_000, 505_000, 478_000, 500_000, 0);
    let prev1_open_above_prev2: Bar = (502_000, 505_000, 485_000, 495_000, 0);
    let curr: Bar = (488_000, 490_000, 475_000, 479_000, 0);

    let mut series = CandleStream::new();

    assert!(!series
        .push(&prev2)
        .push(&prev1_open_above_prev2)
        .push(&curr)
        .is_three_inside_down());
}

#[test]
fn test_is_not_three_inside_down_if_prev1_closes_below_prev2_open() {
    let prev2: Bar = (480_000, 505_000, 478_000, 500_000, 0);
    let prev1_close_below_prev2: Bar = (495_000, 498_000, 475_000, 479_000, 0); // close < 480_000
    let curr: Bar = (488_000, 490_000, 475_000, 479_000, 0);

    let mut series = CandleStream::new();

    assert!(!series
        .push(&prev2)
        .push(&prev1_close_below_prev2)
        .push(&curr)
        .is_three_inside_down());
}

#[test]
fn test_is_not_three_inside_down_if_prev1_engulfs_prev2() {
    let prev2: Bar = (480_000, 505_000, 478_000, 500_000, 0); // body [480_000, 500_000]
    let prev1_engulf_prev2: Bar = (505_000, 510_000, 470_000, 475_000, 0); // open > 500_000, close < 480_000
    let curr: Bar = (488_000, 490_000, 475_000, 479_000, 0);

    let mut series = CandleStream::new();

    assert!(!series
        .push(&prev2)
        .push(&prev1_engulf_prev2)
        .push(&curr)
        .is_three_inside_down());
}

#[test]
fn test_is_not_three_inside_down_if_prev1_is_doji() {
    let prev2: Bar = (480_000, 505_000, 478_000, 500_000, 0);
    let doji_prev1: Bar = (490_000, 495_000, 485_000, 490_000, 0); // open == close
    let curr: Bar = (488_000, 490_000, 475_000, 479_000, 0);

    let mut series = CandleStream::new();

    assert!(!series
        .push(&prev2)
        .push(&doji_prev1)
        .push(&curr)
        .is_three_inside_down());
}

#[test]
fn test_is_not_three_inside_down_if_curr_is_inside_prev1() {
    let prev2: Bar = (480_000, 505_000, 478_000, 500_000, 0);
    let prev1: Bar = (495_000, 498_000, 485_000, 490_000, 0); // body [490_000, 495_000]
    let curr_inside_prev1: Bar = (494_000, 496_000, 488_000, 491_000, 0); // close 491_000 > 490_000

    let mut series = CandleStream::new();

    assert!(!series
        .push(&prev2)
        .push(&prev1)
        .push(&curr_inside_prev1)
        .is_three_inside_down());
}

#[test]
fn test_is_not_three_inside_down_if_curr_not_bearish() {
    let prev2: Bar = (480_000, 505_000, 478_000, 500_000, 0);
    let prev1: Bar = (495_000, 498_000, 485_000, 490_000, 0);
    let not_bearish_curr: Bar = (478_000, 485_000, 475_000, 486_000, 0); // bullish

    let mut series = CandleStream::new();

    assert!(!series
        .push(&prev2)
        .push(&prev1)
        .push(&not_bearish_curr)
        .is_three_inside_down());
}

#[test]
fn test_is_not_three_inside_down_with_insufficient_candles() {
    let prev2: Bar = (480_000, 505_000, 478_000, 500_000, 0);
    let prev1: Bar = (495_000, 498_000, 485_000, 490_000, 0);

    let mut series = CandleStream::new();

    assert!(!series.push(&prev2).is_three_inside_down());
    assert!(!series.push(&prev1).is_three_inside_down());
}
