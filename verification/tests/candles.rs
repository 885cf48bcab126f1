use tatk::indicators::{AverageTrueRange, OnBalanceVolume, TrueRange};
use tatk::traits::{
    AsValue, Close, High, Low, Next, Open, Period, Stats, Volume, HL2, HLC3, OHLC4,
};
use tatk::indicators::SimpleMovingAverage;
use tatk::{Num, TAError};

/// A data point of a user's own. Each capability names the value that its
/// accessor returns, and the accessor returns it.
#[derive(Clone, Copy)]
struct Candle {
    open: Num,
    high: Num,
    low: Num,
    close: Num,
    volume: Num,
}

impl Open for Candle {
    fn open_spec(&self) -> Num {
        self.open
    }

    fn open(&self) -> Num {
        self.open
    }
}

impl High for Candle {
    fn high_spec(&self) -> Num {
        self.high
    }

    fn high(&self) -> Num {
        self.high
    }
}

impl Low for Candle {
    fn low_spec(&self) -> Num {
        self.low
    }

    fn low(&self) -> Num {
        self.low
    }
}

impl Close for Candle {
    fn close_spec(&self) -> Num {
        self.close
    }

    fn close(&self) -> Num {
        self.close
    }
}

impl Volume for Candle {
    fn volume_spec(&self) -> Num {
        self.volume
    }

    fn volume(&self) -> Num {
        self.volume
    }
}

impl HL2 for Candle {}

impl HLC3 for Candle {}

impl OHLC4 for Candle {}

impl AsValue for Candle {
    fn as_value_spec(&self) -> Num {
        self.ohlc4()
    }

    fn as_value(&self) -> Num {
        self.ohlc4()
    }
}

fn candle(open: i64, high: i64, low: i64, close: i64, volume: i64) -> Candle {
    Candle {
        open: open * 1_000_000,
        high: high * 1_000_000,
        low: low * 1_000_000,
        close: close * 1_000_000,
        volume: volume * 1_000_000,
    }
}

fn candles() -> Vec<Candle> {
    vec![
        candle(10, 12, 9, 11, 100),
        candle(11, 15, 10, 14, 200),
        candle(14, 14, 8, 9, 300),
        candle(9, 13, 9, 9, 400),
        candle(9, 20, 18, 19, 500),
        candle(19, 19, 12, 13, 600),
    ]
}

#[test]
fn averages_of_a_data_point() {
    let c = candle(5, 8, 4, 7, 2);
    assert_eq!(c.hl2(), 6_000_000);
    assert_eq!(c.hlc3(), 6_333_333);
    assert_eq!(c.ohlc4(), 6_000_000);
    assert_eq!(c.as_value(), 6_000_000);
}

#[test]
fn true_range_follows_the_formula() {
    let data = candles();
    // |15 - 10| = 5, |15 - 11| = 4, |10 - 11| = 1
    let mut tr = TrueRange::new(1, &data[..2]).unwrap();
    assert_eq!(tr.value(), 5_000_000);
    // |14 - 8| = 6, |14 - 14| = 0, |8 - 14| = 6
    assert_eq!(tr.next(&data[2]), 6_000_000);
    // |13 - 9| = 4, |13 - 9| = 4, |9 - 9| = 0
    assert_eq!(tr.next(&data[3]), 4_000_000);
    // A gap up: |20 - 18| = 2, |20 - 9| = 11, |18 - 9| = 9
    assert_eq!(tr.next(&data[4]), 11_000_000);
    // Through a tuple of high, low and close.
    let tuple: (Num, Num, Num) = (19_000_000, 12_000_000, 13_000_000);
    assert_eq!(tr.next(tuple), 7_000_000);
}

#[test]
fn true_range_keeps_a_window_of_ranges() {
    let data = candles();
    let tr = TrueRange::new(3, &data[..5]).unwrap();
    // Ranges: 5, 6, 4, 11; the window keeps the last three.
    assert_eq!(tr.sum(), 21_000_000);
    assert_eq!(tr.mean(), 7_000_000);
}

#[test]
fn true_range_seed_then_feed() {
    let data = candles();
    for period in 1..=3 {
        let direct = TrueRange::new(period, &data).unwrap();
        for seed in (period + 1)..data.len() {
            let mut fed = TrueRange::new(period, &data[..seed]).unwrap();
            for c in data[seed..].iter() {
                fed.next(c);
            }
            assert_eq!(fed.value(), direct.value());
            assert_eq!(fed.period(), period);
            assert_eq!(fed.sum(), direct.sum());
            assert_eq!(fed.variance(true), direct.variance(true));
        }
    }
}

#[test]
fn true_range_errors() {
    let data = candles();
    assert!(matches!(TrueRange::new(0, &data), Err(TAError::InvalidSize(_))));
    assert!(matches!(TrueRange::new(6, &data), Err(TAError::InvalidData(_))));
    assert!(TrueRange::new(5, &data).is_ok());
}

#[test]
fn average_true_range_seeds_with_the_mean_and_smooths() {
    let data = candles();
    // Ranges 5, 6, 4: mean 5.
    let mut atr = AverageTrueRange::new(3, &data[..4]).unwrap();
    assert_eq!(atr.value(), 5_000_000);
    // (5 * 2 + 11) / 3 = 7
    assert_eq!(atr.next(data[4]), 7_000_000);
    // (7 * 2 + 7) / 3 = 7
    let tuple: (Num, Num, Num) = (19_000_000, 12_000_000, 13_000_000);
    assert_eq!(atr.next(tuple), 7_000_000);
    assert_eq!(atr.sum(), 19_000_000);
}

#[test]
fn average_true_range_seed_then_feed() {
    let data = candles();
    let direct = AverageTrueRange::new(3, &data).unwrap();
    let mut fed = AverageTrueRange::new(3, &data[..4]).unwrap();
    fed.next(data[4]);
    fed.next(data[5]);
    assert_eq!(fed.value(), direct.value());
    assert_eq!(fed.sum(), direct.sum());
    assert_eq!(fed.stdev(true), direct.stdev(true));
}

#[test]
fn average_true_range_errors() {
    let data = candles();
    assert!(matches!(AverageTrueRange::new(0, &data), Err(TAError::InvalidSize(_))));
    assert!(matches!(AverageTrueRange::new(6, &data), Err(TAError::InvalidData(_))));
}

#[test]
fn on_balance_volume_adds_and_takes_off() {
    let data = candles();
    let mut obv = OnBalanceVolume::new(2, &data[..2]).unwrap();
    // Close rose from 11 to 14: + 200.
    assert_eq!(obv.value(), 200_000_000);
    // Close fell to 9: - 300.
    assert_eq!(obv.next(data[2]), -100_000_000);
    // Close stayed at 9: unchanged.
    assert_eq!(obv.next(data[3]), -100_000_000);
    // Close rose to 19: + 500.
    assert_eq!(obv.next(data[4]), 400_000_000);
    // Through a tuple of close and volume.
    let tuple: (Num, Num) = (13_000_000, 600_000_000);
    assert_eq!(obv.next(tuple), -200_000_000);
    assert_eq!(obv.sum(), 200_000_000);
}

#[test]
fn on_balance_volume_calculate() {
    let c = candle(0, 0, 0, 10, 50);
    assert_eq!(OnBalanceVolume::calculate(7, &c, 9_000_000), 50_000_007);
    assert_eq!(OnBalanceVolume::calculate(7, &c, 11_000_000), -49_999_993);
    assert_eq!(OnBalanceVolume::calculate(7, &c, 10_000_000), 7);
}

#[test]
fn on_balance_volume_seed_then_feed() {
    let data = candles();
    let direct = OnBalanceVolume::new(3, &data).unwrap();
    let mut fed = OnBalanceVolume::new(3, &data[..3]).unwrap();
    for c in data[3..].iter() {
        fed.next(*c);
    }
    assert_eq!(fed.value(), direct.value());
    assert_eq!(fed.sum(), direct.sum());
    assert_eq!(fed.mean(), direct.mean());
}

#[test]
fn on_balance_volume_errors() {
    let data = candles();
    assert!(matches!(OnBalanceVolume::new(1, &data), Err(TAError::InvalidSize(_))));
    assert!(matches!(OnBalanceVolume::new(7, &data), Err(TAError::InvalidData(_))));
    assert!(OnBalanceVolume::new(6, &data).is_ok());
}

#[test]
fn lines_take_user_data_points() {
    let data: [Num; 2] = [4_000_000, 8_000_000];
    let mut sma = SimpleMovingAverage::new(2, &data).unwrap();
    // The data point stands for (5 + 8 + 4 + 7) / 4 = 6.
    assert_eq!(sma.next(candle(5, 8, 4, 7, 2)), 7_000_000);
}
