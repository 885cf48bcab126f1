use tatk::buffer::Buffer;
use tatk::indicators::{
    BollingerBands, DoubleExponentialMovingAverage, ExponentialMovingAverage, LinearRegression,
    McGinleyDynamic, MovingAverageConvergenceDivergence, RateOfChange, RelativeStrengthIndex,
    SimpleMovingAverage, StandardDeviation, Variance,
};
use tatk::traits::{Next, Period, Stats, Value};
use tatk::Num;

/// Twenty closing prices.
const PRICES: [f64; 20] = [
    91.500000, 94.815000, 94.375000, 95.095000, 93.780000, 94.625000, 92.530000, 92.750000,
    90.315000, 92.470000, 96.125000, 97.250000, 98.500000, 89.875000, 91.000000, 92.815000,
    89.155000, 89.345000, 91.625000, 89.875000,
];

fn data() -> Vec<Num> {
    PRICES.iter().map(|x| (x * 1_000_000.0).round() as Num).collect()
}

fn stats<L: Stats>(line: &L) -> (Num, Num, Num, Num, Num, Num) {
    (
        line.sum(),
        line.mean(),
        line.variance(true),
        line.variance(false),
        line.stdev(true),
        line.stdev(false),
    )
}

#[test]
fn buffer_seed_then_shift_is_the_tail_of_all_samples() {
    let data = data();
    for capacity in 1..=data.len() + 2 {
        for seed in 1..=data.len() {
            let direct = Buffer::from_array(capacity, &data).unwrap();
            let mut fed = Buffer::from_array(capacity, &data[..seed]).unwrap();
            for x in data[seed..].iter() {
                fed.shift(*x);
                let held: i128 = fed.queue().iter().map(|v| *v as i128).sum();
                assert_eq!(fed.sum_wide(), held);
            }
            assert_eq!(fed.queue(), direct.queue());
            assert_eq!(fed.sum(), direct.sum());
            assert_eq!(fed.is_ready(), data.len() >= capacity);
        }
    }
}

#[test]
fn sma_seed_then_feed() {
    let data = data();
    for period in 1..=10 {
        let direct = SimpleMovingAverage::new(period, &data).unwrap();
        for seed in period..data.len() {
            let mut fed = SimpleMovingAverage::new(period, &data[..seed]).unwrap();
            for x in data[seed..].iter() {
                fed.next(*x);
            }
            assert_eq!(fed.value(), direct.value());
            assert_eq!(fed.period(), direct.period());
            assert_eq!(stats(&fed), stats(&direct));
        }
    }
}

#[test]
fn ema_seed_then_feed() {
    let data = data();
    for period in 1..=10 {
        let direct = ExponentialMovingAverage::new(period, &data).unwrap();
        for seed in period..data.len() {
            let mut fed = ExponentialMovingAverage::new(period, &data[..seed]).unwrap();
            for x in data[seed..].iter() {
                fed.next(*x);
            }
            assert_eq!(fed.value(), direct.value());
            assert_eq!(stats(&fed), stats(&direct));
        }
    }
}

#[test]
fn dema_seed_then_feed() {
    let data = data();
    for period in 1..=10 {
        let direct = DoubleExponentialMovingAverage::new(period, &data).unwrap();
        for seed in (2 * period - 1)..data.len() {
            let mut fed = DoubleExponentialMovingAverage::new(period, &data[..seed]).unwrap();
            for x in data[seed..].iter() {
                fed.next(*x);
            }
            assert_eq!(fed.value(), direct.value());
            assert_eq!(stats(&fed), stats(&direct));
        }
    }
}

#[test]
fn rsi_seed_then_feed() {
    let data = data();
    for period in 1..=10 {
        let direct = RelativeStrengthIndex::new(period, &data).unwrap();
        for seed in (period + 1)..data.len() {
            let mut fed = RelativeStrengthIndex::new(period, &data[..seed]).unwrap();
            for x in data[seed..].iter() {
                fed.next(*x);
            }
            assert_eq!(fed.value(), direct.value());
            assert_eq!(stats(&fed), stats(&direct));
        }
    }
}

#[test]
fn macd_seed_then_feed() {
    let data = data();
    let direct = MovingAverageConvergenceDivergence::new(8, 10, 6, &data).unwrap();
    for seed in 15..data.len() {
        let mut fed = MovingAverageConvergenceDivergence::new(8, 10, 6, &data[..seed]).unwrap();
        for x in data[seed..].iter() {
            fed.next(*x);
        }
        assert_eq!(fed.value(), direct.value());
        assert_eq!(fed.signal_value(), direct.signal_value());
        assert_eq!(fed.period(), 6);
    }
}

#[test]
fn linear_regression_seed_then_feed() {
    let data = data();
    for period in 2..=10 {
        let direct = LinearRegression::new(period, &data).unwrap();
        for seed in period..data.len() {
            let mut fed = LinearRegression::new(period, &data[..seed]).unwrap();
            for x in data[seed..].iter() {
                fed.next(*x);
            }
            assert_eq!(fed.value(), direct.value());
            assert_eq!(fed.slope(), direct.slope());
            assert_eq!(fed.intercept(), direct.intercept());
            assert_eq!(fed.r_sq(), direct.r_sq());
            assert_eq!(fed.line_stdev(), direct.line_stdev());
            assert_eq!(stats(&fed), stats(&direct));
        }
    }
}

#[test]
fn rate_of_change_seed_then_feed() {
    let data = data();
    for period in 2..=10 {
        let direct = RateOfChange::new(period, &data).unwrap();
        for seed in (period + 1)..data.len() {
            let mut fed = RateOfChange::new(period, &data[..seed]).unwrap();
            for x in data[seed..].iter() {
                fed.next(*x);
            }
            assert_eq!(fed.value(), direct.value());
            assert_eq!(stats(&fed), stats(&direct));
        }
    }
}

#[test]
fn mcginley_dynamic_seed_then_feed() {
    let data = data();
    for period in 2..=10 {
        let direct = McGinleyDynamic::new(period, &data, 600_000).unwrap();
        for seed in (period + 1)..data.len() {
            let mut fed = McGinleyDynamic::new(period, &data[..seed], 600_000).unwrap();
            for x in data[seed..].iter() {
                fed.next(*x);
            }
            assert_eq!(fed.value(), direct.value());
            assert_eq!(stats(&fed), stats(&direct));
        }
    }
}

#[test]
fn variance_and_stdev_seed_then_feed() {
    let data = data();
    for is_sample in [true, false] {
        for period in 2..=10 {
            let direct_var = Variance::new(period, &data, is_sample).unwrap();
            let direct_sd = StandardDeviation::new(period, &data, is_sample).unwrap();
            for seed in period..data.len() {
                let mut var = Variance::new(period, &data[..seed], is_sample).unwrap();
                let mut sd = StandardDeviation::new(period, &data[..seed], is_sample).unwrap();
                for x in data[seed..].iter() {
                    var.next(*x);
                    sd.next(*x);
                }
                assert_eq!(var.value(), direct_var.value());
                assert_eq!(sd.value(), direct_sd.value());
                assert_eq!(var.is_sample(), is_sample);
                assert_eq!(sd.is_sample(), is_sample);
            }
        }
    }
}

#[test]
fn bollinger_bands_seed_then_feed() {
    let data = data();
    for period in 2..=10 {
        let direct = BollingerBands::new(period, &data, 2_000_000).unwrap();
        for seed in period..data.len() {
            let mut fed = BollingerBands::new(period, &data[..seed], 2_000_000).unwrap();
            for x in data[seed..].iter() {
                fed.next(*x);
            }
            assert_eq!(fed.value(), direct.value());
            assert_eq!(fed.lower(), direct.lower());
            assert_eq!(fed.upper(), direct.upper());
        }
    }
}

#[test]
fn window_of_values_fills_up_before_it_slides() {
    let data = data();
    // Three samples seed one value: the window of values holds it alone.
    let mut ema = ExponentialMovingAverage::new(3, &data[..3]).unwrap();
    let seed = ema.value();
    assert_eq!(seed, (data[0] + data[1] + data[2]) / 3);
    assert_eq!(ema.sum(), seed);
    assert_eq!(ema.mean(), seed);
    assert_eq!(ema.variance(false), 0);
    assert_eq!(ema.variance(true), 0);

    // It grows to three values and then slides.
    let second = ema.next(data[3]);
    assert_eq!(ema.sum(), seed + second);
    let third = ema.next(data[4]);
    assert_eq!(ema.sum(), seed + second + third);
    assert_eq!(ema.mean(), (seed + second + third) / 3);
    let fourth = ema.next(data[5]);
    assert_eq!(ema.sum(), second + third + fourth);
    let fifth = ema.next(data[6]);
    assert_eq!(ema.sum(), third + fourth + fifth);
}

#[test]
fn short_data_is_reported_as_invalid_data() {
    let data = data();
    for period in 1..=data.len() + 1 {
        let enough = data.len() >= period;
        assert_eq!(SimpleMovingAverage::new(period, &data).is_ok(), enough);
        assert_eq!(ExponentialMovingAverage::new(period, &data).is_ok(), enough);
        assert_eq!(Variance::new(period, &data, false).is_ok(), enough);
        assert_eq!(StandardDeviation::new(period, &data, false).is_ok(), enough);
        assert_eq!(BollingerBands::new(period, &data, 2_000_000).is_ok(), enough);
        assert_eq!(
            DoubleExponentialMovingAverage::new(period, &data).is_ok(),
            data.len() >= 2 * period - 1
        );
        assert_eq!(RelativeStrengthIndex::new(period, &data).is_ok(), data.len() >= period + 1);
        if period >= 2 {
            assert_eq!(LinearRegression::new(period, &data).is_ok(), enough);
            assert_eq!(RateOfChange::new(period, &data).is_ok(), data.len() >= period + 1);
            assert_eq!(
                McGinleyDynamic::new(period, &data, 600_000).is_ok(),
                data.len() >= period + 1
            );
        }
    }
}
