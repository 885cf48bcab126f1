use tatk::indicators::{
    DoubleExponentialMovingAverage, ExponentialMovingAverage, McGinleyDynamic, RateOfChange,
    SimpleMovingAverage,
};
use tatk::traits::{Next, Value};
use tatk::Num;

/// Twenty closing prices.
const PRICES: [f64; 20] = [
    91.500000, 94.815000, 94.375000, 95.095000, 93.780000, 94.625000, 92.530000, 92.750000,
    90.315000, 92.470000, 96.125000, 97.250000, 98.500000, 89.875000, 91.000000, 92.815000,
    89.155000, 89.345000, 91.625000, 89.875000,
];

fn fixed(x: f64) -> Num {
    (x * 1_000_000.0).round() as Num
}

fn data() -> Vec<Num> {
    PRICES.iter().map(|x| fixed(*x)).collect()
}

/// Whether a fixed-point value stands for `expected`, up to the rounding of
/// a few steps at six decimals.
fn close_to(value: Num, expected: f64) -> bool {
    (value as f64 / 1_000_000.0 - expected).abs() < 0.00005
}

/// Create and calculate a Simple Moving Average using 19 data points with a period of 10.
#[test]
fn momentum_create_sma() {
    let data = data();
    let indicator = SimpleMovingAverage::new(10, &data[..data.len() - 1]).unwrap();
    assert_eq!(indicator.value(), fixed(92.816));
    assert!(close_to(indicator.value(), 92.816))
}

/// Creates a Simple Moving Average from 19 data points and a period of 10, then adds an
/// additional data point to ensure the window is moving.
#[test]
fn momentum_next_sma() {
    let data = data();
    let mut indicator = SimpleMovingAverage::new(10, &data[..data.len() - 1]).unwrap();
    assert_eq!(indicator.next(data[data.len() - 1]), fixed(92.5565))
}

/// Create and calculate an Exponential Moving Average using 19 data points with a period of 10.
#[test]
fn momentum_create_ema() {
    let data = data();
    let indicator = ExponentialMovingAverage::new(10, &data[..data.len() - 1]).unwrap();
    assert!(close_to(indicator.value(), 91.98938928832645));
    assert_eq!(indicator.value(), 91_989_391)
}

/// Creates an Exponential Moving Average from 19 data points and a period of 10, then adds an
/// additional data point to ensure the window is moving.
#[test]
fn momentum_next_ema() {
    let data = data();
    let mut indicator = ExponentialMovingAverage::new(10, &data[..data.len() - 1]).unwrap();
    let next: Num = indicator.next(data[data.len() - 1]);
    assert!(close_to(next, 91.6049548722671));
    assert_eq!(next, 91_604_957)
}

/// Create and calculate a Double Exponential Moving Average using 19 data points with a period of 10.
#[test]
fn momentum_create_dema() {
    let data = data();
    let indicator = DoubleExponentialMovingAverage::new(10, &data[..data.len() - 1]).unwrap();
    assert!(close_to(indicator.value(), 90.5309787563998));
    assert_eq!(indicator.value(), 90_530_983)
}

/// Creates a Double Exponential Moving Average from 19 data points and a period of 10, then adds
/// an additional data point to ensure the window is moving.
#[test]
fn momentum_next_dema() {
    let data = data();
    let mut indicator = DoubleExponentialMovingAverage::new(10, &data[..data.len() - 1]).unwrap();
    let next: Num = indicator.next(data[data.len() - 1]);
    assert!(close_to(next, 90.09717264209674));
    assert_eq!(next, 90_097_177)
}

/// Create and calculate a McGinley Dynamic Indicator using 19 data points with a period of 10.
#[test]
fn create_md() {
    let data = data();
    let indicator = McGinleyDynamic::new(10, &data[..data.len() - 1], fixed(0.6)).unwrap();
    assert!(close_to(indicator.value(), 91.6428518997655));
    assert_eq!(indicator.value(), 91_642_849)
}

/// Creates a McGinley Dynamic Indicator from 19 data points and a period of 10, then adds an
/// additional data point to ensure the window is moving.
#[test]
fn next_md() {
    let data = data();
    let mut indicator = McGinleyDynamic::new(10, &data[..data.len() - 1], fixed(0.6)).unwrap();
    let next: Num = indicator.next(data[data.len() - 1]);
    assert!(close_to(next, 91.32433432593635));
    assert_eq!(next, 91_324_332)
}

/// Create and calculate a Rate of Change using 19 data points with a period of 10.
#[test]
fn create_roc() {
    let data = data();
    let indicator = RateOfChange::new(10, &data[..data.len() - 1]).unwrap();
    assert!(close_to(indicator.value(), 1.4504788794773873));
    assert_eq!(indicator.value(), 1_450_478)
}

/// Creates a Rate of Change from 19 data points and a period of 10, then adds an additional
/// data point to ensure the window is moving.
#[test]
fn next_roc() {
    let data = data();
    let mut indicator = RateOfChange::new(10, &data[..data.len() - 1]).unwrap();
    let next: Num = indicator.next(data[data.len() - 1]);
    assert!(close_to(next, -2.806315561803827));
    assert_eq!(next, -2_806_315)
}
