use tatk::indicators::{
    BollingerBands, MovingAverageConvergenceDivergence, RelativeStrengthIndex,
};
use tatk::traits::{Next, Value};
use tatk::Num;

/// Twenty closing prices.
const PRICES: [f64; 20] = [
    91.500000, 94.815000, 94.375000, 95.095000, 93.780000, 94.625000, 92.530000, 92.750000,
    90.315000, 92.470000, 96.125000, 97.250000, 98.500000, 89.875000, 91.000000, 92.815000,
    89.155000, 89.345000, 91.625000, 89.875000,
];

fn fixed(x: f64) -> Num {
    (x * 1_000_000.0).round() as Num
}

fn data() -> Vec<Num> {
    PRICES.iter().map(|x| fixed(*x)).collect()
}

/// Whether a fixed-point value stands for `expected`, up to the rounding of
/// a few steps at six decimals.
fn close_to(value: Num, expected: f64) -> bool {
    (value as f64 / 1_000_000.0 - expected).abs() < 0.00005
}

/// Create and calculate a Moving Average Convergence and Divergence using 19 data points with a
/// short of 8, long of 10, and signal of 6.
#[test]
fn oscillators_create_macd() {
    let data = data();
    let indicator =
        MovingAverageConvergenceDivergence::new(8, 10, 6, &data[..data.len() - 1]).unwrap();
    assert!(close_to(indicator.value(), -0.3145389483187415));
    assert_eq!(indicator.value(), -314_540);
    assert_eq!(indicator.signal_value(), -263_889)
}

/// Creates a Moving Average Convergence and Divergence from 19 data points with short of 8, long
/// of 10, and signal of 6, then adds an additional data point to ensure the window is moving.
#[test]
fn oscillators_next_macd() {
    let data = data();
    let mut indicator =
        MovingAverageConvergenceDivergence::new(8, 10, 6, &data[..data.len() - 1]).unwrap();
    let next = indicator.next(data[data.len() - 1]);
    assert!(close_to(next.0, -0.3300712744833305));
    assert_eq!(next.0, -330_072);
    assert_eq!(indicator.signal_value(), -282_798)
}

/// Create and calculate a Relative Strength Index using 19 data points with a period of 10.
#[test]
fn create_rsi() {
    let data = data();
    let indicator = RelativeStrengthIndex::new(10, &data[..data.len() - 1]).unwrap();
    assert!(close_to(indicator.value(), 49.16871847490771));
    assert_eq!(indicator.value(), 49_168_731)
}

/// Creates a Relative Strength Index from 19 data points with period of 10, then adds an
/// additional data point to ensure the window is moving.
#[test]
fn next_rsi() {
    let data = data();
    let mut indicator = RelativeStrengthIndex::new(10, &data[..data.len() - 1]).unwrap();
    let next: Num = indicator.next(data[data.len() - 1]);
    assert!(close_to(next, 45.033256056615095));
    assert_eq!(next, 45_033_261)
}

/// Create and calculate Bollinger Bands using 19 data points with a period of 10.
#[test]
fn create_bbands() {
    let data = data();
    let indicator = BollingerBands::new(10, &data[..data.len() - 1], fixed(2.0)).unwrap();
    assert_eq!(indicator.value(), fixed(92.816));
    assert_eq!(indicator.lower(), 86_087_818);
    assert_eq!(indicator.upper(), 99_544_182);
    assert!(close_to(indicator.lower(), 92.816 - 2.0 * 3.3640912591664334));
    assert!(close_to(indicator.upper(), 92.816 + 2.0 * 3.3640912591664334))
}

/// Creates Bollinger Bands from 19 data points with period of 10, then adds an additional data
/// point to ensure the window is moving.
#[test]
fn next_bbands() {
    let data = data();
    let mut indicator = BollingerBands::new(10, &data[..data.len() - 1], fixed(2.0)).unwrap();
    let next = indicator.next(data[data.len() - 1]);
    assert_eq!(next.1, fixed(92.5565));
    assert_eq!(next.0, 85_573_654);
    assert_eq!(next.2, 99_539_346)
}
