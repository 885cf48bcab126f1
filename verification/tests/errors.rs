use tatk::error::decimal;
use tatk::indicators::{
    BollingerBands, DoubleExponentialMovingAverage, ExponentialMovingAverage, LinearRegression,
    McGinleyDynamic, MovingAverageConvergenceDivergence, RateOfChange, RelativeStrengthIndex,
    SimpleMovingAverage, StandardDeviation, Variance,
};
use tatk::{Num, TAError};

fn samples(n: usize) -> Vec<Num> {
    (0..n).map(|i| (i as Num + 1) * 1_000_000).collect()
}

fn is_size<T>(r: Result<T, TAError>) -> bool {
    matches!(r, Err(TAError::InvalidSize(_)))
}

fn is_data<T>(r: Result<T, TAError>) -> bool {
    matches!(r, Err(TAError::InvalidData(_)))
}

#[test]
fn messages() {
    assert_eq!(
        TAError::InvalidSize(String::from("capacity cannot be 0")).message(),
        "invalid size, capacity cannot be 0"
    );
    assert_eq!(
        TAError::InvalidData(String::from("no data provided")).message(),
        "invalid data, no data provided"
    );
    assert_eq!(
        TAError::InvalidIndex(3, 120).message(),
        "invalid indexes, start: 3 and end: 120"
    );
    assert_eq!(TAError::InvalidIndex(0, 9).message(), "invalid indexes, start: 0 and end: 9");
    assert_eq!(
        TAError::InvalidLine(String::from("long is too small")).message(),
        "invalid line, long is too small"
    );
}

#[test]
fn constructors_of_errors() {
    assert!(matches!(TAError::size("a"), TAError::InvalidSize(s) if s == "a"));
    assert!(matches!(TAError::data("b"), TAError::InvalidData(s) if s == "b"));
}

#[test]
fn decimal_numerals() {
    assert_eq!(decimal(0), "0");
    assert_eq!(decimal(7), "7");
    assert_eq!(decimal(10), "10");
    assert_eq!(decimal(1905), "1905");
    assert_eq!(decimal(usize::MAX), usize::MAX.to_string());
}

#[test]
fn sma_errors() {
    assert!(is_size(SimpleMovingAverage::new(0, &samples(5))));
    assert!(is_data(SimpleMovingAverage::new(6, &samples(5))));
    assert!(SimpleMovingAverage::new(5, &samples(5)).is_ok());
}

#[test]
fn ema_errors() {
    assert!(is_size(ExponentialMovingAverage::new(0, &samples(5))));
    assert!(is_data(ExponentialMovingAverage::new(6, &samples(5))));
    assert!(ExponentialMovingAverage::new(5, &samples(5)).is_ok());
}

#[test]
fn dema_errors() {
    assert!(is_size(DoubleExponentialMovingAverage::new(0, &samples(5))));
    assert!(is_data(DoubleExponentialMovingAverage::new(3, &samples(4))));
    assert!(DoubleExponentialMovingAverage::new(3, &samples(5)).is_ok());
    assert!(DoubleExponentialMovingAverage::new(1, &samples(1)).is_ok());
}

#[test]
fn macd_errors() {
    assert!(is_size(MovingAverageConvergenceDivergence::new(0, 3, 2, &samples(9))));
    assert!(is_size(MovingAverageConvergenceDivergence::new(2, 3, 0, &samples(9))));
    assert!(is_size(MovingAverageConvergenceDivergence::new(4, 3, 2, &samples(9))));
    // The long average needs three samples.
    assert!(is_data(MovingAverageConvergenceDivergence::new(2, 3, 2, &samples(2))));
    // The signal needs two values, the second of which takes a fourth sample.
    assert!(is_data(MovingAverageConvergenceDivergence::new(2, 3, 2, &samples(3))));
    assert!(MovingAverageConvergenceDivergence::new(2, 3, 2, &samples(4)).is_ok());
    assert!(MovingAverageConvergenceDivergence::new(3, 3, 1, &samples(3)).is_ok());
}

#[test]
fn rsi_errors() {
    assert!(is_data(RelativeStrengthIndex::new(5, &samples(5))));
    assert!(is_data(RelativeStrengthIndex::new(0, &samples(0))));
    assert!(is_size(RelativeStrengthIndex::new(0, &samples(5))));
    assert!(RelativeStrengthIndex::new(4, &samples(5)).is_ok());
}

#[test]
fn linear_regression_errors() {
    assert!(is_data(LinearRegression::new(6, &samples(5))));
    assert!(is_data(LinearRegression::new(1, &samples(0))));
    assert!(is_size(LinearRegression::new(1, &samples(5))));
    assert!(is_size(LinearRegression::new(0, &samples(5))));
    assert!(LinearRegression::new(2, &samples(2)).is_ok());
}

#[test]
fn rate_of_change_errors() {
    assert!(is_size(RateOfChange::new(1, &samples(5))));
    assert!(is_data(RateOfChange::new(5, &samples(5))));
    assert!(RateOfChange::new(4, &samples(5)).is_ok());
}

#[test]
fn mcginley_dynamic_errors() {
    assert!(is_size(McGinleyDynamic::new(1, &samples(5), 600_000)));
    assert!(is_data(McGinleyDynamic::new(5, &samples(5), 600_000)));
    assert!(McGinleyDynamic::new(4, &samples(5), 600_000).is_ok());
}

#[test]
fn variance_errors() {
    assert!(is_size(Variance::new(0, &samples(5), false)));
    assert!(is_data(Variance::new(6, &samples(5), false)));
    assert!(Variance::new(5, &samples(5), false).is_ok());
    assert!(Variance::new(1, &samples(5), false).is_ok());
}

#[test]
fn sample_variance_of_period_one_is_an_error() {
    assert!(is_size(Variance::new(1, &samples(5), true)));
    assert!(is_size(StandardDeviation::new(1, &samples(5), true)));
    assert!(Variance::new(2, &samples(5), true).is_ok());
    assert!(StandardDeviation::new(2, &samples(5), true).is_ok());
}

#[test]
fn standard_deviation_errors() {
    assert!(is_size(StandardDeviation::new(0, &samples(5), false)));
    assert!(is_data(StandardDeviation::new(6, &samples(5), false)));
    assert!(StandardDeviation::new(5, &samples(5), false).is_ok());
}

#[test]
fn bollinger_bands_errors() {
    assert!(is_size(BollingerBands::new(0, &samples(5), 2_000_000)));
    assert!(is_data(BollingerBands::new(6, &samples(5), 2_000_000)));
    assert!(BollingerBands::new(5, &samples(5), 2_000_000).is_ok());
}
