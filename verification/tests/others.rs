use tatk::indicators::{LinearRegression, StandardDeviation, Variance};
use tatk::traits::{Next, Value};
use tatk::Num;

/// Twenty closing prices.
const PRICES: [f64; 20] = [
    91.500000, 94.815000, 94.375000, 95.095000, 93.780000, 94.625000, 92.530000, 92.750000,
    90.315000, 92.470000, 96.125000, 97.250000, 98.500000, 89.875000, 91.000000, 92.815000,
    89.155000, 89.345000, 91.625000, 89.875000,
];

fn fixed(x: f64) -> Num {
    (x * 1_000_000.0).round() as Num
}

fn data() -> Vec<Num> {
    PRICES.iter().map(|x| fixed(*x)).collect()
}

/// Whether a fixed-point value stands for `expected`, up to the rounding of
/// a few steps at six decimals.
fn close_to(value: Num, expected: f64) -> bool {
    (value as f64 / 1_000_000.0 - expected).abs() < 0.00005
}

/// Create and calculate the sample variance using 19 data points with a period of 10.
#[test]
fn create_variance_sample() {
    let data = data();
    let indicator = Variance::new(10, &data[..data.len() - 1], true).unwrap();
    assert!(close_to(indicator.value(), 11.317109999999998));
    assert_eq!(indicator.value(), 11_317_110)
}

/// Create and calculate the sample variance using 19 data points with a period of 10, then adds
/// an additional data point.
#[test]
fn next_variance_sample() {
    let data = data();
    let mut indicator = Variance::new(10, &data[..data.len() - 1], true).unwrap();
    let next: Num = indicator.next(data[data.len() - 1]);
    assert!(close_to(next, 12.190039166666669));
    assert_eq!(next, 12_190_038)
}

/// Create and calculate the population variance using 19 data points with a period of 10.
#[test]
fn create_variance_population() {
    let data = data();
    let indicator = Variance::new(10, &data[..data.len() - 1], false).unwrap();
    assert!(close_to(indicator.value(), 10.185398999999999));
    assert_eq!(indicator.value(), 10_185_399)
}

/// Create and calculate the population variance using 19 data points with a period of 10, then
/// adds an additional data point.
#[test]
fn next_variance_population() {
    let data = data();
    let mut indicator = Variance::new(10, &data[..data.len() - 1], false).unwrap();
    let next: Num = indicator.next(data[data.len() - 1]);
    assert!(close_to(next, 10.971035250000002));
    assert_eq!(next, 10_971_035)
}

/// Create and calculate the sample standard deviation using 19 data points with a period of 10.
#[test]
fn create_stdev_sample() {
    let data = data();
    let indicator = StandardDeviation::new(10, &data[..data.len() - 1], true).unwrap();
    assert!(close_to(indicator.value(), 3.3640912591664334));
    assert_eq!(indicator.value(), 3_364_091)
}

/// Create and calculate the sample standard deviation using 19 data points with a period of 10,
/// then adds an additional data point.
#[test]
fn next_stdev_sample() {
    let data = data();
    let mut indicator = StandardDeviation::new(10, &data[..data.len() - 1], true).unwrap();
    let next: Num = indicator.next(data[data.len() - 1]);
    assert!(close_to(next, 3.491423659005975));
    assert_eq!(next, 3_491_423)
}

/// Create and calculate the population standard deviation using 19 data points with a period of 10.
#[test]
fn create_stdev_population() {
    let data = data();
    let indicator = StandardDeviation::new(10, &data[..data.len() - 1], false).unwrap();
    assert!(close_to(indicator.value(), 3.1914571906889178));
    assert_eq!(indicator.value(), 3_191_457)
}

/// Create and calculate the population standard deviation using 19 data points with a period of
/// 10, then adds an additional data point.
#[test]
fn next_stdev_population() {
    let data = data();
    let mut indicator = StandardDeviation::new(10, &data[..data.len() - 1], false).unwrap();
    let next: Num = indicator.next(data[data.len() - 1]);
    assert!(close_to(next, 3.3122553117173807));
    assert_eq!(next, 3_312_255)
}

/// Create and calculate the best fit line using 19 data points with a period of 10.
#[test]
fn create_linereg() {
    let data = data();
    let indicator = LinearRegression::new(10, &data[..data.len() - 1]).unwrap();
    assert!(close_to(indicator.value(), 89.77590909090917));
    assert_eq!(indicator.value(), 89_775_912);
    assert_eq!(indicator.intercept(), 96_531_662);
    assert_eq!(indicator.slope(), -675_575)
}

/// Create and calculate the best fit line using 19 data points with a period of 10, then adds an
/// additional data point.
#[test]
fn next_linereg() {
    let data = data();
    let mut indicator = LinearRegression::new(10, &data[..data.len() - 1]).unwrap();
    let next: Num = indicator.next(data[data.len() - 1]);
    assert!(close_to(next, 88.69072727272732));
    assert_eq!(next, 88_690_730)
}
