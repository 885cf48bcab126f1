use tatk::indicators::{
    BollingerBands, Cross, ExponentialMovingAverage, LinearRegression, McGinleyDynamic,
    MovingAverageConvergenceDivergence, RateOfChange, RelativeStrengthIndex,
    SimpleMovingAverage,
};
use tatk::traits::{Next, Period, Stats, Value};
use tatk::Num;

const ONE: Num = 1_000_000;

fn whole(values: &[i64]) -> Vec<Num> {
    values.iter().map(|v| v * ONE).collect()
}

#[test]
fn rsi_of_even_gains_and_losses_is_fifty() {
    assert_eq!(RelativeStrengthIndex::calculate(ONE, ONE), 50 * ONE);
    // 100 - 100 / (1 + 3) = 75
    assert_eq!(RelativeStrengthIndex::calculate(3 * ONE, ONE), 75 * ONE);
    // 100 - 100 / (1 + 0) = 0
    assert_eq!(RelativeStrengthIndex::calculate(0, ONE), 0);
}

#[test]
fn rsi_without_losses_is_one_hundred() {
    assert_eq!(RelativeStrengthIndex::calculate(ONE, 0), 100 * ONE);
    assert_eq!(RelativeStrengthIndex::calculate(0, 0), 100 * ONE);
    let rising = whole(&[1, 2, 3, 4, 5]);
    let mut rsi = RelativeStrengthIndex::new(3, &rising).unwrap();
    assert_eq!(rsi.value(), 100 * ONE);
    assert!(rsi.is_overbought());
    assert!(!rsi.is_oversold());
    assert_eq!(rsi.next(6 * ONE), 100 * ONE);
}

#[test]
fn rsi_seeds_with_plain_means_and_smooths_after() {
    // Changes +2, -1, +2: gains 4, losses 1 over a period of 3.
    let data = whole(&[10, 12, 11, 13]);
    let mut rsi = RelativeStrengthIndex::new(3, &data).unwrap();
    // Average gain 1.333333, average loss 0.333333: 100 - 100 / (1 + 4.000003)
    assert_eq!(rsi.value(), 80_000_012);
    // A fall of 3: gain (1.333333 * 2 + 0) / 3 = 0.888888, loss (0.333333 * 2 + 3) / 3 = 1.222222.
    // 100 - 100 / (1 + 0.727272)
    assert_eq!(rsi.next(10 * ONE), 42_105_239);
    assert_eq!(rsi.period(), 3);
    assert_eq!(rsi.sum(), 80_000_012 + 42_105_239);
}

#[test]
fn rsi_thresholds() {
    let data = whole(&[10, 12, 11, 13]);
    let mut rsi = RelativeStrengthIndex::new(3, &data).unwrap();
    // 80.000012 against the thresholds 20 and 80.
    assert!(rsi.is_overbought());
    assert!(!rsi.is_oversold());
    rsi.set_overbought(81 * ONE);
    assert!(!rsi.is_overbought());
    rsi.set_oversold(81 * ONE);
    assert!(rsi.is_oversold());
    rsi.set_oversold(80_000_012);
    assert!(!rsi.is_oversold());
    rsi.set_overbought(80_000_012);
    assert!(!rsi.is_overbought());
}

#[test]
fn macd_marks_a_crossing_for_one_step() {
    let seed = whole(&[10, 11, 12, 13]);
    let mut macd = MovingAverageConvergenceDivergence::new(2, 3, 2, &seed).unwrap();
    assert_eq!(macd.value(), 500_000);
    assert_eq!(macd.signal_value(), 500_000);
    assert!(!macd.crossed());
    assert!(!macd.is_above());
    assert!(!macd.is_below());

    // Level with the signal before and after: no crossing.
    assert_eq!(macd.next(14 * ONE), (500_000, 13_500_000, 13_000_000));
    assert!(!macd.crossed());

    // From level to below: no crossing, the value was on neither side.
    assert_eq!(macd.next(10 * ONE), (-333_333, 11_166_667, 11_500_000));
    assert_eq!(macd.signal_value(), -55_555);
    assert!(macd.is_below());
    assert!(!macd.crossed());

    macd.next(9 * ONE);
    assert!(!macd.crossed());
    macd.next(9 * ONE);
    assert!(macd.is_below());
    assert!(!macd.crossed());

    // From below to above: a crossing.
    assert_eq!(macd.next(20 * ONE).0, 1_601_080);
    assert_eq!(macd.signal_value(), 940_843);
    assert!(macd.is_above());
    assert!(macd.crossed());

    // Still above: the mark is gone.
    macd.next(20 * ONE);
    assert!(macd.is_above());
    assert!(!macd.crossed());
}

#[test]
fn cross_reports_golden_and_death() {
    let data = whole(&[10, 10, 10, 10]);
    let short = SimpleMovingAverage::new(1, &data).unwrap();
    let long = SimpleMovingAverage::new(4, &data).unwrap();
    let mut cross = Cross::new(short, long);
    assert!(!cross.crossed());
    assert!(!cross.is_golden());
    assert!(!cross.is_death());

    // Short 8, long 9.5: the short line went below.
    assert!(cross.next(8 * ONE));
    assert!(cross.crossed());
    assert!(cross.is_death());
    assert!(!cross.is_golden());

    // Short 7, long 8.75: still below, no crossing.
    assert!(!cross.next(7 * ONE));
    assert!(!cross.is_death());
    assert!(!cross.is_golden());

    // Short 20, long 11.25: the short line went above.
    assert!(cross.next(20 * ONE));
    assert!(cross.is_golden());
    assert!(!cross.is_death());

    // Short 21, long 14: still above.
    assert!(!cross.next(21 * ONE));
    assert!(!cross.crossed());
    assert!(!cross.is_golden());
}

#[test]
fn bollinger_bands_about_another_line() {
    let data = whole(&[2, 4, 4, 4, 5, 5, 7, 9]);
    let ema = ExponentialMovingAverage::new(3, &data).unwrap();
    let value = ema.value();
    let stdev = ema.stdev(true);
    let mut bands = BollingerBands::with_line(ema, -2 * ONE).unwrap();
    assert_eq!(bands.distance(), 2 * ONE);
    assert_eq!(bands.period(), 3);
    assert_eq!(bands.value(), value);
    assert_eq!(bands.lower(), value - 2 * stdev);
    assert_eq!(bands.upper(), value + 2 * stdev);
    let next = bands.next(11 * ONE);
    assert_eq!(next.1, bands.value());
    assert_eq!(next.0, bands.lower());
    assert_eq!(next.2, bands.upper());
    assert!(next.0 < next.1 && next.1 < next.2);
}

#[test]
fn bollinger_bands_use_the_sample_deviation() {
    // Mean 5, sample variance 32 / 7 = 4.571428, deviation 2.138089.
    let data = whole(&[2, 4, 4, 4, 5, 5, 7, 9]);
    let bands = BollingerBands::new(8, &data, 1_500_000).unwrap();
    assert_eq!(bands.value(), 5 * ONE);
    assert_eq!(bands.lower(), 5 * ONE - 3_207_133);
    assert_eq!(bands.upper(), 5 * ONE + 3_207_133);
}

#[test]
fn linear_regression_of_a_straight_line() {
    // y = 2x + 1 at x = 1..=5
    let data = whole(&[3, 5, 7, 9, 11]);
    let mut line = LinearRegression::new(5, &data).unwrap();
    assert_eq!(line.slope(), 2 * ONE);
    assert_eq!(line.intercept(), ONE);
    assert_eq!(line.value(), 11 * ONE);
    assert_eq!(line.r_sq(), ONE);
    assert_eq!(line.forecast(0), 11 * ONE);
    assert_eq!(line.forecast(1), 13 * ONE);
    assert_eq!(line.forecast(10), 31 * ONE);
    // Sample variance 40 / 4 = 10.
    assert_eq!(line.line_stdev(), 3_162_277);
    // The window moves on along the same line: 5, 7, 9, 11, 13 is y = 2x + 3.
    assert_eq!(line.next(13 * ONE), 13 * ONE);
    assert_eq!(line.slope(), 2 * ONE);
    assert_eq!(line.intercept(), 3 * ONE);
    assert_eq!(line.sum(), 24 * ONE);
}

#[test]
fn linear_regression_of_scattered_points() {
    // x = 1, 2, 3 and y = 1, 3, 2: slope 0.5, intercept 1, fitted 1.5, 2, 2.5.
    let data = whole(&[1, 3, 2]);
    let line = LinearRegression::new(3, &data).unwrap();
    assert_eq!(line.slope(), 500_000);
    assert_eq!(line.intercept(), ONE);
    assert_eq!(line.value(), 2_500_000);
    // Residuals 0.25 + 1 + 0.25 = 1.5 of a total of 2: 1 - 0.75.
    assert_eq!(line.r_sq(), 250_000);
}

#[test]
fn linear_regression_of_a_level_line() {
    let data = whole(&[4, 4, 4]);
    let line = LinearRegression::new(3, &data).unwrap();
    assert_eq!(line.slope(), 0);
    assert_eq!(line.intercept(), 4 * ONE);
    assert_eq!(line.value(), 4 * ONE);
    // Nothing varies: zero over zero counts as zero.
    assert_eq!(line.r_sq(), ONE);
}

#[test]
fn mcginley_dynamic_follows_the_formula() {
    // From 10 to 12 with k = 0.5 over 2 periods: 10 + 2 / (1 * 1.2^4) = 10 + 2 / 2.0736
    let data = whole(&[10, 12, 12]);
    let md = McGinleyDynamic::new(2, &data[..2], 500_000);
    assert!(md.is_err());
    let mut md = McGinleyDynamic::new(2, &data, 500_000).unwrap();
    // After the first step 10.964506; the same sample then moves it less.
    assert_eq!(md.value(), 11_686_245);
    assert_eq!(md.sum(), 10_964_506 + 11_686_245);
    assert_eq!(md.next(12 * ONE), 11_968_451);
}

#[test]
fn mcginley_dynamic_that_starts_at_zero_stays_there() {
    // The ratio to a value of zero saturates, and so does the divisor of the step.
    let data = whole(&[0, 5, 7]);
    let mut md = McGinleyDynamic::new(2, &data, 600_000).unwrap();
    assert_eq!(md.value(), 0);
    assert_eq!(md.next(9 * ONE), 0);
}

#[test]
fn rate_of_change_follows_the_formula() {
    let data = whole(&[50, 40, 60, 30]);
    let mut roc = RateOfChange::new(2, &data).unwrap();
    // 30 against 40: -25 percent; before it 60 against 50: 20 percent.
    assert_eq!(roc.value(), -25 * ONE);
    assert_eq!(roc.sum(), -5 * ONE);
    // 90 against 60: 50 percent.
    assert_eq!(roc.next(90 * ONE), 50 * ONE);
    // 40 against 30: a third more.
    assert_eq!(roc.next(40 * ONE), 33_333_333);
}

#[test]
fn rate_of_change_against_zero_saturates() {
    let data = whole(&[0, 1, 5]);
    let mut roc = RateOfChange::new(2, &data).unwrap();
    assert_eq!(roc.value(), Num::MAX);
    // 3 against 1: 200 percent.
    assert_eq!(roc.next(3 * ONE), 200 * ONE);
    let falling = whole(&[0, 1, -5]);
    assert_eq!(RateOfChange::new(2, &falling).unwrap().value(), Num::MIN);
    let level = whole(&[0, 1, 0]);
    assert_eq!(RateOfChange::new(2, &level).unwrap().value(), 0);
}

#[test]
fn ema_follows_the_recurrence() {
    // Seed (1 + 2 + 3) / 3 = 2; then 2 + (6 - 2) * 2 / 4 = 4; then 4 + (5 - 4) * 2 / 4 = 4.5.
    let data = whole(&[1, 2, 3, 6, 5]);
    let mut ema = ExponentialMovingAverage::new(3, &data).unwrap();
    assert_eq!(ema.value(), 4_500_000);
    assert_eq!(ema.sum(), 10_500_000);
    // 4.5 + (0 - 4.5) * 2 / 4 = 2.25
    assert_eq!(ema.next(0), 2_250_000);
    assert_eq!(ema.period(), 3);
}
