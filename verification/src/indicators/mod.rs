//! Indicators generated from samples used for signals.
pub mod average_true_range;
pub mod bollinger_bands;
pub mod cross;
pub mod double_exponential_moving_average;
pub mod exponential_moving_average;
pub mod linear_regression;
pub mod mcginley_dynamic;
pub mod moving_average_convergence_divergence;
pub mod on_balance_volume;
pub mod rate_of_change;
pub mod relative_strength_index;
pub mod simple_moving_average;
pub mod standard_deviation;
pub mod true_range;
pub mod variance;

pub use average_true_range::{AverageTrueRange, ATR};
pub use bollinger_bands::{BBands, BollingerBands};
pub use cross::Cross;
pub use double_exponential_moving_average::{DoubleExponentialMovingAverage, DEMA};
pub use exponential_moving_average::{ExponentialMovingAverage, EMA};
pub use linear_regression::{LineReg, LinearRegression};
pub use mcginley_dynamic::{McGinleyDynamic, MD};
pub use moving_average_convergence_divergence::{MovingAverageConvergenceDivergence, MACD};
pub use on_balance_volume::{OnBalanceVolume, OBV};
pub use rate_of_change::RateOfChange;
pub use relative_strength_index::{RelativeStrengthIndex, RSI};
pub use simple_moving_average::{SimpleMovingAverage, SMA};
pub use standard_deviation::{StandardDeviation, STDEV};
pub use true_range::{TrueRange, TR};
pub use variance::Variance;
