//! Traits for both indicators and user-defined data types.
//!
//! A trait for a user's data type pairs each accessor with a name for the
//! value that it returns: `close_spec` beside `close`. The indicators are
//! stated and proved over those names, so what they compute is a function
//! of the data points alone. A data type has to return from `close` what
//! `close_spec` names, whenever it is asked.
use crate::buffer::Buffer;
use crate::fixed::{clamp, fx_quot, sat_quot, Num};
use vstd::prelude::*;

verus! {

/// Indicator: Statistics over the window of values that the indicator keeps.
pub trait Stats {
    /// The window that the statistics are taken over.
    spec fn history(&self) -> Buffer;

    /// Sum for the period of the line, saturated.
    fn sum(&self) -> (r: Num)
        ensures
            r == clamp(self.history().sum_spec()),
    ;

    /// Mean for the period of the line.
    fn mean(&self) -> (r: Num)
        ensures
            r == self.history().mean_spec(),
    ;

    /// Variance for the period of the line.
    fn variance(&self, is_sample: bool) -> (r: Num)
        ensures
            r == self.history().variance_spec(is_sample),
    ;

    /// Standard deviation for the period of the line.
    fn stdev(&self, is_sample: bool) -> (r: Num)
        ensures
            r == self.history().stdev_spec(is_sample),
    ;
}

/// Indicator: Window or capacity for an indicator.
pub trait Period {
    /// The window or capacity of the indicator.
    spec fn period_spec(&self) -> usize;

    /// Window or capacity for an indicator.
    fn period(&self) -> (r: usize)
        ensures
            r == self.period_spec(),
    ;
}

/// Indicator: Current value for an indicator.
pub trait Value {
    /// The current value of the indicator.
    spec fn value_spec(&self) -> Num;

    /// Current value for an indicator.
    fn value(&self) -> (r: Num)
        ensures
            r == self.value_spec(),
    ;
}

/// Indicator: Add new data to an indicator.
pub trait Next<T>: Sized {
    /// Output from the function.
    type Output;

    /// Whether the indicator is in a state that a constructor or an earlier
    /// step left it in.
    spec fn steady(&self) -> bool;

    /// Whether `after` and `out` are the state and the output that one step
    /// with `value` leads to from this state.
    spec fn follows(&self, value: T, after: Self, out: Self::Output) -> bool;

    /// Supply additional data to calculate the next value for the indicator.
    ///
    /// # Return depends on indicator, all values are in the form of `Num`.
    ///
    /// * Default: `value`
    /// * MACD:    (`value`, `short`, `long`)
    /// * BBands:  (`lower`, `value`, `upper`)
    ///
    /// # Arguments
    ///
    /// * `value` - New data to add to the indicator.
    fn next(&mut self, value: T) -> (out: Self::Output)
        requires
            old(self).steady(),
        ensures
            final(self).steady(),
            old(self).follows(value, *final(self), out),
    ;
}

/// User Defined: Specialized value to pass to indicators. Values such as HL, HLC, OHLC. etc
pub trait AsValue {
    /// The value that the data point stands for.
    spec fn as_value_spec(&self) -> Num;

    /// User defined value to pass to indicators. Values such as HL, HLC, OHLC. etc
    fn as_value(&self) -> (r: Num)
        ensures
            r == self.as_value_spec(),
    ;
}

/// User Defined: Opening value for the data type.
pub trait Open {
    /// The opening value of the data point.
    spec fn open_spec(&self) -> Num;

    /// Opening value for the data type.
    fn open(&self) -> (r: Num)
        ensures
            r == self.open_spec(),
    ;
}

/// User Defined: Closing value for the data type.
pub trait Close {
    /// The closing value of the data point.
    spec fn close_spec(&self) -> Num;

    /// Closing value for the data type.
    fn close(&self) -> (r: Num)
        ensures
            r == self.close_spec(),
    ;
}

/// User Defined: Highest value for the data type.
pub trait High {
    /// The highest value of the data point.
    spec fn high_spec(&self) -> Num;

    /// Highest value for the data type.
    fn high(&self) -> (r: Num)
        ensures
            r == self.high_spec(),
    ;
}

/// User Defined: Lowest value for the data type.
pub trait Low {
    /// The lowest value of the data point.
    spec fn low_spec(&self) -> Num;

    /// Lowest value for the data type.
    fn low(&self) -> (r: Num)
        ensures
            r == self.low_spec(),
    ;
}

/// User Defined: Total volume for the data type.
pub trait Volume {
    /// The volume of the data point.
    spec fn volume_spec(&self) -> Num;

    /// Total volume for the data type.
    fn volume(&self) -> (r: Num)
        ensures
            r == self.volume_spec(),
    ;
}

/// Average between High and Low traits.
pub trait HL2: High + Low {
    /// Average between High and Low traits.
    fn hl2(&self) -> (r: Num)
        ensures
            r == sat_quot(self.high_spec() + self.low_spec(), 2),
    {
        fx_quot(self.high() as i128 + self.low() as i128, 2)
    }
}

/// Average between High, Low, and Close traits.
pub trait HLC3: High + Low + Close {
    /// Average between High, Low, and Close traits.
    fn hlc3(&self) -> (r: Num)
        ensures
            r == sat_quot(self.high_spec() + self.low_spec() + self.close_spec(), 3),
    {
        fx_quot(self.high() as i128 + self.low() as i128 + self.close() as i128, 3)
    }
}

/// Average between Open, High, Low, and Close traits.
pub trait OHLC4: Open + High + Low + Close {
    /// Average between Open, High, Low, and Close traits.
    fn ohlc4(&self) -> (r: Num)
        ensures
            r == sat_quot(
                self.open_spec() + self.high_spec() + self.low_spec() + self.close_spec(),
                4,
            ),
    {
        fx_quot(
            self.open() as i128 + self.high() as i128 + self.low() as i128 + self.close() as i128,
            4,
        )
    }
}

} // verus!
