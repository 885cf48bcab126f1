//! Moving Average Convergence and Divergence (MACD)
//!
//! # Formula
//!
//! MACD = SHORT_EMA - LONG_EMA
//!
//! MACD = x - y
//!
//! where:
//!
//! * `x` = Short EMA of period `n`
//! * `y` = Long EMA of period `n`
use super::exponential_moving_average::{
    ema_model, ema_step, lemma_ema_step, EmaModel, ExponentialMovingAverage,
};
use crate::error::TAError;
use crate::fixed::{fx_sub, sat_sub, Num};
use crate::traits::{AsValue, Next, Period, Value};
use vstd::prelude::*;

verus! {

/// What a MACD is at a moment: its value, the short, the long and the
/// signal average, and whether the value crossed the signal in the last step.
pub struct MacdModel {
    pub value: Num,
    pub short: EmaModel,
    pub long: EmaModel,
    pub signal: EmaModel,
    pub crossed: bool,
}

/// The short average less the long average.
pub open spec fn macd_value(short: Num, long: Num) -> Num {
    sat_sub(short as int, long as int) as Num
}

/// The MACD value over all of `data`.
pub open spec fn macd_value_at(short: usize, long: usize, data: Seq<Num>) -> Num {
    macd_value(ema_model(short, data).value, ema_model(long, data).value)
}

/// The values that the MACD takes as `data` comes in: one for the first
/// `long` samples together and one for each sample after them.
pub open spec fn macd_series(short: usize, long: usize, data: Seq<Num>) -> Seq<Num>
    decreases data.len(),
{
    if data.len() <= long {
        seq![macd_value_at(short, long, data)]
    } else {
        macd_series(short, long, data.drop_last()).push(macd_value_at(short, long, data))
    }
}

/// The MACD takes one value for the first `long` samples and one for each
/// sample after them.
pub proof fn lemma_macd_series_len(short: usize, long: usize, data: Seq<Num>)
    requires
        data.len() >= long,
    ensures
        macd_series(short, long, data).len() == data.len() - long + 1,
    decreases data.len(),
{
    if data.len() > long {
        lemma_macd_series_len(short, long, data.drop_last());
    }
}

/// Whether the value moved from one side of the signal to the other. A value
/// that is level with the signal, before or after, has not crossed it.
pub open spec fn crossed_between(
    value_before: Num,
    signal_before: Num,
    value_after: Num,
    signal_after: Num,
) -> bool {
    ||| (value_before < signal_before && value_after > signal_after)
    ||| (value_before > signal_before && value_after < signal_after)
}

/// The MACD of the three periods over all of `data`: the short and the long
/// average of the samples, and the signal average of the values that the
/// MACD has taken. A MACD that was just built has not crossed.
pub open spec fn macd_model(short: usize, long: usize, signal: usize, data: Seq<Num>) -> MacdModel {
    MacdModel {
        value: macd_value_at(short, long, data),
        short: ema_model(short, data),
        long: ema_model(long, data),
        signal: ema_model(signal, macd_series(short, long, data)),
        crossed: false,
    }
}

/// The MACD one sample after `m`: the short and the long average take the
/// sample, the signal average takes the new value.
pub open spec fn macd_step(m: MacdModel, x: Num) -> MacdModel {
    let short = ema_step(m.short, x);
    let long = ema_step(m.long, x);
    let value = macd_value(short.value, long.value);
    let signal = ema_step(m.signal, value);
    MacdModel {
        value,
        short,
        long,
        signal,
        crossed: crossed_between(m.value, m.signal.value, value, signal.value),
    }
}

/// Feeding one more sample to a MACD gives the MACD that is built from all
/// the samples at once, but for the mark of a crossing, which a MACD that
/// was just built does not carry.
pub proof fn lemma_macd_step(short: usize, long: usize, signal: usize, data: Seq<Num>, x: Num)
    requires
        1 <= short <= long,
        1 <= signal,
        data.len() >= long + signal - 1,
    ensures
        macd_step(macd_model(short, long, signal, data), x) == (MacdModel {
            crossed: macd_step(macd_model(short, long, signal, data), x).crossed,
            ..macd_model(short, long, signal, data.push(x))
        }),
{
    assert(data.push(x).drop_last() =~= data);
    lemma_ema_step(short, data, x);
    lemma_ema_step(long, data, x);
    lemma_macd_series_len(short, long, data);
    lemma_ema_step(
        signal,
        macd_series(short, long, data),
        macd_value_at(short, long, data.push(x)),
    );
}

/// What `m` becomes when it is fed the samples of `xs`, one by one.
pub open spec fn macd_fed(m: MacdModel, xs: Seq<Num>) -> MacdModel
    decreases xs.len(),
{
    if xs.len() == 0 {
        m
    } else {
        macd_step(macd_fed(m, xs.drop_last()), xs.last())
    }
}

/// Seeding a MACD with the first samples and feeding it the rest one by one
/// gives what is built from all the samples at once, but for the mark of a
/// crossing.
pub proof fn lemma_macd_seed_then_feed(
    short: usize,
    long: usize,
    signal: usize,
    head: Seq<Num>,
    rest: Seq<Num>,
)
    requires
        1 <= short <= long,
        1 <= signal,
        head.len() >= long + signal - 1,
    ensures
        macd_fed(macd_model(short, long, signal, head), rest) == (MacdModel {
            crossed: macd_fed(macd_model(short, long, signal, head), rest).crossed,
            ..macd_model(short, long, signal, head + rest)
        }),
    decreases rest.len(),
{
    if rest.len() == 0 {
        assert(head + rest =~= head);
    } else {
        lemma_macd_seed_then_feed(short, long, signal, head, rest.drop_last());
        lemma_macd_step(short, long, signal, head + rest.drop_last(), rest.last());
        assert((head + rest.drop_last()).push(rest.last()) =~= head + rest);
    }
}

/// Moving Average Convergence and Divergence (MACD)
///
/// # Formula
///
/// MACD = SHORT_EMA - LONG_EMA
///
/// MACD = x - y
///
/// where:
///
/// * `x` = Short EMA of period `n`
/// * `y` = Long EMA of period `n`
#[derive(Debug)]
pub struct MovingAverageConvergenceDivergence {
    /// MACD's current value.
    value: Num,
    /// Short EMA
    ema_short: ExponentialMovingAverage,
    /// Long EMA
    ema_long: ExponentialMovingAverage,
    /// Signal Line, EMA of MACD values.
    ema_signal: ExponentialMovingAverage,
    /// If the MACD crossed the signal.
    crossed: bool,
}

/// The short name of the [`MovingAverageConvergenceDivergence`].
pub type MACD = MovingAverageConvergenceDivergence;

impl View for MovingAverageConvergenceDivergence {
    type V = MacdModel;

    closed spec fn view(&self) -> MacdModel {
        MacdModel {
            value: self.value,
            short: self.ema_short@,
            long: self.ema_long@,
            signal: self.ema_signal@,
            crossed: self.crossed,
        }
    }
}

impl MovingAverageConvergenceDivergence {
    /// The short, the long and the signal average.
    pub closed spec fn parts(&self) -> (
        ExponentialMovingAverage,
        ExponentialMovingAverage,
        ExponentialMovingAverage,
    ) {
        (self.ema_short, self.ema_long, self.ema_signal)
    }

    /// What holds of every MACD that a constructor returned: its three
    /// averages are steady.
    pub open spec fn wf(&self) -> bool {
        &&& self.parts().0.wf()
        &&& self.parts().1.wf()
        &&& self.parts().2.wf()
        &&& self.parts().0@ == self@.short
        &&& self.parts().1@ == self@.long
        &&& self.parts().2@ == self@.signal
    }

    /// Creates a new MACD with the supplied period and initial data. Often the short line is
    /// period of 12, long is a period of 26, and signal is period of 9.
    ///
    /// ### Requirements:
    ///
    /// * Short, Signal, and Long must greater than 0.
    /// * Short must not be larger than Long.
    /// * Data must have at least `long + signal - 1` elements: `long` to
    ///   seed the long average, and one for each value after the first that
    ///   seeds the signal.
    ///
    /// ## Arguments
    ///
    /// * `short` - Period of the short EMA.
    /// * `long` - Period of the long EMA.
    /// * `signal` - Period of the signal EMA.
    /// * `data` - Array of values to create the MACD from.
    pub fn new(short: usize, long: usize, signal: usize, data: &[Num]) -> (r: Result<
        Self,
        TAError,
    >)
        ensures
            short < 1 || signal < 1 || long < short <==> r matches Err(TAError::InvalidSize(_)),
            1 <= short <= long && 1 <= signal && data@.len() < long + signal - 1 <==> r matches Err(
                TAError::InvalidData(_),
            ),
            1 <= short <= long && 1 <= signal && data@.len() >= long + signal - 1 <==> r is Ok,
            r matches Ok(s) ==> s.wf() && s@ == macd_model(short, long, signal, data@),
            r matches Ok(s) ==> s@.short.period == short && s@.long.period == long
                && s@.signal.period == signal,
    {
        if short < 1 {
            return Err(
                TAError::size(
                    "short cannot be less than 1 to calculate moving average convergence and divergence",
                ),
            );
        } else if signal < 1 {
            return Err(
                TAError::size(
                    "signal cannot be less than 1 to calculate moving average convergence and divergence",
                ),
            );
        } else if long < short {
            return Err(
                TAError::size(
                    "larger long period required to calculate moving average convergence and divergence",
                ),
            );
        } else if data.len() < long {
            return Err(
                TAError::data(
                    "not enough data to calculate long for moving average convergence and divergence",
                ),
            );
        } else if data.len() - long < signal - 1 {
            return Err(
                TAError::data(
                    "not enough data to calculate signal for moving average convergence and divergence",
                ),
            );
        }

        // Build short EMA up to the long.
        let mut ema_short: ExponentialMovingAverage = match ExponentialMovingAverage::new(
            short,
            &data[0..long],
        ) {
            Ok(value) => value,
            Err(error) => return Err(error),
        };

        // Build long EMA.
        let mut ema_long: ExponentialMovingAverage = match ExponentialMovingAverage::new(
            long,
            &data[0..long],
        ) {
            Ok(value) => value,
            Err(error) => return Err(error),
        };

        // Add the first value.
        let mut signals: Vec<Num> = Vec::new();
        signals.push(fx_sub(ema_short.value(), ema_long.value()));

        // Process the remainder of the data, building a signal line.
        let mut i: usize = long;
        assert(signals@ =~= macd_series(short, long, data@.subrange(0, i as int)));
        while i < data.len()
            invariant
                1 <= short <= long <= i <= data.len(),
                ema_short.wf(),
                ema_long.wf(),
                ema_short@.period == short,
                ema_long@.period == long,
                ema_short@ == ema_model(short, data@.subrange(0, i as int)),
                ema_long@ == ema_model(long, data@.subrange(0, i as int)),
                signals@ == macd_series(short, long, data@.subrange(0, i as int)),
            decreases data.len() - i,
        {
            proof {
                lemma_ema_step(short, data@.subrange(0, i as int), data[i as int]);
                lemma_ema_step(long, data@.subrange(0, i as int), data[i as int]);
                assert(data@.subrange(0, i as int).push(data[i as int]) =~= data@.subrange(
                    0,
                    i + 1,
                ));
                assert(data@.subrange(0, i + 1).drop_last() =~= data@.subrange(0, i as int));
            }
            let short_value: Num = ema_short.next(data[i]);
            let long_value: Num = ema_long.next(data[i]);
            signals.push(fx_sub(short_value, long_value));
            i = i + 1;
        }
        proof {
            assert(data@.subrange(0, i as int) =~= data@);
            lemma_macd_series_len(short, long, data@);
        }

        // Build signal EMA of MACDs.
        let ema_signal: ExponentialMovingAverage = match ExponentialMovingAverage::new(
            signal,
            signals.as_slice(),
        ) {
            Ok(value) => value,
            Err(error) => return Err(error),
        };
        let value: Num = fx_sub(ema_short.value(), ema_long.value());
        Ok(Self { value, ema_short, ema_long, ema_signal, crossed: false })
    }

    /// Period (window) for the signal.
    pub fn period(&self) -> (r: usize)
        ensures
            r == self@.signal.period,
    {
        self.ema_signal.period()
    }

    /// Current and most recent value calculated.
    pub fn value(&self) -> (r: Num)
        ensures
            r == self@.value,
    {
        self.value
    }

    /// Current and most recent signal value calculated.
    pub fn signal_value(&self) -> (r: Num)
        ensures
            r == self@.signal.value,
    {
        self.ema_signal.value()
    }

    /// Check if the value crossed the signal.
    pub fn crossed(&self) -> (r: bool)
        ensures
            r == self@.crossed,
    {
        self.crossed
    }

    /// Returns true if the value is above the signal.
    pub fn is_above(&self) -> (r: bool)
        ensures
            r == (self@.value > self@.signal.value),
    {
        self.value > self.ema_signal.value()
    }

    /// Returns true if the value is below the signal.
    pub fn is_below(&self) -> (r: bool)
        ensures
            r == (self@.value < self@.signal.value),
    {
        self.value < self.ema_signal.value()
    }
}

impl Period for MovingAverageConvergenceDivergence {
    open spec fn period_spec(&self) -> usize {
        self@.signal.period
    }

    /// Period (window) for the signal.
    fn period(&self) -> (r: usize)
        ensures
            r == self.period_spec(),
    {
        self.ema_signal.period()
    }
}

impl Value for MovingAverageConvergenceDivergence {
    open spec fn value_spec(&self) -> Num {
        self@.value
    }

    /// Current and most recent value calculated.
    fn value(&self) -> (r: Num)
        ensures
            r == self.value_spec(),
    {
        self.value
    }
}

impl Next<Num> for MovingAverageConvergenceDivergence {
    /// The value, and the values of the short and of the long average.
    type Output = (Num, Num, Num);

    open spec fn steady(&self) -> bool {
        self.wf()
    }

    open spec fn follows(&self, value: Num, after: Self, out: (Num, Num, Num)) -> bool {
        &&& after@ == macd_step(self@, value)
        &&& out == (after@.value, after@.short.value, after@.long.value)
    }

    /// Supply an additional value to recalculate a new MACD.
    ///
    /// # Returns
    ///
    /// * (`Value`, `Short`, `Long`)
    ///
    /// # Arguments
    ///
    /// * `value` - New value to add to period.
    fn next(&mut self, value: Num) -> (out: (Num, Num, Num))
        ensures
            final(self)@ == macd_step(old(self)@, value),
            out == (final(self)@.value, final(self)@.short.value, final(self)@.long.value),
    {
        let was_below: bool = self.is_below();
        let was_above: bool = self.is_above();

        let short_value: Num = self.ema_short.next(value);
        let long_value: Num = self.ema_long.next(value);

        // Calculate the new MACD and signal.
        self.value = fx_sub(short_value, long_value);
        self.ema_signal.next(self.value);

        // Update if it crossed the signal or not.
        self.crossed = (was_below && self.is_above()) || (was_above && self.is_below());

        (self.value, short_value, long_value)
    }
}

impl<T: AsValue> Next<T> for MovingAverageConvergenceDivergence {
    /// The value, and the values of the short and of the long average.
    type Output = (Num, Num, Num);

    open spec fn steady(&self) -> bool {
        self.wf()
    }

    open spec fn follows(&self, value: T, after: Self, out: (Num, Num, Num)) -> bool {
        &&& after@ == macd_step(self@, value.as_value_spec())
        &&& out == (after@.value, after@.short.value, after@.long.value)
    }

    /// Supply an additional value to recalculate a new MACD.
    ///
    /// # Returns
    ///
    /// * (`Value`, `Short`, `Long`)
    ///
    /// # Arguments
    ///
    /// * `value` - New value to add to period.
    fn next(&mut self, value: T) -> (out: (Num, Num, Num))
        ensures
            final(self)@ == macd_step(old(self)@, value.as_value_spec()),
            out == (final(self)@.value, final(self)@.short.value, final(self)@.long.value),
    {
        let x: Num = value.as_value();
        <Self as Next<Num>>::next(self, x)
    }
}

} // verus!
