//! Simple Moving Average (SMA)
//!
//! Average moves within a period.
use crate::buffer::{lemma_tail_push, mean_of, tail, total, Buffer};
use crate::error::TAError;
use crate::fixed::{clamp, fx_quot, sat_quot, Num};
use crate::traits::{AsValue, Next, Period, Stats, Value};
use vstd::prelude::*;

verus! {

/// What a simple moving average is at a moment: its period, the samples in
/// its window, oldest first, and their average.
pub struct SmaModel {
    pub period: usize,
    pub value: Num,
    pub window: Seq<Num>,
}

/// The average that the indicator reports for a window of samples.
pub open spec fn sma_value(period: usize, window: Seq<Num>) -> Num {
    sat_quot(total(window), period as int) as Num
}

/// The simple moving average of `period` over all of `data`.
pub open spec fn sma_model(period: usize, data: Seq<Num>) -> SmaModel {
    SmaModel {
        period,
        value: sma_value(period, tail(data, period as int)),
        window: tail(data, period as int),
    }
}

/// The simple moving average one sample after `m`.
pub open spec fn sma_step(m: SmaModel, x: Num) -> SmaModel {
    SmaModel {
        period: m.period,
        value: sma_value(m.period, tail(m.window.push(x), m.period as int)),
        window: tail(m.window.push(x), m.period as int),
    }
}

/// Feeding one more sample to an average gives the average that is built
/// from all the samples at once.
pub proof fn lemma_sma_step(period: usize, data: Seq<Num>, x: Num)
    requires
        period > 0,
        data.len() >= period,
    ensures
        sma_model(period, data.push(x)) == sma_step(sma_model(period, data), x),
{
    lemma_tail_push(data, period as int, x);
}

/// What `m` becomes when it is fed the samples of `xs`, one by one.
pub open spec fn sma_fed(m: SmaModel, xs: Seq<Num>) -> SmaModel
    decreases xs.len(),
{
    if xs.len() == 0 {
        m
    } else {
        sma_step(sma_fed(m, xs.drop_last()), xs.last())
    }
}

/// Seeding an average with the first samples and feeding it the rest one by one
/// gives what is built from all the samples at once.
pub proof fn lemma_sma_seed_then_feed(period: usize, head: Seq<Num>, rest: Seq<Num>)
    requires
        period > 0,
        head.len() >= period,
    ensures
        sma_fed(sma_model(period, head), rest) == sma_model(period, head + rest),
    decreases rest.len(),
{
    if rest.len() == 0 {
        assert(head + rest =~= head);
    } else {
        lemma_sma_seed_then_feed(period, head, rest.drop_last());
        lemma_sma_step(period, head + rest.drop_last(), rest.last());
        assert((head + rest.drop_last()).push(rest.last()) =~= head + rest);
    }
}

/// Simple Moving Average (SMA), the average within a period that moves as data is added.
#[derive(Debug)]
pub struct SimpleMovingAverage {
    /// Size of the period (window) in which data is looked at.
    period: usize,
    /// SMA's current value.
    value: Num,
    /// Holds all of the current period's values.
    buffer: Buffer,
}

/// The short name of the [`SimpleMovingAverage`].
pub type SMA = SimpleMovingAverage;

impl View for SimpleMovingAverage {
    type V = SmaModel;

    closed spec fn view(&self) -> SmaModel {
        SmaModel { period: self.period, value: self.value, window: self.buffer@ }
    }
}

impl SimpleMovingAverage {
    /// What holds of every average that a constructor returned: its window is
    /// full and is the one that the statistics are taken over.
    pub open spec fn wf(&self) -> bool {
        &&& self.history().wf()
        &&& self.history()@ == self@.window
        &&& self.history().capacity_spec() == self@.period
        &&& self@.window.len() == self@.period
    }

    /// Creates a new SMA with the supplied period and initial data.
    ///
    /// ### Requirements:
    ///
    /// * Period must be greater than 0.
    /// * Data must have at least `period` elements.
    ///
    /// ## Arguments
    ///
    /// * `period` - Size of the period / window used.
    /// * `data` - Array of values to create the SMA from.
    pub fn new(period: usize, data: &[Num]) -> (r: Result<Self, TAError>)
        ensures
            period < 1 <==> r matches Err(TAError::InvalidSize(_)),
            period >= 1 && data@.len() < period <==> r matches Err(TAError::InvalidData(_)),
            period >= 1 && data@.len() >= period <==> r is Ok,
            r matches Ok(s) ==> s.wf() && s@.period == period && s@ == sma_model(period, data@),
    {
        if period < 1 {
            return Err(
                TAError::size("period cannot be less than 1 to calculate simple moving average"),
            );
        } else if data.len() < period {
            return Err(TAError::data("not enough data for period provided"));
        }
        let buffer: Buffer = match Buffer::from_array(period, data) {
            Ok(value) => value,
            Err(error) => return Err(error),
        };
        Ok(Self { period, value: buffer.mean(), buffer })
    }

    /// Period (window) for the samples.
    pub fn period(&self) -> (r: usize)
        ensures
            r == self@.period,
    {
        self.period
    }

    /// Current and most recent value calculated.
    pub fn value(&self) -> (r: Num)
        ensures
            r == self@.value,
    {
        self.value
    }
}

impl Period for SimpleMovingAverage {
    open spec fn period_spec(&self) -> usize {
        self@.period
    }

    /// Period (window) for the samples.
    fn period(&self) -> (r: usize)
        ensures
            r == self.period_spec(),
    {
        self.period
    }
}

impl Value for SimpleMovingAverage {
    open spec fn value_spec(&self) -> Num {
        self@.value
    }

    /// Current and most recent value calculated.
    fn value(&self) -> (r: Num)
        ensures
            r == self.value_spec(),
    {
        self.value
    }
}

impl Next<Num> for SimpleMovingAverage {
    /// Next Value for the SMA.
    type Output = Num;

    open spec fn steady(&self) -> bool {
        self.wf()
    }

    open spec fn follows(&self, value: Num, after: Self, out: Num) -> bool {
        after@ == sma_step(self@, value) && out == after@.value
    }

    /// Supply an additional value to recalculate a new SMA.
    ///
    /// # Arguments
    ///
    /// * `value` - New value to add to period.
    fn next(&mut self, value: Num) -> (out: Num)
        ensures
            final(self)@ == sma_step(old(self)@, value),
            out == final(self)@.value,
    {
        // Rotate the buffer.
        self.buffer.shift(value);

        // Calculate the new SMA.
        self.value = fx_quot(self.buffer.sum_wide(), self.period as i128);
        self.value
    }
}

impl<T: AsValue> Next<T> for SimpleMovingAverage {
    /// Next Value for the SMA.
    type Output = Num;

    open spec fn steady(&self) -> bool {
        self.wf()
    }

    open spec fn follows(&self, value: T, after: Self, out: Num) -> bool {
        after@ == sma_step(self@, value.as_value_spec()) && out == after@.value
    }

    /// Supply an additional value to recalculate a new SMA.
    ///
    /// # Arguments
    ///
    /// * `value` - New value to add to period.
    fn next(&mut self, value: T) -> (out: Num)
        ensures
            final(self)@ == sma_step(old(self)@, value.as_value_spec()),
            out == final(self)@.value,
    {
        let x: Num = value.as_value();
        <Self as Next<Num>>::next(self, x)
    }
}

impl Stats for SimpleMovingAverage {
    closed spec fn history(&self) -> Buffer {
        self.buffer
    }

    /// Obtains the total sum of the buffer for SMA.
    fn sum(&self) -> (r: Num)
        ensures
            r == clamp(self.history().sum_spec()),
    {
        self.buffer.sum()
    }

    /// Mean for the period of the SMA.
    fn mean(&self) -> (r: Num)
        ensures
            r == self.history().mean_spec(),
    {
        self.buffer.mean()
    }

    /// Current variance for the period.
    fn variance(&self, is_sample: bool) -> (r: Num)
        ensures
            r == self.history().variance_spec(is_sample),
    {
        self.buffer.variance(is_sample)
    }

    /// Current standard deviation for the period.
    fn stdev(&self, is_sample: bool) -> (r: Num)
        ensures
            r == self.history().stdev_spec(is_sample),
    {
        self.buffer.stdev(is_sample)
    }
}

} // verus!
