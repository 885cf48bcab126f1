//! Exponential Moving Average (EMA)
//!
//! # Formula
//!
//! EMA = [(x - y) * k] + y
//!
//! where:
//!
//! * `x` = current value (most recent)
//! * `y` = last EMA
//! * `k` = 2 / (n + 1)
//! * `n` = period
use crate::buffer::{lemma_tail_push, mean_of, tail, Buffer};
use crate::error::TAError;
use crate::fixed::{clamp, fx_add, fx_quot, sat_add, sat_quot, Num};
use crate::traits::{AsValue, Next, Period, Stats, Value};
use vstd::arithmetic::div_mod::{lemma_div_is_ordered, lemma_div_is_ordered_by_denominator};
use vstd::prelude::*;

verus! {

/// What an exponential moving average is at a moment: its period, its value
/// and the window of the latest values it took, oldest first.
pub struct EmaModel {
    pub period: usize,
    pub value: Num,
    pub window: Seq<Num>,
}

/// The average after a sample `x`, where the average before it was `prev`:
/// `prev + (x - prev) * 2 / (period + 1)`, with one rounding, of the quotient.
pub open spec fn ema_value(period: usize, prev: Num, x: Num) -> Num {
    sat_add(prev as int, sat_quot(2 * (x - prev), period + 1)) as Num
}

/// A step moves the average toward the sample and never past it, so the
/// sum in it never saturates.
pub proof fn lemma_ema_value_between(period: usize, prev: Num, x: Num)
    requires
        period >= 1,
    ensures
        prev <= x ==> prev <= ema_value(period, prev, x) <= x,
        x <= prev ==> x <= ema_value(period, prev, x) <= prev,
{
    let d = period + 1;
    if prev <= x {
        let t = 2 * (x - prev);
        lemma_div_is_ordered(0, t, d);
        lemma_div_is_ordered_by_denominator(t, 2, d);
    } else {
        let t = 2 * (prev - x);
        lemma_div_is_ordered(0, t, d);
        lemma_div_is_ordered_by_denominator(t, 2, d);
    }
}

/// The average that `period` samples seed: their mean.
pub open spec fn ema_seed(period: usize, data: Seq<Num>) -> EmaModel {
    EmaModel { period, value: mean_of(data) as Num, window: seq![mean_of(data) as Num] }
}

/// The average one sample after `m`.
pub open spec fn ema_step(m: EmaModel, x: Num) -> EmaModel {
    EmaModel {
        period: m.period,
        value: ema_value(m.period, m.value, x),
        window: tail(m.window.push(ema_value(m.period, m.value, x)), m.period as int),
    }
}

/// The exponential moving average of `period` over all of `data`: seeded by
/// the mean of the first `period` samples and moved by each sample after them.
pub open spec fn ema_model(period: usize, data: Seq<Num>) -> EmaModel
    decreases data.len(),
{
    if data.len() <= period {
        ema_seed(period, data)
    } else {
        ema_step(ema_model(period, data.drop_last()), data.last())
    }
}

/// The values that the average takes as `data` comes in: one for the first
/// `period` samples together and one for each sample after them.
pub open spec fn ema_series(period: usize, data: Seq<Num>) -> Seq<Num>
    decreases data.len(),
{
    if data.len() <= period {
        seq![ema_model(period, data).value]
    } else {
        ema_series(period, data.drop_last()).push(ema_model(period, data).value)
    }
}

/// The average takes one value for the first `period` samples and one for
/// each sample after them.
pub proof fn lemma_ema_series_len(period: usize, data: Seq<Num>)
    requires
        data.len() >= period,
    ensures
        ema_series(period, data).len() == data.len() - period + 1,
    decreases data.len(),
{
    if data.len() > period {
        lemma_ema_series_len(period, data.drop_last());
    }
}

/// The window of an average holds the last `period` of the values that the
/// average has taken, and its value is the last of them.
pub proof fn lemma_ema_window(period: usize, data: Seq<Num>)
    requires
        period >= 1,
        data.len() >= period,
    ensures
        ema_model(period, data).period == period,
        ema_model(period, data).value == ema_series(period, data).last(),
        ema_model(period, data).window == tail(ema_series(period, data), period as int),
    decreases data.len(),
{
    if data.len() > period {
        let before = data.drop_last();
        lemma_ema_window(period, before);
        lemma_tail_push(ema_series(period, before), period as int, ema_model(period, data).value);
    } else {
        assert(ema_model(period, data).window =~= tail(ema_series(period, data), period as int));
    }
}

/// Feeding one more sample to an average gives the average that is built
/// from all the samples at once.
pub proof fn lemma_ema_step(period: usize, data: Seq<Num>, x: Num)
    requires
        data.len() >= period,
    ensures
        ema_model(period, data.push(x)) == ema_step(ema_model(period, data), x),
{
    assert(data.push(x).drop_last() =~= data);
}

/// What `m` becomes when it is fed the samples of `xs`, one by one.
pub open spec fn ema_fed(m: EmaModel, xs: Seq<Num>) -> EmaModel
    decreases xs.len(),
{
    if xs.len() == 0 {
        m
    } else {
        ema_step(ema_fed(m, xs.drop_last()), xs.last())
    }
}

/// Seeding an average with the first samples and feeding it the rest one by one
/// gives what is built from all the samples at once.
pub proof fn lemma_ema_seed_then_feed(period: usize, head: Seq<Num>, rest: Seq<Num>)
    requires
        head.len() >= period,
    ensures
        ema_fed(ema_model(period, head), rest) == ema_model(period, head + rest),
    decreases rest.len(),
{
    if rest.len() == 0 {
        assert(head + rest =~= head);
    } else {
        lemma_ema_seed_then_feed(period, head, rest.drop_last());
        lemma_ema_step(period, head + rest.drop_last(), rest.last());
        assert((head + rest.drop_last()).push(rest.last()) =~= head + rest);
    }
}

/// Exponential Moving Average (EMA). More recent data is weighted heavier than older data.
///
/// # Formula
///
/// EMA = [(x - y) * k] + y
///
/// where:
/// * `x` = current value (most recent)
/// * `y` = last EMA
/// * `k` = 2 / (n + 1)
/// * `n` = period
#[derive(Debug)]
pub struct ExponentialMovingAverage {
    /// Size of the period (window) in which data is looked at.
    period: usize,
    /// Current value for the EMA.
    value: Num,
    /// Holds `period` amount of generated EMAs.
    buffer: Buffer,
}

/// The short name of the [`ExponentialMovingAverage`].
pub type EMA = ExponentialMovingAverage;

impl View for ExponentialMovingAverage {
    type V = EmaModel;

    closed spec fn view(&self) -> EmaModel {
        EmaModel { period: self.period, value: self.value, window: self.buffer@ }
    }
}

impl ExponentialMovingAverage {
    /// What holds of every average that a constructor returned: the window
    /// of its values is the one that the statistics are taken over.
    pub open spec fn wf(&self) -> bool {
        &&& self.history().wf()
        &&& self.history()@ == self@.window
        &&& self.history().capacity_spec() == self@.period
    }

    /// Creates a new EMA with the supplied period and initial data.
    ///
    /// ### Requirements:
    ///
    /// * Period must be greater than 0.
    /// * Data must have at least `period` elements.
    ///
    /// ## Arguments
    ///
    /// * `period` - Size of the period / window used.
    /// * `data` - Array of values to create the EMA from.
    pub fn new(period: usize, data: &[Num]) -> (r: Result<Self, TAError>)
        ensures
            period < 1 <==> r matches Err(TAError::InvalidSize(_)),
            period >= 1 && data@.len() < period <==> r matches Err(TAError::InvalidData(_)),
            period >= 1 && data@.len() >= period <==> r is Ok,
            r matches Ok(s) ==> s.wf() && s@.period == period && s@ == ema_model(period, data@),
    {
        // Check we can calculate EMA.
        if period < 1 {
            return Err(
                TAError::size(
                    "period cannot be less than 1 to calculate exponential moving average",
                ),
            );
        } else if data.len() < period {
            // Make sure we have enough data.
            return Err(TAError::data("not enough data for period provided"));
        }

        // Temporary buffer to get seed SMA for EMA.
        let seed: Num = match Buffer::from_array(period, &data[0..period]) {
            Ok(v) => v.mean(),
            Err(error) => return Err(error),
        };

        // Buffer will hold last `period` EMAs.
        let first: [Num; 1] = [seed];
        let buffer: Buffer = match Buffer::from_array(period, first.as_slice()) {
            Ok(v) => v,
            Err(error) => return Err(error),
        };
        let mut ema: Self = Self { period, value: seed, buffer };
        assert(ema@ == ema_model(period, data@.subrange(0, period as int))) by {
            assert(ema.buffer@ =~= seq![seed]);
        }

        // Calculate the remainder of the datas EMA, using the prior EMA.
        let mut i: usize = period;
        while i < data.len()
            invariant
                period <= i <= data.len(),
                ema.wf(),
                ema@.period == period,
                ema@ == ema_model(period, data@.subrange(0, i as int)),
            decreases data.len() - i,
        {
            proof {
                lemma_ema_step(period, data@.subrange(0, i as int), data[i as int]);
                assert(data@.subrange(0, i as int).push(data[i as int]) =~= data@.subrange(
                    0,
                    i + 1,
                ));
            }
            ema.next(data[i]);
            i = i + 1;
        }
        assert(data@.subrange(0, i as int) =~= data@);
        Ok(ema)
    }

    /// Period (window) for the samples.
    pub fn period(&self) -> (r: usize)
        ensures
            r == self@.period,
    {
        self.period
    }

    /// Current and most recent value calculated.
    pub fn value(&self) -> (r: Num)
        ensures
            r == self@.value,
    {
        self.value
    }
}

impl Period for ExponentialMovingAverage {
    open spec fn period_spec(&self) -> usize {
        self@.period
    }

    /// Period (window) for the samples.
    fn period(&self) -> (r: usize)
        ensures
            r == self.period_spec(),
    {
        self.period
    }
}

impl Value for ExponentialMovingAverage {
    open spec fn value_spec(&self) -> Num {
        self@.value
    }

    /// Current and most recent value calculated.
    fn value(&self) -> (r: Num)
        ensures
            r == self.value_spec(),
    {
        self.value
    }
}

impl Next<Num> for ExponentialMovingAverage {
    /// Next value for the EMA.
    type Output = Num;

    open spec fn steady(&self) -> bool {
        self.wf()
    }

    open spec fn follows(&self, value: Num, after: Self, out: Num) -> bool {
        after@ == ema_step(self@, value) && out == after@.value
    }

    /// Supply an additional value to recalculate a new EMA.
    ///
    /// # Arguments
    ///
    /// * `value` - New value to add to period.
    fn next(&mut self, value: Num) -> (out: Num)
        ensures
            final(self)@ == ema_step(old(self)@, value),
            out == final(self)@.value,
    {
        // Get the next EMA value.
        self.value = fx_add(
            self.value,
            fx_quot(2 * (value as i128 - self.value as i128), self.period as i128 + 1),
        );
        self.buffer.shift(self.value);
        self.value
    }
}

impl<T: AsValue> Next<T> for ExponentialMovingAverage {
    /// Next value for the EMA.
    type Output = Num;

    open spec fn steady(&self) -> bool {
        self.wf()
    }

    open spec fn follows(&self, value: T, after: Self, out: Num) -> bool {
        after@ == ema_step(self@, value.as_value_spec()) && out == after@.value
    }

    /// Supply an additional value to recalculate a new EMA.
    ///
    /// # Arguments
    ///
    /// * `value` - New value to add to period.
    fn next(&mut self, value: T) -> (out: Num)
        ensures
            final(self)@ == ema_step(old(self)@, value.as_value_spec()),
            out == final(self)@.value,
    {
        let x: Num = value.as_value();
        <Self as Next<Num>>::next(self, x)
    }
}

impl Stats for ExponentialMovingAverage {
    closed spec fn history(&self) -> Buffer {
        self.buffer
    }

    /// Obtains the total sum of the buffer for EMA.
    fn sum(&self) -> (r: Num)
        ensures
            r == clamp(self.history().sum_spec()),
    {
        self.buffer.sum()
    }

    /// Mean for the period of the EMA.
    fn mean(&self) -> (r: Num)
        ensures
            r == self.history().mean_spec(),
    {
        self.buffer.mean()
    }

    /// Current variance for the period.
    fn variance(&self, is_sample: bool) -> (r: Num)
        ensures
            r == self.history().variance_spec(is_sample),
    {
        self.buffer.variance(is_sample)
    }

    /// Current standard deviation for the period.
    fn stdev(&self, is_sample: bool) -> (r: Num)
        ensures
            r == self.history().stdev_spec(is_sample),
    {
        self.buffer.stdev(is_sample)
    }
}

} // verus!
