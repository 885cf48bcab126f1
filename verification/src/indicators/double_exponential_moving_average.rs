//! Double Exponential Moving Average (DEMA)
//!
//! # Formula
//!
//! DEMA = (2 * EMA(n)) - EMA(EMA(n))
//!
//! DEMA = (2 * x) - y
//!
//! where:
//!
//! * `x` = \[EMA(n)\] Current EMA of period `n`
//! * `y` = \[EMA(EMA(n))\] EMA of EMA(n)
//! * `n` = period
use super::exponential_moving_average::{
    ema_model, ema_series, ema_step, lemma_ema_series_len, lemma_ema_step, EmaModel,
    ExponentialMovingAverage,
};
use crate::buffer::{tail, Buffer};
use crate::error::TAError;
use crate::fixed::{clamp, narrow, Num};
use crate::traits::{AsValue, Next, Period, Stats, Value};
use vstd::prelude::*;

verus! {

/// What a double exponential moving average is at a moment: the average of
/// the samples, the average of that average's values, the value that the two
/// give, and the window of the latest values, oldest first.
pub struct DemaModel {
    pub period: usize,
    pub value: Num,
    pub ema_n: EmaModel,
    pub ema_ema_n: EmaModel,
    pub window: Seq<Num>,
}

/// Twice the average less the average of the average, saturated once.
pub open spec fn dema_value(ema: Num, ema_of_ema: Num) -> Num {
    clamp(2 * ema - ema_of_ema) as Num
}

/// The double average that `2 * period - 1` samples seed: the average of
/// the samples, and the average that its first `period` values seed.
pub open spec fn dema_seed(period: usize, data: Seq<Num>) -> DemaModel {
    let ema_n = ema_model(period, data);
    let ema_ema_n = ema_model(period, ema_series(period, data));
    DemaModel {
        period,
        value: dema_value(ema_n.value, ema_ema_n.value),
        ema_n,
        ema_ema_n,
        window: seq![dema_value(ema_n.value, ema_ema_n.value)],
    }
}

/// The double average one sample after `m`: the first average takes the
/// sample, the second takes the value of the first.
pub open spec fn dema_step(m: DemaModel, x: Num) -> DemaModel {
    let ema_n = ema_step(m.ema_n, x);
    let ema_ema_n = ema_step(m.ema_ema_n, ema_n.value);
    DemaModel {
        period: m.period,
        value: dema_value(ema_n.value, ema_ema_n.value),
        ema_n,
        ema_ema_n,
        window: tail(m.window.push(dema_value(ema_n.value, ema_ema_n.value)), m.period as int),
    }
}

/// The double exponential moving average of `period` over all of `data`:
/// seeded by the first `2 * period - 1` samples and moved by each sample
/// after them.
pub open spec fn dema_model(period: usize, data: Seq<Num>) -> DemaModel
    decreases data.len(),
{
    if data.len() == 0 || data.len() <= 2 * period - 1 {
        dema_seed(period, data)
    } else {
        dema_step(dema_model(period, data.drop_last()), data.last())
    }
}

/// Feeding one more sample to a double average gives the double average
/// that is built from all the samples at once.
pub proof fn lemma_dema_step(period: usize, data: Seq<Num>, x: Num)
    requires
        data.len() >= 2 * period - 1,
    ensures
        dema_model(period, data.push(x)) == dema_step(dema_model(period, data), x),
{
    assert(data.push(x).drop_last() =~= data);
}

/// In a double average the first average is the average of all the samples,
/// and the second is the average of all the values that the first has taken.
pub proof fn lemma_dema_parts(period: usize, data: Seq<Num>)
    requires
        period >= 1,
        data.len() >= 2 * period - 1,
    ensures
        dema_model(period, data).period == period,
        dema_model(period, data).ema_n == ema_model(period, data),
        dema_model(period, data).ema_ema_n == ema_model(period, ema_series(period, data)),
        dema_model(period, data).value == dema_value(
            ema_model(period, data).value,
            ema_model(period, ema_series(period, data)).value,
        ),
    decreases data.len(),
{
    if data.len() > 2 * period - 1 {
        let before = data.drop_last();
        lemma_dema_parts(period, before);
        lemma_ema_series_len(period, before);
        assert(ema_series(period, data).drop_last() =~= ema_series(period, before));
    }
}

/// What `m` becomes when it is fed the samples of `xs`, one by one.
pub open spec fn dema_fed(m: DemaModel, xs: Seq<Num>) -> DemaModel
    decreases xs.len(),
{
    if xs.len() == 0 {
        m
    } else {
        dema_step(dema_fed(m, xs.drop_last()), xs.last())
    }
}

/// Seeding a double average with the first samples and feeding it the rest one by one
/// gives what is built from all the samples at once.
pub proof fn lemma_dema_seed_then_feed(period: usize, head: Seq<Num>, rest: Seq<Num>)
    requires
        head.len() >= 2 * period - 1,
    ensures
        dema_fed(dema_model(period, head), rest) == dema_model(period, head + rest),
    decreases rest.len(),
{
    if rest.len() == 0 {
        assert(head + rest =~= head);
    } else {
        lemma_dema_seed_then_feed(period, head, rest.drop_last());
        lemma_dema_step(period, head + rest.drop_last(), rest.last());
        assert((head + rest.drop_last()).push(rest.last()) =~= head + rest);
    }
}

/// Double Exponential Moving Average (DEMA)
///
/// # Formula
///
/// DEMA = (2 * EMA(n)) - EMA(EMA(n))
///
/// DEMA = (2 * x) - y
///
/// where:
///
/// * `x` = \[EMA(n)\] Current EMA of period `n`
/// * `y` = \[EMA(EMA(n))\] EMA of EMA(n)
/// * `n` = period
#[derive(Debug)]
pub struct DoubleExponentialMovingAverage {
    /// Size of the period (window) in which data is looked at.
    period: usize,
    /// DEMA's current value.
    value: Num,
    /// EMA(n), EMA of values / samples provided.
    ema_n: ExponentialMovingAverage,
    /// EMA(EMA(n)), EMA of EMA(n).
    ema_ema_n: ExponentialMovingAverage,
    /// Holds `period` amount of generated DEMAs.
    buffer: Buffer,
}

/// The short name of the [`DoubleExponentialMovingAverage`].
pub type DEMA = DoubleExponentialMovingAverage;

impl View for DoubleExponentialMovingAverage {
    type V = DemaModel;

    closed spec fn view(&self) -> DemaModel {
        DemaModel {
            period: self.period,
            value: self.value,
            ema_n: self.ema_n@,
            ema_ema_n: self.ema_ema_n@,
            window: self.buffer@,
        }
    }
}

impl DoubleExponentialMovingAverage {
    /// The two averages that the double average is made of.
    pub closed spec fn parts(&self) -> (ExponentialMovingAverage, ExponentialMovingAverage) {
        (self.ema_n, self.ema_ema_n)
    }

    /// What holds of every double average that a constructor returned: its
    /// two averages are steady, and the window of its values is the one that
    /// the statistics are taken over.
    pub open spec fn wf(&self) -> bool {
        &&& self.parts().0.wf()
        &&& self.parts().1.wf()
        &&& self.parts().0@ == self@.ema_n
        &&& self.parts().1@ == self@.ema_ema_n
        &&& self.history().wf()
        &&& self.history()@ == self@.window
        &&& self.history().capacity_spec() == self@.period
    }

    /// Creates a new Double Exponential Moving Average with the supplied period and initial data.
    ///
    /// ### Requirements:
    ///
    /// * Period must be greater than 0.
    /// * Data must have at least `(period * 2) - 1` elements.
    ///
    /// # Arguments
    ///
    /// * `period` - Size of the period / window used.
    /// * `data` - Array of values to create the DEMA from.
    pub fn new(period: usize, data: &[Num]) -> (r: Result<Self, TAError>)
        ensures
            period < 1 <==> r matches Err(TAError::InvalidSize(_)),
            period >= 1 && data@.len() < 2 * period - 1 <==> r matches Err(
                TAError::InvalidData(_),
            ),
            period >= 1 && data@.len() >= 2 * period - 1 <==> r is Ok,
            r matches Ok(s) ==> s.wf() && s@.period == period && s@ == dema_model(period, data@),
    {
        // Check we can calculate Double Exponential Moving Average.
        if period < 1 {
            return Err(
                TAError::size(
                    "period cannot be less than 1 to calculate double exponential moving average",
                ),
            );
        } else if data.len() < period || data.len() - period < period - 1 {
            // Make sure we have enough data.
            return Err(TAError::data("not enough data for period provided"));
        }
        let seeded: usize = period + (period - 1);

        // Build EMA(n) from first 'n' samples (period amount).
        let mut ema_n: ExponentialMovingAverage = match ExponentialMovingAverage::new(
            period,
            &data[0..period],
        ) {
            Ok(value) => value,
            Err(error) => return Err(error),
        };

        // n EMA(n), build it manually because we need to catch the output.
        let mut n_ema_n: Vec<Num> = Vec::new();
        n_ema_n.push(ema_n.value());
        let mut i: usize = period;
        assert(n_ema_n@ =~= ema_series(period, data@.subrange(0, i as int)));
        while i < seeded
            invariant
                period <= i <= seeded <= data.len(),
                seeded == 2 * period - 1,
                ema_n.wf(),
                ema_n@.period == period,
                ema_n@ == ema_model(period, data@.subrange(0, i as int)),
                n_ema_n@ == ema_series(period, data@.subrange(0, i as int)),
            decreases seeded - i,
        {
            proof {
                lemma_ema_step(period, data@.subrange(0, i as int), data[i as int]);
                assert(data@.subrange(0, i as int).push(data[i as int]) =~= data@.subrange(
                    0,
                    i + 1,
                ));
                assert(data@.subrange(0, i + 1).drop_last() =~= data@.subrange(0, i as int));
            }
            let e: Num = ema_n.next(data[i]);
            n_ema_n.push(e);
            i = i + 1;
        }
        proof {
            lemma_ema_series_len(period, data@.subrange(0, i as int));
        }

        // EMA of EMA(n)
        let ema_ema_n: ExponentialMovingAverage = match ExponentialMovingAverage::new(
            period,
            n_ema_n.as_slice(),
        ) {
            Ok(value) => value,
            Err(error) => return Err(error),
        };

        // Buffer will hold processed DEMAs
        let value: Num = narrow(2 * (ema_n.value() as i128) - ema_ema_n.value() as i128);
        let first: [Num; 1] = [value];
        let buffer: Buffer = match Buffer::from_array(period, first.as_slice()) {
            Ok(v) => v,
            Err(error) => return Err(error),
        };
        let mut dema: Self = Self { period, value, ema_n, ema_ema_n, buffer };
        assert(dema@ == dema_model(period, data@.subrange(0, i as int))) by {
            assert(dema.buffer@ =~= seq![value]);
        }

        // Calculate the remainder data points.
        while i < data.len()
            invariant
                2 * period - 1 <= i <= data.len(),
                dema.wf(),
                dema@.period == period,
                dema@ == dema_model(period, data@.subrange(0, i as int)),
            decreases data.len() - i,
        {
            proof {
                lemma_dema_step(period, data@.subrange(0, i as int), data[i as int]);
                assert(data@.subrange(0, i as int).push(data[i as int]) =~= data@.subrange(
                    0,
                    i + 1,
                ));
            }
            dema.next(data[i]);
            i = i + 1;
        }
        assert(data@.subrange(0, i as int) =~= data@);
        Ok(dema)
    }

    /// Period (window) for the samples.
    pub fn period(&self) -> (r: usize)
        ensures
            r == self@.period,
    {
        self.period
    }

    /// Current and most recent value calculated.
    pub fn value(&self) -> (r: Num)
        ensures
            r == self@.value,
    {
        self.value
    }
}

impl Period for DoubleExponentialMovingAverage {
    open spec fn period_spec(&self) -> usize {
        self@.period
    }

    /// Period (window) for the samples.
    fn period(&self) -> (r: usize)
        ensures
            r == self.period_spec(),
    {
        self.period
    }
}

impl Value for DoubleExponentialMovingAverage {
    open spec fn value_spec(&self) -> Num {
        self@.value
    }

    /// Current and most recent value calculated.
    fn value(&self) -> (r: Num)
        ensures
            r == self.value_spec(),
    {
        self.value
    }
}

impl Next<Num> for DoubleExponentialMovingAverage {
    /// Next value for the DEMA.
    type Output = Num;

    open spec fn steady(&self) -> bool {
        self.wf()
    }

    open spec fn follows(&self, value: Num, after: Self, out: Num) -> bool {
        after@ == dema_step(self@, value) && out == after@.value
    }

    /// Supply an additional value to recalculate a new DEMA.
    ///
    /// # Arguments
    ///
    /// * `value` - New value to add to period.
    fn next(&mut self, value: Num) -> (out: Num)
        ensures
            final(self)@ == dema_step(old(self)@, value),
            out == final(self)@.value,
    {
        let ema: Num = self.ema_n.next(value);
        let ema_of_ema: Num = self.ema_ema_n.next(ema);

        // Calculate the new DEMA.
        self.value = narrow(2 * (ema as i128) - ema_of_ema as i128);
        self.buffer.shift(self.value);
        self.value
    }
}

impl<T: AsValue> Next<T> for DoubleExponentialMovingAverage {
    /// Next value for the DEMA.
    type Output = Num;

    open spec fn steady(&self) -> bool {
        self.wf()
    }

    open spec fn follows(&self, value: T, after: Self, out: Num) -> bool {
        after@ == dema_step(self@, value.as_value_spec()) && out == after@.value
    }

    /// Supply an additional value to recalculate a new DEMA.
    ///
    /// # Arguments
    ///
    /// * `value` - New value to add to period.
    fn next(&mut self, value: T) -> (out: Num)
        ensures
            final(self)@ == dema_step(old(self)@, value.as_value_spec()),
            out == final(self)@.value,
    {
        let x: Num = value.as_value();
        <Self as Next<Num>>::next(self, x)
    }
}

impl Stats for DoubleExponentialMovingAverage {
    closed spec fn history(&self) -> Buffer {
        self.buffer
    }

    /// Obtains the total sum of the buffer for DEMA.
    fn sum(&self) -> (r: Num)
        ensures
            r == clamp(self.history().sum_spec()),
    {
        self.buffer.sum()
    }

    /// Mean for the period of the DEMA.
    fn mean(&self) -> (r: Num)
        ensures
            r == self.history().mean_spec(),
    {
        self.buffer.mean()
    }

    /// Current variance for the period.
    fn variance(&self, is_sample: bool) -> (r: Num)
        ensures
            r == self.history().variance_spec(is_sample),
    {
        self.buffer.variance(is_sample)
    }

    /// Current standard deviation for the period.
    fn stdev(&self, is_sample: bool) -> (r: Num)
        ensures
            r == self.history().stdev_spec(is_sample),
    {
        self.buffer.stdev(is_sample)
    }
}

} // verus!
