//! Rate of Change (ROC), Measures percentage change in value.
//!
//! # Formula
//!
//! ROC = ((x - y) / y) * 100
//!
//! where:
//!
//! * `x` = current value (most recent)
//! * `y` = value `n` periods prior.
use crate::buffer::{lemma_tail_push, tail, Buffer};
use crate::error::TAError;
use crate::fixed::{clamp, fx_ratio, sat_quot, Num};
use crate::traits::{AsValue, Next, Period, Stats, Value};
use vstd::prelude::*;

verus! {

/// The quantity one hundred.
pub const PERCENT: Num = 100_000_000;

/// What a rate of change is at a moment: the window of the latest samples,
/// the rate of the latest sample against the one `period` samples before
/// it, and the window of the latest rates, oldest first.
pub struct RocModel {
    pub period: usize,
    pub value: Num,
    /// The latest samples, oldest first.
    pub values: Seq<Num>,
    /// The latest rates, oldest first.
    pub window: Seq<Num>,
}

/// The change from `last` to `x` in percent of `last`, with one rounding.
pub open spec fn roc_value(x: Num, last: Num) -> Num {
    sat_quot((x - last) * PERCENT, last as int) as Num
}

/// The rate of change one sample after `m`.
pub open spec fn roc_step(m: RocModel, x: Num) -> RocModel {
    RocModel {
        period: m.period,
        value: roc_value(x, m.values[0]),
        values: tail(m.values.push(x), m.period as int),
        window: tail(m.window.push(roc_value(x, m.values[0])), m.period as int),
    }
}

/// The rate of change of `period` over all of `data`. The first `period`
/// samples fill the window of samples; each sample after them gives a rate.
pub open spec fn roc_model(period: usize, data: Seq<Num>) -> RocModel
    decreases data.len(),
{
    if data.len() <= period {
        RocModel { period, value: 0, values: data, window: Seq::empty() }
    } else {
        roc_step(roc_model(period, data.drop_last()), data.last())
    }
}

/// Feeding one more sample to a rate of change gives the rate of change
/// that is built from all the samples at once.
pub proof fn lemma_roc_step(period: usize, data: Seq<Num>, x: Num)
    requires
        data.len() >= period,
    ensures
        roc_model(period, data.push(x)) == roc_step(roc_model(period, data), x),
{
    assert(data.push(x).drop_last() =~= data);
}

/// The rate of change sets the latest sample against the sample `period`
/// places before it, and keeps the last `period` samples.
pub proof fn lemma_roc_value(period: usize, data: Seq<Num>)
    requires
        period >= 1,
        data.len() >= period + 1,
    ensures
        roc_model(period, data).value == roc_value(data.last(), data[data.len() - 1 - period]),
        roc_model(period, data).values == tail(data, period as int),
        roc_model(period, data).period == period,
    decreases data.len(),
{
    reveal_with_fuel(roc_model, 2);
    let before = data.drop_last();
    if before.len() > period {
        lemma_roc_value(period, before);
    }
    assert(roc_model(period, before).values == tail(before, period as int));
    lemma_tail_push(before, period as int, data.last());
    assert(before.push(data.last()) =~= data);
}

/// What `m` becomes when it is fed the samples of `xs`, one by one.
pub open spec fn roc_fed(m: RocModel, xs: Seq<Num>) -> RocModel
    decreases xs.len(),
{
    if xs.len() == 0 {
        m
    } else {
        roc_step(roc_fed(m, xs.drop_last()), xs.last())
    }
}

/// Seeding a rate of change with the first samples and feeding it the rest one by one
/// gives what is built from all the samples at once.
pub proof fn lemma_roc_seed_then_feed(period: usize, head: Seq<Num>, rest: Seq<Num>)
    requires
        head.len() >= period,
    ensures
        roc_fed(roc_model(period, head), rest) == roc_model(period, head + rest),
    decreases rest.len(),
{
    if rest.len() == 0 {
        assert(head + rest =~= head);
    } else {
        lemma_roc_seed_then_feed(period, head, rest.drop_last());
        lemma_roc_step(period, head + rest.drop_last(), rest.last());
        assert((head + rest.drop_last()).push(rest.last()) =~= head + rest);
    }
}

/// Rate of Change (ROC), Measures percentage change in value.
///
/// # Formula
///
/// ROC = ((x - y) / y) * 100
///
/// where:
///
/// * `x` = current value (most recent)
/// * `y` = value `n` periods prior.
#[derive(Debug)]
pub struct RateOfChange {
    /// Size of the period (window) in which data is looked at.
    period: usize,
    /// ROC's current value.
    value: Num,
    /// Holds all of the current period's samples.
    values: Buffer,
    /// Holds `period` amount of generated ROCs.
    buffer: Buffer,
}

impl View for RateOfChange {
    type V = RocModel;

    closed spec fn view(&self) -> RocModel {
        RocModel {
            period: self.period,
            value: self.value,
            values: self.values@,
            window: self.buffer@,
        }
    }
}

impl RateOfChange {
    /// The window of samples that the rate looks back into.
    pub closed spec fn samples(&self) -> Buffer {
        self.values
    }

    /// What holds of every rate of change that a constructor returned: the
    /// window of its samples is steady, and the window of its values is the
    /// one that the statistics are taken over.
    pub open spec fn wf(&self) -> bool {
        &&& self.samples().wf()
        &&& self.samples()@ == self@.values
        &&& self.samples().capacity_spec() == self@.period
        &&& self.history().wf()
        &&& self.history()@ == self@.window
        &&& self.history().capacity_spec() == self@.period
    }

    /// Creates a new Rate of Change with the supplied period and initial data.
    ///
    /// ### Requirements:
    ///
    /// * Period must be greater than 1.
    /// * Data must have at least `period + 1` elements.
    ///
    /// ## Arguments
    ///
    /// * `period` - Size of the period / window used.
    /// * `data` - Array of values to create the ROC from.
    pub fn new(period: usize, data: &[Num]) -> (r: Result<Self, TAError>)
        ensures
            period < 2 <==> r matches Err(TAError::InvalidSize(_)),
            period >= 2 && data@.len() < period + 1 <==> r matches Err(TAError::InvalidData(_)),
            period >= 2 && data@.len() >= period + 1 <==> r is Ok,
            r matches Ok(s) ==> s.wf() && s@.period == period && s@ == roc_model(period, data@),
    {
        // Check we can calculate Rate of Change.
        if period < 2 {
            return Err(
                TAError::size("period cannot be less than 2 to calculate rate of change"),
            );
        } else if data.len() <= period {
            // Make sure we have enough data.
            return Err(TAError::data("not enough data for period provided"));
        }

        // Stores previous closes / data points.
        let mut values: Buffer = match Buffer::from_array(period, &data[0..period]) {
            Ok(value) => value,
            Err(error) => return Err(error),
        };
        assert(values@ =~= data@.subrange(0, period as int));

        // Create the first value.
        let recent_value: Num = data[period];
        let value: Num = Self::calculate(recent_value, values.oldest());
        values.shift(recent_value);

        // Build the buffer from the data provided.
        let first: [Num; 1] = [value];
        let buffer: Buffer = match Buffer::from_array(period, first.as_slice()) {
            Ok(value) => value,
            Err(error) => return Err(error),
        };
        let mut roc: Self = Self { period, value, values, buffer };
        assert(roc@ == roc_model(period, data@.subrange(0, period + 1))) by {
            reveal_with_fuel(roc_model, 2);
            let seeded = data@.subrange(0, period + 1);
            assert(seeded.drop_last() =~= data@.subrange(0, period as int));
            assert(roc.buffer@ =~= tail(Seq::<Num>::empty().push(value), period as int));
        }

        // Process the remaining values.
        let mut i: usize = period + 1;
        while i < data.len()
            invariant
                period + 1 <= i <= data.len(),
                roc.wf(),
                roc@.period == period,
                roc@ == roc_model(period, data@.subrange(0, i as int)),
            decreases data.len() - i,
        {
            proof {
                lemma_roc_step(period, data@.subrange(0, i as int), data[i as int]);
                assert(data@.subrange(0, i as int).push(data[i as int]) =~= data@.subrange(
                    0,
                    i + 1,
                ));
            }
            roc.next(data[i]);
            i = i + 1;
        }
        assert(data@.subrange(0, i as int) =~= data@);
        Ok(roc)
    }

    /// Period (window) for the samples.
    pub fn period(&self) -> (r: usize)
        ensures
            r == self@.period,
    {
        self.period
    }

    /// Current and most recent value calculated.
    pub fn value(&self) -> (r: Num)
        ensures
            r == self@.value,
    {
        self.value
    }

    /// Calculates an ROC with newly provided data.
    ///
    /// # Arguments
    ///
    /// * `value` - Current value / close.
    /// * `last` - Last value / close from 'n' periods.
    fn calculate(value: Num, last: Num) -> (r: Num)
        ensures
            r == roc_value(value, last),
    {
        let change: i128 = value as i128 - last as i128;
        assert(-0x1_0000_0000_0000_0000 * 100_000_000 <= change * PERCENT
            <= 0x1_0000_0000_0000_0000 * 100_000_000) by (nonlinear_arith)
            requires
                -0x1_0000_0000_0000_0000 <= change <= 0x1_0000_0000_0000_0000,
                PERCENT == 100_000_000,
        ;
        fx_ratio(change * PERCENT as i128, last)
    }
}

impl Period for RateOfChange {
    open spec fn period_spec(&self) -> usize {
        self@.period
    }

    /// Period (window) for the samples.
    fn period(&self) -> (r: usize)
        ensures
            r == self.period_spec(),
    {
        self.period
    }
}

impl Value for RateOfChange {
    open spec fn value_spec(&self) -> Num {
        self@.value
    }

    /// Current and most recent value calculated.
    fn value(&self) -> (r: Num)
        ensures
            r == self.value_spec(),
    {
        self.value
    }
}

impl Next<Num> for RateOfChange {
    /// Next value for the ROC.
    type Output = Num;

    open spec fn steady(&self) -> bool {
        self.wf()
    }

    open spec fn follows(&self, value: Num, after: Self, out: Num) -> bool {
        after@ == roc_step(self@, value) && out == after@.value
    }

    /// Supply an additional value to recalculate a new ROC.
    ///
    /// # Arguments
    ///
    /// * `value` - New value to add to period.
    fn next(&mut self, value: Num) -> (out: Num)
        ensures
            final(self)@ == roc_step(old(self)@, value),
            out == final(self)@.value,
    {
        self.value = Self::calculate(value, self.values.oldest());

        self.buffer.shift(self.value);
        self.values.shift(value);
        self.value
    }
}

impl<T: AsValue> Next<T> for RateOfChange {
    /// Next value for the ROC.
    type Output = Num;

    open spec fn steady(&self) -> bool {
        self.wf()
    }

    open spec fn follows(&self, value: T, after: Self, out: Num) -> bool {
        after@ == roc_step(self@, value.as_value_spec()) && out == after@.value
    }

    /// Supply an additional value to recalculate a new ROC.
    ///
    /// # Arguments
    ///
    /// * `value` - New value to add to period.
    fn next(&mut self, value: T) -> (out: Num)
        ensures
            final(self)@ == roc_step(old(self)@, value.as_value_spec()),
            out == final(self)@.value,
    {
        let x: Num = value.as_value();
        <Self as Next<Num>>::next(self, x)
    }
}

impl Stats for RateOfChange {
    closed spec fn history(&self) -> Buffer {
        self.buffer
    }

    /// Obtains the total sum of the buffer for ROC.
    fn sum(&self) -> (r: Num)
        ensures
            r == clamp(self.history().sum_spec()),
    {
        self.buffer.sum()
    }

    /// Mean for the period of the ROC.
    fn mean(&self) -> (r: Num)
        ensures
            r == self.history().mean_spec(),
    {
        self.buffer.mean()
    }

    /// Current variance for the period.
    fn variance(&self, is_sample: bool) -> (r: Num)
        ensures
            r == self.history().variance_spec(is_sample),
    {
        self.buffer.variance(is_sample)
    }

    /// Current standard deviation for the period.
    fn stdev(&self, is_sample: bool) -> (r: Num)
        ensures
            r == self.history().stdev_spec(is_sample),
    {
        self.buffer.stdev(is_sample)
    }
}

} // verus!
