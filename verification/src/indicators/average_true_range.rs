//! Average True Range (ATR), for a `n` true ranges.
//!
//! # Formula
//!
//! ATR = [ ATR_prev * (n - 1) + TR ] / n
//!
//! where:
//!
//! * `TR` = true range
//! * `n` = period
//!
//! The first value is the plain mean of the first `n` true ranges.
use super::true_range::{lemma_tr_step, tr_model, tr_step, TrModel, TrueRange, TrueRangeData};
use crate::buffer::{mean_of, tail, Buffer};
use crate::error::TAError;
use crate::fixed::{clamp, fx_smooth, sat_smooth, Num};
use crate::traits::{Close, High, Low, Next, Period, Stats, Value};
use vstd::prelude::*;

verus! {

/// What an average true range is at a moment: the true range under it, the
/// average, and the window of the latest averages, oldest first.
pub struct AtrModel {
    pub period: usize,
    pub value: Num,
    pub true_range: TrModel,
    pub window: Seq<Num>,
}

/// The average that `period + 1` data points seed: the mean of the true
/// ranges between them.
pub open spec fn atr_seed<T: High + Low + Close>(period: usize, data: Seq<T>) -> AtrModel {
    let true_range = tr_model(period, data);
    let value = mean_of(true_range.window) as Num;
    AtrModel { period, value, true_range, window: seq![value] }
}

/// The average one data point after `m`: the true range takes the data
/// point, and its value smooths the average.
pub open spec fn atr_step(m: AtrModel, high: Num, low: Num, close: Num) -> AtrModel {
    let true_range = tr_step(m.true_range, high, low, close);
    let value = sat_smooth(m.value as int, true_range.value as int, m.period as int) as Num;
    AtrModel {
        period: m.period,
        value,
        true_range,
        window: tail(m.window.push(value), m.period as int),
    }
}

/// The average true range of `period` over all of `data`: seeded by the
/// first `period + 1` data points and moved by each data point after them.
pub open spec fn atr_model<T: High + Low + Close>(period: usize, data: Seq<T>) -> AtrModel
    decreases data.len(),
{
    if data.len() <= period + 1 {
        atr_seed(period, data)
    } else {
        atr_step(
            atr_model(period, data.drop_last()),
            data.last().high_spec(),
            data.last().low_spec(),
            data.last().close_spec(),
        )
    }
}

/// Feeding one more data point to an average gives the average that is
/// built from all the data points at once.
pub proof fn lemma_atr_step<T: High + Low + Close>(period: usize, data: Seq<T>, x: T)
    requires
        data.len() >= period + 1,
    ensures
        atr_model(period, data.push(x)) == atr_step(
            atr_model(period, data),
            x.high_spec(),
            x.low_spec(),
            x.close_spec(),
        ),
{
    assert(data.push(x).drop_last() =~= data);
}

/// The true range under an average is the true range of all the data points.
pub proof fn lemma_atr_true_range<T: High + Low + Close>(period: usize, data: Seq<T>)
    requires
        period >= 1,
        data.len() >= period + 1,
    ensures
        atr_model(period, data).true_range == tr_model(period, data),
        atr_model(period, data).period == period,
    decreases data.len(),
{
    if data.len() > period + 1 {
        lemma_atr_true_range(period, data.drop_last());
    }
}

/// What `m` becomes when it is fed the data points of `xs`, one by one.
pub open spec fn atr_fed<T: High + Low + Close>(m: AtrModel, xs: Seq<T>) -> AtrModel
    decreases xs.len(),
{
    if xs.len() == 0 {
        m
    } else {
        atr_step(
            atr_fed(m, xs.drop_last()),
            xs.last().high_spec(),
            xs.last().low_spec(),
            xs.last().close_spec(),
        )
    }
}

/// Seeding an average with the first data points and feeding it the rest one by
/// one gives what is built from all the data points at once.
pub proof fn lemma_atr_seed_then_feed<T: High + Low + Close>(
    period: usize,
    head: Seq<T>,
    rest: Seq<T>,
)
    requires
        head.len() >= period + 1,
    ensures
        atr_fed(atr_model(period, head), rest) == atr_model(period, head + rest),
    decreases rest.len(),
{
    if rest.len() == 0 {
        assert(head + rest =~= head);
    } else {
        lemma_atr_seed_then_feed(period, head, rest.drop_last());
        lemma_atr_step(period, head + rest.drop_last(), rest.last());
        assert((head + rest.drop_last()).push(rest.last()) =~= head + rest);
    }
}

/// Average True Range (ATR), for a `n` true ranges.
///
/// # Formula
///
/// ATR = [ ATR_prev * (n - 1) + TR ] / n
///
/// where:
///
/// * `TR` = true range
/// * `n` = period
#[derive(Debug)]
pub struct AverageTrueRange {
    /// Size of the period (window) in which data is looked at.
    period: usize,
    /// ATR's current value.
    value: Num,
    /// True Range used for calculations.
    true_range: TrueRange,
    /// Holds `period` amount of generated ATRs.
    buffer: Buffer,
}

/// The short name of the [`AverageTrueRange`].
pub type ATR = AverageTrueRange;

impl View for AverageTrueRange {
    type V = AtrModel;

    closed spec fn view(&self) -> AtrModel {
        AtrModel {
            period: self.period,
            value: self.value,
            true_range: self.true_range@,
            window: self.buffer@,
        }
    }
}

impl AverageTrueRange {
    /// The true range that is averaged.
    pub closed spec fn range(&self) -> TrueRange {
        self.true_range
    }

    /// What holds of every average that a constructor returned: its true
    /// range is steady, and the window of its values is the one that the
    /// statistics are taken over.
    pub open spec fn wf(&self) -> bool {
        &&& self.range().wf()
        &&& self.range()@ == self@.true_range
        &&& self.history().wf()
        &&& self.history()@ == self@.window
        &&& self.history().capacity_spec() == self@.period
    }

    /// Creates a new ATR with the supplied period and initial data.
    ///
    /// ### Requirements:
    ///
    /// * Period must be greater than 0.
    /// * Data must have at least `period + 1` elements.
    ///
    /// ## Arguments
    ///
    /// * `period` - Size of the period / window used.
    /// * `data` - Array of values to create the ATR from.
    pub fn new<T>(period: usize, data: &[T]) -> (r: Result<Self, TAError>) where
        T: High + Low + Close,

        ensures
            period < 1 <==> r matches Err(TAError::InvalidSize(_)),
            period >= 1 && data@.len() < period + 1 <==> r matches Err(TAError::InvalidData(_)),
            period >= 1 && data@.len() >= period + 1 <==> r is Ok,
            r matches Ok(s) ==> s.wf() && s@.period == period && s@ == atr_model(period, data@),
    {
        // Check we can calculate ATR.
        if period < 1 {
            return Err(
                TAError::size("period cannot be less than 1 to calculate average true range"),
            );
        } else if data.len() <= period {
            // Make sure we have enough data.
            return Err(TAError::data("not enough data to calculate average true range"));
        }

        // Create the first `n` true ranges.
        let true_range: TrueRange = match TrueRange::new(period, &data[0..period + 1]) {
            Ok(v) => v,
            Err(error) => return Err(error),
        };

        // Initial value.
        let value: Num = true_range.mean();

        // Buffer will hold last `n` ATRs.
        let first: [Num; 1] = [value];
        let buffer: Buffer = match Buffer::from_array(period, first.as_slice()) {
            Ok(v) => v,
            Err(error) => return Err(error),
        };
        let mut atr: Self = Self { period, value, true_range, buffer };
        assert(atr@ == atr_model(period, data@.subrange(0, period + 1))) by {
            assert(atr.buffer@ =~= seq![value]);
        }

        // Calculate the remainder of ATRs.
        let mut i: usize = period + 1;
        while i < data.len()
            invariant
                period + 1 <= i <= data.len(),
                atr.wf(),
                atr@.period == period,
                atr@ == atr_model(period, data@.subrange(0, i as int)),
            decreases data.len() - i,
        {
            proof {
                lemma_atr_step(period, data@.subrange(0, i as int), data[i as int]);
                assert(data@.subrange(0, i as int).push(data[i as int]) =~= data@.subrange(
                    0,
                    i + 1,
                ));
            }
            atr.advance(&data[i]);
            i = i + 1;
        }
        assert(data@.subrange(0, i as int) =~= data@);
        Ok(atr)
    }

    /// Period (window) for the samples.
    pub fn period(&self) -> (r: usize)
        ensures
            r == self@.period,
    {
        self.period
    }

    /// Current and most recent value calculated.
    pub fn value(&self) -> (r: Num)
        ensures
            r == self@.value,
    {
        self.value
    }

    /// Takes one more data point.
    fn advance<T>(&mut self, value: &T) -> (out: Num) where T: High + Low + Close
        requires
            old(self).wf(),
        ensures
            final(self).wf(),
            final(self)@ == atr_step(
                old(self)@,
                value.high_spec(),
                value.low_spec(),
                value.close_spec(),
            ),
            out == final(self)@.value,
    {
        let tr_value: Num = self.true_range.next(value);
        self.value = fx_smooth(self.value, tr_value, self.period);

        // Rotate the buffer.
        self.buffer.shift(self.value);
        self.value
    }
}

impl Period for AverageTrueRange {
    open spec fn period_spec(&self) -> usize {
        self@.period
    }

    /// Period (window) for the samples.
    fn period(&self) -> (r: usize)
        ensures
            r == self.period_spec(),
    {
        self.period
    }
}

impl Value for AverageTrueRange {
    open spec fn value_spec(&self) -> Num {
        self@.value
    }

    /// Current and most recent value calculated.
    fn value(&self) -> (r: Num)
        ensures
            r == self.value_spec(),
    {
        self.value
    }
}

impl<T> Next<T> for AverageTrueRange where T: High + Low + Close {
    /// Next Value for the ATR.
    type Output = Num;

    open spec fn steady(&self) -> bool {
        self.wf()
    }

    open spec fn follows(&self, value: T, after: Self, out: Num) -> bool {
        &&& after@ == atr_step(self@, value.high_spec(), value.low_spec(), value.close_spec())
        &&& out == after@.value
    }

    /// Supply an additional value to recalculate a new ATR.
    ///
    /// # Arguments
    ///
    /// * `value` - New value to add to period.
    fn next(&mut self, value: T) -> (out: Num)
        ensures
            final(self)@ == atr_step(
                old(self)@,
                value.high_spec(),
                value.low_spec(),
                value.close_spec(),
            ),
            out == final(self)@.value,
    {
        self.advance(&value)
    }
}

impl Next<(Num, Num, Num)> for AverageTrueRange {
    /// Next Value for the ATR.
    type Output = Num;

    open spec fn steady(&self) -> bool {
        self.wf()
    }

    open spec fn follows(&self, value: (Num, Num, Num), after: Self, out: Num) -> bool {
        after@ == atr_step(self@, value.0, value.1, value.2) && out == after@.value
    }

    /// Supply an additional value to recalculate a new ATR.
    ///
    /// # Arguments
    ///
    /// * `value` - New value to add to period.
    ///     * 0 = High
    ///     * 1 = Low
    ///     * 2 = Close
    fn next(&mut self, value: (Num, Num, Num)) -> (out: Num)
        ensures
            final(self)@ == atr_step(old(self)@, value.0, value.1, value.2),
            out == final(self)@.value,
    {
        let v: TrueRangeData = TrueRangeData(value.0, value.1, value.2);
        self.advance(&v)
    }
}

impl Stats for AverageTrueRange {
    closed spec fn history(&self) -> Buffer {
        self.buffer
    }

    /// Obtains the total sum of the buffer for ATR.
    fn sum(&self) -> (r: Num)
        ensures
            r == clamp(self.history().sum_spec()),
    {
        self.buffer.sum()
    }

    /// Mean for the period of the ATR.
    fn mean(&self) -> (r: Num)
        ensures
            r == self.history().mean_spec(),
    {
        self.buffer.mean()
    }

    /// Current variance for the period.
    fn variance(&self, is_sample: bool) -> (r: Num)
        ensures
            r == self.history().variance_spec(is_sample),
    {
        self.buffer.variance(is_sample)
    }

    /// Current standard deviation for the period.
    fn stdev(&self, is_sample: bool) -> (r: Num)
        ensures
            r == self.history().stdev_spec(is_sample),
    {
        self.buffer.stdev(is_sample)
    }
}

} // verus!
