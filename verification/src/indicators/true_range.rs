//! True Range (TR), Maximum of three price ranges.
//!
//! # Formula
//!
//! TR = MAX[ |H - L|, |H - C|, |L - C| ]
//!
//! where:
//!
//! * `H` = highest value for the data point / candle.
//! * `L` = lowest value for the data point / candle.
//! * `C` = last close prior to this data point.
use crate::buffer::{tail, Buffer};
use crate::error::TAError;
use crate::fixed::{clamp, fx_abs, fx_max, fx_sub, max_of, sat_abs, sat_sub, Num};
use crate::traits::{Close, High, Low, Next, Period, Stats, Value};
use vstd::prelude::*;

verus! {

/// Used for conversions. Holds High (0), Low (1), and Close (2) values.
#[derive(Copy, Clone, Debug)]
pub struct TrueRangeData(pub Num, pub Num, pub Num);

impl High for TrueRangeData {
    open spec fn high_spec(&self) -> Num {
        self.0
    }

    /// Highest value.
    fn high(&self) -> (r: Num)
        ensures
            r == self.high_spec(),
    {
        self.0
    }
}

impl Low for TrueRangeData {
    open spec fn low_spec(&self) -> Num {
        self.1
    }

    /// Lowest value.
    fn low(&self) -> (r: Num)
        ensures
            r == self.low_spec(),
    {
        self.1
    }
}

impl Close for TrueRangeData {
    open spec fn close_spec(&self) -> Num {
        self.2
    }

    /// Closing value.
    fn close(&self) -> (r: Num)
        ensures
            r == self.close_spec(),
    {
        self.2
    }
}

/// What a true range is at a moment: the range of the latest data point,
/// its close, and the window of the latest ranges, oldest first.
pub struct TrModel {
    pub period: usize,
    pub value: Num,
    pub last_close: Num,
    pub window: Seq<Num>,
}

/// The true range of a data point with the given high and low, after a data
/// point that closed at `last_close`: the widest of the distances between
/// the high and the low, the high and that close, the low and that close.
pub open spec fn true_range(high: Num, low: Num, last_close: Num) -> Num {
    max_of(
        sat_abs(sat_sub(high as int, low as int)),
        max_of(
            sat_abs(sat_sub(high as int, last_close as int)),
            sat_abs(sat_sub(low as int, last_close as int)),
        ),
    ) as Num
}

/// The true range that two data points seed.
pub open spec fn tr_seed<T: High + Low + Close>(period: usize, first: T, second: T) -> TrModel {
    let value = true_range(second.high_spec(), second.low_spec(), first.close_spec());
    TrModel { period, value, last_close: second.close_spec(), window: seq![value] }
}

/// The true range one data point after `m`.
pub open spec fn tr_step(m: TrModel, high: Num, low: Num, close: Num) -> TrModel {
    TrModel {
        period: m.period,
        value: true_range(high, low, m.last_close),
        last_close: close,
        window: tail(m.window.push(true_range(high, low, m.last_close)), m.period as int),
    }
}

/// The true range of `period` over all of `data`: seeded by the first two
/// data points and moved by each data point after them.
pub open spec fn tr_model<T: High + Low + Close>(period: usize, data: Seq<T>) -> TrModel
    decreases data.len(),
{
    if data.len() <= 2 {
        tr_seed(period, data[0], data[1])
    } else {
        tr_step(
            tr_model(period, data.drop_last()),
            data.last().high_spec(),
            data.last().low_spec(),
            data.last().close_spec(),
        )
    }
}

/// Feeding one more data point to a true range gives the true range that is
/// built from all the data points at once.
pub proof fn lemma_tr_step<T: High + Low + Close>(period: usize, data: Seq<T>, x: T)
    requires
        data.len() >= 2,
    ensures
        tr_model(period, data.push(x)) == tr_step(
            tr_model(period, data),
            x.high_spec(),
            x.low_spec(),
            x.close_spec(),
        ),
{
    assert(data.push(x).drop_last() =~= data);
}

/// The true range sets the latest data point against the close before it.
pub proof fn lemma_tr_value<T: High + Low + Close>(period: usize, data: Seq<T>)
    requires
        data.len() >= 2,
    ensures
        tr_model(period, data).value == true_range(
            data.last().high_spec(),
            data.last().low_spec(),
            data[data.len() - 2].close_spec(),
        ),
        tr_model(period, data).last_close == data.last().close_spec(),
    decreases data.len(),
{
    if data.len() > 2 {
        lemma_tr_value(period, data.drop_last());
    }
}

/// What `m` becomes when it is fed the data points of `xs`, one by one.
pub open spec fn tr_fed<T: High + Low + Close>(m: TrModel, xs: Seq<T>) -> TrModel
    decreases xs.len(),
{
    if xs.len() == 0 {
        m
    } else {
        tr_step(
            tr_fed(m, xs.drop_last()),
            xs.last().high_spec(),
            xs.last().low_spec(),
            xs.last().close_spec(),
        )
    }
}

/// Seeding a true range with the first data points and feeding it the rest one by
/// one gives what is built from all the data points at once.
pub proof fn lemma_tr_seed_then_feed<T: High + Low + Close>(
    period: usize,
    head: Seq<T>,
    rest: Seq<T>,
)
    requires
        head.len() >= 2,
    ensures
        tr_fed(tr_model(period, head), rest) == tr_model(period, head + rest),
    decreases rest.len(),
{
    if rest.len() == 0 {
        assert(head + rest =~= head);
    } else {
        lemma_tr_seed_then_feed(period, head, rest.drop_last());
        lemma_tr_step(period, head + rest.drop_last(), rest.last());
        assert((head + rest.drop_last()).push(rest.last()) =~= head + rest);
    }
}

/// True Range (TR), Maximum of three price ranges.
///
/// # Formula
///
/// TR = MAX[ |H - L|, |H - C|, |L - C| ]
///
/// where:
///
/// * `H` = highest value for the data point / candle.
/// * `L` = lowest value for the data point / candle.
/// * `C` = last close prior to this data point.
#[derive(Debug)]
pub struct TrueRange {
    /// Size of the period (window) in which data is looked at.
    period: usize,
    /// TR's current value.
    value: Num,
    /// Last close, which the next range is measured from.
    last_close: Num,
    /// Holds `period` amount of generated TRs.
    buffer: Buffer,
}

/// The short name of the [`TrueRange`].
pub type TR = TrueRange;

impl View for TrueRange {
    type V = TrModel;

    closed spec fn view(&self) -> TrModel {
        TrModel {
            period: self.period,
            value: self.value,
            last_close: self.last_close,
            window: self.buffer@,
        }
    }
}

impl TrueRange {
    /// What holds of every true range that a constructor returned: the
    /// window of its values is the one that the statistics are taken over.
    pub open spec fn wf(&self) -> bool {
        &&& self.history().wf()
        &&& self.history()@ == self@.window
        &&& self.history().capacity_spec() == self@.period
    }

    /// Creates a new TR with the supplied period and initial data.
    ///
    /// ### Requirements:
    ///
    /// * Period must be greater than 0.
    /// * Data must have at least `period + 1` elements.
    ///
    /// ## Arguments
    ///
    /// * `period` - Size of the period / window used.
    /// * `data` - Array of values to create the TR from.
    pub fn new<T>(period: usize, data: &[T]) -> (r: Result<Self, TAError>) where
        T: Close + Low + High,

        ensures
            period < 1 <==> r matches Err(TAError::InvalidSize(_)),
            period >= 1 && data@.len() < period + 1 <==> r matches Err(TAError::InvalidData(_)),
            period >= 1 && data@.len() >= period + 1 <==> r is Ok,
            r matches Ok(s) ==> s.wf() && s@.period == period && s@ == tr_model(period, data@),
    {
        // Check we can calculate True Range.
        if period < 1 {
            return Err(TAError::size("period cannot be less than 1 to calculate true range"));
        } else if data.len() <= period {
            // Make sure we have enough data. Requires additional data point for `last_close`
            return Err(TAError::data("not enough data to calculate true range"));
        }

        // First close and TR to use.
        let first_close: Num = data[0].close();
        let value: Num = Self::calculate(&data[1], first_close);

        // Buffer will hold last `period` of TRs.
        let first: [Num; 1] = [value];
        let buffer: Buffer = match Buffer::from_array(period, first.as_slice()) {
            Ok(v) => v,
            Err(error) => return Err(error),
        };
        let mut tr: Self = Self { period, value, last_close: data[1].close(), buffer };
        assert(tr@ == tr_model(period, data@.subrange(0, 2))) by {
            assert(tr.buffer@ =~= seq![value]);
        }

        // Calculate the remainder of TRs.
        let mut i: usize = 2;
        while i < data.len()
            invariant
                2 <= i <= data.len(),
                tr.wf(),
                tr@.period == period,
                tr@ == tr_model(period, data@.subrange(0, i as int)),
            decreases data.len() - i,
        {
            proof {
                lemma_tr_step(period, data@.subrange(0, i as int), data[i as int]);
                assert(data@.subrange(0, i as int).push(data[i as int]) =~= data@.subrange(
                    0,
                    i + 1,
                ));
            }
            tr.next(&data[i]);
            i = i + 1;
        }
        assert(data@.subrange(0, i as int) =~= data@);
        Ok(tr)
    }

    /// Period (window) for the samples.
    pub fn period(&self) -> (r: usize)
        ensures
            r == self@.period,
    {
        self.period
    }

    /// Current and most recent value calculated.
    pub fn value(&self) -> (r: Num)
        ensures
            r == self@.value,
    {
        self.value
    }

    /// Calculates a new TR, requiring a prior close.
    fn calculate<T>(value: &T, last_close: Num) -> (r: Num) where T: High + Low + Close
        ensures
            r == true_range(value.high_spec(), value.low_spec(), last_close),
    {
        let hl: Num = fx_abs(fx_sub(value.high(), value.low()));
        let hc: Num = fx_abs(fx_sub(value.high(), last_close));
        let lc: Num = fx_abs(fx_sub(value.low(), last_close));
        fx_max(hl, fx_max(hc, lc))
    }
}

impl Period for TrueRange {
    open spec fn period_spec(&self) -> usize {
        self@.period
    }

    /// Period (window) for the samples.
    fn period(&self) -> (r: usize)
        ensures
            r == self.period_spec(),
    {
        self.period
    }
}

impl Value for TrueRange {
    open spec fn value_spec(&self) -> Num {
        self@.value
    }

    /// Current and most recent value calculated.
    fn value(&self) -> (r: Num)
        ensures
            r == self.value_spec(),
    {
        self.value
    }
}

impl<T> Next<&T> for TrueRange where T: High + Low + Close {
    /// Next value for the TR.
    type Output = Num;

    open spec fn steady(&self) -> bool {
        self.wf()
    }

    open spec fn follows(&self, value: &T, after: Self, out: Num) -> bool {
        &&& after@ == tr_step(self@, value.high_spec(), value.low_spec(), value.close_spec())
        &&& out == after@.value
    }

    /// Supply an additional value to recalculate a new TR.
    ///
    /// # Arguments
    ///
    /// * `value` - New value to add to period.
    fn next(&mut self, value: &T) -> (out: Num)
        ensures
            final(self)@ == tr_step(
                old(self)@,
                value.high_spec(),
                value.low_spec(),
                value.close_spec(),
            ),
            out == final(self)@.value,
    {
        self.value = Self::calculate(value, self.last_close);
        self.last_close = value.close();

        // Rotate the buffer.
        self.buffer.shift(self.value);
        self.value
    }
}

impl Next<(Num, Num, Num)> for TrueRange {
    /// Next value for the TR.
    type Output = Num;

    open spec fn steady(&self) -> bool {
        self.wf()
    }

    open spec fn follows(&self, value: (Num, Num, Num), after: Self, out: Num) -> bool {
        after@ == tr_step(self@, value.0, value.1, value.2) && out == after@.value
    }

    /// Supply an additional value to recalculate a new TR.
    ///
    /// # Arguments
    ///
    /// * `value` - New value to add to period.
    ///     * 0 = High
    ///     * 1 = Low
    ///     * 2 = Close
    fn next(&mut self, value: (Num, Num, Num)) -> (out: Num)
        ensures
            final(self)@ == tr_step(old(self)@, value.0, value.1, value.2),
            out == final(self)@.value,
    {
        let v: TrueRangeData = TrueRangeData(value.0, value.1, value.2);
        <Self as Next<&TrueRangeData>>::next(self, &v)
    }
}

impl Stats for TrueRange {
    closed spec fn history(&self) -> Buffer {
        self.buffer
    }

    /// Obtains the total sum of the buffer for TR.
    fn sum(&self) -> (r: Num)
        ensures
            r == clamp(self.history().sum_spec()),
    {
        self.buffer.sum()
    }

    /// Mean for the period of the TR.
    fn mean(&self) -> (r: Num)
        ensures
            r == self.history().mean_spec(),
    {
        self.buffer.mean()
    }

    /// Current variance for the period.
    fn variance(&self, is_sample: bool) -> (r: Num)
        ensures
            r == self.history().variance_spec(is_sample),
    {
        self.buffer.variance(is_sample)
    }

    /// Current standard deviation for the period.
    fn stdev(&self, is_sample: bool) -> (r: Num)
        ensures
            r == self.history().stdev_spec(is_sample),
    {
        self.buffer.stdev(is_sample)
    }
}

} // verus!
