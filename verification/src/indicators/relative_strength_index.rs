//! Relative Strength Index (RSI)
//!
//! # Formula
//!
//! RSI = 100 - [100 / (1 + (x / y))]
//!
//! where:
//!
//! * `x` = Average gain over period.
//! * `y` = Average loss over period.
//!
//! The first averages are the plain means of the gains and of the losses
//! over the first `period` changes. After them each average is smoothed:
//! `(average * (period - 1) + latest) / period`.
use crate::buffer::{tail, Buffer};
use crate::error::TAError;
use crate::fixed::{clamp, 
    fx_abs, fx_add, fx_div, fx_smooth, fx_sub, sat_abs, sat_add, sat_div, sat_smooth, sat_sub,
    Num, SCALE,
};
use crate::traits::{AsValue, Next, Period, Stats, Value};
use vstd::arithmetic::div_mod::{lemma_div_is_ordered, lemma_div_is_ordered_by_denominator};
use vstd::prelude::*;

verus! {

/// The quantity one hundred.
pub const HUNDRED: Num = 100_000_000;

/// The oversold threshold of a new index: twenty.
pub const OVERSOLD: Num = 20_000_000;

/// The overbought threshold of a new index: eighty.
pub const OVERBOUGHT: Num = 80_000_000;

/// What a relative strength index is at a moment.
pub struct RsiModel {
    pub period: usize,
    pub value: Num,
    /// Average gain.
    pub gain_avg: Num,
    /// Average loss, as a magnitude.
    pub loss_avg: Num,
    /// Last sample processed.
    pub last: Num,
    pub oversold: Num,
    pub overbought: Num,
    /// The latest values of the index, oldest first.
    pub window: Seq<Num>,
}

/// The gain in a step from `last` to `x`: the rise, or zero.
pub open spec fn gain_of(last: Num, x: Num) -> Num {
    if sat_sub(x as int, last as int) > 0 {
        sat_sub(x as int, last as int) as Num
    } else {
        0
    }
}

/// The loss in a step from `last` to `x`: the size of the fall, or zero.
pub open spec fn loss_of(last: Num, x: Num) -> Num {
    if sat_sub(x as int, last as int) > 0 {
        0
    } else {
        sat_abs(sat_sub(x as int, last as int)) as Num
    }
}

/// The gains of all the steps in `data`, added up.
pub open spec fn gain_sum(data: Seq<Num>) -> Num
    decreases data.len(),
{
    if data.len() <= 1 {
        0
    } else {
        sat_add(
            gain_sum(data.drop_last()) as int,
            gain_of(data[data.len() - 2], data.last()) as int,
        ) as Num
    }
}

/// The losses of all the steps in `data`, added up.
pub open spec fn loss_sum(data: Seq<Num>) -> Num
    decreases data.len(),
{
    if data.len() <= 1 {
        0
    } else {
        sat_add(
            loss_sum(data.drop_last()) as int,
            loss_of(data[data.len() - 2], data.last()) as int,
        ) as Num
    }
}

/// The index for an average gain and an average loss. Where there is no
/// loss the index is one hundred.
pub open spec fn rsi_value(gain_avg: Num, loss_avg: Num) -> Num {
    if loss_avg == 0 {
        HUNDRED
    } else {
        sat_sub(
            HUNDRED as int,
            sat_div(
                HUNDRED as int,
                sat_add(SCALE as int, sat_div(gain_avg as int, loss_avg as int)),
            ),
        ) as Num
    }
}

/// The index lies between zero and one hundred.
pub proof fn lemma_rsi_value_range(gain_avg: Num, loss_avg: Num)
    requires
        gain_avg >= 0,
        loss_avg >= 0,
    ensures
        0 <= rsi_value(gain_avg, loss_avg) <= HUNDRED,
{
    if loss_avg > 0 {
        let strength = sat_div(gain_avg as int, loss_avg as int);
        assert(gain_avg * SCALE >= 0) by (nonlinear_arith)
            requires
                gain_avg >= 0,
                SCALE == 1_000_000,
        ;
        lemma_div_is_ordered(0, gain_avg * SCALE, loss_avg as int);
        assert(strength >= 0);
        let whole = sat_add(SCALE as int, strength);
        assert(whole >= SCALE);
        let n = HUNDRED * SCALE;
        lemma_div_is_ordered(0, n, whole);
        lemma_div_is_ordered_by_denominator(n, SCALE as int, whole);
        assert(n / (SCALE as int) == HUNDRED);
    }
}

/// The index that `period + 1` samples seed: the averages are the means of
/// the gains and of the losses over the `period` steps between them.
pub open spec fn rsi_seed(period: usize, data: Seq<Num>) -> RsiModel {
    let gain_avg = sat_smooth(0, gain_sum(data) as int, period as int) as Num;
    let loss_avg = sat_smooth(0, loss_sum(data) as int, period as int) as Num;
    RsiModel {
        period,
        value: rsi_value(gain_avg, loss_avg),
        gain_avg,
        loss_avg,
        last: data.last(),
        oversold: OVERSOLD,
        overbought: OVERBOUGHT,
        window: seq![rsi_value(gain_avg, loss_avg)],
    }
}

/// The index one sample after `m`.
pub open spec fn rsi_step(m: RsiModel, x: Num) -> RsiModel {
    let gain_avg = sat_smooth(m.gain_avg as int, gain_of(m.last, x) as int, m.period as int) as Num;
    let loss_avg = sat_smooth(m.loss_avg as int, loss_of(m.last, x) as int, m.period as int) as Num;
    RsiModel {
        period: m.period,
        value: rsi_value(gain_avg, loss_avg),
        gain_avg,
        loss_avg,
        last: x,
        oversold: m.oversold,
        overbought: m.overbought,
        window: tail(m.window.push(rsi_value(gain_avg, loss_avg)), m.period as int),
    }
}

/// The relative strength index of `period` over all of `data`: seeded by the
/// first `period + 1` samples and moved by each sample after them.
pub open spec fn rsi_model(period: usize, data: Seq<Num>) -> RsiModel
    decreases data.len(),
{
    if data.len() <= period + 1 {
        rsi_seed(period, data)
    } else {
        rsi_step(rsi_model(period, data.drop_last()), data.last())
    }
}

/// Feeding one more sample to an index gives the index that is built from
/// all the samples at once.
pub proof fn lemma_rsi_step(period: usize, data: Seq<Num>, x: Num)
    requires
        data.len() >= period + 1,
    ensures
        rsi_model(period, data.push(x)) == rsi_step(rsi_model(period, data), x),
{
    assert(data.push(x).drop_last() =~= data);
}

/// What `m` becomes when it is fed the samples of `xs`, one by one.
pub open spec fn rsi_fed(m: RsiModel, xs: Seq<Num>) -> RsiModel
    decreases xs.len(),
{
    if xs.len() == 0 {
        m
    } else {
        rsi_step(rsi_fed(m, xs.drop_last()), xs.last())
    }
}

/// Seeding an index with the first samples and feeding it the rest one by one
/// gives what is built from all the samples at once.
pub proof fn lemma_rsi_seed_then_feed(period: usize, head: Seq<Num>, rest: Seq<Num>)
    requires
        head.len() >= period + 1,
    ensures
        rsi_fed(rsi_model(period, head), rest) == rsi_model(period, head + rest),
    decreases rest.len(),
{
    if rest.len() == 0 {
        assert(head + rest =~= head);
    } else {
        lemma_rsi_seed_then_feed(period, head, rest.drop_last());
        lemma_rsi_step(period, head + rest.drop_last(), rest.last());
        assert((head + rest.drop_last()).push(rest.last()) =~= head + rest);
    }
}

/// Relative Strength Index (RSI)
///
/// # Formula
///
/// RSI = 100 - [100 / (1 + (x / y))]
///
/// where:
///
/// * `x` = Average gain over period.
/// * `y` = Average loss over period.
#[derive(Debug)]
pub struct RelativeStrengthIndex {
    /// Size of the period (window) in which data is looked at.
    period: usize,
    /// RSI's current value.
    value: Num,
    /// Average gain.
    gain_avg: Num,
    /// Average loss.
    loss_avg: Num,
    /// Last value processed.
    last_data_value: Num,
    /// Oversold threshold.
    oversold: Num,
    /// Overbought threshold.
    overbought: Num,
    /// Holds `period` amount of generated RSIs.
    buffer: Buffer,
}

/// The short name of the [`RelativeStrengthIndex`].
pub type RSI = RelativeStrengthIndex;

impl View for RelativeStrengthIndex {
    type V = RsiModel;

    closed spec fn view(&self) -> RsiModel {
        RsiModel {
            period: self.period,
            value: self.value,
            gain_avg: self.gain_avg,
            loss_avg: self.loss_avg,
            last: self.last_data_value,
            oversold: self.oversold,
            overbought: self.overbought,
            window: self.buffer@,
        }
    }
}

impl RelativeStrengthIndex {
    /// What holds of every index that a constructor returned: the window of
    /// its values is the one that the statistics are taken over.
    pub open spec fn wf(&self) -> bool {
        &&& self.history().wf()
        &&& self.history()@ == self@.window
        &&& self.history().capacity_spec() == self@.period
    }

    /// Creates a new RSI with the supplied period and initial data.
    ///
    /// ### Requirements:
    ///
    /// * Data must have at least `period + 1` elements.
    /// * Period must be greater than 0.
    ///
    /// # Arguments
    ///
    /// * `period` - Size of the period / window used.
    /// * `data` - Array of values to create the RSI from.
    pub fn new(period: usize, data: &[Num]) -> (r: Result<Self, TAError>)
        ensures
            data@.len() < period + 1 <==> r matches Err(TAError::InvalidData(_)),
            data@.len() >= period + 1 && period == 0 <==> r matches Err(TAError::InvalidSize(_)),
            data@.len() >= period + 1 && period > 0 <==> r is Ok,
            r matches Ok(s) ==> s.wf() && s@.period == period && s@ == rsi_model(period, data@),
    {
        if data.len() <= period {
            return Err(TAError::data("not enough data for period"));
        } else if period == 0 {
            return Err(TAError::size("period cannot be 0"));
        }
        let mut gains: Num = 0;
        let mut losses: Num = 0;
        let mut last: Num = data[0];

        // Generates the gains / losses for the first period of values. All
        // gains / losses of the first period make up the seed value.
        let mut i: usize = 1;
        while i <= period
            invariant
                1 <= i <= period + 1,
                period < data.len(),
                last == data[i - 1],
                gains == gain_sum(data@.subrange(0, i as int)),
                losses == loss_sum(data@.subrange(0, i as int)),
            decreases period + 1 - i,
        {
            let change: Num = fx_sub(data[i], last);
            last = data[i];
            if change > 0 {
                gains = fx_add(gains, change);
            } else {
                losses = fx_add(losses, fx_abs(change));
            }
            assert(data@.subrange(0, i + 1).drop_last() =~= data@.subrange(0, i as int));
            i = i + 1;
        }
        let gain_avg: Num = fx_smooth(0, gains, period);
        let loss_avg: Num = fx_smooth(0, losses, period);
        let value: Num = Self::calculate(gain_avg, loss_avg);

        // Buffer will hold processed RSIs.
        let first: [Num; 1] = [value];
        let buffer: Buffer = match Buffer::from_array(period, first.as_slice()) {
            Ok(v) => v,
            Err(error) => return Err(error),
        };
        let mut rsi: Self = Self {
            period,
            value,
            gain_avg,
            loss_avg,
            last_data_value: last,
            oversold: OVERSOLD,
            overbought: OVERBOUGHT,
            buffer,
        };
        assert(rsi@ == rsi_model(period, data@.subrange(0, period + 1))) by {
            assert(rsi.buffer@ =~= seq![value]);
        }

        // Calculate remaining values. This smooths the averages by each next
        // value, where the seed took plain means.
        while i < data.len()
            invariant
                period + 1 <= i <= data.len(),
                rsi.wf(),
                rsi@.period == period,
                rsi@ == rsi_model(period, data@.subrange(0, i as int)),
            decreases data.len() - i,
        {
            proof {
                lemma_rsi_step(period, data@.subrange(0, i as int), data[i as int]);
                assert(data@.subrange(0, i as int).push(data[i as int]) =~= data@.subrange(
                    0,
                    i + 1,
                ));
            }
            rsi.next(data[i]);
            i = i + 1;
        }
        assert(data@.subrange(0, i as int) =~= data@);
        Ok(rsi)
    }

    /// Period (window) for the samples.
    pub fn period(&self) -> (r: usize)
        ensures
            r == self@.period,
    {
        self.period
    }

    /// Current and most recent value calculated.
    pub fn value(&self) -> (r: Num)
        ensures
            r == self@.value,
    {
        self.value
    }

    /// Changes the Oversold Threshold from the default (20)
    pub fn set_oversold(&mut self, oversold_value: Num)
        ensures
            final(self)@ == (RsiModel { oversold: oversold_value, ..old(self)@ }),
            old(self).wf() ==> final(self).wf(),
    {
        self.oversold = oversold_value;
    }

    /// Changes the Overbought Threshold from the default (80)
    pub fn set_overbought(&mut self, overbought_value: Num)
        ensures
            final(self)@ == (RsiModel { overbought: overbought_value, ..old(self)@ }),
            old(self).wf() ==> final(self).wf(),
    {
        self.overbought = overbought_value;
    }

    /// Checks if the RSI is currently within the oversold threshold (default 20)
    pub fn is_oversold(&self) -> (r: bool)
        ensures
            r == (self@.value < self@.oversold),
    {
        self.value < self.oversold
    }

    /// Checks if the RSI is currently within the overbought threshold (default 80)
    pub fn is_overbought(&self) -> (r: bool)
        ensures
            r == (self@.value > self@.overbought),
    {
        self.value > self.overbought
    }

    /// Calculates the RSI for an average gain and an average loss.
    ///
    /// # Arguments
    ///
    /// * `gain_avg` - Average gain (>= 0).
    /// * `loss_avg` - Average loss (>= 0).
    pub fn calculate(gain_avg: Num, loss_avg: Num) -> (r: Num)
        ensures
            r == rsi_value(gain_avg, loss_avg),
    {
        if loss_avg == 0 {
            HUNDRED
        } else {
            fx_sub(HUNDRED, fx_div(HUNDRED, fx_add(SCALE, fx_div(gain_avg, loss_avg))))
        }
    }
}

impl Period for RelativeStrengthIndex {
    open spec fn period_spec(&self) -> usize {
        self@.period
    }

    /// Period (window) for the samples.
    fn period(&self) -> (r: usize)
        ensures
            r == self.period_spec(),
    {
        self.period
    }
}

impl Value for RelativeStrengthIndex {
    open spec fn value_spec(&self) -> Num {
        self@.value
    }

    /// Current and most recent value calculated.
    fn value(&self) -> (r: Num)
        ensures
            r == self.value_spec(),
    {
        self.value
    }
}

impl Next<Num> for RelativeStrengthIndex {
    /// Next value for the RSI.
    type Output = Num;

    open spec fn steady(&self) -> bool {
        self.wf()
    }

    open spec fn follows(&self, value: Num, after: Self, out: Num) -> bool {
        after@ == rsi_step(self@, value) && out == after@.value
    }

    /// Supply an additional value to recalculate a new RSI.
    ///
    /// # Arguments
    ///
    /// * `value` - New value to add to period.
    fn next(&mut self, value: Num) -> (out: Num)
        ensures
            final(self)@ == rsi_step(old(self)@, value),
            out == final(self)@.value,
    {
        let mut gain: Num = 0;
        let mut loss: Num = 0;
        let change: Num = fx_sub(value, self.last_data_value);

        if change > 0 {
            gain = change;
        } else {
            loss = fx_abs(change);
        }

        // Calculate the new RSI.
        self.last_data_value = value;
        self.gain_avg = fx_smooth(self.gain_avg, gain, self.period);
        self.loss_avg = fx_smooth(self.loss_avg, loss, self.period);
        self.value = Self::calculate(self.gain_avg, self.loss_avg);
        self.buffer.shift(self.value);
        self.value
    }
}

impl<T: AsValue> Next<T> for RelativeStrengthIndex {
    /// Next value for the RSI.
    type Output = Num;

    open spec fn steady(&self) -> bool {
        self.wf()
    }

    open spec fn follows(&self, value: T, after: Self, out: Num) -> bool {
        after@ == rsi_step(self@, value.as_value_spec()) && out == after@.value
    }

    /// Supply an additional value to recalculate a new RSI.
    ///
    /// # Arguments
    ///
    /// * `value` - New value to add to period.
    fn next(&mut self, value: T) -> (out: Num)
        ensures
            final(self)@ == rsi_step(old(self)@, value.as_value_spec()),
            out == final(self)@.value,
    {
        let x: Num = value.as_value();
        <Self as Next<Num>>::next(self, x)
    }
}

impl Stats for RelativeStrengthIndex {
    closed spec fn history(&self) -> Buffer {
        self.buffer
    }

    /// Obtains the total sum of the buffer for RSI.
    fn sum(&self) -> (r: Num)
        ensures
            r == clamp(self.history().sum_spec()),
    {
        self.buffer.sum()
    }

    /// Mean for the period of the RSI.
    fn mean(&self) -> (r: Num)
        ensures
            r == self.history().mean_spec(),
    {
        self.buffer.mean()
    }

    /// Current variance for the period.
    fn variance(&self, is_sample: bool) -> (r: Num)
        ensures
            r == self.history().variance_spec(is_sample),
    {
        self.buffer.variance(is_sample)
    }

    /// Current standard deviation for the period.
    fn stdev(&self, is_sample: bool) -> (r: Num)
        ensures
            r == self.history().stdev_spec(is_sample),
    {
        self.buffer.stdev(is_sample)
    }
}

} // verus!
