//! McGinley Dynamic (MD)
//!
//! # Formula
//!
//! MD = MD_prev + \[ (x - MD_prev) / (k * n * (x / MD_prev) ^ 4) \]
//!
//! where:
//!
//! * `x` = current close (most recent)
//! * `k` = modifies the period, normally 0.6
//! * `n` = period
use crate::buffer::{tail, Buffer};
use crate::error::TAError;
use crate::fixed::{clamp, 
    fx_add, fx_count, fx_div, fx_mul, fx_sub, sat_add, sat_count, sat_div, sat_mul, sat_sub, Num,
};
use crate::traits::{AsValue, Next, Period, Stats, Value};
use vstd::prelude::*;

verus! {

/// What a McGinley Dynamic is at a moment: its period, the constant that
/// modifies the period, its value, and the window of the latest values,
/// oldest first.
pub struct MdModel {
    pub period: usize,
    pub k: Num,
    pub value: Num,
    pub window: Seq<Num>,
}

/// The fourth power, taken as the square of the square.
pub open spec fn fourth_power(r: int) -> int {
    sat_mul(sat_mul(r, r), sat_mul(r, r))
}

/// The value after a sample `x`, where the value before it was `last_md`:
/// `last_md + (x - last_md) / (k * period * (x / last_md) ^ 4)`. Where
/// `last_md` is zero the quotients saturate.
pub open spec fn md_value(k: Num, last_md: Num, x: Num, period: usize) -> Num {
    sat_add(
        last_md as int,
        sat_div(
            sat_sub(x as int, last_md as int),
            sat_mul(
                sat_mul(k as int, sat_count(period as int)),
                fourth_power(sat_div(x as int, last_md as int)),
            ),
        ),
    ) as Num
}

/// The indicator one sample after `m`.
pub open spec fn md_step(m: MdModel, x: Num) -> MdModel {
    MdModel {
        period: m.period,
        k: m.k,
        value: md_value(m.k, m.value, x, m.period),
        window: tail(m.window.push(md_value(m.k, m.value, x, m.period)), m.period as int),
    }
}

/// The McGinley Dynamic of `period` and `k` over all of `data`: it starts
/// at the first sample and is moved by each sample after it.
pub open spec fn md_model(period: usize, k: Num, data: Seq<Num>) -> MdModel
    decreases data.len(),
{
    if data.len() <= 1 {
        MdModel { period, k, value: data[0], window: seq![data[0]] }
    } else {
        md_step(md_model(period, k, data.drop_last()), data.last())
    }
}

/// Feeding one more sample to the indicator gives the indicator that is
/// built from all the samples at once.
pub proof fn lemma_md_step(period: usize, k: Num, data: Seq<Num>, x: Num)
    requires
        data.len() >= 1,
    ensures
        md_model(period, k, data.push(x)) == md_step(md_model(period, k, data), x),
{
    assert(data.push(x).drop_last() =~= data);
}

/// What `m` becomes when it is fed the samples of `xs`, one by one.
pub open spec fn md_fed(m: MdModel, xs: Seq<Num>) -> MdModel
    decreases xs.len(),
{
    if xs.len() == 0 {
        m
    } else {
        md_step(md_fed(m, xs.drop_last()), xs.last())
    }
}

/// Seeding an indicator with the first samples and feeding it the rest one by one
/// gives what is built from all the samples at once.
pub proof fn lemma_md_seed_then_feed(period: usize, k: Num, head: Seq<Num>, rest: Seq<Num>)
    requires
        head.len() >= 1,
    ensures
        md_fed(md_model(period, k, head), rest) == md_model(period, k, head + rest),
    decreases rest.len(),
{
    if rest.len() == 0 {
        assert(head + rest =~= head);
    } else {
        lemma_md_seed_then_feed(period, k, head, rest.drop_last());
        lemma_md_step(period, k, head + rest.drop_last(), rest.last());
        assert((head + rest.drop_last()).push(rest.last()) =~= head + rest);
    }
}

/// McGinley Dynamic (MD)
///
/// # Formula
///
/// MD = MD_prev + \[ (x - MD_prev) / (k * n * (x / MD_prev) ^ 4) \]
///
/// where:
///
/// * `x` = current close (most recent)
/// * `k` = modifies the period, normally 0.6
/// * `n` = period
#[derive(Debug)]
pub struct McGinleyDynamic {
    /// Size of the period (window) in which data is looked at.
    period: usize,
    /// Constant for period modification.
    k: Num,
    /// MD's current value.
    value: Num,
    /// Holds `period` amount of generated MDs.
    buffer: Buffer,
}

/// The short name of the [`McGinleyDynamic`].
pub type MD = McGinleyDynamic;

impl View for McGinleyDynamic {
    type V = MdModel;

    closed spec fn view(&self) -> MdModel {
        MdModel { period: self.period, k: self.k, value: self.value, window: self.buffer@ }
    }
}

impl McGinleyDynamic {
    /// What holds of every indicator that a constructor returned: the window
    /// of its values is the one that the statistics are taken over.
    pub open spec fn wf(&self) -> bool {
        &&& self.history().wf()
        &&& self.history()@ == self@.window
        &&& self.history().capacity_spec() == self@.period
    }

    /// Creates a new McGinley Dynamic with the supplied period and initial data.
    ///
    /// ### Requirements:
    ///
    /// * Period must be greater than 1.
    /// * Data must have at least `period + 1` elements.
    ///
    /// ## Arguments
    ///
    /// * `period` - Size of the period / window used.
    /// * `data` - Array of values to create the MD from.
    /// * `k` - Constant used to modify selected period. Default: 0.6
    pub fn new(period: usize, data: &[Num], k: Num) -> (r: Result<Self, TAError>)
        ensures
            period < 2 <==> r matches Err(TAError::InvalidSize(_)),
            period >= 2 && data@.len() < period + 1 <==> r matches Err(TAError::InvalidData(_)),
            period >= 2 && data@.len() >= period + 1 <==> r is Ok,
            r matches Ok(s) ==> s.wf() && s@.period == period && s@ == md_model(period, k, data@),
    {
        // Check we can calculate McGinley Dynamic Indicator.
        if period < 2 {
            return Err(
                TAError::size("period cannot be less than 2 to calculate McGinley dynamic"),
            );
        } else if data.len() <= period {
            // Make sure we have enough data.
            return Err(TAError::data("not enough data for period provided"));
        }

        // First MD value.
        let first: [Num; 1] = [data[0]];

        // Buffer will hold last `period` MDs.
        let buffer: Buffer = match Buffer::from_array(period, first.as_slice()) {
            Ok(v) => v,
            Err(error) => return Err(error),
        };
        let mut md: Self = Self { period, k, value: data[0], buffer };
        assert(md@ == md_model(period, k, data@.subrange(0, 1))) by {
            assert(md.buffer@ =~= seq![data@[0]]);
        }

        // Calculate the remainder of the data set.
        let mut i: usize = 1;
        while i < data.len()
            invariant
                1 <= i <= data.len(),
                md.wf(),
                md@.period == period,
                md@ == md_model(period, k, data@.subrange(0, i as int)),
            decreases data.len() - i,
        {
            proof {
                lemma_md_step(period, k, data@.subrange(0, i as int), data[i as int]);
                assert(data@.subrange(0, i as int).push(data[i as int]) =~= data@.subrange(
                    0,
                    i + 1,
                ));
            }
            md.next(data[i]);
            i = i + 1;
        }
        assert(data@.subrange(0, i as int) =~= data@);
        Ok(md)
    }

    /// Period (window) for the samples.
    pub fn period(&self) -> (r: usize)
        ensures
            r == self@.period,
    {
        self.period
    }

    /// Current and most recent value calculated.
    pub fn value(&self) -> (r: Num)
        ensures
            r == self@.value,
    {
        self.value
    }

    /// Calculates an MD with newly provided data and the last MD.
    ///
    /// # Arguments
    ///
    /// * `k` - Used to modify the period.
    /// * `last_md` - Last MD calculated.
    /// * `value` - Most recent value.
    /// * `period` - Size of the period / window used.
    fn calculate(k: Num, last_md: Num, value: Num, period: usize) -> (r: Num)
        ensures
            r == md_value(k, last_md, value, period),
    {
        let numerator: Num = fx_sub(value, last_md);
        let ratio: Num = fx_div(value, last_md);
        let square: Num = fx_mul(ratio, ratio);
        let denominator: Num = fx_mul(fx_mul(k, fx_count(period)), fx_mul(square, square));
        fx_add(last_md, fx_div(numerator, denominator))
    }
}

impl Period for McGinleyDynamic {
    open spec fn period_spec(&self) -> usize {
        self@.period
    }

    /// Period (window) for the samples.
    fn period(&self) -> (r: usize)
        ensures
            r == self.period_spec(),
    {
        self.period
    }
}

impl Value for McGinleyDynamic {
    open spec fn value_spec(&self) -> Num {
        self@.value
    }

    /// Current and most recent value calculated.
    fn value(&self) -> (r: Num)
        ensures
            r == self.value_spec(),
    {
        self.value
    }
}

impl Next<Num> for McGinleyDynamic {
    /// Next value for the McGinley Dynamic.
    type Output = Num;

    open spec fn steady(&self) -> bool {
        self.wf()
    }

    open spec fn follows(&self, value: Num, after: Self, out: Num) -> bool {
        after@ == md_step(self@, value) && out == after@.value
    }

    /// Supply an additional value to recalculate a new McGinley Dynamic.
    ///
    /// # Arguments
    ///
    /// * `value` - New value to add to period.
    fn next(&mut self, value: Num) -> (out: Num)
        ensures
            final(self)@ == md_step(old(self)@, value),
            out == final(self)@.value,
    {
        self.value = Self::calculate(self.k, self.value, value, self.period);

        // Rotate the buffer.
        self.buffer.shift(self.value);
        self.value
    }
}

impl<T: AsValue> Next<T> for McGinleyDynamic {
    /// Next value for the McGinley Dynamic.
    type Output = Num;

    open spec fn steady(&self) -> bool {
        self.wf()
    }

    open spec fn follows(&self, value: T, after: Self, out: Num) -> bool {
        after@ == md_step(self@, value.as_value_spec()) && out == after@.value
    }

    /// Supply an additional value to recalculate a new McGinley Dynamic.
    ///
    /// # Arguments
    ///
    /// * `value` - New value to add to period.
    fn next(&mut self, value: T) -> (out: Num)
        ensures
            final(self)@ == md_step(old(self)@, value.as_value_spec()),
            out == final(self)@.value,
    {
        let x: Num = value.as_value();
        <Self as Next<Num>>::next(self, x)
    }
}

impl Stats for McGinleyDynamic {
    closed spec fn history(&self) -> Buffer {
        self.buffer
    }

    /// Obtains the total sum of the buffer for MD.
    fn sum(&self) -> (r: Num)
        ensures
            r == clamp(self.history().sum_spec()),
    {
        self.buffer.sum()
    }

    /// Mean for the period of the MD.
    fn mean(&self) -> (r: Num)
        ensures
            r == self.history().mean_spec(),
    {
        self.buffer.mean()
    }

    /// Current variance for the period.
    fn variance(&self, is_sample: bool) -> (r: Num)
        ensures
            r == self.history().variance_spec(is_sample),
    {
        self.buffer.variance(is_sample)
    }

    /// Current standard deviation for the period.
    fn stdev(&self, is_sample: bool) -> (r: Num)
        ensures
            r == self.history().stdev_spec(is_sample),
    {
        self.buffer.stdev(is_sample)
    }
}

} // verus!
