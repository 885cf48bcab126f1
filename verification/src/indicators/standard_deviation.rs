//! Standard Deviation (SD/STDEV)
//!
//! Measure of the amount of variation or dispersion between values. The lower the standard
//! deviation, the closer to the mean.
//!
//! # Formula
//!
//! SD = √( ∑\[(x - μ)^2\] / N )
//!
//! where:
//!
//! * `x` is the current value in a set.
//! * `μ` is the mean of the set.
//! * `∑` is the sum.
//! * `N` is the size of a population, or one less than the size of a sample.
use crate::buffer::{lemma_tail_push, stdev_of, tail, Buffer};
use crate::error::TAError;
use crate::fixed::Num;
use crate::traits::{AsValue, Next, Period, Value};
use vstd::prelude::*;

verus! {

/// What a standard deviation is at a moment: the window of the latest
/// samples and their standard deviation, as a sample or as a population.
pub struct StdevModel {
    pub period: usize,
    pub value: Num,
    pub window: Seq<Num>,
    pub is_sample: bool,
}

/// The standard deviation of `period` over all of `data`: that of the last
/// `period` samples.
pub open spec fn stdev_model(period: usize, data: Seq<Num>, is_sample: bool) -> StdevModel {
    StdevModel {
        period,
        value: stdev_of(tail(data, period as int), is_sample) as Num,
        window: tail(data, period as int),
        is_sample,
    }
}

/// The standard deviation one sample after `m`.
pub open spec fn stdev_step(m: StdevModel, x: Num) -> StdevModel {
    StdevModel {
        period: m.period,
        value: stdev_of(tail(m.window.push(x), m.period as int), m.is_sample) as Num,
        window: tail(m.window.push(x), m.period as int),
        is_sample: m.is_sample,
    }
}

/// Feeding one more sample to a standard deviation gives the standard
/// deviation that is built from all the samples at once.
pub proof fn lemma_stdev_step(period: usize, data: Seq<Num>, is_sample: bool, x: Num)
    requires
        period > 0,
        data.len() >= period,
    ensures
        stdev_model(period, data.push(x), is_sample) == stdev_step(
            stdev_model(period, data, is_sample),
            x,
        ),
{
    lemma_tail_push(data, period as int, x);
}

/// What `m` becomes when it is fed the samples of `xs`, one by one.
pub open spec fn stdev_fed(m: StdevModel, xs: Seq<Num>) -> StdevModel
    decreases xs.len(),
{
    if xs.len() == 0 {
        m
    } else {
        stdev_step(stdev_fed(m, xs.drop_last()), xs.last())
    }
}

/// Seeding a standard deviation with the first samples and feeding it the rest one by
/// one gives what is built from all the samples at once.
pub proof fn lemma_stdev_seed_then_feed(
    period: usize,
    is_sample: bool,
    head: Seq<Num>,
    rest: Seq<Num>,
)
    requires
        period > 0,
        head.len() >= period,
    ensures
        stdev_fed(stdev_model(period, head, is_sample), rest) == stdev_model(
            period,
            head + rest,
            is_sample,
        ),
    decreases rest.len(),
{
    if rest.len() == 0 {
        assert(head + rest =~= head);
    } else {
        lemma_stdev_seed_then_feed(period, is_sample, head, rest.drop_last());
        lemma_stdev_step(period, head + rest.drop_last(), is_sample, rest.last());
        assert((head + rest.drop_last()).push(rest.last()) =~= head + rest);
    }
}

/// Standard Deviation (SD/STDEV)
///
/// Measure of the amount of variation or dispersion between values. The lower the standard
/// deviation, the closer to the mean.
///
/// # Formula
///
/// SD = √( ∑\[(x - μ)^2\] / N )
///
/// where:
///
/// * `x` is the current value in a set.
/// * `μ` is the mean of the set.
/// * `∑` is the sum.
/// * `N` is the size of a population, or one less than the size of a sample.
#[derive(Debug)]
pub struct StandardDeviation {
    /// Size of the period (window) in which data is looked at.
    period: usize,
    /// STDEV's current value.
    value: Num,
    /// Holds all of the current period's values.
    buffer: Buffer,
    /// Labels it as sample or population.
    is_sample: bool,
}

/// The short name of the [`StandardDeviation`].
pub type STDEV = StandardDeviation;

impl View for StandardDeviation {
    type V = StdevModel;

    closed spec fn view(&self) -> StdevModel {
        StdevModel {
            period: self.period,
            value: self.value,
            window: self.buffer@,
            is_sample: self.is_sample,
        }
    }
}

impl StandardDeviation {
    /// The window of samples.
    pub closed spec fn samples(&self) -> Buffer {
        self.buffer
    }

    /// What holds of every standard deviation that a constructor returned:
    /// the window of its samples is steady.
    pub open spec fn wf(&self) -> bool {
        &&& self.samples().wf()
        &&& self.samples()@ == self@.window
        &&& self.samples().capacity_spec() == self@.period
    }

    /// Creates a new standard deviation with the supplied period and initial data.
    ///
    /// ### Requirements:
    ///
    /// * Period must be greater than 0, and greater than 1 for a sample: one
    ///   value alone has no sample standard deviation.
    /// * Data must have at least `period` elements.
    ///
    /// # Arguments
    ///
    /// * `period` - Size of the period / window used.
    /// * `data` - Array of values to create the STDEV from.
    /// * `is_sample` - If the data is a Sample or Population, default should be True.
    pub fn new(period: usize, data: &[Num], is_sample: bool) -> (r: Result<Self, TAError>)
        ensures
            period < 1 || (is_sample && period == 1) <==> r matches Err(TAError::InvalidSize(_)),
            !(period < 1 || (is_sample && period == 1)) && data@.len() < period <==> r matches Err(
                TAError::InvalidData(_),
            ),
            !(period < 1 || (is_sample && period == 1)) && data@.len() >= period <==> r is Ok,
            r matches Ok(s) ==> s.wf() && s@.period == period && s@ == stdev_model(
                period,
                data@,
                is_sample,
            ),
    {
        // Check we can calculate Standard Deviation.
        if period < 1 {
            return Err(TAError::size("period cannot be less than 1 to calculate standard deviation"));
        } else if is_sample && period == 1 {
            return Err(
                TAError::size("period cannot be less than 2 to calculate a sample standard deviation"),
            );
        } else if data.len() < period {
            // Make sure we have enough data.
            return Err(TAError::data("not enough data for period provided"));
        }

        // Build the buffer from the data provided.
        let buffer: Buffer = match Buffer::from_array(period, data) {
            Ok(value) => value,
            Err(error) => return Err(error),
        };
        Ok(Self { period, value: buffer.stdev(is_sample), buffer, is_sample })
    }

    /// Period (window) for the samples.
    pub fn period(&self) -> (r: usize)
        ensures
            r == self@.period,
    {
        self.period
    }

    /// Current and most recent value calculated.
    pub fn value(&self) -> (r: Num)
        ensures
            r == self@.value,
    {
        self.value
    }

    /// Indicates either sample or population being used.
    pub fn is_sample(&self) -> (r: bool)
        ensures
            r == self@.is_sample,
    {
        self.is_sample
    }
}

impl Period for StandardDeviation {
    open spec fn period_spec(&self) -> usize {
        self@.period
    }

    /// Period (window) for the samples.
    fn period(&self) -> (r: usize)
        ensures
            r == self.period_spec(),
    {
        self.period
    }
}

impl Value for StandardDeviation {
    open spec fn value_spec(&self) -> Num {
        self@.value
    }

    /// Current and most recent value calculated.
    fn value(&self) -> (r: Num)
        ensures
            r == self.value_spec(),
    {
        self.value
    }
}

impl Next<Num> for StandardDeviation {
    /// Value for the next STDEV.
    type Output = Num;

    open spec fn steady(&self) -> bool {
        self.wf()
    }

    open spec fn follows(&self, value: Num, after: Self, out: Num) -> bool {
        after@ == stdev_step(self@, value) && out == after@.value
    }

    /// Supply an additional value to recalculate a new standard deviation.
    ///
    /// # Arguments
    ///
    /// * `value` - New value to add to period.
    fn next(&mut self, value: Num) -> (out: Num)
        ensures
            final(self)@ == stdev_step(old(self)@, value),
            out == final(self)@.value,
    {
        // Rotate the buffer.
        self.buffer.shift(value);

        // Calculate the new STDEV.
        self.value = self.buffer.stdev(self.is_sample);
        self.value
    }
}

impl<T: AsValue> Next<T> for StandardDeviation {
    /// Value for the next STDEV.
    type Output = Num;

    open spec fn steady(&self) -> bool {
        self.wf()
    }

    open spec fn follows(&self, value: T, after: Self, out: Num) -> bool {
        after@ == stdev_step(self@, value.as_value_spec()) && out == after@.value
    }

    /// Supply an additional value to recalculate a new STDEV.
    ///
    /// # Arguments
    ///
    /// * `value` - New value to add to period.
    fn next(&mut self, value: T) -> (out: Num)
        ensures
            final(self)@ == stdev_step(old(self)@, value.as_value_spec()),
            out == final(self)@.value,
    {
        let x: Num = value.as_value();
        <Self as Next<Num>>::next(self, x)
    }
}

} // verus!
