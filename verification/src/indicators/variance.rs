//! Variance (Var(X))
//!
//! Measure of dispersion between values.
//!
//! # Formula
//!
//! Var(X) = ∑\[(x - μ)^2\] / N
//!
//! where:
//!
//! * `x` is the current value in a set.
//! * `μ` is the mean of the set.
//! * `∑` is the sum.
//! * `N` is the size of a population, or one less than the size of a sample.
use crate::buffer::{lemma_tail_push, tail, variance_of, Buffer};
use crate::error::TAError;
use crate::fixed::Num;
use crate::traits::{AsValue, Next, Period, Value};
use vstd::prelude::*;

verus! {

/// What a variance is at a moment: the window of the latest samples and
/// their variance, as a sample or as a population.
pub struct VarianceModel {
    pub period: usize,
    pub value: Num,
    pub window: Seq<Num>,
    pub is_sample: bool,
}

/// The variance of `period` over all of `data`: that of the last `period`
/// samples.
pub open spec fn variance_model(period: usize, data: Seq<Num>, is_sample: bool) -> VarianceModel {
    VarianceModel {
        period,
        value: variance_of(tail(data, period as int), is_sample) as Num,
        window: tail(data, period as int),
        is_sample,
    }
}

/// The variance one sample after `m`.
pub open spec fn variance_step(m: VarianceModel, x: Num) -> VarianceModel {
    VarianceModel {
        period: m.period,
        value: variance_of(tail(m.window.push(x), m.period as int), m.is_sample) as Num,
        window: tail(m.window.push(x), m.period as int),
        is_sample: m.is_sample,
    }
}

/// Feeding one more sample to a variance gives the variance that is built
/// from all the samples at once.
pub proof fn lemma_variance_step(period: usize, data: Seq<Num>, is_sample: bool, x: Num)
    requires
        period > 0,
        data.len() >= period,
    ensures
        variance_model(period, data.push(x), is_sample) == variance_step(
            variance_model(period, data, is_sample),
            x,
        ),
{
    lemma_tail_push(data, period as int, x);
}

/// What `m` becomes when it is fed the samples of `xs`, one by one.
pub open spec fn variance_fed(m: VarianceModel, xs: Seq<Num>) -> VarianceModel
    decreases xs.len(),
{
    if xs.len() == 0 {
        m
    } else {
        variance_step(variance_fed(m, xs.drop_last()), xs.last())
    }
}

/// Seeding a variance with the first samples and feeding it the rest one by
/// one gives what is built from all the samples at once.
pub proof fn lemma_variance_seed_then_feed(
    period: usize,
    is_sample: bool,
    head: Seq<Num>,
    rest: Seq<Num>,
)
    requires
        period > 0,
        head.len() >= period,
    ensures
        variance_fed(variance_model(period, head, is_sample), rest) == variance_model(
            period,
            head + rest,
            is_sample,
        ),
    decreases rest.len(),
{
    if rest.len() == 0 {
        assert(head + rest =~= head);
    } else {
        lemma_variance_seed_then_feed(period, is_sample, head, rest.drop_last());
        lemma_variance_step(period, head + rest.drop_last(), is_sample, rest.last());
        assert((head + rest.drop_last()).push(rest.last()) =~= head + rest);
    }
}

/// Variance (Var(X))
///
/// Measure of dispersion between values.
///
/// # Formula
///
/// Var(X) = ∑\[(x - μ)^2\] / N
///
/// where:
///
/// * `x` is the current value in a set.
/// * `μ` is the mean of the set.
/// * `∑` is the sum.
/// * `N` is the size of a population, or one less than the size of a sample.
#[derive(Debug)]
pub struct Variance {
    /// Size of the period (window) in which data is looked at.
    period: usize,
    /// Var(X)'s current value.
    value: Num,
    /// Holds all of the current period's values.
    buffer: Buffer,
    /// Labels it as sample or population.
    is_sample: bool,
}

impl View for Variance {
    type V = VarianceModel;

    closed spec fn view(&self) -> VarianceModel {
        VarianceModel {
            period: self.period,
            value: self.value,
            window: self.buffer@,
            is_sample: self.is_sample,
        }
    }
}

impl Variance {
    /// The window of samples.
    pub closed spec fn samples(&self) -> Buffer {
        self.buffer
    }

    /// What holds of every variance that a constructor returned: the window
    /// of its samples is steady.
    pub open spec fn wf(&self) -> bool {
        &&& self.samples().wf()
        &&& self.samples()@ == self@.window
        &&& self.samples().capacity_spec() == self@.period
    }

    /// Creates a new Var(X) with the supplied period and initial data.
    ///
    /// ### Requirements:
    ///
    /// * Period must be greater than 0, and greater than 1 for a sample: one
    ///   value alone has no sample variance.
    /// * Data must have at least `period` elements.
    ///
    /// # Arguments
    ///
    /// * `period` - Size of the period / window used.
    /// * `data` - Array of values to create the Var(X) from.
    /// * `is_sample` - If the data is a Sample or Population, default should be True.
    pub fn new(period: usize, data: &[Num], is_sample: bool) -> (r: Result<Self, TAError>)
        ensures
            period < 1 || (is_sample && period == 1) <==> r matches Err(TAError::InvalidSize(_)),
            !(period < 1 || (is_sample && period == 1)) && data@.len() < period <==> r matches Err(
                TAError::InvalidData(_),
            ),
            !(period < 1 || (is_sample && period == 1)) && data@.len() >= period <==> r is Ok,
            r matches Ok(s) ==> s.wf() && s@.period == period && s@ == variance_model(
                period,
                data@,
                is_sample,
            ),
    {
        // Check we can calculate Variance.
        if period < 1 {
            return Err(TAError::size("period cannot be less than 1 to calculate variance"));
        } else if is_sample && period == 1 {
            return Err(
                TAError::size("period cannot be less than 2 to calculate a sample variance"),
            );
        } else if data.len() < period {
            // Make sure we have enough data.
            return Err(TAError::data("not enough data for period provided"));
        }

        // Build the buffer from the data provided.
        let buffer: Buffer = match Buffer::from_array(period, data) {
            Ok(value) => value,
            Err(error) => return Err(error),
        };
        Ok(Self { period, value: buffer.variance(is_sample), buffer, is_sample })
    }

    /// Period (window) for the samples.
    pub fn period(&self) -> (r: usize)
        ensures
            r == self@.period,
    {
        self.period
    }

    /// Indicates either sample or population being used.
    pub fn is_sample(&self) -> (r: bool)
        ensures
            r == self@.is_sample,
    {
        self.is_sample
    }
}

impl Period for Variance {
    open spec fn period_spec(&self) -> usize {
        self@.period
    }

    /// Period (window) for the samples.
    fn period(&self) -> (r: usize)
        ensures
            r == self.period_spec(),
    {
        self.period
    }
}

impl Value for Variance {
    open spec fn value_spec(&self) -> Num {
        self@.value
    }

    /// Current and most recent value calculated.
    fn value(&self) -> (r: Num)
        ensures
            r == self.value_spec(),
    {
        self.value
    }
}

impl Next<Num> for Variance {
    /// Value for the next Variance.
    type Output = Num;

    open spec fn steady(&self) -> bool {
        self.wf()
    }

    open spec fn follows(&self, value: Num, after: Self, out: Num) -> bool {
        after@ == variance_step(self@, value) && out == after@.value
    }

    /// Supply an additional value to recalculate a new Var(X).
    ///
    /// # Arguments
    ///
    /// * `value` - New value to add to period.
    fn next(&mut self, value: Num) -> (out: Num)
        ensures
            final(self)@ == variance_step(old(self)@, value),
            out == final(self)@.value,
    {
        // Rotate the buffer.
        self.buffer.shift(value);

        // Calculate the new Var(X).
        self.value = self.buffer.variance(self.is_sample);
        self.value
    }
}

impl<T: AsValue> Next<T> for Variance {
    /// Value for the next Variance.
    type Output = Num;

    open spec fn steady(&self) -> bool {
        self.wf()
    }

    open spec fn follows(&self, value: T, after: Self, out: Num) -> bool {
        after@ == variance_step(self@, value.as_value_spec()) && out == after@.value
    }

    /// Supply an additional value to recalculate a new Variance.
    ///
    /// # Arguments
    ///
    /// * `value` - New value to add to period.
    fn next(&mut self, value: T) -> (out: Num)
        ensures
            final(self)@ == variance_step(old(self)@, value.as_value_spec()),
            out == final(self)@.value,
    {
        let x: Num = value.as_value();
        <Self as Next<Num>>::next(self, x)
    }
}

} // verus!
