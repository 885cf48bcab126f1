//! Linear Regression (LineReg), creates a best fit line.
//!
//! Creates a line that best fits a period of data using the least squares approach.
use crate::buffer::{sq_dev, sq_dev_sum, tail, total, Buffer};
use crate::error::TAError;
use crate::fixed::{
    clamp, fx_add, fx_count, fx_div, fx_mul, fx_sub, narrow, sat_add, sat_count, sat_div,
    sat_mul, sat_sub, Num, SCALE,
};
use crate::traits::{AsValue, Next, Period, Stats, Value};
use vstd::prelude::*;

verus! {

/// What a linear regression is at a moment: the window of the latest
/// samples, the line that fits them best, the value of that line at the
/// latest sample, and the window of the latest such values.
pub struct LineRegModel {
    pub period: usize,
    pub value: Num,
    /// The latest samples, oldest first.
    pub values: Seq<Num>,
    /// The latest values of the indicator, oldest first.
    pub window: Seq<Num>,
    pub sum_x: Num,
    pub sum_x_sq: Num,
    pub intercept: Num,
    pub slope: Num,
}

/// The sum of the positions `1..=period`, as a fixed-point value.
pub open spec fn sum_x_of(period: usize) -> Num {
    sat_count(period * (period + 1) / 2) as Num
}

/// The sum of the squares of the positions `1..=period`, as a fixed-point value.
pub open spec fn sum_x_sq_of(period: usize) -> Num {
    sat_count(period * (period + 1) * (2 * period + 1) / 6) as Num
}

/// The sum of the products of each sample with its position, the first
/// sample standing at position one.
pub open spec fn sum_xy(values: Seq<Num>) -> Num
    decreases values.len(),
{
    if values.len() == 0 {
        0
    } else {
        sat_add(
            sum_xy(values.drop_last()) as int,
            sat_mul(sat_count(values.len() as int), values.last() as int),
        ) as Num
    }
}

/// The slope of the least-squares line through the samples:
/// `(n * Σxy - Σx * Σy) / (n * Σx² - Σx * Σx)`.
pub open spec fn slope_of(period: usize, values: Seq<Num>, sum_x: Num, sum_x_sq: Num) -> Num {
    let n = sat_count(period as int);
    let sum_y = clamp(total(values));
    sat_div(
        sat_sub(sat_mul(n, sum_xy(values) as int), sat_mul(sum_x as int, sum_y)),
        sat_sub(sat_mul(n, sum_x_sq as int), sat_mul(sum_x as int, sum_x as int)),
    ) as Num
}

/// The intercept of the least-squares line through the samples:
/// `(Σy - slope * Σx) / n`.
pub open spec fn intercept_of(period: usize, values: Seq<Num>, sum_x: Num, slope: Num) -> Num {
    let n = sat_count(period as int);
    let sum_y = clamp(total(values));
    sat_div(sat_sub(sum_y, sat_mul(slope as int, sum_x as int)), n) as Num
}

/// The value of the line at position `x`.
pub open spec fn line_at(intercept: Num, slope: Num, x: int) -> Num {
    sat_add(intercept as int, sat_mul(slope as int, sat_count(x))) as Num
}

/// The sum of the squared distances of the samples from the line, the first
/// sample standing at position one.
pub open spec fn residual_sum(values: Seq<Num>, intercept: Num, slope: Num) -> Num
    decreases values.len(),
{
    if values.len() == 0 {
        0
    } else {
        sat_add(
            residual_sum(values.drop_last(), intercept, slope) as int,
            sq_dev(
                values.last() as int,
                line_at(intercept, slope, values.len() as int) as int,
            ),
        ) as Num
    }
}

/// The share of the variance of the samples that the line explains:
/// one less the residual sum of squares over the total sum of squares.
pub open spec fn r_sq_of(values: Seq<Num>, mean: int, intercept: Num, slope: Num) -> Num {
    sat_sub(
        SCALE as int,
        sat_div(residual_sum(values, intercept, slope) as int, sq_dev_sum(values, mean)),
    ) as Num
}

/// The regression whose window of samples is `values`, with the window
/// `window` of its earlier values.
pub open spec fn linreg_fit(period: usize, values: Seq<Num>, window: Seq<Num>) -> LineRegModel {
    let sum_x = sum_x_of(period);
    let sum_x_sq = sum_x_sq_of(period);
    let slope = slope_of(period, values, sum_x, sum_x_sq);
    let intercept = intercept_of(period, values, sum_x, slope);
    let value = line_at(intercept, slope, period as int);
    LineRegModel {
        period,
        value,
        values,
        window: tail(window.push(value), period as int),
        sum_x,
        sum_x_sq,
        intercept,
        slope,
    }
}

/// The regression one sample after `m`.
pub open spec fn linreg_step(m: LineRegModel, x: Num) -> LineRegModel {
    linreg_fit(m.period, tail(m.values.push(x), m.period as int), m.window)
}

/// The linear regression of `period` over all of `data`: seeded by the
/// first `period` samples and moved by each sample after them.
pub open spec fn linreg_model(period: usize, data: Seq<Num>) -> LineRegModel
    decreases data.len(),
{
    if data.len() <= period {
        linreg_fit(period, data, Seq::empty())
    } else {
        linreg_step(linreg_model(period, data.drop_last()), data.last())
    }
}

/// Feeding one more sample to a regression gives the regression that is
/// built from all the samples at once.
pub proof fn lemma_linreg_step(period: usize, data: Seq<Num>, x: Num)
    requires
        data.len() >= period,
    ensures
        linreg_model(period, data.push(x)) == linreg_step(linreg_model(period, data), x),
{
    assert(data.push(x).drop_last() =~= data);
}

/// The line of a regression is fitted to the last `period` samples.
pub proof fn lemma_linreg_values(period: usize, data: Seq<Num>)
    requires
        period >= 1,
        data.len() >= period,
    ensures
        linreg_model(period, data).values == tail(data, period as int),
        linreg_model(period, data).period == period,
        linreg_model(period, data).slope == slope_of(
            period,
            tail(data, period as int),
            sum_x_of(period),
            sum_x_sq_of(period),
        ),
    decreases data.len(),
{
    if data.len() > period {
        lemma_linreg_values(period, data.drop_last());
        assert(tail(tail(data.drop_last(), period as int).push(data.last()), period as int)
            =~= tail(data, period as int));
    }
}

/// What `m` becomes when it is fed the samples of `xs`, one by one.
pub open spec fn linreg_fed(m: LineRegModel, xs: Seq<Num>) -> LineRegModel
    decreases xs.len(),
{
    if xs.len() == 0 {
        m
    } else {
        linreg_step(linreg_fed(m, xs.drop_last()), xs.last())
    }
}

/// Seeding a regression with the first samples and feeding it the rest one by one
/// gives what is built from all the samples at once.
pub proof fn lemma_linreg_seed_then_feed(period: usize, head: Seq<Num>, rest: Seq<Num>)
    requires
        head.len() >= period,
    ensures
        linreg_fed(linreg_model(period, head), rest) == linreg_model(period, head + rest),
    decreases rest.len(),
{
    if rest.len() == 0 {
        assert(head + rest =~= head);
    } else {
        lemma_linreg_seed_then_feed(period, head, rest.drop_last());
        lemma_linreg_step(period, head + rest.drop_last(), rest.last());
        assert((head + rest.drop_last()).push(rest.last()) =~= head + rest);
    }
}

/// Linear Regression (LineReg), creates a best fit line.
///
/// Creates a line that best fits a period of data using the least squares approach.
#[derive(Debug)]
pub struct LinearRegression {
    /// Size of the period (window) in which data is looked at.
    period: usize,
    /// LineReg's current value.
    value: Num,
    /// Holds all of the current period's samples.
    values: Buffer,
    /// Holds `period` amount of generated values.
    buffer: Buffer,
    /// Sum of the X.
    sum_x: Num,
    /// Sum of the X, squared.
    sum_x_sq: Num,
    /// Intercept of the line.
    intercept: Num,
    /// Slope of the line.
    slope: Num,
}

/// The short name of the [`LinearRegression`].
pub type LineReg = LinearRegression;

impl View for LinearRegression {
    type V = LineRegModel;

    closed spec fn view(&self) -> LineRegModel {
        LineRegModel {
            period: self.period,
            value: self.value,
            values: self.values@,
            window: self.buffer@,
            sum_x: self.sum_x,
            sum_x_sq: self.sum_x_sq,
            intercept: self.intercept,
            slope: self.slope,
        }
    }
}

/// The sum of the positions `1..=period`, as a fixed-point value.
fn sum_x(period: usize) -> (r: Num)
    ensures
        r == sum_x_of(period),
{
    if period as u128 >= 0x1_0000_0000 {
        assert(period * (period + 1) >= 0x1_0000_0000 * 0x1_0000_0000) by (nonlinear_arith)
            requires
                period >= 0x1_0000_0000,
        ;
        assert((period * (period + 1) / 2) * SCALE >= 0x7fff_ffff_ffff_ffff) by (nonlinear_arith)
            requires
                period * (period + 1) / 2 >= 0x8000_0000_0000_0000,
                SCALE == 1_000_000,
        ;
        i64::MAX
    } else {
        let p: i128 = period as i128;
        assert(0 <= p * (p + 1) <= 0x1_0000_0000 * 0x1_0000_0000) by (nonlinear_arith)
            requires
                0 <= p < 0x1_0000_0000,
        ;
        let half: i128 = p * (p + 1) / 2;
        narrow(half * SCALE as i128)
    }
}

/// The sum of the squares of the positions `1..=period`, as a fixed-point value.
fn sum_x_sq(period: usize) -> (r: Num)
    ensures
        r == sum_x_sq_of(period),
{
    if period as u128 >= 0x20_0000 {
        assert(period * (period + 1) * (2 * period + 1) >= 6 * 0x1800_0000_0000_0000)
            by (nonlinear_arith)
            requires
                period >= 0x20_0000,
        ;
        assert((period * (period + 1) * (2 * period + 1) / 6) * SCALE >= 0x7fff_ffff_ffff_ffff)
            by (nonlinear_arith)
            requires
                period * (period + 1) * (2 * period + 1) / 6 >= 0x1800_0000_0000_0000,
                SCALE == 1_000_000,
        ;
        i64::MAX
    } else {
        let p: i128 = period as i128;
        assert(0 <= p * (p + 1) <= 0x20_0000 * 0x20_0000) by (nonlinear_arith)
            requires
                0 <= p < 0x20_0000,
        ;
        let pairs: i128 = p * (p + 1);
        assert(0 <= pairs * (2 * p + 1) <= 0x20_0000 * 0x20_0000 * 0x40_0000) by (nonlinear_arith)
            requires
                0 <= pairs <= 0x20_0000 * 0x20_0000,
                0 <= p < 0x20_0000,
        ;
        let sixth: i128 = pairs * (2 * p + 1) / 6;
        narrow(sixth * SCALE as i128)
    }
}

impl LinearRegression {
    /// The window of samples that the line is fitted to.
    pub closed spec fn samples(&self) -> Buffer {
        self.values
    }

    /// What holds of every regression that a constructor returned: the
    /// window of its samples is full, and the window of its values is the
    /// one that the statistics are taken over.
    pub open spec fn wf(&self) -> bool {
        &&& self.samples().wf()
        &&& self.samples()@ == self@.values
        &&& self.samples().capacity_spec() == self@.period
        &&& self.history().wf()
        &&& self.history()@ == self@.window
        &&& self.history().capacity_spec() == self@.period
        &&& self@.sum_x == sum_x_of(self@.period)
        &&& self@.sum_x_sq == sum_x_sq_of(self@.period)
    }

    /// Creates a new LineReg with the supplied period and initial data.
    ///
    /// ### Requirements:
    ///
    /// * Data must have at least `period` elements.
    /// * Period must be greater than 1.
    ///
    /// # Arguments
    ///
    /// * `period` - Size of the period / window used.
    /// * `data` - Array of values to create the LineReg from.
    pub fn new(period: usize, data: &[Num]) -> (r: Result<Self, TAError>)
        ensures
            data@.len() < period <==> r matches Err(TAError::InvalidData(_)),
            data@.len() >= period && period < 2 <==> r matches Err(TAError::InvalidSize(_)),
            data@.len() >= period && period >= 2 <==> r is Ok,
            r matches Ok(s) ==> s.wf() && s@.period == period && s@ == linreg_model(period, data@),
    {
        // Make sure we have enough data.
        if data.len() < period {
            return Err(TAError::data("not enough data for period provided"));
        } else if period < 2 {
            return Err(TAError::size("period must be 2 or more"));
        }

        // Constants
        let sum_x: Num = sum_x(period);
        let sum_x_sq: Num = sum_x_sq(period);

        // Build the buffer containing the `period` of y values.
        let values: Buffer = match Buffer::from_array(period, &data[0..period]) {
            Ok(value) => value,
            Err(error) => return Err(error),
        };

        // Calculate the first value to seed the buffer.
        let (intercept, slope) = Self::calculate(period, &values, sum_x, sum_x_sq);
        let value: Num = fx_add(intercept, fx_mul(slope, fx_count(period)));

        // Build the buffer to hold old best fit values.
        let first: [Num; 1] = [value];
        let buffer: Buffer = match Buffer::from_array(period, first.as_slice()) {
            Ok(value) => value,
            Err(error) => return Err(error),
        };
        let mut line: Self = Self {
            period,
            value,
            values,
            buffer,
            sum_x,
            sum_x_sq,
            intercept,
            slope,
        };
        assert(line@ == linreg_model(period, data@.subrange(0, period as int))) by {
            assert(line.buffer@ =~= tail(Seq::<Num>::empty().push(value), period as int));
            assert(line.values@ =~= data@.subrange(0, period as int));
        }

        // Calculate the remaining best fit values.
        let mut i: usize = period;
        while i < data.len()
            invariant
                period <= i <= data.len(),
                line.wf(),
                line@.period == period,
                line@ == linreg_model(period, data@.subrange(0, i as int)),
            decreases data.len() - i,
        {
            proof {
                lemma_linreg_step(period, data@.subrange(0, i as int), data[i as int]);
                assert(data@.subrange(0, i as int).push(data[i as int]) =~= data@.subrange(
                    0,
                    i + 1,
                ));
            }
            line.next(data[i]);
            i = i + 1;
        }
        assert(data@.subrange(0, i as int) =~= data@);
        Ok(line)
    }

    /// Calculates the intercept and slope for the line.
    ///
    /// # Arguments
    ///
    /// * `period` - Size of the period / window used.
    /// * `values` - Last `period` of values to fit a line to.
    /// * `sum_x` - Constant used, represents the sum of the time portion.
    /// * `sum_x_sq` - Constant used, represents the sum of the squares of the time portion.
    fn calculate(period: usize, values: &Buffer, sum_x: Num, sum_x_sq: Num) -> (r: (Num, Num))
        requires
            values.wf(),
        ensures
            r.1 == slope_of(period, values@, sum_x, sum_x_sq),
            r.0 == intercept_of(period, values@, sum_x, r.1),
    {
        let sum_y: Num = values.sum();
        let queue: &[Num] = values.queue();
        let mut sum_xy_acc: Num = 0;
        let mut i: usize = 0;
        while i < queue.len()
            invariant
                0 <= i <= queue.len(),
                sum_xy_acc == sum_xy(queue@.subrange(0, i as int)),
            decreases queue.len() - i,
        {
            sum_xy_acc = fx_add(sum_xy_acc, fx_mul(fx_count(i + 1), queue[i]));
            assert(queue@.subrange(0, i + 1).drop_last() =~= queue@.subrange(0, i as int));
            i = i + 1;
        }
        assert(queue@.subrange(0, i as int) =~= queue@);

        // Calculate intercept and slope.
        let n: Num = fx_count(period);
        let slope: Num = fx_div(
            fx_sub(fx_mul(n, sum_xy_acc), fx_mul(sum_x, sum_y)),
            fx_sub(fx_mul(n, sum_x_sq), fx_mul(sum_x, sum_x)),
        );
        let intercept: Num = fx_div(fx_sub(sum_y, fx_mul(slope, sum_x)), n);
        (intercept, slope)
    }

    /// Period (window) for the samples.
    pub fn period(&self) -> (r: usize)
        ensures
            r == self@.period,
    {
        self.period
    }

    /// Current and most recent value calculated.
    pub fn value(&self) -> (r: Num)
        ensures
            r == self@.value,
    {
        self.value
    }

    /// Predicted value of the dependent variable when all independent variables are set to zero.
    pub fn intercept(&self) -> (r: Num)
        ensures
            r == self@.intercept,
    {
        self.intercept
    }

    /// Coefficient associated with the independent variable.
    pub fn slope(&self) -> (r: Num)
        ensures
            r == self@.slope,
    {
        self.slope
    }

    /// Share of the variance in the dependent variable that the independent
    /// variable explains.
    pub fn r_sq(&self) -> (r: Num)
        ensures
            r == r_sq_of(
                self@.values,
                self.samples().mean_spec(),
                self@.intercept,
                self@.slope,
            ),
    {
        let mean_y: Num = self.values.mean();
        let queue: &[Num] = self.values.queue();

        // Sum of Squares Total (sst) and Sum of Squares Residual (ssr).
        let mut sst: Num = 0;
        let mut ssr: Num = 0;
        let mut i: usize = 0;
        while i < queue.len()
            invariant
                0 <= i <= queue.len(),
                sst == sq_dev_sum(queue@.subrange(0, i as int), mean_y as int),
                ssr == residual_sum(queue@.subrange(0, i as int), self.intercept, self.slope),
            decreases queue.len() - i,
        {
            let predicted: Num = fx_add(self.intercept, fx_mul(self.slope, fx_count(i + 1)));
            let from_mean: Num = fx_sub(queue[i], mean_y);
            let from_line: Num = fx_sub(queue[i], predicted);
            sst = fx_add(sst, fx_mul(from_mean, from_mean));
            ssr = fx_add(ssr, fx_mul(from_line, from_line));
            assert(queue@.subrange(0, i + 1).drop_last() =~= queue@.subrange(0, i as int));
            i = i + 1;
        }
        assert(queue@.subrange(0, i as int) =~= queue@);
        fx_sub(SCALE, fx_div(ssr, sst))
    }

    /// Gets the standard deviation for the current line.
    /// - ±1 stdev, 68%
    /// - ±2 stdev, 95%
    /// - ±3 stdev, 99.7%
    pub fn line_stdev(&self) -> (r: Num)
        ensures
            r == self.samples().stdev_spec(true),
    {
        self.values.stdev(true)
    }

    /// Predicts (forecasts) a future value `distance` away from the current.
    ///
    /// # Arguments
    ///
    /// * `distance` - How far in the future to predict.
    pub fn forecast(&self, distance: usize) -> (r: Num)
        ensures
            r == line_at(self@.intercept, self@.slope, self@.period + distance),
    {
        let x: i128 = self.period as i128 + distance as i128;
        assert(0 <= x * SCALE <= 0x2_0000_0000_0000_0000 * 1_000_000) by (nonlinear_arith)
            requires
                0 <= x <= 0x2_0000_0000_0000_0000,
                SCALE == 1_000_000,
        ;
        fx_add(self.intercept, fx_mul(self.slope, narrow(x * SCALE as i128)))
    }
}

impl Period for LinearRegression {
    open spec fn period_spec(&self) -> usize {
        self@.period
    }

    /// Period (window) for the samples.
    fn period(&self) -> (r: usize)
        ensures
            r == self.period_spec(),
    {
        self.period
    }
}

impl Value for LinearRegression {
    open spec fn value_spec(&self) -> Num {
        self@.value
    }

    /// Current and most recent value calculated.
    fn value(&self) -> (r: Num)
        ensures
            r == self.value_spec(),
    {
        self.value
    }
}

impl Next<Num> for LinearRegression {
    /// Next Value for the LineReg.
    type Output = Num;

    open spec fn steady(&self) -> bool {
        self.wf()
    }

    open spec fn follows(&self, value: Num, after: Self, out: Num) -> bool {
        after@ == linreg_step(self@, value) && out == after@.value
    }

    /// Supply an additional value to recalculate a new LineReg.
    ///
    /// # Arguments
    ///
    /// * `value` - New value to add to period.
    fn next(&mut self, value: Num) -> (out: Num)
        ensures
            final(self)@ == linreg_step(old(self)@, value),
            out == final(self)@.value,
    {
        // Rotate the buffer.
        self.values.shift(value);

        // Get the intercept and slope.
        let (intercept, slope) = Self::calculate(
            self.period,
            &self.values,
            self.sum_x,
            self.sum_x_sq,
        );
        self.intercept = intercept;
        self.slope = slope;

        // Calculate the current value.
        self.value = fx_add(self.intercept, fx_mul(self.slope, fx_count(self.period)));
        self.buffer.shift(self.value);

        self.value
    }
}

impl<T: AsValue> Next<T> for LinearRegression {
    /// Next Value for the LineReg.
    type Output = Num;

    open spec fn steady(&self) -> bool {
        self.wf()
    }

    open spec fn follows(&self, value: T, after: Self, out: Num) -> bool {
        after@ == linreg_step(self@, value.as_value_spec()) && out == after@.value
    }

    /// Supply an additional value to recalculate a new LineReg.
    ///
    /// # Arguments
    ///
    /// * `value` - New value to add to period.
    fn next(&mut self, value: T) -> (out: Num)
        ensures
            final(self)@ == linreg_step(old(self)@, value.as_value_spec()),
            out == final(self)@.value,
    {
        let x: Num = value.as_value();
        <Self as Next<Num>>::next(self, x)
    }
}

impl Stats for LinearRegression {
    closed spec fn history(&self) -> Buffer {
        self.buffer
    }

    /// Obtains the total sum of the buffer for LineReg.
    fn sum(&self) -> (r: Num)
        ensures
            r == clamp(self.history().sum_spec()),
    {
        self.buffer.sum()
    }

    /// Mean for the period of the LineReg.
    fn mean(&self) -> (r: Num)
        ensures
            r == self.history().mean_spec(),
    {
        self.buffer.mean()
    }

    /// Current variance for the period.
    fn variance(&self, is_sample: bool) -> (r: Num)
        ensures
            r == self.history().variance_spec(is_sample),
    {
        self.buffer.variance(is_sample)
    }

    /// Current standard deviation for the period.
    fn stdev(&self, is_sample: bool) -> (r: Num)
        ensures
            r == self.history().stdev_spec(is_sample),
    {
        self.buffer.stdev(is_sample)
    }
}

} // verus!
