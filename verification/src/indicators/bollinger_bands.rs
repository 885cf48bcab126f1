//! Bollinger Bands (BB / BBands)
//!
//! # Formula
//!
//! BBands_lower = SMA - (σ * d)
//!
//! BBands_upper = SMA + (σ * d)
//!
//! where:
//!
//! * `SMA` is the moving average of a period.
//! * `σ` is the standard deviation of the period.
//! * `d` is the distance from the SMA to calculate.
use super::simple_moving_average::{
    lemma_sma_seed_then_feed, lemma_sma_step, sma_fed, sma_model, sma_step, SimpleMovingAverage,
    SmaModel,
};
use crate::buffer::stdev_of;
use crate::error::TAError;
use crate::fixed::{fx_abs, fx_add, fx_mul, fx_sub, sat_abs, sat_add, sat_mul, sat_sub, Num};
use crate::traits::{Next, Period, Stats, Value};
use vstd::prelude::*;

verus! {

/// The lower band: the line's value less `distance` standard deviations.
pub open spec fn band_lower(value: Num, stdev: int, distance: Num) -> Num {
    sat_sub(value as int, sat_mul(stdev, distance as int)) as Num
}

/// The upper band: the line's value and `distance` standard deviations.
pub open spec fn band_upper(value: Num, stdev: int, distance: Num) -> Num {
    sat_add(value as int, sat_mul(stdev, distance as int)) as Num
}

/// What a pair of bands is at a moment: the line in the middle, the distance
/// of the bands from it in standard deviations, and the two bands.
pub struct BandsModel<L> {
    pub period: usize,
    pub line: L,
    pub distance: Num,
    pub lower: Num,
    pub upper: Num,
}

/// Whether the bands of `m` are those that lie about its line.
pub open spec fn bands_about_line<L: Value + Period + Stats>(m: BandsModel<L>) -> bool {
    &&& m.lower == band_lower(m.line.value_spec(), m.line.history().stdev_spec(true), m.distance)
    &&& m.upper == band_upper(m.line.value_spec(), m.line.history().stdev_spec(true), m.distance)
}

/// The bands about a simple moving average, as a function of its state.
pub open spec fn sma_bands(m: SmaModel, distance: Num) -> (Num, Num) {
    (
        band_lower(m.value, stdev_of(m.window, true), distance),
        band_upper(m.value, stdev_of(m.window, true), distance),
    )
}

/// The bands that one more sample leads to are the bands about the average
/// that is built from all the samples at once.
pub proof fn lemma_sma_bands_step(period: usize, data: Seq<Num>, x: Num, distance: Num)
    requires
        period > 0,
        data.len() >= period,
    ensures
        sma_bands(sma_model(period, data.push(x)), distance) == sma_bands(
            sma_step(sma_model(period, data), x),
            distance,
        ),
{
    lemma_sma_step(period, data, x);
}

/// The bands about an average that was seeded with the first samples and
/// fed the rest one by one are the bands about the average that is built
/// from all the samples at once.
pub proof fn lemma_sma_bands_seed_then_feed(
    period: usize,
    head: Seq<Num>,
    rest: Seq<Num>,
    distance: Num,
)
    requires
        period > 0,
        head.len() >= period,
    ensures
        sma_bands(sma_fed(sma_model(period, head), rest), distance) == sma_bands(
            sma_model(period, head + rest),
            distance,
        ),
{
    lemma_sma_seed_then_feed(period, head, rest);
}

/// Bollinger Bands (BBands): a line and the two bands that lie a number of
/// standard deviations below and above it.
///
/// # Formula
///
/// BBands_lower = SMA - (σ * d)
///
/// BBands_upper = SMA + (σ * d)
///
/// where:
///
/// * `SMA` is the moving average of a period.
/// * `σ` is the standard deviation of the period.
/// * `d` is the distance from the SMA to calculate.
#[derive(Debug)]
pub struct BollingerBands<L> where L: Value + Period + Stats {
    /// Size of the period (window) in which data is looked at.
    period: usize,
    /// Line in the middle of the bands.
    line: L,
    /// Distance the Standard Deviation must be for the lower and upper bands.
    distance: Num,
    /// Lower bound for the Bollinger Bands.
    lower: Num,
    /// Upper bound for the Bollinger Bands.
    upper: Num,
}

/// The short name of the [`BollingerBands`].
pub type BBands<L> = BollingerBands<L>;

impl<L: Value + Period + Stats> View for BollingerBands<L> {
    type V = BandsModel<L>;

    closed spec fn view(&self) -> BandsModel<L> {
        BandsModel {
            period: self.period,
            line: self.line,
            distance: self.distance,
            lower: self.lower,
            upper: self.upper,
        }
    }
}

impl BollingerBands<SimpleMovingAverage> {
    /// Creates a new Bollinger Band with the supplied period and initial data.
    ///
    /// ### Requirements:
    ///
    /// * Period must be greater than 0.
    /// * Data must have at least `period` elements.
    ///
    /// ## Arguments
    ///
    /// * `period` - Size of the period / window used.
    /// * `data` - Array of values to create the BBands from.
    /// * `distance` - Distance the bands (in standard deviations) from the SMA. default 2.0
    pub fn new(period: usize, data: &[Num], distance: Num) -> (r: Result<Self, TAError>)
        ensures
            period < 1 <==> r matches Err(TAError::InvalidSize(_)),
            period >= 1 && data@.len() < period <==> r matches Err(TAError::InvalidData(_)),
            period >= 1 && data@.len() >= period <==> r is Ok,
            r matches Ok(b) ==> {
                &&& b@.period == period
                &&& b@.line.wf()
                &&& b@.line@ == sma_model(period, data@)
                &&& b@.distance == sat_abs(distance as int)
                &&& (b@.lower, b@.upper) == sma_bands(b@.line@, b@.distance)
                &&& bands_about_line(b@)
            },
    {
        // SMA used for the Bollinger Band.
        let sma: SimpleMovingAverage = match SimpleMovingAverage::new(period, data) {
            Ok(v) => v,
            Err(error) => return Err(error),
        };
        let distance: Num = fx_abs(distance);
        let stdev: Num = sma.stdev(true);
        let lower: Num = fx_sub(sma.value(), fx_mul(stdev, distance));
        let upper: Num = fx_add(sma.value(), fx_mul(stdev, distance));
        Ok(Self { period, line: sma, distance, lower, upper })
    }
}

impl<L> BollingerBands<L> where L: Value + Period + Stats {
    /// Creates Bollinger Bands using an alternative line, such as an EMA.
    ///
    /// # Arguments
    ///
    /// * `line` - `Line` to use as the middle value.
    /// * `distance` - Distance the bands (in standard deviations) from the line. default 2.0
    pub fn with_line(line: L, distance: Num) -> (r: Result<BollingerBands<L>, TAError>)
        ensures
            r matches Ok(b) && {
                &&& b@.period == line.period_spec()
                &&& b@.line == line
                &&& b@.distance == sat_abs(distance as int)
                &&& bands_about_line(b@)
            },
    {
        let distance: Num = fx_abs(distance);
        let stdev: Num = line.stdev(true);
        let lower: Num = fx_sub(line.value(), fx_mul(stdev, distance));
        let upper: Num = fx_add(line.value(), fx_mul(stdev, distance));
        let period: usize = line.period();
        Ok(Self { period, line, distance, lower, upper })
    }

    /// Distance the standard deviation must be for the lower and upper bands.
    pub fn distance(&self) -> (r: Num)
        ensures
            r == self@.distance,
    {
        self.distance
    }

    /// Lower bound for the Bollinger Band.
    pub fn lower(&self) -> (r: Num)
        ensures
            r == self@.lower,
    {
        self.lower
    }

    /// Upper bound for the Bollinger Band.
    pub fn upper(&self) -> (r: Num)
        ensures
            r == self@.upper,
    {
        self.upper
    }
}

impl<L> Period for BollingerBands<L> where L: Value + Period + Stats {
    open spec fn period_spec(&self) -> usize {
        self@.period
    }

    /// Period (window) for the samples.
    fn period(&self) -> (r: usize)
        ensures
            r == self.period_spec(),
    {
        self.period
    }
}

impl<L> Value for BollingerBands<L> where L: Value + Period + Stats {
    open spec fn value_spec(&self) -> Num {
        self@.line.value_spec()
    }

    /// Current and most recent value of the line.
    fn value(&self) -> (r: Num)
        ensures
            r == self.value_spec(),
    {
        self.line.value()
    }
}

impl<L> Next<Num> for BollingerBands<L> where L: Value + Period + Stats + Next<Num> {
    /// Lower, the line's output, Upper.
    type Output = (Num, <L as Next<Num>>::Output, Num);

    open spec fn steady(&self) -> bool {
        self@.line.steady()
    }

    open spec fn follows(
        &self,
        value: Num,
        after: Self,
        out: (Num, <L as Next<Num>>::Output, Num),
    ) -> bool {
        &&& self@.line.follows(value, after@.line, out.1)
        &&& after@.period == self@.period
        &&& after@.distance == self@.distance
        &&& bands_about_line(after@)
        &&& out.0 == after@.lower
        &&& out.2 == after@.upper
    }

    /// Supply an additional value to recalculate a new Bollinger Band. This
    /// returns the lower band, what the line returned, and the upper band.
    ///
    /// # Arguments
    ///
    /// * `value` - New value to add to period.
    fn next(&mut self, value: Num) -> (out: (Num, <L as Next<Num>>::Output, Num))
        ensures
            old(self)@.line.follows(value, final(self)@.line, out.1),
            final(self)@.period == old(self)@.period,
            final(self)@.distance == old(self)@.distance,
            bands_about_line(final(self)@),
            out.0 == final(self)@.lower,
            out.2 == final(self)@.upper,
    {
        // Progress the line by a value.
        let value = self.line.next(value);

        let stdev: Num = self.line.stdev(true);
        self.lower = fx_sub(self.line.value(), fx_mul(stdev, self.distance));
        self.upper = fx_add(self.line.value(), fx_mul(stdev, self.distance));
        (self.lower, value, self.upper)
    }
}

} // verus!
