//! On-Balance Volume (OBV), volume flow to predict price changes.
//!
//! # Formula
//!
//! vol = x == y ? 0 : x > y ? z : -z
//!
//! OBV = OBV_prev + vol
//!
//! where:
//!
//! * `x` = current close (most recent)
//! * `y` = last close
//! * `z` = current volume
use crate::buffer::{tail, Buffer};
use crate::error::TAError;
use crate::fixed::{clamp, fx_add, fx_sub, sat_add, sat_sub, Num};
use crate::traits::{Close, Next, Period, Stats, Value, Volume};
use vstd::prelude::*;

verus! {

/// Used for conversions. Holds Close (0), and Volume (1) values.
#[derive(Copy, Clone, Debug)]
pub struct OnBalanceVolumeData(pub Num, pub Num);

impl Close for OnBalanceVolumeData {
    open spec fn close_spec(&self) -> Num {
        self.0
    }

    /// Closing value.
    fn close(&self) -> (r: Num)
        ensures
            r == self.close_spec(),
    {
        self.0
    }
}

impl Volume for OnBalanceVolumeData {
    open spec fn volume_spec(&self) -> Num {
        self.1
    }

    /// Volume value.
    fn volume(&self) -> (r: Num)
        ensures
            r == self.volume_spec(),
    {
        self.1
    }
}

/// What an on-balance volume is at a moment: the volume on balance, the
/// latest close, and the window of the latest balances, oldest first.
pub struct ObvModel {
    pub period: usize,
    pub value: Num,
    pub last_close: Num,
    pub window: Seq<Num>,
}

/// The balance after a data point: the volume is added where the close
/// rose, taken off where it fell, and left out where it stayed.
pub open spec fn obv_value(last_obv: Num, close: Num, volume: Num, close_prev: Num) -> Num {
    if close > close_prev {
        sat_add(last_obv as int, volume as int) as Num
    } else if close < close_prev {
        sat_sub(last_obv as int, volume as int) as Num
    } else {
        last_obv
    }
}

/// The balance one data point after `m`.
pub open spec fn obv_step(m: ObvModel, close: Num, volume: Num) -> ObvModel {
    ObvModel {
        period: m.period,
        value: obv_value(m.value, close, volume, m.last_close),
        last_close: close,
        window: tail(
            m.window.push(obv_value(m.value, close, volume, m.last_close)),
            m.period as int,
        ),
    }
}

/// The on-balance volume of `period` over all of `data`: zero at the first
/// data point and moved by each data point after it.
pub open spec fn obv_model<T: Close + Volume>(period: usize, data: Seq<T>) -> ObvModel
    decreases data.len(),
{
    if data.len() <= 1 {
        ObvModel { period, value: 0, last_close: data[0].close_spec(), window: seq![0] }
    } else {
        obv_step(
            obv_model(period, data.drop_last()),
            data.last().close_spec(),
            data.last().volume_spec(),
        )
    }
}

/// Feeding one more data point to a balance gives the balance that is built
/// from all the data points at once.
pub proof fn lemma_obv_step<T: Close + Volume>(period: usize, data: Seq<T>, x: T)
    requires
        data.len() >= 1,
    ensures
        obv_model(period, data.push(x)) == obv_step(
            obv_model(period, data),
            x.close_spec(),
            x.volume_spec(),
        ),
{
    assert(data.push(x).drop_last() =~= data);
}

/// What `m` becomes when it is fed the data points of `xs`, one by one.
pub open spec fn obv_fed<T: Close + Volume>(m: ObvModel, xs: Seq<T>) -> ObvModel
    decreases xs.len(),
{
    if xs.len() == 0 {
        m
    } else {
        obv_step(obv_fed(m, xs.drop_last()), xs.last().close_spec(), xs.last().volume_spec())
    }
}

/// Seeding a balance with the first data points and feeding it the rest one by
/// one gives what is built from all the data points at once.
pub proof fn lemma_obv_seed_then_feed<T: Close + Volume>(
    period: usize,
    head: Seq<T>,
    rest: Seq<T>,
)
    requires
        head.len() >= 1,
    ensures
        obv_fed(obv_model(period, head), rest) == obv_model(period, head + rest),
    decreases rest.len(),
{
    if rest.len() == 0 {
        assert(head + rest =~= head);
    } else {
        lemma_obv_seed_then_feed(period, head, rest.drop_last());
        lemma_obv_step(period, head + rest.drop_last(), rest.last());
        assert((head + rest.drop_last()).push(rest.last()) =~= head + rest);
    }
}

/// On-Balance Volume (OBV), volume flow to predict price changes.
///
/// # Formula
///
/// vol = x == y ? 0 : x > y ? z : -z
///
/// OBV = OBV_prev + vol
///
/// where:
///
/// * `x` = current close (most recent)
/// * `y` = last close
/// * `z` = current volume
#[derive(Debug)]
pub struct OnBalanceVolume {
    /// Size of the period (window) in which data is looked at.
    period: usize,
    /// OBV's current value.
    value: Num,
    /// Last close.
    last_close: Num,
    /// Holds `period` amount of generated OBVs.
    buffer: Buffer,
}

/// The short name of the [`OnBalanceVolume`].
pub type OBV = OnBalanceVolume;

impl View for OnBalanceVolume {
    type V = ObvModel;

    closed spec fn view(&self) -> ObvModel {
        ObvModel {
            period: self.period,
            value: self.value,
            last_close: self.last_close,
            window: self.buffer@,
        }
    }
}

impl OnBalanceVolume {
    /// What holds of every balance that a constructor returned: the window
    /// of its values is the one that the statistics are taken over.
    pub open spec fn wf(&self) -> bool {
        &&& self.history().wf()
        &&& self.history()@ == self@.window
        &&& self.history().capacity_spec() == self@.period
    }

    /// Creates a new On-Balance Volume with the supplied period and initial data.
    ///
    /// ### Requirements:
    ///
    /// * Period must be greater than 1.
    /// * Data must have at least `period` elements.
    ///
    /// ## Arguments
    ///
    /// * `period` - History of values to keep.
    /// * `data` - Array of values to create the OBV from.
    pub fn new<T>(period: usize, data: &[T]) -> (r: Result<Self, TAError>) where
        T: Close + Volume,

        ensures
            period < 2 <==> r matches Err(TAError::InvalidSize(_)),
            period >= 2 && data@.len() < period <==> r matches Err(TAError::InvalidData(_)),
            period >= 2 && data@.len() >= period <==> r is Ok,
            r matches Ok(s) ==> s.wf() && s@.period == period && s@ == obv_model(period, data@),
    {
        // Check we can calculate On-Balance Volume.
        if period < 2 {
            return Err(
                TAError::size("period cannot be less than 2 to calculate on-balance volume"),
            );
        } else if data.len() < period {
            // Make sure we have enough data.
            return Err(TAError::data("not enough data for history period provided"));
        }

        // Build the buffer from the data provided.
        let first: [Num; 1] = [0];
        let buffer: Buffer = match Buffer::from_array(period, first.as_slice()) {
            Ok(value) => value,
            Err(error) => return Err(error),
        };
        let mut obv: Self = Self { period, value: 0, last_close: data[0].close(), buffer };
        assert(obv@ == obv_model(period, data@.subrange(0, 1))) by {
            assert(obv.buffer@ =~= seq![0i64]);
        }

        // Calculate the remaining values.
        let mut i: usize = 1;
        while i < data.len()
            invariant
                1 <= i <= data.len(),
                obv.wf(),
                obv@.period == period,
                obv@ == obv_model(period, data@.subrange(0, i as int)),
            decreases data.len() - i,
        {
            proof {
                lemma_obv_step(period, data@.subrange(0, i as int), data[i as int]);
                assert(data@.subrange(0, i as int).push(data[i as int]) =~= data@.subrange(
                    0,
                    i + 1,
                ));
            }
            obv.advance(&data[i]);
            i = i + 1;
        }
        assert(data@.subrange(0, i as int) =~= data@);
        Ok(obv)
    }

    /// Period (window) for the samples.
    pub fn period(&self) -> (r: usize)
        ensures
            r == self@.period,
    {
        self.period
    }

    /// Current and most recent value calculated.
    pub fn value(&self) -> (r: Num)
        ensures
            r == self@.value,
    {
        self.value
    }

    /// Calculates the On-Balance Value.
    ///
    /// # Arguments
    ///
    /// * `last_obv` - Last calculated on-balance volume.
    /// * `value` - Current data point, with its close and its volume.
    /// * `close_prev` - Previous close value.
    pub fn calculate<T>(last_obv: Num, value: &T, close_prev: Num) -> (r: Num) where
        T: Close + Volume,

        ensures
            r == obv_value(last_obv, value.close_spec(), value.volume_spec(), close_prev),
    {
        if value.close() > close_prev {
            fx_add(last_obv, value.volume())
        } else if value.close() < close_prev {
            fx_sub(last_obv, value.volume())
        } else {
            last_obv
        }
    }

    /// Takes one more data point.
    fn advance<T>(&mut self, value: &T) -> (out: Num) where T: Close + Volume
        requires
            old(self).wf(),
        ensures
            final(self).wf(),
            final(self)@ == obv_step(old(self)@, value.close_spec(), value.volume_spec()),
            out == final(self)@.value,
    {
        self.value = Self::calculate(self.value, value, self.last_close);
        self.last_close = value.close();

        // Rotate the buffer.
        self.buffer.shift(self.value);
        self.value
    }
}

impl Period for OnBalanceVolume {
    open spec fn period_spec(&self) -> usize {
        self@.period
    }

    /// Period (window) for the history.
    fn period(&self) -> (r: usize)
        ensures
            r == self.period_spec(),
    {
        self.period
    }
}

impl Value for OnBalanceVolume {
    open spec fn value_spec(&self) -> Num {
        self@.value
    }

    /// Current and most recent value calculated.
    fn value(&self) -> (r: Num)
        ensures
            r == self.value_spec(),
    {
        self.value
    }
}

impl<T> Next<T> for OnBalanceVolume where T: Close + Volume {
    /// Next value for the OBV.
    type Output = Num;

    open spec fn steady(&self) -> bool {
        self.wf()
    }

    open spec fn follows(&self, value: T, after: Self, out: Num) -> bool {
        &&& after@ == obv_step(self@, value.close_spec(), value.volume_spec())
        &&& out == after@.value
    }

    /// Supply an additional value to recalculate a new OBV.
    ///
    /// # Arguments
    ///
    /// * `value` - New value to add to period.
    fn next(&mut self, value: T) -> (out: Num)
        ensures
            final(self)@ == obv_step(old(self)@, value.close_spec(), value.volume_spec()),
            out == final(self)@.value,
    {
        self.advance(&value)
    }
}

impl Next<(Num, Num)> for OnBalanceVolume {
    /// Next value for the OBV.
    type Output = Num;

    open spec fn steady(&self) -> bool {
        self.wf()
    }

    open spec fn follows(&self, value: (Num, Num), after: Self, out: Num) -> bool {
        after@ == obv_step(self@, value.0, value.1) && out == after@.value
    }

    /// Supply an additional value to recalculate a new OBV.
    ///
    /// # Arguments
    ///
    /// * `value` - New value to calculate.
    ///     * 0 = Close
    ///     * 1 = Volume
    fn next(&mut self, value: (Num, Num)) -> (out: Num)
        ensures
            final(self)@ == obv_step(old(self)@, value.0, value.1),
            out == final(self)@.value,
    {
        let v: OnBalanceVolumeData = OnBalanceVolumeData(value.0, value.1);
        self.advance(&v)
    }
}

impl Stats for OnBalanceVolume {
    closed spec fn history(&self) -> Buffer {
        self.buffer
    }

    /// Obtains the total sum of the buffer for OBV.
    fn sum(&self) -> (r: Num)
        ensures
            r == clamp(self.history().sum_spec()),
    {
        self.buffer.sum()
    }

    /// Mean for the period of the OBV.
    fn mean(&self) -> (r: Num)
        ensures
            r == self.history().mean_spec(),
    {
        self.buffer.mean()
    }

    /// Current variance for the period.
    fn variance(&self, is_sample: bool) -> (r: Num)
        ensures
            r == self.history().variance_spec(is_sample),
    {
        self.buffer.variance(is_sample)
    }

    /// Current standard deviation for the period.
    fn stdev(&self, is_sample: bool) -> (r: Num)
        ensures
            r == self.history().stdev_spec(is_sample),
    {
        self.buffer.stdev(is_sample)
    }
}

} // verus!
