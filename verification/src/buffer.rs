//! Buffer with maximum capacity that rotates itself.
//!
//! The buffer keeps the most recent samples, oldest first, and their exact
//! running sum. Once it is full, adding a sample removes the oldest one.
use crate::error::TAError;
use crate::fixed::{
    clamp, fx_add, fx_mul, fx_quot, fx_sqrt, fx_sub, narrow, quot, sat_add, sat_mul, sat_quot,
    sat_sqrt, sat_sub, Num,
};
use vstd::arithmetic::div_mod::{lemma_div_is_ordered, lemma_div_multiples_vanish};
use vstd::prelude::*;

verus! {

/// The exact sum of a sequence of samples.
pub open spec fn total(s: Seq<Num>) -> int
    decreases s.len(),
{
    if s.len() == 0 {
        0
    } else {
        total(s.drop_last()) + s.last()
    }
}

/// The last `n` samples of `s`, or all of `s` where it holds fewer.
pub open spec fn tail(s: Seq<Num>, n: int) -> Seq<Num> {
    if s.len() > n && n >= 0 {
        s.subrange(s.len() - n, s.len() as int)
    } else {
        s
    }
}

/// The squared distance of a sample from the mean, in fixed-point arithmetic.
pub open spec fn sq_dev(x: int, mean: int) -> int {
    sat_mul(sat_sub(x, mean), sat_sub(x, mean))
}

/// The sum of the squared distances of the samples from `mean`, added up in
/// order in saturating arithmetic.
pub open spec fn sq_dev_sum(s: Seq<Num>, mean: int) -> int
    decreases s.len(),
{
    if s.len() == 0 {
        0
    } else {
        sat_add(sq_dev_sum(s.drop_last(), mean), sq_dev(s.last() as int, mean))
    }
}

/// The mean of the samples, given their sum.
pub open spec fn mean_with(sum: int, s: Seq<Num>) -> int {
    sat_quot(sum, s.len() as int)
}

/// The variance of the samples, given their sum. A sample variance divides by
/// one less than the number of samples, a population variance by the number.
pub open spec fn variance_with(sum: int, s: Seq<Num>, is_sample: bool) -> int {
    sat_quot(
        sq_dev_sum(s, mean_with(sum, s)),
        if is_sample {
            s.len() - 1
        } else {
            s.len() as int
        },
    )
}

/// The mean of the samples.
pub open spec fn mean_of(s: Seq<Num>) -> int {
    mean_with(total(s), s)
}

/// The variance of the samples.
pub open spec fn variance_of(s: Seq<Num>, is_sample: bool) -> int {
    variance_with(total(s), s, is_sample)
}

/// The standard deviation of the samples.
pub open spec fn stdev_of(s: Seq<Num>, is_sample: bool) -> int {
    sat_sqrt(variance_of(s, is_sample))
}

/// Appending a sample adds it to the sum.
pub proof fn lemma_total_push(s: Seq<Num>, x: Num)
    ensures
        total(s.push(x)) == total(s) + x,
{
    assert(s.push(x).drop_last() =~= s);
}

/// Removing the first sample takes it off the sum.
pub proof fn lemma_total_remove_first(s: Seq<Num>)
    requires
        s.len() > 0,
    ensures
        total(s) == s[0] + total(s.subrange(1, s.len() as int)),
    decreases s.len(),
{
    let rest = s.subrange(1, s.len() as int);
    if s.len() == 1 {
        assert(s.drop_last() =~= Seq::<Num>::empty());
        assert(rest =~= Seq::<Num>::empty());
    } else {
        lemma_total_remove_first(s.drop_last());
        assert(s.drop_last().subrange(1, s.len() - 1) =~= rest.drop_last());
        assert(rest.last() == s.last());
    }
}

/// The sum of `n` samples lies between `n` times the least and `n` times the
/// greatest value of a sample.
pub proof fn lemma_total_bounds(s: Seq<Num>)
    ensures
        s.len() * (i64::MIN as int) <= total(s) <= s.len() * (i64::MAX as int),
    decreases s.len(),
{
    if s.len() > 0 {
        lemma_total_bounds(s.drop_last());
        assert((s.len() - 1) * (i64::MIN as int) + (i64::MIN as int) == s.len() * (i64::MIN as int))
            by (nonlinear_arith);
        assert((s.len() - 1) * (i64::MAX as int) + (i64::MAX as int) == s.len() * (i64::MAX as int))
            by (nonlinear_arith);
    } else {
        assert(0 * (i64::MIN as int) == 0);
        assert(0 * (i64::MAX as int) == 0);
    }
}

/// The sum of as many samples as a machine can count fits in 128 bits.
pub proof fn lemma_total_fits(s: Seq<Num>)
    requires
        s.len() <= usize::MAX,
    ensures
        i128::MIN <= total(s) <= i128::MAX,
{
    lemma_total_bounds(s);
    let n = s.len() as int;
    assert(n * (i64::MIN as int) >= 0xffff_ffff_ffff_ffff * (i64::MIN as int)) by (nonlinear_arith)
        requires
            0 <= n <= 0xffff_ffff_ffff_ffff,
    ;
    assert(n * (i64::MAX as int) <= 0xffff_ffff_ffff_ffff * (i64::MAX as int)) by (nonlinear_arith)
        requires
            0 <= n <= 0xffff_ffff_ffff_ffff,
    ;
}

/// The mean of samples never saturates: it is their exact sum over their
/// number, rounded toward zero.
pub proof fn lemma_mean_exact(s: Seq<Num>)
    requires
        s.len() > 0,
    ensures
        mean_of(s) == quot(total(s), s.len() as int),
{
    let n = s.len() as int;
    lemma_total_bounds(s);
    if total(s) >= 0 {
        lemma_div_is_ordered(total(s), n * (i64::MAX as int), n);
        lemma_div_multiples_vanish(i64::MAX as int, n);
        assert(n * (i64::MAX as int) == (i64::MAX as int) * n) by (nonlinear_arith);
        lemma_div_is_ordered(0, total(s), n);
    } else {
        lemma_div_is_ordered(-total(s), n * 0x8000_0000_0000_0000, n);
        lemma_div_multiples_vanish(0x8000_0000_0000_0000, n);
        assert(n * 0x8000_0000_0000_0000 == 0x8000_0000_0000_0000 * n) by (nonlinear_arith);
        assert(n * (i64::MIN as int) == -(n * 0x8000_0000_0000_0000)) by (nonlinear_arith);
        lemma_div_is_ordered(0, -total(s), n);
    }
}

/// A window that slides over a sequence holds the same samples whether it is
/// cut once at the end or kept up after every sample.
pub proof fn lemma_tail_push(s: Seq<Num>, n: int, x: Num)
    requires
        n > 0,
    ensures
        tail(tail(s, n).push(x), n) == tail(s.push(x), n),
{
    assert(tail(tail(s, n).push(x), n) =~= tail(s.push(x), n));
}

/// What a window of the given capacity that holds `s` holds after the
/// samples of `xs` were shifted into it, one by one.
pub open spec fn shifted(s: Seq<Num>, capacity: int, xs: Seq<Num>) -> Seq<Num>
    decreases xs.len(),
{
    if xs.len() == 0 {
        s
    } else {
        tail(shifted(s, capacity, xs.drop_last()).push(xs.last()), capacity)
    }
}

/// After any run of shifts a window holds the last `capacity` samples of
/// what it held at first and what was shifted into it since.
pub proof fn lemma_shifted(s: Seq<Num>, capacity: int, xs: Seq<Num>)
    requires
        capacity > 0,
        s.len() <= capacity,
    ensures
        shifted(s, capacity, xs) == tail(s + xs, capacity),
    decreases xs.len(),
{
    if xs.len() == 0 {
        assert(s + xs =~= s);
    } else {
        lemma_shifted(s, capacity, xs.drop_last());
        lemma_tail_push(s + xs.drop_last(), capacity, xs.last());
        assert((s + xs.drop_last()).push(xs.last()) =~= s + xs);
    }
}

/// While a window fills up, shifts make it grow and remove nothing.
pub proof fn lemma_shifted_warm_up(s: Seq<Num>, capacity: int, xs: Seq<Num>)
    requires
        capacity > 0,
        s.len() + xs.len() <= capacity,
    ensures
        shifted(s, capacity, xs) == s + xs,
{
    lemma_shifted(s, capacity, xs);
}

/// Once a window is full, every shift removes the oldest sample and keeps
/// the length.
pub proof fn lemma_shifted_full(s: Seq<Num>, capacity: int, x: Num)
    requires
        capacity > 0,
        s.len() == capacity,
    ensures
        tail(s.push(x), capacity) == s.subrange(1, s.len() as int).push(x),
        tail(s.push(x), capacity).len() == capacity,
{
    assert(tail(s.push(x), capacity) =~= s.subrange(1, s.len() as int).push(x));
}

/// Buffer with maximum capacity that rotates itself.
#[derive(Debug)]
pub struct Buffer {
    /// Maximum capacity of the buffer.
    capacity: usize,
    /// Data the buffer currently holds, oldest first.
    data: Vec<Num>,
    /// Sum of the data.
    sum: i128,
}

impl View for Buffer {
    type V = Seq<Num>;

    /// The samples held, oldest first.
    closed spec fn view(&self) -> Seq<Num> {
        self.data@
    }
}

impl Buffer {
    /// The most samples that the buffer holds at a time.
    pub closed spec fn capacity_spec(&self) -> usize {
        self.capacity
    }

    /// The running sum that the buffer keeps.
    pub closed spec fn sum_spec(&self) -> int {
        self.sum as int
    }

    /// What holds of every buffer that a constructor returned: it has room,
    /// holds between one sample and its capacity, and its running sum is the
    /// exact sum of what it holds.
    pub open spec fn wf(&self) -> bool {
        &&& self.capacity_spec() > 0
        &&& 0 < self@.len() <= self.capacity_spec()
        &&& self.sum_spec() == total(self@)
    }

    /// The mean of the samples held.
    pub open spec fn mean_spec(&self) -> int {
        mean_with(self.sum_spec(), self@)
    }

    /// The variance of the samples held.
    pub open spec fn variance_spec(&self, is_sample: bool) -> int {
        variance_with(self.sum_spec(), self@, is_sample)
    }

    /// The standard deviation of the samples held.
    pub open spec fn stdev_spec(&self, is_sample: bool) -> int {
        sat_sqrt(self.variance_spec(is_sample))
    }

    /// Creates a new buffer from the data provided. If the data holds fewer
    /// samples than the capacity, all of them are kept and `is_ready()` is
    /// `false`; otherwise the last `capacity` samples are kept.
    ///
    /// # Arguments
    ///
    /// * `capacity` - Total size of the buffer, must be > 0.
    /// * `data` - Samples to fill with, oldest first; must not be empty.
    pub fn from_array(capacity: usize, data: &[Num]) -> (r: Result<Self, TAError>)
        ensures
            capacity == 0 <==> r matches Err(TAError::InvalidSize(_)),
            capacity > 0 && data@.len() == 0 <==> r matches Err(TAError::InvalidData(_)),
            capacity > 0 && data@.len() > 0 <==> r is Ok,
            r matches Ok(b) ==> b.wf() && b.capacity_spec() == capacity && b@ == tail(
                data@,
                capacity as int,
            ),
    {
        if capacity == 0 {
            return Err(TAError::size("capacity cannot be 0"));
        } else if data.len() == 0 {
            return Err(TAError::data("no data provided"));
        }
        let start: usize = if data.len() >= capacity {
            data.len() - capacity
        } else {
            0
        };
        let mut vec: Vec<Num> = Vec::new();
        let mut sum: i128 = 0;
        let mut i: usize = start;
        while i < data.len()
            invariant
                start <= i <= data.len(),
                vec@ == data@.subrange(start as int, i as int),
                sum == total(vec@),
            decreases data.len() - i,
        {
            proof {
                lemma_total_fits(vec@.push(data[i as int]));
                lemma_total_push(vec@, data[i as int]);
            }
            sum = sum + data[i] as i128;
            vec.push(data[i]);
            i = i + 1;
            assert(vec@ =~= data@.subrange(start as int, i as int));
        }
        assert(vec@ =~= tail(data@, capacity as int));
        Ok(Self { capacity, data: vec, sum })
    }

    /// Maximum capacity the buffer can hold.
    pub fn capacity(&self) -> (r: usize)
        ensures
            r == self.capacity_spec(),
    {
        self.capacity
    }

    /// Checks if the buffer is ready, indicating it has data to meet its capacity.
    pub fn is_ready(&self) -> (r: bool)
        ensures
            r == (self@.len() >= self.capacity_spec()),
            self.wf() ==> r == (self@.len() == self.capacity_spec()),
    {
        self.data.len() >= self.capacity
    }

    /// Gets the oldest value in the buffer, this is the next value that will be removed.
    pub fn oldest(&self) -> (r: Num)
        requires
            self@.len() > 0,
        ensures
            r == self@[0],
    {
        self.data[0]
    }

    /// Gets the newest value in the buffer, the value that will live the
    /// longest in the buffer.
    pub fn newest(&self) -> (r: Num)
        requires
            self@.len() > 0,
        ensures
            r == self@.last(),
    {
        self.data[self.data.len() - 1]
    }

    /// Returns the data held by the buffer from oldest to newest. Index 0 is
    /// the oldest and next value to be removed.
    pub fn queue(&self) -> (r: &[Num])
        ensures
            r@ == self@,
    {
        self.data.as_slice()
    }

    /// Adds a new (newest) value to the buffer. Once the buffer is full the
    /// oldest value is removed and returned; while it fills up nothing is
    /// removed and zero is returned.
    ///
    /// # Arguments
    ///
    /// * `value` - New (newest) value to add to the buffer.
    pub fn shift(&mut self, value: Num) -> (r: Num)
        requires
            old(self).wf(),
        ensures
            final(self).wf(),
            final(self).capacity_spec() == old(self).capacity_spec(),
            final(self)@ == tail(old(self)@.push(value), old(self).capacity_spec() as int),
            final(self).sum_spec() == old(self).sum_spec() - r + value,
            r == if old(self)@.len() == old(self).capacity_spec() {
                old(self)@[0]
            } else {
                0
            },
    {
        let mut oldest: Num = 0;
        proof {
            lemma_total_fits(self.data@);
            lemma_total_remove_first(self.data@);
        }
        if self.data.len() >= self.capacity {
            oldest = self.data.remove(0);
            assert(self.data@ =~= old(self)@.subrange(1, old(self)@.len() as int));
        }
        proof {
            lemma_total_fits(self.data@);
            lemma_total_fits(self.data@.push(value));
            lemma_total_push(self.data@, value);
        }
        self.sum = self.sum - oldest as i128 + value as i128;
        self.data.push(value);
        assert(self.data@ =~= tail(old(self)@.push(value), old(self).capacity_spec() as int));
        oldest
    }

    /// Obtain the sum of the buffer, saturated. The running sum that it is
    /// taken from is the exact sum of the samples held.
    pub fn sum(&self) -> (r: Num)
        ensures
            r == clamp(self.sum_spec()),
            self.wf() ==> r == clamp(total(self@)),
    {
        narrow(self.sum)
    }

    /// The running sum itself, which no saturation has touched.
    pub fn sum_wide(&self) -> (r: i128)
        ensures
            r == self.sum_spec(),
    {
        self.sum
    }

    /// Calculates the mean of the buffer.
    pub fn mean(&self) -> (r: Num)
        ensures
            r == self.mean_spec(),
    {
        fx_quot(self.sum, self.data.len() as i128)
    }

    /// Calculates the variance of the buffer. The sample variance of a
    /// single value, zero over zero, is zero.
    ///
    /// # Arguments
    ///
    /// * `is_sample` - If the data is a Sample or Population, default should be True.
    pub fn variance(&self, is_sample: bool) -> (r: Num)
        ensures
            r == self.variance_spec(is_sample),
    {
        let mean: Num = self.mean();
        let mut acc: Num = 0;
        let mut i: usize = 0;
        while i < self.data.len()
            invariant
                0 <= i <= self.data.len(),
                acc == sq_dev_sum(self.data@.subrange(0, i as int), mean as int),
            decreases self.data.len() - i,
        {
            let d: Num = fx_sub(self.data[i], mean);
            acc = fx_add(acc, fx_mul(d, d));
            i = i + 1;
            assert(self.data@.subrange(0, i as int).drop_last() =~= self.data@.subrange(
                0,
                i - 1,
            ));
        }
        assert(self.data@.subrange(0, i as int) =~= self.data@);
        let divisor: i128 = if is_sample {
            self.data.len() as i128 - 1
        } else {
            self.data.len() as i128
        };
        if divisor < 0 {
            // An empty buffer has no deviations to divide.
            fx_quot(-(acc as i128), 1)
        } else {
            fx_quot(acc as i128, divisor)
        }
    }

    /// Calculates the standard deviation of the buffer.
    ///
    /// # Arguments
    ///
    /// * `is_sample` - If the data is a Sample or Population, default should be True.
    pub fn stdev(&self, is_sample: bool) -> (r: Num)
        ensures
            r == self.stdev_spec(is_sample),
    {
        fx_sqrt(self.variance(is_sample))
    }
}

} // verus!
