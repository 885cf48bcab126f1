//! Cross, used to check if lines cross.
//!
//! Death Cross: `short_line` (reactive) crosses below `long_line` (historic).
//!
//! Golden Cross: `short_line` (reactive) crosses above `long_line` (historic).
use crate::fixed::Num;
use crate::traits::{Next, Value};
use vstd::prelude::*;

verus! {

/// What a cross is at a moment: its two lines, and whether they crossed in
/// the last step.
pub struct CrossModel<L> {
    pub short_line: L,
    pub long_line: L,
    pub crossed: bool,
}

/// Whether the short line lies below the long line.
pub open spec fn short_below<L: Value>(short_line: L, long_line: L) -> bool {
    short_line.value_spec() < long_line.value_spec()
}

/// Cross, used to check if lines cross.
///
/// Death Cross: `short_line` (reactive) crosses below `long_line` (historic).
///
/// Golden Cross: `short_line` (reactive) crosses above `long_line` (historic).
#[derive(Debug)]
pub struct Cross<L> where L: Value {
    // Shorter line (shorter period)
    short_line: L,
    // Longer line (longer period)
    long_line: L,
    // Holds if the lines crossed or not.
    crossed: bool,
}

impl<L: Value> View for Cross<L> {
    type V = CrossModel<L>;

    closed spec fn view(&self) -> CrossModel<L> {
        CrossModel {
            short_line: self.short_line,
            long_line: self.long_line,
            crossed: self.crossed,
        }
    }
}

impl<L> Cross<L> where L: Value + Next<Num> {
    /// Creates a new Cross with the supplied two lines.
    ///
    /// Death Cross: `short_line` (reactive) crosses below `long_line` (historic).
    ///
    /// Golden Cross: `short_line` (reactive) crosses above `long_line` (historic).
    ///
    /// ## Arguments
    ///
    /// * `short_line` - Shorter or more reactive line.
    /// * `long_line` - Longer or more historic line.
    pub fn new(short_line: L, long_line: L) -> (r: Self)
        ensures
            r@ == (CrossModel { short_line, long_line, crossed: false }),
    {
        Self { short_line, long_line, crossed: false }
    }

    /// Checks if the `short_line` and `long_line` crossed.
    pub fn crossed(&self) -> (r: bool)
        ensures
            r == self@.crossed,
    {
        self.crossed
    }

    /// True if the lines have crossed and the `short_line` is above the `long_line`.
    pub fn is_golden(&self) -> (r: bool)
        ensures
            r == (self@.crossed && self@.short_line.value_spec() > self@.long_line.value_spec()),
    {
        self.crossed && self.short_line.value() > self.long_line.value()
    }

    /// True if the lines have crossed and the `short_line` is below the `long_line`.
    pub fn is_death(&self) -> (r: bool)
        ensures
            r == (self@.crossed && self@.short_line.value_spec() < self@.long_line.value_spec()),
    {
        self.crossed && self.short_line.value() < self.long_line.value()
    }

    /// Supply an additional value to recalculate a cross. The lines have
    /// crossed where the short line was below the long line before the step
    /// and is not after it, or was not and is.
    ///
    /// # Arguments
    ///
    /// * `value` - New value to add to period.
    pub fn next(&mut self, value: Num) -> (r: bool)
        requires
            old(self)@.short_line.steady(),
            old(self)@.long_line.steady(),
        ensures
            final(self)@.short_line.steady(),
            final(self)@.long_line.steady(),
            exists|out: <L as Next<Num>>::Output| #[trigger]
                old(self)@.short_line.follows(value, final(self)@.short_line, out),
            exists|out: <L as Next<Num>>::Output| #[trigger]
                old(self)@.long_line.follows(value, final(self)@.long_line, out),
            final(self)@.crossed == (short_below(old(self)@.short_line, old(self)@.long_line)
                != short_below(final(self)@.short_line, final(self)@.long_line)),
            r == final(self)@.crossed,
    {
        let was_below: bool = self.short_line.value() < self.long_line.value();

        // Progress both lines.
        let short_out = self.short_line.next(value);
        let long_out = self.long_line.next(value);

        self.crossed = was_below != (self.short_line.value() < self.long_line.value());
        proof {
            assert(old(self)@.short_line.follows(value, self@.short_line, short_out));
            assert(old(self)@.long_line.follows(value, self@.long_line, long_out));
        }
        self.crossed
    }
}

} // verus!
