//! Technical Analysis Tools: streaming indicators over fixed-point samples.
//!
//! Each indicator is built once from a period and a history of samples, and
//! then takes one sample at a time: `next` moves it by one step without
//! going over the history again.
//!
//! * [`fixed`] holds the arithmetic. A [`Num`] counts millionths; every
//!   operation rounds toward zero and saturates, so none can overflow or fail.
//! * [`buffer`] holds the rolling window that the indicators keep their
//!   samples and their values in, with its exact running sum.
//! * [`indicators`] holds the indicators. Each has a model, a function of the
//!   samples it was given; `new` returns the model of the history, `next`
//!   moves it by one step, and a proof function shows that both ways of
//!   taking the same samples lead to the same model.
//! * [`traits`] holds what the indicators share, and what a data point of a
//!   user's own has to offer to be taken as a sample.
//! * [`error`] holds the errors that constructors report.
pub mod buffer;
pub mod error;
pub mod fixed;
pub mod indicators;
pub mod traits;

pub use buffer::Buffer;
pub use error::TAError;
pub use fixed::Num;
