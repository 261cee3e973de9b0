//! Retry support for fallible operations that carry an owned context value
//! across attempts.
//!
//! The heart of the crate is [`driver::RetryWithContext`], a sequencer that
//! alternates between running an operation, consulting a backoff schedule and
//! suspending for a delay, while the context value has exactly one owner at
//! every observable point.  The driver makes every decision; the surrounding
//! program only performs the operation and the suspensions it is told to.

pub mod backoff;
pub mod driver;
pub mod laws;

pub use backoff::Backoff;
pub use backoff::BackoffBuilder;
pub use backoff::ScheduleBackoff;
pub use backoff::ScheduleBuilder;
pub use driver::DefaultSleeper;
pub use driver::DriverModel;
pub use driver::RetryDecision;
pub use driver::NoopNotify;
pub use driver::RetryAll;
pub use driver::RetryWithContext;
pub use driver::RetryableWithContext;
pub use driver::State;
