//! Exception-like errors for code that reports failure through `Result`.
//!
//! A failure is turned into a [`Throwable`] at the place where it is first
//! seen. Every call boundary it crosses on its way up records its own
//! location at the front of the trace, so that whoever finally handles the
//! failure can render a trace that reads from the most recent call site down
//! to the place where the failure began, followed by the chain of causes.

pub mod convert;
pub mod decimal;
pub mod entry;
pub mod exception;
pub mod propagate;
pub mod throwable;
pub mod view;

pub use crate::entry::StackEntry;
pub use crate::entry::StackEntryView;
pub use crate::view::ThrowableView;
pub use crate::exception::Exception;
pub use crate::throwable::Throwable;
pub use crate::convert::IntoThrowable;
pub use crate::propagate::catch;
pub use crate::propagate::render_at;
pub use crate::propagate::throw;
