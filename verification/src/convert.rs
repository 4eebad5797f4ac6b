//! Turning failures of other kinds into throwables.

use vstd::prelude::*;
use vstd::string::to_string_from_display_ensures;
use crate::exception::Exception;
use crate::throwable::Throwable;
use crate::view::ThrowableView;

verus! {

/// A failure that can be turned into the throwable `T`. Implement it for a
/// failure type of your own to let it take part in propagation.
pub trait IntoThrowable<T: Throwable> {
    /// Whether `t` is a throwable that this failure may be turned into.
    spec fn converts_to(&self, t: ThrowableView) -> bool;

    /// Turns the failure into a throwable.
    fn into_throwable(self) -> (t: T)
        ensures
            self.converts_to(t@),
    ;
}

/// A throwable is already what it is to be turned into: it is handed back as
/// it is, with its trace and its cause.
impl<T: Throwable> IntoThrowable<T> for T {
    open spec fn converts_to(&self, t: ThrowableView) -> bool {
        t == self@
    }

    fn into_throwable(self) -> (t: T)
        ensures
            t == self,
    {
        self
    }
}

/// A text becomes an exception with that text as its message.
impl<'r> IntoThrowable<Exception> for &'r str {
    open spec fn converts_to(&self, t: ThrowableView) -> bool {
        t == ThrowableView::fresh(self@)
    }

    fn into_throwable(self) -> (t: Exception) {
        Exception::new(self.to_owned())
    }
}

/// A text becomes an exception with that text as its message.
impl IntoThrowable<Exception> for String {
    open spec fn converts_to(&self, t: ThrowableView) -> bool {
        t == ThrowableView::fresh(self@)
    }

    fn into_throwable(self) -> (t: Exception) {
        Exception::new(self)
    }
}

/// The message of every exception made from a formatting failure.
pub open spec fn formatting_message() -> Seq<char> {
    seq![
        'F', 'o', 'r', 'm', 'a', 't', 't', 'i', 'n', 'g', ' ', 'E', 'x', 'c', 'e', 'p', 't', 'i',
        'o', 'n',
    ]
}

/// The failure of a formatting operation, `std::fmt::Error`. It carries no
/// data.
#[verifier::external_type_specification]
#[verifier::external_body]
pub struct ExFmtError(std::fmt::Error);

/// An I/O failure, `std::io::Error`. Nothing is said of what it holds.
#[verifier::external_type_specification]
#[verifier::external_body]
pub struct ExIoError(std::io::Error);

/// A formatting failure becomes an exception with a fixed message.
impl IntoThrowable<Exception> for std::fmt::Error {
    open spec fn converts_to(&self, t: ThrowableView) -> bool {
        t == ThrowableView::fresh(formatting_message())
    }

    fn into_throwable(self) -> (t: Exception) {
        proof {
            reveal_strlit("Formatting Exception");
            assert("Formatting Exception"@ =~= formatting_message());
        }
        Exception::new("Formatting Exception".to_owned())
    }
}

/// An I/O failure becomes an exception whose message is the text that the
/// failure describes itself with.
impl IntoThrowable<Exception> for std::io::Error {
    open spec fn converts_to(&self, t: ThrowableView) -> bool {
        exists|text: String|
            #[trigger] to_string_from_display_ensures::<std::io::Error>(self, text) && t
                == ThrowableView::fresh(text@)
    }

    fn into_throwable(self) -> (t: Exception) {
        Exception::new(self.to_string())
    }
}

} // verus!
