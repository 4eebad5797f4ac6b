//! What every throwable value can do.

use vstd::prelude::*;
use crate::entry::append_trace;
use crate::entry::trace_view;
use crate::entry::StackEntry;
use crate::entry::StackEntryView;
use crate::exception::append_causes;
use crate::exception::cause_view;
use crate::exception::Exception;
use crate::view::ThrowableView;

verus! {

/// A value that can be thrown: it has a message, gathers a stack trace while
/// it propagates up the call stack, and may name the throwable that caused
/// it.
pub trait Throwable: View<V = ThrowableView> {
    /// Records that the throwable crossed a call boundary: the new entry goes
    /// to the front of the trace. Message, cause and the entries already
    /// there stay as they are.
    fn push_stack(&mut self, file: &'static str, line: u32, expr: &'static str)
        ensures
            final(self)@ == old(self)@.pushed(
                (StackEntryView { file: file@, line: line as nat, expr: expr@ }),
            ),
    ;

    /// The trace gathered so far, the most recent entry first.
    fn get_stack_trace(&self) -> (trace: &Vec<StackEntry>)
        ensures
            trace_view(trace@) == self@.trace,
    ;

    /// The message that says why the throwable was raised.
    fn get_message(&self) -> (message: &str)
        ensures
            message@ == self@.message,
    ;

    /// The throwable that caused this one, if there is one.
    fn get_cause(&self) -> (cause: Option<&Exception>)
        ensures
            cause_view(cause) == self@.cause,
    ;

    /// The text of the throwable as it is printed: the message, one line for
    /// each entry of the trace from the most recent one down, and then the
    /// chain of causes, each introduced by `Caused by: `.
    fn render_stack_trace(&self) -> (text: String)
        ensures
            text@ == self@.rendered(),
    {
        let mut text = String::new();
        proof {
            reveal_strlit("\n");
        }
        text.append(self.get_message());
        text.append("\n");
        append_trace(&mut text, self.get_stack_trace());
        append_causes(&mut text, self.get_cause());
        text
    }
}

/// A boxed throwable is a throwable: whatever is asked of the box is asked of
/// the value inside it.
impl<T: Throwable + ?Sized> Throwable for Box<T> {
    fn push_stack(&mut self, file: &'static str, line: u32, expr: &'static str) {
        (**self).push_stack(file, line, expr);
    }

    fn get_stack_trace(&self) -> (trace: &Vec<StackEntry>) {
        (**self).get_stack_trace()
    }

    fn get_message(&self) -> (message: &str) {
        (**self).get_message()
    }

    fn get_cause(&self) -> (cause: Option<&Exception>) {
        (**self).get_cause()
    }

    fn render_stack_trace(&self) -> (text: String) {
        (**self).render_stack_trace()
    }
}

} // verus!
