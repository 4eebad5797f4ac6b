//! The throwable that this library provides.

use vstd::prelude::*;
use crate::entry::append_trace;
use crate::entry::trace_view;
use crate::entry::StackEntry;
use crate::entry::StackEntryView;
use crate::throwable::Throwable;
use crate::view::rendered_cause;
use crate::view::ThrowableView;

verus! {

/// A throwable made of a message, a stack trace and, optionally, the
/// throwable that caused it. The message and the cause are set when the
/// exception is made and never change; the trace grows at its front while the
/// exception propagates. A cause is held as an exception of its own, whatever
/// kind of throwable it was handed in as.
pub struct Exception {
    message: String,
    stack: Vec<StackEntry>,
    cause: Option<Box<Exception>>,
}

impl Exception {
    /// What the exception stands for, cause by cause.
    spec fn as_view(self) -> ThrowableView
        decreases self,
    {
        ThrowableView {
            message: self.message@,
            trace: trace_view(self.stack@),
            cause: match self.cause {
                Some(cause) => Some(Box::new(cause.as_view())),
                None => None,
            },
        }
    }

    /// An exception with the given message, an empty trace and no cause.
    pub fn new(message: String) -> (e: Exception)
        ensures
            e@ == ThrowableView::fresh(message@),
    {
        let e = Exception { message: message, stack: Vec::new(), cause: None };
        assert(trace_view(e.stack@) =~= Seq::empty());
        e
    }

    /// An exception with the given message, an empty trace and the given
    /// cause. The cause is taken over whole: the new exception owns a
    /// throwable with the message, the trace and the chain of causes that
    /// `cause` has at this moment.
    pub fn new_with_cause<T: Throwable + 'static>(message: String, cause: T) -> (e: Exception)
        ensures
            e@ == ThrowableView::wrapping(message@, cause@),
    {
        let below = match cause.get_cause() {
            Some(below) => Some(Box::new(below.duplicate())),
            None => None,
        };
        let held = Exception {
            message: cause.get_message().to_owned(),
            stack: copy_trace(cause.get_stack_trace()),
            cause: below,
        };
        assert(held@ == cause@);
        let e = Exception { message: message, stack: Vec::new(), cause: Some(Box::new(held)) };
        assert(trace_view(e.stack@) =~= Seq::empty());
        e
    }

    /// An exception with the same message, trace and chain of causes.
    fn duplicate(&self) -> (e: Exception)
        ensures
            e@ == self@,
        decreases self,
    {
        Exception {
            message: self.message.clone(),
            stack: copy_trace(&self.stack),
            cause: match &self.cause {
                Some(below) => Some(Box::new((&**below).duplicate())),
                None => None,
            },
        }
    }
}

impl View for Exception {
    type V = ThrowableView;

    closed spec fn view(&self) -> ThrowableView {
        self.as_view()
    }
}

impl Throwable for Exception {
    fn push_stack(&mut self, file: &'static str, line: u32, expr: &'static str) {
        self.stack.insert(0, StackEntry { file: file, line: line, expr: expr });
        assert(trace_view(self.stack@) =~= seq![
            (StackEntryView { file: file@, line: line as nat, expr: expr@ }),
        ] + trace_view(old(self).stack@));
    }

    fn get_stack_trace(&self) -> (trace: &Vec<StackEntry>) {
        &self.stack
    }

    fn get_message(&self) -> (message: &str) {
        self.message.as_str()
    }

    fn get_cause(&self) -> (cause: Option<&Exception>) {
        match &self.cause {
            Some(cause) => Some(&**cause),
            None => None,
        }
    }
}

/// A trace with the same entries in the same order.
fn copy_trace(entries: &Vec<StackEntry>) -> (copy: Vec<StackEntry>)
    ensures
        trace_view(copy@) == trace_view(entries@),
{
    let mut copy: Vec<StackEntry> = Vec::new();
    let mut i: usize = 0;
    while i < entries.len()
        invariant
            i <= entries.len(),
            copy@.len() == i,
            forall|k: int| 0 <= k < i ==> copy@[k]@ == entries@[k]@,
        decreases entries.len() - i,
    {
        let entry = &entries[i];
        copy.push(StackEntry { file: entry.file, line: entry.line, expr: entry.expr });
        i += 1;
    }
    copy
}

/// The view of a cause as the view of the throwable above it holds it.
pub open spec fn cause_view(cause: Option<&Exception>) -> Option<Box<ThrowableView>> {
    match cause {
        Some(c) => Some(Box::new(c@)),
        None => None,
    }
}

/// Appends the chain of causes that starts at `cause` to `out`: for each
/// cause, from the nearest one down, the words `Caused by: ` and its frame.
pub(crate) fn append_causes(out: &mut String, cause: Option<&Exception>)
    ensures
        final(out)@ == old(out)@ + rendered_cause(cause_view(cause)),
{
    let mut link = cause;
    while link.is_some()
        invariant
            out@ + rendered_cause(cause_view(link)) == old(out)@ + rendered_cause(
                cause_view(cause),
            ),
        decreases
            match link {
                Some(c) => 1 + c@.depth(),
                None => 0,
            },
    {
        let current = link.unwrap();
        proof {
            reveal_strlit("Caused by: ");
            reveal_strlit("\n");
        }
        out.append("Caused by: ");
        out.append(current.message.as_str());
        out.append("\n");
        append_trace(out, &current.stack);
        link = match &current.cause {
            Some(below) => Some(&**below),
            None => None,
        };
    }
}

} // verus!
