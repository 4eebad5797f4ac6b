//! What a throwable stands for, and the text it is rendered as.

use vstd::prelude::*;
use crate::entry::rendered_trace;
use crate::entry::StackEntryView;

verus! {

/// What a throwable stands for: a message, the trace gathered so far with the
/// most recent entry first, and the throwable that caused it, if any.
pub struct ThrowableView {
    /// The text that says why the throwable was raised.
    pub message: Seq<char>,
    /// The boundaries crossed so far, the most recent one first.
    pub trace: Seq<StackEntryView>,
    /// The throwable that caused this one.
    pub cause: Option<Box<ThrowableView>>,
}

impl ThrowableView {
    /// A throwable that has just been made from a message: it has crossed no
    /// boundary and has no cause.
    pub open spec fn fresh(message: Seq<char>) -> ThrowableView {
        ThrowableView { message, trace: Seq::empty(), cause: None }
    }

    /// A throwable that has just been made from a message and the throwable
    /// that caused it.
    pub open spec fn wrapping(message: Seq<char>, cause: ThrowableView) -> ThrowableView {
        ThrowableView { message, trace: Seq::empty(), cause: Some(Box::new(cause)) }
    }

    /// The throwable after it has crossed one more boundary: the new entry
    /// stands at the front of the trace, everything else is as before.
    pub open spec fn pushed(self, entry: StackEntryView) -> ThrowableView {
        ThrowableView { trace: seq![entry] + self.trace, ..self }
    }

    /// The throwable after it has crossed the boundaries `hops` one after the
    /// other, `hops[0]` first.
    pub open spec fn propagated(self, hops: Seq<StackEntryView>) -> ThrowableView
        decreases hops.len(),
    {
        if hops.len() == 0 {
            self
        } else {
            self.propagated(hops.drop_last()).pushed(hops.last())
        }
    }

    /// The number of causes below this throwable.
    pub open spec fn depth(self) -> nat
        decreases self,
    {
        match self.cause {
            Some(cause) => 1 + cause.depth(),
            None => 0,
        }
    }

    /// The text of the throwable itself, without its cause: the message on a
    /// line of its own, then one line for each entry of the trace.
    pub open spec fn rendered_frame(self) -> Seq<char> {
        self.message + seq!['\n'] + rendered_trace(self.trace)
    }

    /// The whole text of the throwable: its own frame and then, if it has a
    /// cause, the words `Caused by: ` with the whole text of the cause right
    /// behind them.
    pub open spec fn rendered(self) -> Seq<char>
        decreases self,
    {
        self.rendered_frame() + rendered_cause(self.cause)
    }
}

/// The text that a cause adds behind the frame of the throwable it caused.
pub open spec fn rendered_cause(cause: Option<Box<ThrowableView>>) -> Seq<char>
    decreases cause,
{
    match cause {
        Some(c) => caused_by() + c.rendered(),
        None => Seq::empty(),
    }
}

/// The words that stand between a throwable and its cause.
pub open spec fn caused_by() -> Seq<char> {
    seq!['C', 'a', 'u', 's', 'e', 'd', ' ', 'b', 'y', ':', ' ']
}

/// After a throwable has crossed the boundaries `hops`, innermost first, its
/// trace holds them in reverse, the outermost at the front, ahead of whatever
/// the trace held before. So the front of the trace is the boundary crossed
/// last, and where the trace was empty at the start, it is exactly the
/// boundaries in reverse and ends with the one crossed first. Message and
/// cause are as they were.
pub proof fn lemma_propagated_trace(t: ThrowableView, hops: Seq<StackEntryView>)
    ensures
        t.propagated(hops).trace == hops.reverse() + t.trace,
        t.trace.len() == 0 ==> t.propagated(hops).trace == hops.reverse(),
        hops.len() > 0 ==> t.propagated(hops).trace.first() == hops.last(),
        hops.len() > 0 && t.trace.len() == 0 ==> t.propagated(hops).trace.last() == hops.first(),
        t.propagated(hops).message == t.message,
        t.propagated(hops).cause == t.cause,
    decreases hops.len(),
{
    if hops.len() > 0 {
        lemma_propagated_trace(t, hops.drop_last());
    }
}

/// A throwable that was made from a message alone and has crossed no boundary
/// is rendered as its message and a line feed, and nothing else.
pub proof fn lemma_fresh_rendered(message: Seq<char>)
    ensures
        ThrowableView::fresh(message).rendered() == message + seq!['\n'],
{
}

/// A throwable made from a message and a cause holds that cause whole: its
/// message, its trace and its own cause are those of the throwable that was
/// handed in.
pub proof fn lemma_wrapping_keeps_cause(message: Seq<char>, cause: ThrowableView)
    ensures
        ThrowableView::wrapping(message, cause).cause is Some,
        *ThrowableView::wrapping(message, cause).cause->0 == cause,
        ThrowableView::wrapping(message, cause).cause->0.message == cause.message,
        ThrowableView::wrapping(message, cause).cause->0.trace == cause.trace,
        ThrowableView::wrapping(message, cause).cause->0.cause == cause.cause,
        ThrowableView::wrapping(message, cause).message == message,
        ThrowableView::wrapping(message, cause).trace.len() == 0,
{
}

} // verus!
