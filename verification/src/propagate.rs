//! What a call boundary does with a failure that passes through it.

use vstd::prelude::*;
use crate::convert::IntoThrowable;
use crate::entry::StackEntryView;
use crate::throwable::Throwable;
use crate::view::ThrowableView;

verus! {

/// Whether `t` is what `failure` becomes when it is thrown at `entry`: the
/// failure turned into a throwable, with `entry` pushed on its trace.
pub open spec fn thrown_at<E: IntoThrowable<T>, T: Throwable>(
    failure: E,
    entry: StackEntryView,
    t: ThrowableView,
) -> bool {
    exists|converted: ThrowableView| #[trigger]
        failure.converts_to(converted) && t == converted.pushed(entry)
}

/// Throws `failure` from the place that `file`, `line` and `expr` describe:
/// turns it into a throwable and records the place as the first boundary it
/// crosses. The caller hands the result on as its own failure.
pub fn throw<E: IntoThrowable<T>, T: Throwable>(
    failure: E,
    file: &'static str,
    line: u32,
    expr: &'static str,
) -> (t: T)
    ensures
        thrown_at::<E, T>(
            failure,
            (StackEntryView { file: file@, line: line as nat, expr: expr@ }),
            t@,
        ),
{
    let mut t = failure.into_throwable();
    t.push_stack(file, line, expr);
    t
}

/// Takes the outcome of a call at the boundary that `file`, `line` and `expr`
/// describe. A success passes through untouched. A failure is turned into a
/// throwable, the boundary is recorded at the front of its trace, and it
/// comes back as the failure of the caller.
pub fn catch<V, E: IntoThrowable<T>, T: Throwable>(
    outcome: Result<V, E>,
    file: &'static str,
    line: u32,
    expr: &'static str,
) -> (caught: Result<V, T>)
    ensures
        match outcome {
            Ok(value) => caught == Ok::<V, T>(value),
            Err(failure) => caught is Err && thrown_at::<E, T>(
                failure,
                (StackEntryView { file: file@, line: line as nat, expr: expr@ }),
                caught->Err_0@,
            ),
        },
{
    match outcome {
        Ok(value) => Ok(value),
        Err(failure) => Err(throw(failure, file, line, expr)),
    }
}

/// Reports a throwable at the place that `file`, `line` and `expr` describe:
/// records the place at the front of the trace and renders the throwable
/// with it. Rendering reads the throwable and changes nothing: afterwards it
/// is what it was before, but for the one new entry.
pub fn render_at<T: Throwable + ?Sized>(
    t: &mut T,
    file: &'static str,
    line: u32,
    expr: &'static str,
) -> (text: String)
    ensures
        final(t)@ == old(t)@.pushed(
            (StackEntryView { file: file@, line: line as nat, expr: expr@ }),
        ),
        text@ == final(t)@.rendered(),
{
    t.push_stack(file, line, expr);
    t.render_stack_trace()
}

} // verus!
