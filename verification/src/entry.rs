//! One hop of a stack trace and the text it is rendered as.

use vstd::prelude::*;
use crate::decimal::append_decimal;
use crate::decimal::decimal;

verus! {

/// One entry of a stack trace: the place where a failure crossed a call
/// boundary. It is written once, when the boundary is crossed, and belongs to
/// the trace it was pushed on.
pub struct StackEntry {
    /// The file where the entry was recorded.
    pub file: &'static str,
    /// The line in that file.
    pub line: u32,
    /// The text of the expression that failed there.
    pub expr: &'static str,
}

/// What a [`StackEntry`] stands for: two texts and a line number.
pub struct StackEntryView {
    /// The name of the file.
    pub file: Seq<char>,
    /// The line in that file.
    pub line: nat,
    /// The text of the expression.
    pub expr: Seq<char>,
}

impl View for StackEntry {
    type V = StackEntryView;

    open spec fn view(&self) -> StackEntryView {
        StackEntryView { file: self.file@, line: self.line as nat, expr: self.expr@ }
    }
}

impl StackEntryView {
    /// The line that this entry is rendered as: a tab, `at`, the expression,
    /// then file and line in square brackets, and a line feed.
    pub open spec fn rendered(self) -> Seq<char> {
        seq!['\t', 'a', 't', ' '] + self.expr + seq![' ', '['] + self.file + seq![':'] + decimal(
            self.line,
        ) + seq![']', '\n']
    }
}

/// The views of the entries of a trace, in the order of the trace.
pub open spec fn trace_view(entries: Seq<StackEntry>) -> Seq<StackEntryView> {
    entries.map_values(|entry: StackEntry| entry@)
}

/// The lines of a trace, one after the other, front to back.
pub open spec fn rendered_trace(trace: Seq<StackEntryView>) -> Seq<char>
    decreases trace.len(),
{
    if trace.len() == 0 {
        Seq::empty()
    } else {
        rendered_trace(trace.drop_last()) + trace.last().rendered()
    }
}

/// Appends the rendered line of `entry` to `out`.
pub(crate) fn append_entry(out: &mut String, entry: &StackEntry)
    ensures
        final(out)@ == old(out)@ + entry@.rendered(),
{
    proof {
        reveal_strlit("\tat ");
        reveal_strlit(" [");
        reveal_strlit(":");
        reveal_strlit("]\n");
    }
    out.append("\tat ");
    out.append(entry.expr);
    out.append(" [");
    out.append(entry.file);
    out.append(":");
    append_decimal(out, entry.line);
    out.append("]\n");
}

/// Appends the rendered lines of `entries` to `out`, front to back.
pub(crate) fn append_trace(out: &mut String, entries: &Vec<StackEntry>)
    ensures
        final(out)@ == old(out)@ + rendered_trace(trace_view(entries@)),
{
    let ghost trace = trace_view(entries@);
    let mut i: usize = 0;
    while i < entries.len()
        invariant
            i <= entries.len(),
            trace == trace_view(entries@),
            out@ == old(out)@ + rendered_trace(trace.take(i as int)),
        decreases entries.len() - i,
    {
        append_entry(out, &entries[i]);
        assert(trace.take(i + 1).drop_last() =~= trace.take(i as int));
        i += 1;
    }
    assert(trace.take(i as int) =~= trace);
}

} // verus!
