use vstd::prelude::*;
use crate::counts::{counts_of, merge, others_in, spaces_in, terminators_in, Counts};

verus! {

/// Merging two results into a total gives the same total in either order.
pub proof fn lemma_merge_order_free(total: Counts, a: Counts, b: Counts)
    ensures
        merge(merge(total, a), b) == merge(merge(total, b), a),
{
}

/// Merging `a` and then `b` into a total is merging their sum into it once.
pub proof fn lemma_merge_associative(total: Counts, a: Counts, b: Counts)
    ensures
        merge(merge(total, a), b) == merge(total, merge(a, b)),
{
}

/// Each count of a concatenation is the sum of the counts of its parts.
pub proof fn lemma_counts_add_up(a: Seq<char>, b: Seq<char>)
    ensures
        spaces_in(a + b) == spaces_in(a) + spaces_in(b),
        others_in(a + b) == others_in(a) + others_in(b),
        terminators_in(a + b) == terminators_in(a) + terminators_in(b),
    decreases b.len(),
{
    if b.len() == 0 {
        assert(a + b == a);
    } else {
        lemma_counts_add_up(a, b.drop_last());
        assert((a + b).drop_last() == a + b.drop_last());
    }
}

/// A line with no line feed before its last character holds at most one line
/// feed, at its end.
proof fn lemma_single_line_terminators(line: Seq<char>)
    requires
        forall|i: int| 0 <= i < line.len() - 1 ==> line[i] != '\n',
    ensures
        terminators_in(line) == if line.len() > 0 && line.last() == '\n' { 1nat } else { 0nat },
    decreases line.len(),
{
    if line.len() > 0 {
        let front = line.drop_last();
        lemma_single_line_terminators(front);
        if front.len() > 0 {
            assert(front.last() == line[line.len() - 2]);
        }
    }
}

/// Counting a text one line at a time, as a line reader hands the lines out,
/// gives its counts: after the text `done`, which is empty or ends a line, a
/// line `line` adds one line and the characters of `line`.
pub proof fn lemma_count_by_lines(label: Seq<char>, done: Seq<char>, line: Seq<char>)
    requires
        done.len() == 0 || done.last() == '\n',
        line.len() > 0,
        forall|i: int| 0 <= i < line.len() - 1 ==> line[i] != '\n',
    ensures
        counts_of(label, done + line) == (Counts {
            label,
            chars: counts_of(label, done).chars + others_in(line),
            lines: counts_of(label, done).lines + 1,
            words: counts_of(label, done).words + spaces_in(line),
        }),
{
    lemma_counts_add_up(done, line);
    lemma_single_line_terminators(line);
    assert((done + line).last() == line.last());
}

} // verus!
