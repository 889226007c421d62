use vstd::prelude::*;

verus! {

/// Whether `c` has Unicode's White_Space property, as `char::is_whitespace` answers it.
pub uninterp spec fn white_space(c: char) -> bool;

/// Relies on `char::is_whitespace`: its answer depends on the character alone.
#[verifier::external_body]
fn is_white_space(c: char) -> (r: bool)
    ensures
        r == white_space(c),
{
    c.is_whitespace()
}

/// The number of white-space characters in `s`.
pub open spec fn spaces_in(s: Seq<char>) -> nat
    decreases s.len(),
{
    if s.len() == 0 {
        0
    } else {
        spaces_in(s.drop_last()) + if white_space(s.last()) { 1nat } else { 0nat }
    }
}

/// The number of characters in `s` that are not white space.
pub open spec fn others_in(s: Seq<char>) -> nat
    decreases s.len(),
{
    if s.len() == 0 {
        0
    } else {
        others_in(s.drop_last()) + if white_space(s.last()) { 0nat } else { 1nat }
    }
}

/// The number of line feeds in `s`.
pub open spec fn terminators_in(s: Seq<char>) -> nat
    decreases s.len(),
{
    if s.len() == 0 {
        0
    } else {
        terminators_in(s.drop_last()) + if s.last() == '\n' { 1nat } else { 0nat }
    }
}

/// The number of lines in `s`: one for each line feed, and one more for a
/// non-empty last line that no line feed ends.
pub open spec fn lines_in(s: Seq<char>) -> nat {
    terminators_in(s) + if s.len() > 0 && s.last() != '\n' { 1nat } else { 0nat }
}

/// The mathematical value of a `CountResult`.
pub struct Counts {
    pub label: Seq<char>,
    pub chars: nat,
    pub lines: nat,
    pub words: nat,
}

/// The counts of the text `text` under the label `label`.
pub open spec fn counts_of(label: Seq<char>, text: Seq<char>) -> Counts {
    Counts { label, chars: others_in(text), lines: lines_in(text), words: spaces_in(text) }
}

/// `total` with the counts of `incoming` added; the label of `total` stays.
pub open spec fn merge(total: Counts, incoming: Counts) -> Counts {
    Counts {
        label: total.label,
        chars: total.chars + incoming.chars,
        lines: total.lines + incoming.lines,
        words: total.words + incoming.words,
    }
}

/// The counts for one named source: a file, or the running total.
pub struct CountResult {
    pub filename: String,
    pub char_count: u64,
    pub line_count: u64,
    pub word_count: u64,
}

impl View for CountResult {
    type V = Counts;

    open spec fn view(&self) -> Counts {
        Counts {
            label: self.filename@,
            chars: self.char_count as nat,
            lines: self.line_count as nat,
            words: self.word_count as nat,
        }
    }
}

/// Every character of `s` is counted once: as white space or as another character.
pub proof fn lemma_every_char_classified(s: Seq<char>)
    ensures
        spaces_in(s) + others_in(s) == s.len(),
    decreases s.len(),
{
    if s.len() > 0 {
        lemma_every_char_classified(s.drop_last());
    }
}

/// There are no more lines in `s` than characters.
proof fn lemma_lines_bounded(s: Seq<char>)
    ensures
        terminators_in(s) <= s.len(),
        lines_in(s) <= s.len(),
    decreases s.len(),
{
    if s.len() > 0 {
        lemma_lines_bounded(s.drop_last());
    }
}

impl CountResult {
    /// A result for `filename` with every count at zero.
    pub fn new(filename: &str) -> (r: CountResult)
        ensures
            r@ == (Counts { label: filename@, chars: 0, lines: 0, words: 0 }),
    {
        CountResult { filename: filename.to_string(), char_count: 0, line_count: 0, word_count: 0 }
    }

    /// Adds the counts of `other` to these; the label stays.
    pub fn increment_by(&mut self, other: &Self)
        requires
            old(self).char_count + other.char_count <= u64::MAX,
            old(self).line_count + other.line_count <= u64::MAX,
            old(self).word_count + other.word_count <= u64::MAX,
        ensures
            final(self)@ == merge(old(self)@, other@),
    {
        self.char_count = self.char_count + other.char_count;
        self.line_count = self.line_count + other.line_count;
        self.word_count = self.word_count + other.word_count;
    }

    /// Counts one line as a line reader hands it out, its line feed included:
    /// one more line, and each of its characters as white space or not.
    pub fn count_line(&mut self, line: &str)
        requires
            old(self).line_count < u64::MAX,
            old(self).char_count + line@.len() <= u64::MAX,
            old(self).word_count + line@.len() <= u64::MAX,
        ensures
            final(self)@ == (Counts {
                label: old(self)@.label,
                chars: old(self)@.chars + others_in(line@),
                lines: old(self)@.lines + 1,
                words: old(self)@.words + spaces_in(line@),
            }),
    {
        self.line_count = self.line_count + 1;
        let ghost start = *self;
        for c in it: line.chars()
            invariant
                it.seq() == line@,
                start.char_count + line@.len() <= u64::MAX,
                start.word_count + line@.len() <= u64::MAX,
                self@ == (Counts {
                    label: start@.label,
                    chars: start@.chars + others_in(line@.take(it.index() as int)),
                    lines: start@.lines,
                    words: start@.words + spaces_in(line@.take(it.index() as int)),
                }),
        {
            let ghost done = line@.take(it.index() as int);
            proof {
                assert(line@.take(it.index() + 1).drop_last() == done);
                lemma_every_char_classified(done);
            }
            if is_white_space(c) {
                self.word_count = self.word_count + 1;
            } else {
                self.char_count = self.char_count + 1;
            }
        }
        proof {
            assert(line@.take(line@.len() as int) == line@);
        }
    }
}

/// Counts the text `text` under the label `filename`, line by line as a line
/// reader splits it: each line ends at a line feed or at the end of the text.
pub fn count_text(filename: &str, text: &str) -> (r: CountResult)
    ensures
        r@ == counts_of(filename@, text@),
        r.char_count + r.word_count == text@.len(),
{
    let length: usize = text.unicode_len();
    let mut r = CountResult::new(filename);
    let mut at_line_start = true;
    for c in it: text.chars()
        invariant
            it.seq() == text@,
            text@.len() == length,
            r@ == counts_of(filename@, text@.take(it.index() as int)),
            at_line_start == (it.index() == 0 || text@[it.index() - 1] == '\n'),
    {
        let ghost done = text@.take(it.index() as int);
        proof {
            assert(text@.take(it.index() + 1).drop_last() == done);
            lemma_every_char_classified(done);
            lemma_lines_bounded(done);
        }
        if at_line_start {
            r.line_count = r.line_count + 1;
        }
        if is_white_space(c) {
            r.word_count = r.word_count + 1;
        } else {
            r.char_count = r.char_count + 1;
        }
        at_line_start = c == '\n';
    }
    proof {
        assert(text@.take(text@.len() as int) == text@);
        lemma_every_char_classified(text@);
    }
    r
}

} // verus!
