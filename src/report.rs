use vstd::prelude::*;
use crate::counts::{CountResult, Counts};

verus! {

/// The character that writes the decimal digit `d`.
pub open spec fn digit_char(d: nat) -> char {
    if d == 0 { '0' }
    else if d == 1 { '1' }
    else if d == 2 { '2' }
    else if d == 3 { '3' }
    else if d == 4 { '4' }
    else if d == 5 { '5' }
    else if d == 6 { '6' }
    else if d == 7 { '7' }
    else if d == 8 { '8' }
    else { '9' }
}

/// `n` written in decimal, without leading zeros.
pub open spec fn decimal(n: nat) -> Seq<char>
    decreases n,
{
    if n < 10 {
        seq![digit_char(n)]
    } else {
        decimal(n / 10).push(digit_char(n % 10))
    }
}

/// The block that reports `c`: its label, then each count on a line of its own.
pub open spec fn report_text(c: Counts) -> Seq<char> {
    c.label + ":\n\tchar count: "@ + decimal(c.chars) + "\n\tline count: "@ + decimal(c.lines)
        + "\n\tword_count: "@ + decimal(c.words) + "\n"@
}

/// The line of dashes that stands above the totals.
pub open spec fn separator() -> Seq<char> {
    Seq::new(25, |i: int| '-')
}

/// Relies on `String::push`: it appends `c` at the end of `s`.
#[verifier::external_body]
fn push_char(s: &mut String, c: char)
    ensures
        final(s)@ == old(s)@.push(c),
{
    s.push(c)
}

/// The character that writes the decimal digit `d`.
fn digit(d: u64) -> (c: char)
    requires
        d < 10,
    ensures
        c == digit_char(d as nat),
{
    if d == 0 { '0' }
    else if d == 1 { '1' }
    else if d == 2 { '2' }
    else if d == 3 { '3' }
    else if d == 4 { '4' }
    else if d == 5 { '5' }
    else if d == 6 { '6' }
    else if d == 7 { '7' }
    else if d == 8 { '8' }
    else { '9' }
}

/// Appends `n`, written in decimal, to `s`.
fn push_decimal(s: &mut String, n: u64)
    ensures
        final(s)@ == old(s)@ + decimal(n as nat),
    decreases n,
{
    if n >= 10 {
        push_decimal(s, n / 10);
    }
    push_char(s, digit(n % 10));
    proof {
        assert(old(s)@ + decimal(n as nat) == s@);
    }
}

impl CountResult {
    /// The block that reports these counts.
    pub fn report(&self) -> (r: String)
        ensures
            r@ == report_text(self@),
    {
        let mut s = String::new();
        s.append(self.filename.as_str());
        s.append(":\n\tchar count: ");
        push_decimal(&mut s, self.char_count);
        s.append("\n\tline count: ");
        push_decimal(&mut s, self.line_count);
        s.append("\n\tword_count: ");
        push_decimal(&mut s, self.word_count);
        s.append("\n");
        s
    }

    /// The block that reports these counts as the totals, under a line of dashes.
    pub fn totals_report(&self) -> (r: String)
        ensures
            r@ == separator() + "\n"@ + report_text(self@),
    {
        let mut s = String::new();
        for i in 0..25usize
            invariant
                s@ == Seq::new(i as nat, |j: int| '-'),
        {
            push_char(&mut s, '-');
            proof {
                assert(s@ == Seq::new((i + 1) as nat, |j: int| '-'));
            }
        }
        s.append("\n");
        let block = self.report();
        s.append(block.as_str());
        s
    }
}

} // verus!
