use vstd::prelude::*;
use crate::counts::{CountResult, merge};

verus! {

/// Why a run produced no totals, or why a file produced no counts.
pub enum CountError {
    /// No file was named on the command line.
    NoFilenameSpecified,
    /// A file could not be opened or read; the text says why.
    IOError(String),
}

/// What a run does when a file cannot be counted.
#[derive(Clone, Copy, PartialEq, Eq, Structural)]
pub enum ErrorPolicy {
    /// Report the failure and stop: no further file, and no totals.
    StopAtFirst,
    /// Report the failure, leave the file out of the totals, and go on.
    ContinueOnError,
}

/// What a run does after one file.
pub enum Next {
    /// The file was counted and merged into the totals: print its block and go on.
    Counted(CountResult),
    /// The file failed: report the error and go on with the next file.
    Skipped(CountError),
    /// The file failed: report the error and stop without totals.
    Abort(CountError),
}

/// The user-facing text of the error `e`.
pub open spec fn message_text(e: CountError) -> Seq<char> {
    match e {
        CountError::NoFilenameSpecified => "ERROR: No filename specified"@,
        CountError::IOError(detail) => "ERROR: "@ + detail@,
    }
}

impl CountError {
    /// The text that reports this error to the user.
    pub fn message(&self) -> (r: String)
        ensures
            r@ == message_text(*self),
    {
        match self {
            CountError::NoFilenameSpecified => {
                let mut s = String::new();
                s.append("ERROR: No filename specified");
                s
            },
            CountError::IOError(detail) => {
                let mut s = String::new();
                s.append("ERROR: ");
                s.append(detail.as_str());
                s
            },
        }
    }
}

/// Checks the command line `args`, the program's name first: at least one file
/// must follow it.
pub fn check_arguments(args: &Vec<String>) -> (r: Result<(), CountError>)
    ensures
        args.len() <= 1 ==> r matches Err(CountError::NoFilenameSpecified),
        args.len() > 1 ==> r is Ok,
{
    if args.len() <= 1 {
        Err(CountError::NoFilenameSpecified)
    } else {
        Ok(())
    }
}

/// Takes what counting one file gave, `outcome`: counts that are merged into
/// `total`, or the text of an I/O failure that `policy` turns into a skip or a stop.
pub fn record_outcome(
    total: &mut CountResult,
    outcome: Result<CountResult, String>,
    policy: ErrorPolicy,
) -> (r: Next)
    requires
        outcome matches Ok(res) ==> {
            &&& old(total).char_count + res.char_count <= u64::MAX
            &&& old(total).line_count + res.line_count <= u64::MAX
            &&& old(total).word_count + res.word_count <= u64::MAX
        },
    ensures
        outcome matches Ok(res) ==> {
            &&& final(total)@ == merge(old(total)@, res@)
            &&& r matches Next::Counted(c) && c@ == res@
        },
        outcome matches Err(detail) ==> {
            &&& final(total)@ == old(total)@
            &&& policy == ErrorPolicy::StopAtFirst ==> (r matches Next::Abort(
                CountError::IOError(d),
            ) && d@ == detail@)
            &&& policy == ErrorPolicy::ContinueOnError ==> (r matches Next::Skipped(
                CountError::IOError(d),
            ) && d@ == detail@)
        },
{
    match outcome {
        Ok(res) => {
            total.increment_by(&res);
            Next::Counted(res)
        },
        Err(detail) => {
            match policy {
                ErrorPolicy::StopAtFirst => Next::Abort(CountError::IOError(detail)),
                ErrorPolicy::ContinueOnError => Next::Skipped(CountError::IOError(detail)),
            }
        },
    }
}

} // verus!
