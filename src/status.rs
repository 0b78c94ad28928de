use vstd::prelude::*;

verus! {

/// Why a run of the pipeline produced no properties file.
#[derive(Clone, Copy, Debug, PartialEq, Eq, Structural)]
pub enum Failure {
    /// The repository path could not be read as text.
    RepoPathUnreadable,
    /// The output path could not be read as text.
    OutputPathUnreadable,
    /// No repository could be opened there, or HEAD named no commit.
    NotARepository,
    /// Writing the properties file failed.
    WriteFailed,
}

pub open spec fn spec_code(f: Failure) -> i32 {
    match f {
        Failure::RepoPathUnreadable => 0x11,
        Failure::OutputPathUnreadable => 0x12,
        Failure::NotARepository => 0x21,
        Failure::WriteFailed => 0x22,
    }
}

/// The status that a native caller receives: zero for success, otherwise
/// the failure's code.
pub open spec fn spec_status(outcome: Result<(), Failure>) -> i32 {
    match outcome {
        Ok(()) => 0,
        Err(f) => spec_code(f),
    }
}

impl Failure {
    pub fn code(&self) -> (r: i32)
        ensures
            r == spec_code(*self),
            r != 0,
    {
        match self {
            Failure::RepoPathUnreadable => 0x11,
            Failure::OutputPathUnreadable => 0x12,
            Failure::NotARepository => 0x21,
            Failure::WriteFailed => 0x22,
        }
    }
}

pub fn status_code(outcome: Result<(), Failure>) -> (r: i32)
    ensures
        r == spec_status(outcome),
        (r == 0) == (outcome is Ok),
{
    match outcome {
        Ok(()) => 0,
        Err(f) => f.code(),
    }
}

/// Distinct failures give distinct codes, so a caller can tell them apart.
pub proof fn lemma_codes_distinct(a: Failure, b: Failure)
    ensures
        (spec_code(a) == spec_code(b)) == (a == b),
{
}

/// Where a command-line run needs exactly a repository path and an output
/// path: the argument count, program name included, that it accepts.
pub fn arguments_accepted(count: usize) -> (r: bool)
    ensures
        r == (count == 3),
{
    count == 3
}

} // verus!
