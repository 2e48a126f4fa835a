use vstd::prelude::*;

verus! {

/// The kinds of error that a waPC host reports.
#[derive(Debug)]
pub enum ErrorKind {
    /// A guest call failed; the message says why.
    GuestCallFailure(String),
}

/// An error of the waPC host.
#[derive(Debug)]
pub struct Error {
    pub kind: ErrorKind,
}

/// Creates an error of the given kind.
pub fn new(kind: ErrorKind) -> (e: Error)
    ensures
        e.kind == kind,
{
    Error { kind }
}

impl Error {
    /// The message that the error carries.
    pub open spec fn spec_message(&self) -> Seq<char> {
        match self.kind {
            ErrorKind::GuestCallFailure(s) => s@,
        }
    }

    /// The message that the error carries.
    pub fn message(&self) -> (m: String)
        ensures
            m@ == self.spec_message(),
    {
        match &self.kind {
            ErrorKind::GuestCallFailure(s) => s.clone(),
        }
    }
}

} // verus!
