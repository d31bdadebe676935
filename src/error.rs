use vstd::prelude::*;

verus! {

/// What can go wrong while a reply is built.
#[derive(Clone, Debug, PartialEq, Eq)]
pub enum Error {
    /// The incoming message has no usable header: its serial is zero or a
    /// header field that its kind of message needs is missing.
    InvalidHeader,
    /// A string breaks the grammar of error names.
    InvalidName,
    /// An error type could not build its reply.
    Failure(String),
}

} // verus!
