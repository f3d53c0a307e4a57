//! The error type: one value classifying a failed resolution as a transport
//! failure or a decode failure, with the underlying cause kept for display.

use vstd::prelude::*;

verus! {

/// A failure of one resolution round-trip.
///
/// `Http` is a transport-level failure: the request could not complete, or
/// the server answered with a non-success status. `IO` is a decode failure:
/// a body was received but did not hold a well-formed answer document. Both
/// carry a description of the underlying cause.
#[derive(Debug)]
pub enum Error {
    Http(String),
    IO(String),
}

impl Error {
    /// A human-readable summary of the failure, prefixed by its kind.
    pub fn message(&self) -> (r: String)
        ensures
            self matches Error::Http(c) ==> r@ == "Http Error: "@ + c@,
            self matches Error::IO(c) ==> r@ == "Decode Error: "@ + c@,
    {
        match self {
            Error::Http(c) => {
                let mut s = String::from_str("Http Error: ");
                s.append(c.as_str());
                s
            },
            Error::IO(c) => {
                let mut s = String::from_str("Decode Error: ");
                s.append(c.as_str());
                s
            },
        }
    }
}

} // verus!
