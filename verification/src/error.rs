use vstd::prelude::*;

verus! {

/// The recoverable failures this library reports to its callers.
#[derive(Clone, Copy, PartialEq, Eq, Structural, Debug)]
pub enum Error {
    /// The background fetch for the currently wanted identity completed
    /// without a payload; the caller sees cleared contents and this error.
    FetchFailed,
}

impl Error {
    /// A short, fixed description, for shells that want to display the error.
    pub fn describe(&self) -> (r: &'static str)
        ensures
            *self == Error::FetchFailed ==> r@ == "fetch failed"@,
    {
        match self {
            Error::FetchFailed => "fetch failed",
        }
    }
}

} // verus!
