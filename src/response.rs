use vstd::prelude::*;

verus! {

/// The envelope of every response: the exchange's error messages, passed
/// through verbatim, and the decoded payload when there is one.
#[derive(Debug)]
pub struct KrakenResponse<T> {
    pub error: Vec<String>,
    pub result: Option<T>,
}

impl<T> KrakenResponse<T> {
    /// The call succeeded exactly when no error is reported and a payload is present.
    pub open spec fn is_success(&self) -> bool {
        self.error@.len() == 0 && self.result is Some
    }

    pub fn success(&self) -> (r: bool)
        ensures
            r == self.is_success(),
    {
        self.error.is_empty() && self.result.is_some()
    }
}

} // verus!
