use vstd::prelude::*;

verus! {

/// The failure surfaced when the bus transport cannot be opened, configured
/// or written to.  It carries the underlying transport failure reason as
/// text and is always handed back to the caller as a recoverable result.
#[derive(Debug)]
pub struct TransportError {
    /// The underlying transport failure reason, as text.
    pub reason: String,
}

impl TransportError {
    /// Wrap an underlying transport failure reason.
    pub fn new(reason: String) -> (e: TransportError)
        ensures
            e.reason@ == reason@,
    {
        TransportError { reason }
    }

    /// The underlying failure reason, as text.
    pub fn reason(&self) -> (r: &String)
        ensures
            r@ == self.reason@,
    {
        &self.reason
    }
}

} // verus!
