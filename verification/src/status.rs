//! Collection status reported by the vendor runtime, and its classification
//! into terminal and non-terminal values.

use vstd::prelude::*;

verus! {

/// Where the vendor's asynchronous crash-dump collection pipeline currently
/// stands, as reported by its status query.
///
/// `Finished` and `CollectionFailed` are terminal: once either is observed,
/// no further state change will occur for the current crash dump. All other
/// values warrant continued polling.
#[derive(Clone, Copy, PartialEq, Eq, Structural, Debug)]
pub enum CollectionStatus {
    /// No crash dump activity is known to the runtime.
    Unknown,
    /// The runtime is still collecting data for a crash dump.
    InProgress,
    /// Collection completed and the dump was delivered.
    Finished,
    /// Collection was attempted but failed; no further progress will occur.
    CollectionFailed,
    /// The runtime reported a value outside its documented range.
    Invalid,
}

impl CollectionStatus {
    /// A status is terminal when no further state change can follow it.
    pub open spec fn spec_is_terminal(&self) -> bool {
        self is Finished || self is CollectionFailed
    }

    /// Decides whether polling may stop: true exactly for the two terminal
    /// statuses.
    #[verifier::when_used_as_spec(spec_is_terminal)]
    pub fn is_terminal(&self) -> (r: bool)
        ensures
            r == self.spec_is_terminal(),
    {
        match self {
            CollectionStatus::Finished => true,
            CollectionStatus::CollectionFailed => true,
            _ => false,
        }
    }
}

} // verus!
