//! Failures of the guestbook core.
use vstd::prelude::*;

verus! {

/// Why a submission or a repository operation failed.
#[derive(Clone, Copy, Debug, PartialEq, Eq, Structural)]
pub enum Fault {
    /// An attachment could not be written.
    Storage,
    /// The repository refused the operation.
    Persistence,
    /// A text field was not valid UTF-8.
    Decode,
}

} // verus!
