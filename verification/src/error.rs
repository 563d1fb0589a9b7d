use vstd::prelude::*;

verus! {

/// Why a grant or a read was refused. Both are recoverable: the caller
/// retries after the other side has made progress, or after it has handed
/// back the grant it still holds.
#[derive(Debug, PartialEq, Eq, Structural, Copy, Clone)]
pub enum Error {
    /// No contiguous region of the requested size (or, for a read or an
    /// up-to-size grant, no byte at all) is available.
    InsufficientSize,
    /// The caller already holds a grant of this kind.
    GrantInProgress,
}

} // verus!
