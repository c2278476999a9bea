//! The failures of the shim and what becomes of each at the native boundary.

use vstd::prelude::*;

verus! {

/// Why an operation could not complete.
#[derive(Clone, Copy, Debug, PartialEq, Eq, Structural)]
pub enum ShimError {
    /// The operation is declared but has no behaviour yet.
    Unimplemented,
    /// A file, a handle or a registry value is not there.
    NotFound,
    /// A handle refers to a value of another type than the one asked for.
    TypeMismatch,
    /// The host failed a read or a seek on a file that was already open.
    HostIo,
    /// The root directory has not been configured.
    Configuration,
    /// A search pattern is not valid glob syntax.
    InvalidPattern,
    /// Every handle value has been handed out.
    OutOfHandles,
}

/// What the boundary does with a failure.
#[derive(Clone, Copy, Debug, PartialEq, Eq, Structural)]
pub enum Disposition {
    /// The caller receives the interface's own sign of absence (a null
    /// pointer, `false`, an empty list) and goes on.
    Sentinel,
    /// The process stops.
    Abort,
}

impl ShimError {
    /// Only a missing resource is reported through a sentinel; every other
    /// failure stops the process.
    pub open spec fn spec_disposition(self) -> Disposition {
        match self {
            ShimError::NotFound => Disposition::Sentinel,
            _ => Disposition::Abort,
        }
    }

    /// What the boundary does with this failure.
    pub fn disposition(&self) -> (d: Disposition)
        ensures
            d == self.spec_disposition(),
    {
        match self {
            ShimError::NotFound => Disposition::Sentinel,
            _ => Disposition::Abort,
        }
    }

    /// Whether execution continues after this failure.
    pub fn is_recoverable(&self) -> (r: bool)
        ensures
            r == (self.spec_disposition() == Disposition::Sentinel),
    {
        match self {
            ShimError::NotFound => true,
            _ => false,
        }
    }
}

/// An operation that is not written yet stops the process: it never comes
/// back with a value that the engine could take for an answer. Of all
/// failures only a missing resource is answered with a sentinel.
pub proof fn lemma_unimplemented_aborts()
    ensures
        ShimError::Unimplemented.spec_disposition() == Disposition::Abort,
        forall|e: ShimError|
            e.spec_disposition() == Disposition::Sentinel <==> e == ShimError::NotFound,
{
}

} // verus!
