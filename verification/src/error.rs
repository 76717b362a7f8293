//! The two kinds of failure that the accessors report.

use vstd::prelude::*;
use vstd::std_specs::convert::FromSpecImpl;

verus! {

/// The code that the operating system left behind when a native call failed,
/// read right after that call and before any other.
#[derive(Debug, Clone, Copy, PartialEq, Eq, Hash, Structural)]
pub struct OsError {
    pub code: i32,
}

/// What went wrong, for the accessors that report no code.
#[derive(Debug, Clone, Copy, PartialEq, Eq, Hash, Structural)]
pub enum CapErrType {
    /// The broker refused the request.
    Invalid,
}

/// A failure of an accessor that reports a kind and no code.
#[derive(Debug, Clone, Copy, PartialEq, Eq, Hash, Structural)]
pub struct CapErr {
    pub kind: CapErrType,
}

pub type CapResult<T> = Result<T, CapErr>;

impl From<CapErrType> for CapErr {
    fn from(kind: CapErrType) -> (err: CapErr) {
        CapErr { kind }
    }
}

impl FromSpecImpl<CapErrType> for CapErr {
    open spec fn obeys_from_spec() -> bool {
        true
    }

    open spec fn from_spec(kind: CapErrType) -> CapErr {
        CapErr { kind }
    }
}

} // verus!
