//! The ways in which generation can fail.
use vstd::prelude::*;

verus! {

/// Why no code was generated.
#[derive(Clone, Copy, Debug, PartialEq, Eq, Structural)]
pub enum GenError {
    /// The schema holds something that was not recognised when it was decoded,
    /// or parts of it contradict each other.
    Malformed,
    /// The schema uses a construct for which no code can be generated.
    Unsupported,
    /// A name is empty where a first letter is needed, or holds a character
    /// that is not an ASCII letter or digit.
    InvalidIdentifier,
    /// A node that the generated code must refer to is not known.
    MissingNode,
    /// Nodes are nested more deeply than there are nodes.
    TooDeep,
}

/// `r` is the failure `error` if there is one, and otherwise a value that is
/// modelled by `value`.
pub open spec fn delivers<T: View>(
    r: Result<T, GenError>,
    error: Option<GenError>,
    value: T::V,
) -> bool {
    match error {
        Some(e) => r == Err::<T, GenError>(e),
        None => r is Ok && r->Ok_0@ == value,
    }
}

} // verus!
