use vstd::prelude::*;

verus! {

/// The ways in which an operation on a network can fail.
#[derive(Debug, Clone, Copy, PartialEq, Eq, Structural)]
pub enum NetworkError {
    /// The requested layer sizes have fewer than two entries, or an entry is zero.
    InvalidTopology,
    /// The input vector's length differs from the network's input width.
    DimensionMismatch,
    /// The persisted network could not be read or written.
    Io,
    /// The persisted content is malformed or does not describe a valid network.
    Deserialization,
}

} // verus!
