use vstd::prelude::*;

verus! {

/// Why a network operation was refused. Every refusal happens before any
/// weight or bias is changed.
#[derive(Clone, Copy, Debug, PartialEq, Eq, Structural)]
pub enum NetworkError {
    /// A network was built without any layer.
    NoLayers,
    /// Matrix dimensions do not fit together.
    ShapeMismatch,
    /// The objective, or the pairing of an activation with the objective,
    /// has no defined math.
    NotImplemented,
    /// The batch size is zero.
    InvalidBatchSize,
}

} // verus!
