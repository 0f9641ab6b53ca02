use vstd::prelude::*;

verus! {

/// Why a validating constructor rejected its input.
///
/// Validation happens once, where the graph-building API accepts user
/// input; raw field access performs no validation and trusts the external
/// interchange contract.
#[derive(Clone, Copy, Debug, PartialEq, Eq, Hash, Structural)]
pub enum ValidationError {
    /// A resource kind code at or above the count sentinel.
    InvalidKind,
    /// A temporal layer count outside `[1, RESOURCE_MAX_TEMPORAL_LAYERS]`.
    InvalidTemporalLayerCount,
    /// A subresource range exceeding the resource's declared extents.
    InvalidSubresourceRange,
    /// A render-target count exceeding the fixed slot capacity.
    InvalidRenderTargetCount,
}

} // verus!
