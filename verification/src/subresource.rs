use crate::desc::ResourceImageDesc;
use crate::error::ValidationError;
use vstd::prelude::*;

verus! {

/// A range over the mip levels and array layers of an image, used to scope
/// barriers, clears, and views to part of a resource.
///
/// There is no reserved "all" sentinel at this layer: a full range carries
/// the resource's actual counts. Whether a range fits a given resource is
/// the bounds invariant below; the validating constructor checks it once,
/// against the shape the caller passes, and raw field access trusts it
/// thereafter. Deriving ranges (such as the full range of a resource) is
/// the compiler's business.
#[derive(Clone, Copy, Debug, PartialEq, Eq, Hash, Structural)]
pub struct SubresourceRange {
    /// First mip level in the range.
    pub base_mip_level: u16,
    /// Number of mip levels in the range.
    pub mip_levels: u16,
    /// First array layer in the range.
    pub base_array_layer: u32,
    /// Number of array layers in the range.
    pub array_layers: u32,
}

impl SubresourceRange {
    /// The bounds invariant: the range ends within the declared mip-level
    /// and array-layer counts of the owning image shape.
    pub open spec fn spec_in_bounds(self, image: ResourceImageDesc) -> bool {
        &&& self.base_mip_level + self.mip_levels <= image.mip_levels
        &&& self.base_array_layer + self.array_layers <= image.depth_or_array_layers
    }

    /// Gathers the four range fields without validation.
    pub fn new(base_mip_level: u16, mip_levels: u16, base_array_layer: u32, array_layers: u32) -> (r:
        Self)
        ensures
            r == (SubresourceRange { base_mip_level, mip_levels, base_array_layer, array_layers }),
    {
        SubresourceRange { base_mip_level, mip_levels, base_array_layer, array_layers }
    }

    /// Validating constructor: accepts the range exactly when it ends
    /// within the declared extents of `image`.
    pub fn new_checked(
        base_mip_level: u16,
        mip_levels: u16,
        base_array_layer: u32,
        array_layers: u32,
        image: &ResourceImageDesc,
    ) -> (r: Result<Self, ValidationError>)
        ensures
            r is Ok <==> (SubresourceRange {
                base_mip_level,
                mip_levels,
                base_array_layer,
                array_layers,
            }).spec_in_bounds(*image),
            r matches Ok(s) ==> s == (SubresourceRange {
                base_mip_level,
                mip_levels,
                base_array_layer,
                array_layers,
            }),
            r matches Err(e) ==> e == ValidationError::InvalidSubresourceRange,
    {
        let mips_end: u32 = base_mip_level as u32 + mip_levels as u32;
        let layers_end: u64 = base_array_layer as u64 + array_layers as u64;
        if mips_end <= image.mip_levels && layers_end <= image.depth_or_array_layers as u64 {
            Ok(SubresourceRange { base_mip_level, mip_levels, base_array_layer, array_layers })
        } else {
            Err(ValidationError::InvalidSubresourceRange)
        }
    }

    /// Whether the range ends within the declared extents of `image`.
    pub fn is_in_bounds(&self, image: &ResourceImageDesc) -> (r: bool)
        ensures
            r == self.spec_in_bounds(*image),
    {
        let mips_end: u32 = self.base_mip_level as u32 + self.mip_levels as u32;
        let layers_end: u64 = self.base_array_layer as u64 + self.array_layers as u64;
        mips_end <= image.mip_levels && layers_end <= image.depth_or_array_layers as u64
    }
}

impl Default for SubresourceRange {
    /// The empty range at the origin.
    fn default() -> (r: Self)
        ensures
            r == (SubresourceRange {
                base_mip_level: 0u16,
                mip_levels: 0u16,
                base_array_layer: 0u32,
                array_layers: 0u32,
            }),
    {
        SubresourceRange { base_mip_level: 0, mip_levels: 0, base_array_layer: 0, array_layers: 0 }
    }
}

} // verus!
