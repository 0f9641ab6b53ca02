use vstd::prelude::*;

verus! {

/// Numeric handle by which the render graph refers to a declared resource.
pub type ResourceId = u32;

/// Reserved handle value meaning "no resource".
pub const RESOURCE_ID_INVALID: u32 = u32::MAX;

/// Kind of a resource, stored as the 32-bit code shared with the external
/// render-graph interface.
///
/// The codes form a closed range `[UNKNOWN, COUNT)`; `COUNT` is a sentinel
/// that bounds the valid range and is not itself a runtime kind. `from_raw`
/// deliberately accepts any code and preserves it verbatim, so descriptors
/// carrying a kind defined by a future revision of the external interface
/// still pass through this core; consumers that need a known kind gate on
/// `is_valid`.
#[derive(Clone, Copy, Debug, PartialEq, Eq, Hash, Structural)]
pub struct ResourceType {
    raw: u32,
}

impl ResourceType {
    /// Code of the unknown kind.
    pub const UNKNOWN: u32 = 0;
    /// Code of the buffer kind.
    pub const BUFFER: u32 = 1;
    /// Code of the one-dimensional image kind.
    pub const IMAGE_1D: u32 = 2;
    /// Code of the two-dimensional image kind.
    pub const IMAGE_2D: u32 = 3;
    /// Code of the three-dimensional image kind.
    pub const IMAGE_3D: u32 = 4;
    /// One past the last defined kind; bounds the valid range and is not a
    /// valid runtime kind itself.
    pub const COUNT: u32 = 5;

    /// The 32-bit code this kind is stored as.
    pub closed spec fn spec_raw(self) -> u32 {
        self.raw
    }

    /// The kind denoted by a raw code; total, mirroring `from_raw`.
    pub closed spec fn spec_from_raw(raw: u32) -> ResourceType {
        ResourceType { raw }
    }

    /// A kind consumers may act on: any code below the count sentinel.
    pub open spec fn spec_is_valid(self) -> bool {
        self.spec_raw() < Self::COUNT
    }

    /// The buffer kind.
    pub open spec fn spec_is_buffer(self) -> bool {
        self.spec_raw() == Self::BUFFER
    }

    /// One of the three image kinds.
    pub open spec fn spec_is_image(self) -> bool {
        Self::IMAGE_1D <= self.spec_raw() <= Self::IMAGE_3D
    }

    /// Wraps a raw code without validation; out-of-range codes are kept
    /// verbatim and rejected later by consumers that enforce `is_valid`.
    pub fn from_raw(raw: u32) -> (r: Self)
        ensures
            r == Self::spec_from_raw(raw),
            r.spec_raw() == raw,
    {
        ResourceType { raw }
    }

    /// The raw code, unchanged from construction.
    pub fn as_raw(self) -> (r: u32)
        ensures
            r == self.spec_raw(),
    {
        self.raw
    }

    /// Whether the code lies below the count sentinel.
    pub fn is_valid(self) -> (r: bool)
        ensures
            r == self.spec_is_valid(),
    {
        self.raw < Self::COUNT
    }

    /// Whether this is the buffer kind.
    pub fn is_buffer(self) -> (r: bool)
        ensures
            r == self.spec_is_buffer(),
    {
        self.raw == Self::BUFFER
    }

    /// Whether this is one of the image kinds.
    pub fn is_image(self) -> (r: bool)
        ensures
            r == self.spec_is_image(),
    {
        Self::IMAGE_1D <= self.raw && self.raw <= Self::IMAGE_3D
    }
}

impl Default for ResourceType {
    /// The unknown kind.
    fn default() -> (r: Self)
        ensures
            r == ResourceType::spec_from_raw(ResourceType::UNKNOWN),
    {
        ResourceType { raw: 0 }
    }
}

/// Codes below the count sentinel round-trip through `from_raw` exactly:
/// decoding such a code yields the kind whose code it is — the named kind
/// with that code — and that kind is valid. Distinct codes decode to
/// distinct kinds.
pub proof fn lemma_kind_code_round_trip(j: u32, k: u32)
    requires
        k < ResourceType::COUNT,
    ensures
        ResourceType::spec_from_raw(k).spec_raw() == k,
        ResourceType::spec_from_raw(k).spec_is_valid(),
        ResourceType::spec_from_raw(j) == ResourceType::spec_from_raw(k) ==> j == k,
{
}

/// Numeric format code shared with the external render-graph interface.
///
/// This core treats formats as opaque codes: the compiler and backend give
/// them meaning. The code selects, among other things, whether a paired
/// clear value is read as color lanes or as a depth/stencil pair.
#[derive(Clone, Copy, Debug, PartialEq, Eq, Hash, Structural)]
pub struct Format {
    raw: u32,
}

impl Format {
    /// Code of the unknown format.
    pub const UNKNOWN: u32 = 0;

    /// The 32-bit code this format is stored as.
    pub closed spec fn spec_raw(self) -> u32 {
        self.raw
    }

    /// The format denoted by a raw code; total, mirroring `from_raw`.
    pub closed spec fn spec_from_raw(raw: u32) -> Format {
        Format { raw }
    }

    /// Wraps a raw format code without validation.
    pub fn from_raw(raw: u32) -> (r: Self)
        ensures
            r == Self::spec_from_raw(raw),
            r.spec_raw() == raw,
    {
        Format { raw }
    }

    /// The raw code, unchanged from construction.
    pub fn as_raw(self) -> (r: u32)
        ensures
            r == self.spec_raw(),
    {
        self.raw
    }
}

impl Default for Format {
    /// The unknown format.
    fn default() -> (r: Self)
        ensures
            r == Format::spec_from_raw(Format::UNKNOWN),
    {
        Format { raw: 0 }
    }
}

} // verus!
