use vstd::prelude::*;

verus! {

// Each flag set below is a 32-bit word whose defined bits are part of the
// stable interchange contract with the render-graph compiler and backend.
// The well-formedness invariant of every set is that no bit outside the
// defined mask is on; constructors establish it and the bitwise operations
// preserve it. No combination of defined bits is rejected at this layer:
// combination validity is the compiler's business.

/// Creation hints for a resource declaration.
#[derive(Clone, Copy, Debug, PartialEq, Eq, Hash, Structural)]
pub struct ResourceFlags {
    bits: u32,
}

impl ResourceFlags {
    /// No hint requested.
    pub const NONE: u32 = 0;
    /// The image may back a cubemap view.
    pub const CUBEMAP_COMPATIBLE: u32 = 0x2;
    /// The image prefers a row-major memory layout.
    pub const ROWMAJOR_IMAGE: u32 = 0x4;
    /// Prefer memory that is GPU-local yet CPU-visible.
    pub const PREFER_GPU_LOCAL_CPU_VISIBLE: u32 = 0x8;
    /// Prefer a dedicated allocation over a suballocation.
    pub const PREFER_DEDICATED_ALLOCATION: u32 = 0x10;
    /// The resource persists across frames.
    pub const PERSISTENT: u32 = 0x8000;
    /// Union of every defined bit.
    pub const MASK: u32 = 0x801e;

    /// The raw 32-bit word this set is stored as.
    pub closed spec fn spec_bits(self) -> u32 {
        self.bits
    }

    /// No bit outside the defined mask is on.
    pub open spec fn well_formed(self) -> bool {
        self.spec_bits() & !Self::MASK == 0
    }

    /// The empty set: no special behavior requested.
    pub fn empty() -> (r: Self)
        ensures
            r.spec_bits() == 0,
            r.well_formed(),
    {
        proof {
            assert(0u32 & !0x801eu32 == 0) by (bit_vector);
        }
        ResourceFlags { bits: 0 }
    }

    /// The set of every defined flag.
    pub fn all() -> (r: Self)
        ensures
            r.spec_bits() == Self::MASK,
            r.well_formed(),
    {
        proof {
            assert(0x801eu32 & !0x801eu32 == 0) by (bit_vector);
        }
        ResourceFlags { bits: Self::MASK }
    }

    /// The raw word, for interchange with the external interface.
    pub fn bits(self) -> (r: u32)
        ensures
            r == self.spec_bits(),
    {
        self.bits
    }

    /// Wraps a raw word, rejecting any bit outside the defined mask.
    pub fn from_bits(bits: u32) -> (r: Option<Self>)
        ensures
            (bits & !Self::MASK == 0) <==> r is Some,
            r matches Some(f) ==> f.spec_bits() == bits && f.well_formed(),
    {
        if bits & !Self::MASK == 0 {
            Some(ResourceFlags { bits })
        } else {
            None
        }
    }

    /// Wraps a raw word, silently dropping bits outside the defined mask.
    pub fn from_bits_truncate(bits: u32) -> (r: Self)
        ensures
            r.spec_bits() == bits & Self::MASK,
            r.well_formed(),
    {
        proof {
            let b: u32 = bits;
            assert((b & 0x801eu32) & !0x801eu32 == 0) by (bit_vector);
        }
        ResourceFlags { bits: bits & Self::MASK }
    }

    /// Whether no flag is set.
    pub fn is_empty(self) -> (r: bool)
        ensures
            r == (self.spec_bits() == 0),
    {
        self.bits == 0
    }

    /// Membership test: every bit of `other` is also set in `self`.
    pub fn contains(self, other: Self) -> (r: bool)
        ensures
            r == (self.spec_bits() & other.spec_bits() == other.spec_bits()),
    {
        self.bits & other.bits == other.bits
    }

    /// Whether `self` and `other` share at least one bit.
    pub fn intersects(self, other: Self) -> (r: bool)
        ensures
            r == (self.spec_bits() & other.spec_bits() != 0),
    {
        self.bits & other.bits != 0
    }

    /// Bitwise union of two sets.
    pub fn union(self, other: Self) -> (r: Self)
        ensures
            r.spec_bits() == self.spec_bits() | other.spec_bits(),
            self.well_formed() && other.well_formed() ==> r.well_formed(),
    {
        proof {
            let a: u32 = self.bits;
            let b: u32 = other.bits;
            assert(a & !0x801eu32 == 0 && b & !0x801eu32 == 0 ==> (a | b) & !0x801eu32 == 0)
                by (bit_vector);
        }
        ResourceFlags { bits: self.bits | other.bits }
    }

    /// Bitwise intersection of two sets.
    pub fn intersection(self, other: Self) -> (r: Self)
        ensures
            r.spec_bits() == self.spec_bits() & other.spec_bits(),
            self.well_formed() ==> r.well_formed(),
    {
        proof {
            let a: u32 = self.bits;
            let b: u32 = other.bits;
            assert(a & !0x801eu32 == 0 ==> (a & b) & !0x801eu32 == 0) by (bit_vector);
        }
        ResourceFlags { bits: self.bits & other.bits }
    }

    /// Set difference: the bits of `self` that are not in `other`.
    pub fn difference(self, other: Self) -> (r: Self)
        ensures
            r.spec_bits() == self.spec_bits() & !other.spec_bits(),
            self.well_formed() ==> r.well_formed(),
    {
        proof {
            let a: u32 = self.bits;
            let b: u32 = other.bits;
            assert(a & !0x801eu32 == 0 ==> (a & !b) & !0x801eu32 == 0) by (bit_vector);
        }
        ResourceFlags { bits: self.bits & !other.bits }
    }

    /// Complement within the defined mask.
    pub fn complement(self) -> (r: Self)
        ensures
            r.spec_bits() == !self.spec_bits() & Self::MASK,
            r.well_formed(),
    {
        proof {
            let a: u32 = self.bits;
            assert((!a & 0x801eu32) & !0x801eu32 == 0) by (bit_vector);
        }
        ResourceFlags { bits: !self.bits & Self::MASK }
    }
}

impl Default for ResourceFlags {
    /// The empty set.
    fn default() -> (r: Self)
        ensures
            r.spec_bits() == 0,
            r.well_formed(),
    {
        ResourceFlags::empty()
    }
}

/// The defined mask of `ResourceFlags` is exactly the union of its named
/// flag bits.
pub proof fn lemma_resource_flags_mask_is_union_of_flags()
    ensures
        ResourceFlags::MASK == ResourceFlags::CUBEMAP_COMPATIBLE | ResourceFlags::ROWMAJOR_IMAGE
            | ResourceFlags::PREFER_GPU_LOCAL_CPU_VISIBLE
            | ResourceFlags::PREFER_DEDICATED_ALLOCATION | ResourceFlags::PERSISTENT,
{
    assert(0x801eu32 == 0x2u32 | 0x4u32 | 0x8u32 | 0x10u32 | 0x8000u32) by (bit_vector);
}

/// Resource flag sets drawn from a subset of bits never reach outside it:
/// the union of two sets whose bits all lie in `s` intersects the
/// complement of `s` — plain or taken within the defined mask — in the
/// empty set.
pub proof fn lemma_resource_flags_union_complement(a: ResourceFlags, b: ResourceFlags, s: ResourceFlags)
    requires
        a.spec_bits() & s.spec_bits() == a.spec_bits(),
        b.spec_bits() & s.spec_bits() == b.spec_bits(),
    ensures
        (a.spec_bits() | b.spec_bits()) & !s.spec_bits() == 0,
        (a.spec_bits() | b.spec_bits()) & (!s.spec_bits() & ResourceFlags::MASK) == 0,
{
    let x: u32 = a.spec_bits();
    let y: u32 = b.spec_bits();
    let z: u32 = s.spec_bits();
    assert((x | y) & !z == 0 && (x | y) & (!z & 0x801eu32) == 0) by (bit_vector)
        requires
            x & z == x,
            y & z == y,
    ;
}

/// Which aspects of an image a usage touches.
#[derive(Clone, Copy, Debug, PartialEq, Eq, Hash, Structural)]
pub struct ImageAspectUsageFlags {
    bits: u32,
}

impl ImageAspectUsageFlags {
    /// No aspect named.
    pub const UNKNOWN: u32 = 0;
    /// The color plane.
    pub const COLOR: u32 = 0x1;
    /// The depth plane.
    pub const DEPTH: u32 = 0x2;
    /// The stencil plane.
    pub const STENCIL: u32 = 0x4;
    /// The metadata plane.
    pub const METADATA: u32 = 0x8;
    /// The conventional default: color, depth, and stencil together.
    pub const DEFAULT: u32 = 0x7;
    /// Union of every defined bit.
    pub const MASK: u32 = 0xf;

    /// The raw 32-bit word this set is stored as.
    pub closed spec fn spec_bits(self) -> u32 {
        self.bits
    }

    /// No bit outside the defined mask is on.
    pub open spec fn well_formed(self) -> bool {
        self.spec_bits() & !Self::MASK == 0
    }

    /// The empty set.
    pub fn empty() -> (r: Self)
        ensures
            r.spec_bits() == 0,
            r.well_formed(),
    {
        proof {
            assert(0u32 & !0xfu32 == 0) by (bit_vector);
        }
        ImageAspectUsageFlags { bits: 0 }
    }

    /// The set of every defined aspect bit.
    pub fn all() -> (r: Self)
        ensures
            r.spec_bits() == Self::MASK,
            r.well_formed(),
    {
        proof {
            assert(0xfu32 & !0xfu32 == 0) by (bit_vector);
        }
        ImageAspectUsageFlags { bits: Self::MASK }
    }

    /// The raw word, for interchange with the external interface.
    pub fn bits(self) -> (r: u32)
        ensures
            r == self.spec_bits(),
    {
        self.bits
    }

    /// Wraps a raw word, rejecting any bit outside the defined mask.
    pub fn from_bits(bits: u32) -> (r: Option<Self>)
        ensures
            (bits & !Self::MASK == 0) <==> r is Some,
            r matches Some(f) ==> f.spec_bits() == bits && f.well_formed(),
    {
        if bits & !Self::MASK == 0 {
            Some(ImageAspectUsageFlags { bits })
        } else {
            None
        }
    }

    /// Wraps a raw word, silently dropping bits outside the defined mask.
    pub fn from_bits_truncate(bits: u32) -> (r: Self)
        ensures
            r.spec_bits() == bits & Self::MASK,
            r.well_formed(),
    {
        proof {
            let b: u32 = bits;
            assert((b & 0xfu32) & !0xfu32 == 0) by (bit_vector);
        }
        ImageAspectUsageFlags { bits: bits & Self::MASK }
    }

    /// Whether no aspect bit is set.
    pub fn is_empty(self) -> (r: bool)
        ensures
            r == (self.spec_bits() == 0),
    {
        self.bits == 0
    }

    /// Membership test: every bit of `other` is also set in `self`.
    pub fn contains(self, other: Self) -> (r: bool)
        ensures
            r == (self.spec_bits() & other.spec_bits() == other.spec_bits()),
    {
        self.bits & other.bits == other.bits
    }

    /// Whether `self` and `other` share at least one bit.
    pub fn intersects(self, other: Self) -> (r: bool)
        ensures
            r == (self.spec_bits() & other.spec_bits() != 0),
    {
        self.bits & other.bits != 0
    }

    /// Bitwise union of two sets.
    pub fn union(self, other: Self) -> (r: Self)
        ensures
            r.spec_bits() == self.spec_bits() | other.spec_bits(),
            self.well_formed() && other.well_formed() ==> r.well_formed(),
    {
        proof {
            let a: u32 = self.bits;
            let b: u32 = other.bits;
            assert(a & !0xfu32 == 0 && b & !0xfu32 == 0 ==> (a | b) & !0xfu32 == 0)
                by (bit_vector);
        }
        ImageAspectUsageFlags { bits: self.bits | other.bits }
    }

    /// Bitwise intersection of two sets.
    pub fn intersection(self, other: Self) -> (r: Self)
        ensures
            r.spec_bits() == self.spec_bits() & other.spec_bits(),
            self.well_formed() ==> r.well_formed(),
    {
        proof {
            let a: u32 = self.bits;
            let b: u32 = other.bits;
            assert(a & !0xfu32 == 0 ==> (a & b) & !0xfu32 == 0) by (bit_vector);
        }
        ImageAspectUsageFlags { bits: self.bits & other.bits }
    }

    /// Set difference: the bits of `self` that are not in `other`.
    pub fn difference(self, other: Self) -> (r: Self)
        ensures
            r.spec_bits() == self.spec_bits() & !other.spec_bits(),
            self.well_formed() ==> r.well_formed(),
    {
        proof {
            let a: u32 = self.bits;
            let b: u32 = other.bits;
            assert(a & !0xfu32 == 0 ==> (a & !b) & !0xfu32 == 0) by (bit_vector);
        }
        ImageAspectUsageFlags { bits: self.bits & !other.bits }
    }

    /// Complement within the defined mask.
    pub fn complement(self) -> (r: Self)
        ensures
            r.spec_bits() == !self.spec_bits() & Self::MASK,
            r.well_formed(),
    {
        proof {
            let a: u32 = self.bits;
            assert((!a & 0xfu32) & !0xfu32 == 0) by (bit_vector);
        }
        ImageAspectUsageFlags { bits: !self.bits & Self::MASK }
    }
}

impl Default for ImageAspectUsageFlags {
    /// The empty set.
    fn default() -> (r: Self)
        ensures
            r.spec_bits() == 0,
            r.well_formed(),
    {
        ImageAspectUsageFlags::empty()
    }
}

/// The conventional default aspect set is exactly color, depth, and
/// stencil together, and the defined mask adds only the metadata bit.
pub proof fn lemma_aspect_default_is_color_depth_stencil()
    ensures
        ImageAspectUsageFlags::DEFAULT == ImageAspectUsageFlags::COLOR
            | ImageAspectUsageFlags::DEPTH | ImageAspectUsageFlags::STENCIL,
        ImageAspectUsageFlags::MASK == ImageAspectUsageFlags::DEFAULT
            | ImageAspectUsageFlags::METADATA,
{
    assert(0x7u32 == 0x1u32 | 0x2u32 | 0x4u32 && 0xfu32 == 0x7u32 | 0x8u32) by (bit_vector);
}

/// Aspect flag sets drawn from a subset of bits never reach outside it:
/// the union of two sets whose bits all lie in `s` intersects the
/// complement of `s` — plain or taken within the defined mask — in the
/// empty set.
pub proof fn lemma_aspect_flags_union_complement(
    a: ImageAspectUsageFlags,
    b: ImageAspectUsageFlags,
    s: ImageAspectUsageFlags,
)
    requires
        a.spec_bits() & s.spec_bits() == a.spec_bits(),
        b.spec_bits() & s.spec_bits() == b.spec_bits(),
    ensures
        (a.spec_bits() | b.spec_bits()) & !s.spec_bits() == 0,
        (a.spec_bits() | b.spec_bits()) & (!s.spec_bits() & ImageAspectUsageFlags::MASK) == 0,
{
    let x: u32 = a.spec_bits();
    let y: u32 = b.spec_bits();
    let z: u32 = s.spec_bits();
    assert((x | y) & !z == 0 && (x | y) & (!z & 0xfu32) == 0) by (bit_vector)
        requires
            x & z == x,
            y & z == y,
    ;
}

/// Which parts of a clear a command performs.
#[derive(Clone, Copy, Debug, PartialEq, Eq, Hash, Structural)]
pub struct ClearFlags {
    bits: u32,
}

impl ClearFlags {
    /// No clear requested.
    pub const NONE: u32 = 0;
    /// Clear the color planes.
    pub const COLOR: u32 = 0x1;
    /// Clear the depth plane.
    pub const DEPTH: u32 = 0x2;
    /// Clear the stencil plane.
    pub const STENCIL: u32 = 0x4;
    /// Clear an unordered-access view with float lanes.
    pub const UAVFLOAT: u32 = 0x8;
    /// Clear an unordered-access view with unsigned integer lanes.
    pub const UAVUINT: u32 = 0x10;
    /// Union of every defined bit.
    pub const MASK: u32 = 0x1f;

    /// The raw 32-bit word this set is stored as.
    pub closed spec fn spec_bits(self) -> u32 {
        self.bits
    }

    /// No bit outside the defined mask is on.
    pub open spec fn well_formed(self) -> bool {
        self.spec_bits() & !Self::MASK == 0
    }

    /// The empty set.
    pub fn empty() -> (r: Self)
        ensures
            r.spec_bits() == 0,
            r.well_formed(),
    {
        proof {
            assert(0u32 & !0x1fu32 == 0) by (bit_vector);
        }
        ClearFlags { bits: 0 }
    }

    /// The set of every defined clear bit.
    pub fn all() -> (r: Self)
        ensures
            r.spec_bits() == Self::MASK,
            r.well_formed(),
    {
        proof {
            assert(0x1fu32 & !0x1fu32 == 0) by (bit_vector);
        }
        ClearFlags { bits: Self::MASK }
    }

    /// The raw word, for interchange with the external interface.
    pub fn bits(self) -> (r: u32)
        ensures
            r == self.spec_bits(),
    {
        self.bits
    }

    /// Wraps a raw word, rejecting any bit outside the defined mask.
    pub fn from_bits(bits: u32) -> (r: Option<Self>)
        ensures
            (bits & !Self::MASK == 0) <==> r is Some,
            r matches Some(f) ==> f.spec_bits() == bits && f.well_formed(),
    {
        if bits & !Self::MASK == 0 {
            Some(ClearFlags { bits })
        } else {
            None
        }
    }

    /// Wraps a raw word, silently dropping bits outside the defined mask.
    pub fn from_bits_truncate(bits: u32) -> (r: Self)
        ensures
            r.spec_bits() == bits & Self::MASK,
            r.well_formed(),
    {
        proof {
            let b: u32 = bits;
            assert((b & 0x1fu32) & !0x1fu32 == 0) by (bit_vector);
        }
        ClearFlags { bits: bits & Self::MASK }
    }

    /// Whether no clear bit is set.
    pub fn is_empty(self) -> (r: bool)
        ensures
            r == (self.spec_bits() == 0),
    {
        self.bits == 0
    }

    /// Membership test: every bit of `other` is also set in `self`.
    pub fn contains(self, other: Self) -> (r: bool)
        ensures
            r == (self.spec_bits() & other.spec_bits() == other.spec_bits()),
    {
        self.bits & other.bits == other.bits
    }

    /// Whether `self` and `other` share at least one bit.
    pub fn intersects(self, other: Self) -> (r: bool)
        ensures
            r == (self.spec_bits() & other.spec_bits() != 0),
    {
        self.bits & other.bits != 0
    }

    /// Bitwise union of two sets.
    pub fn union(self, other: Self) -> (r: Self)
        ensures
            r.spec_bits() == self.spec_bits() | other.spec_bits(),
            self.well_formed() && other.well_formed() ==> r.well_formed(),
    {
        proof {
            let a: u32 = self.bits;
            let b: u32 = other.bits;
            assert(a & !0x1fu32 == 0 && b & !0x1fu32 == 0 ==> (a | b) & !0x1fu32 == 0)
                by (bit_vector);
        }
        ClearFlags { bits: self.bits | other.bits }
    }

    /// Bitwise intersection of two sets.
    pub fn intersection(self, other: Self) -> (r: Self)
        ensures
            r.spec_bits() == self.spec_bits() & other.spec_bits(),
            self.well_formed() ==> r.well_formed(),
    {
        proof {
            let a: u32 = self.bits;
            let b: u32 = other.bits;
            assert(a & !0x1fu32 == 0 ==> (a & b) & !0x1fu32 == 0) by (bit_vector);
        }
        ClearFlags { bits: self.bits & other.bits }
    }

    /// Set difference: the bits of `self` that are not in `other`.
    pub fn difference(self, other: Self) -> (r: Self)
        ensures
            r.spec_bits() == self.spec_bits() & !other.spec_bits(),
            self.well_formed() ==> r.well_formed(),
    {
        proof {
            let a: u32 = self.bits;
            let b: u32 = other.bits;
            assert(a & !0x1fu32 == 0 ==> (a & !b) & !0x1fu32 == 0) by (bit_vector);
        }
        ClearFlags { bits: self.bits & !other.bits }
    }

    /// Complement within the defined mask.
    pub fn complement(self) -> (r: Self)
        ensures
            r.spec_bits() == !self.spec_bits() & Self::MASK,
            r.well_formed(),
    {
        proof {
            let a: u32 = self.bits;
            assert((!a & 0x1fu32) & !0x1fu32 == 0) by (bit_vector);
        }
        ClearFlags { bits: !self.bits & Self::MASK }
    }
}

impl Default for ClearFlags {
    /// The empty set.
    fn default() -> (r: Self)
        ensures
            r.spec_bits() == 0,
            r.well_formed(),
    {
        ClearFlags::empty()
    }
}

/// Clear flag sets drawn from a subset of bits never reach outside it:
/// the union of two sets whose bits all lie in `s` intersects the
/// complement of `s` — plain or taken within the defined mask — in the
/// empty set.
pub proof fn lemma_clear_flags_union_complement(a: ClearFlags, b: ClearFlags, s: ClearFlags)
    requires
        a.spec_bits() & s.spec_bits() == a.spec_bits(),
        b.spec_bits() & s.spec_bits() == b.spec_bits(),
    ensures
        (a.spec_bits() | b.spec_bits()) & !s.spec_bits() == 0,
        (a.spec_bits() | b.spec_bits()) & (!s.spec_bits() & ClearFlags::MASK) == 0,
{
    let x: u32 = a.spec_bits();
    let y: u32 = b.spec_bits();
    let z: u32 = s.spec_bits();
    assert((x | y) & !z == 0 && (x | y) & (!z & 0x1fu32) == 0) by (bit_vector)
        requires
            x & z == x,
            y & z == y,
    ;
}

} // verus!
