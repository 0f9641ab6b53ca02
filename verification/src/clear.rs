use crate::kind::Format;
use vstd::prelude::*;

verus! {

// The native clear-value interchange type is an undiscriminated overlay of
// four 32-bit color lanes and a depth/stencil pair. This core stores the
// sixteen bytes as four unsigned 32-bit lane words — the canonical bit
// patterns — and offers reinterpreting reads over them. Which reading is
// meaningful is decided by the format a `ClearInfo` pairs the value with,
// never by the value itself: adding a discriminant would change the layout
// contract. Floating-point reads of the same bits are left to unverified
// callers, which reinterpret the lane words.

/// Four 32-bit clear lanes, stored as raw bit patterns.
#[derive(Clone, Copy, Debug)]
pub struct ClearColorValue {
    /// The lanes read as unsigned 32-bit words: the canonical storage.
    pub uint32: [u32; 4],
}

impl ClearColorValue {
    /// Wraps four unsigned lane words.
    pub fn from_uint32(lanes: [u32; 4]) -> (r: Self)
        ensures
            r.uint32 == lanes,
    {
        ClearColorValue { uint32: lanes }
    }

    /// Stores four signed lanes; each lane keeps its 32-bit pattern.
    pub fn from_int32(lanes: [i32; 4]) -> (r: Self)
        ensures
            forall|k: int| 0 <= k < 4 ==> r.uint32@[k] == lanes@[k] as u32,
    {
        ClearColorValue {
            uint32: [
                #[verifier::truncate] (lanes[0] as u32),
                #[verifier::truncate] (lanes[1] as u32),
                #[verifier::truncate] (lanes[2] as u32),
                #[verifier::truncate] (lanes[3] as u32),
            ],
        }
    }

    /// The lanes read as signed 32-bit words: each lane is the two's
    /// complement reading of its bit pattern.
    pub fn int32(&self) -> (r: [i32; 4])
        ensures
            forall|k: int| 0 <= k < 4 ==> r@[k] == self.uint32@[k] as i32,
    {
        [
            #[verifier::truncate] (self.uint32[0] as i32),
            #[verifier::truncate] (self.uint32[1] as i32),
            #[verifier::truncate] (self.uint32[2] as i32),
            #[verifier::truncate] (self.uint32[3] as i32),
        ]
    }
}

impl Default for ClearColorValue {
    /// All bits zero; every lane reads as zero under the unsigned and the
    /// signed interpretation alike, and the zero bit pattern is the IEEE
    /// floating-point zero.
    fn default() -> (r: Self)
        ensures
            forall|k: int| 0 <= k < 4 ==> r.uint32@[k] == 0,
            forall|k: int| 0 <= k < 4 ==> r.uint32@[k] as i32 == 0,
    {
        ClearColorValue { uint32: [0u32, 0u32, 0u32, 0u32] }
    }
}

/// A depth value, stored as its 32-bit pattern, with a stencil value.
///
/// The depth lane travels as raw bits: this core never reads it as a
/// number, it only carries it to the backend, so the IEEE reading — and any
/// arithmetic on it — stays with unverified callers.
#[derive(Clone, Copy, Debug, PartialEq, Eq, Hash, Structural)]
pub struct ClearDepthStencilValue {
    /// Bit pattern of the 32-bit floating-point depth clear value.
    pub depth_bits: u32,
    /// The stencil clear value.
    pub stencil: u32,
}

impl ClearDepthStencilValue {
    /// Pairs a depth bit pattern with a stencil value.
    pub fn new(depth_bits: u32, stencil: u32) -> (r: Self)
        ensures
            r.depth_bits == depth_bits,
            r.stencil == stencil,
    {
        ClearDepthStencilValue { depth_bits, stencil }
    }
}

impl Default for ClearDepthStencilValue {
    /// Depth zero — the all-zero bit pattern is the IEEE zero — and
    /// stencil zero.
    fn default() -> (r: Self)
        ensures
            r.depth_bits == 0,
            r.stencil == 0,
    {
        ClearDepthStencilValue { depth_bits: 0, stencil: 0 }
    }
}

/// A clear value: color lanes and a depth/stencil pair overlaid on the
/// same sixteen bytes of storage.
///
/// There is no discriminant; the format paired with the value in a
/// `ClearInfo` decides which reading is meaningful. Reading the variant
/// the format does not select is well-defined here (it reinterprets the
/// stored bits) but meaningless under the caller contract.
#[derive(Clone, Copy, Debug)]
pub struct ClearValue {
    /// The full sixteen bytes of storage, read as color lanes.
    pub color: ClearColorValue,
}

impl ClearValue {
    /// The depth/stencil reading of the storage: the depth bits overlay
    /// the first color lane, the stencil value the second.
    pub open spec fn spec_depth_stencil(self) -> ClearDepthStencilValue {
        ClearDepthStencilValue { depth_bits: self.color.uint32@[0], stencil: self.color.uint32@[1] }
    }

    /// Wraps a color clear value.
    pub fn from_color(color: ClearColorValue) -> (r: Self)
        ensures
            r.color == color,
    {
        ClearValue { color }
    }

    /// Stores a depth/stencil pair in the overlaid lanes; the two lanes
    /// beyond the pair are zeroed.
    pub fn from_depth_stencil(ds: ClearDepthStencilValue) -> (r: Self)
        ensures
            r.spec_depth_stencil() == ds,
            r.color.uint32@[2] == 0,
            r.color.uint32@[3] == 0,
    {
        ClearValue { color: ClearColorValue { uint32: [ds.depth_bits, ds.stencil, 0u32, 0u32] } }
    }

    /// Reads the storage as a depth/stencil pair.
    pub fn depth_stencil(&self) -> (r: ClearDepthStencilValue)
        ensures
            r == self.spec_depth_stencil(),
    {
        ClearDepthStencilValue { depth_bits: self.color.uint32[0], stencil: self.color.uint32[1] }
    }
}

impl Default for ClearValue {
    /// All bits zero, under either reading.
    fn default() -> (r: Self)
        ensures
            forall|k: int| 0 <= k < 4 ==> r.color.uint32@[k] == 0,
            r.spec_depth_stencil().depth_bits == 0,
            r.spec_depth_stencil().stencil == 0,
    {
        ClearValue { color: ClearColorValue { uint32: [0u32, 0u32, 0u32, 0u32] } }
    }
}

/// The unit of "how to clear a resource": a clear value together with the
/// format that decides how the value's bits are read.
#[derive(Clone, Copy, Debug)]
pub struct ClearInfo {
    /// Format of the resource being cleared; selects the reading of
    /// `value`.
    pub format: Format,
    /// The clear value, interpreted under `format`.
    pub value: ClearValue,
}

impl ClearInfo {
    /// Pairs a clear value with the format that disambiguates it.
    pub fn new(format: Format, value: ClearValue) -> (r: Self)
        ensures
            r.format == format,
            r.value == value,
    {
        ClearInfo { format, value }
    }
}

impl Default for ClearInfo {
    /// Unknown format, all-zero value.
    fn default() -> (r: Self)
        ensures
            r.format == Format::spec_from_raw(Format::UNKNOWN),
            forall|k: int| 0 <= k < 4 ==> r.value.color.uint32@[k] == 0,
    {
        ClearInfo { format: Format::from_raw(0), value: ClearValue::default() }
    }
}

} // verus!
