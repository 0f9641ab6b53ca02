use crate::error::ValidationError;
use crate::flags::ResourceFlags;
use crate::kind::Format;
use crate::kind::ResourceType;
use vstd::prelude::*;

verus! {

/// Largest number of frame-indexed copies one resource may be multiplexed
/// across; a descriptor's `temporal_layers` must lie in `[1, this]`.
pub const RESOURCE_MAX_TEMPORAL_LAYERS: usize = 256;

/// Shape of an image resource.
///
/// `depth_or_array_layers` is overloaded: it is the depth of a
/// three-dimensional image and the array-layer count of a one- or
/// two-dimensional image.
#[derive(Clone, Copy, Debug, PartialEq, Eq, Hash, Structural)]
pub struct ResourceImageDesc {
    /// Width in texels.
    pub width: u32,
    /// Height in texels.
    pub height: u32,
    /// Depth for a three-dimensional image, array-layer count otherwise.
    pub depth_or_array_layers: u32,
    /// Number of mip levels.
    pub mip_levels: u32,
    /// Texel format code.
    pub format: Format,
    /// Samples per texel.
    pub sample_count: u32,
}

impl ResourceImageDesc {
    /// Gathers the six shape fields of an image.
    pub fn new(
        width: u32,
        height: u32,
        depth_or_array_layers: u32,
        mip_levels: u32,
        format: Format,
        sample_count: u32,
    ) -> (r: Self)
        ensures
            r.width == width,
            r.height == height,
            r.depth_or_array_layers == depth_or_array_layers,
            r.mip_levels == mip_levels,
            r.format == format,
            r.sample_count == sample_count,
    {
        ResourceImageDesc { width, height, depth_or_array_layers, mip_levels, format, sample_count }
    }
}

impl Default for ResourceImageDesc {
    /// All fields zero, format unknown.
    fn default() -> (r: Self)
        ensures
            r.width == 0,
            r.height == 0,
            r.depth_or_array_layers == 0,
            r.mip_levels == 0,
            r.format == Format::spec_from_raw(Format::UNKNOWN),
            r.sample_count == 0,
    {
        ResourceImageDesc {
            width: 0,
            height: 0,
            depth_or_array_layers: 0,
            mip_levels: 0,
            format: Format::from_raw(0),
            sample_count: 0,
        }
    }
}

/// Shape of a buffer resource: a 64-bit byte size split into its low and
/// high 32-bit halves, so the storage stays 32-bit aligned.
#[derive(Clone, Copy, Debug, PartialEq, Eq, Hash, Structural)]
pub struct ResourceBufferDesc {
    /// Low 32 bits of the byte size.
    pub size_in_bytes_lo: u32,
    /// High 32 bits of the byte size.
    pub size_in_bytes_hi: u32,
}

impl ResourceBufferDesc {
    /// The byte size the two halves stand for: `(hi << 32) | lo`.
    pub open spec fn spec_size(self) -> u64 {
        ((self.size_in_bytes_hi as u64) << 32) | (self.size_in_bytes_lo as u64)
    }

    /// The halves a byte size splits into; total, mirroring `from_size`.
    pub open spec fn spec_from_size(size: u64) -> ResourceBufferDesc {
        ResourceBufferDesc {
            size_in_bytes_lo: size as u32,
            size_in_bytes_hi: (size >> 32) as u32,
        }
    }

    /// Splits a 64-bit byte size into its halves.
    pub fn from_size(size: u64) -> (r: Self)
        ensures
            r == Self::spec_from_size(size),
            r.spec_size() == size,
    {
        proof {
            let s: u64 = size;
            assert((((s >> 32) as u32) as u64) << 32 | ((s as u32) as u64) == s) by (bit_vector);
        }
        ResourceBufferDesc {
            size_in_bytes_lo: #[verifier::truncate] (size as u32),
            size_in_bytes_hi: #[verifier::truncate] ((size >> 32) as u32),
        }
    }

    /// Reassembles the byte size from the halves.
    pub fn size_in_bytes(&self) -> (r: u64)
        ensures
            r == self.spec_size(),
    {
        ((self.size_in_bytes_hi as u64) << 32) | (self.size_in_bytes_lo as u64)
    }
}

impl Default for ResourceBufferDesc {
    /// Size zero.
    fn default() -> (r: Self)
        ensures
            r.size_in_bytes_lo == 0,
            r.size_in_bytes_hi == 0,
    {
        ResourceBufferDesc { size_in_bytes_lo: 0, size_in_bytes_hi: 0 }
    }
}

/// Splitting any 64-bit buffer size into halves and reassembling
/// `(hi << 32) | lo` yields exactly the original size.
pub proof fn lemma_buffer_size_round_trip(size: u64)
    ensures
        ResourceBufferDesc::spec_from_size(size).spec_size() == size,
{
    let s: u64 = size;
    assert((((s >> 32) as u32) as u64) << 32 | ((s as u32) as u64) == s) by (bit_vector);
}

/// The opposite round trip: reassembling the size a descriptor holds and
/// splitting it again reproduces the descriptor.
pub proof fn lemma_buffer_halves_round_trip(d: ResourceBufferDesc)
    ensures
        ResourceBufferDesc::spec_from_size(d.spec_size()) == d,
{
    let lo: u32 = d.size_in_bytes_lo;
    let hi: u32 = d.size_in_bytes_hi;
    assert(((((hi as u64) << 32) | (lo as u64)) as u32) == lo) by (bit_vector);
    assert((((((hi as u64) << 32) | (lo as u64)) >> 32) as u32) == hi) by (bit_vector);
}

/// Shape storage of a resource: the image and buffer shapes overlaid on
/// the same words, as in the native undiscriminated union.
///
/// The enclosing descriptor's kind is the sole discriminant; nothing here
/// records which reading is meaningful. The buffer reading overlays the
/// image's first two words.
#[derive(Clone, Copy, Debug, PartialEq, Eq, Hash, Structural)]
pub struct ResourceBufferImageDesc {
    /// The full storage, read as the image shape (the larger overlay).
    pub image: ResourceImageDesc,
}

impl ResourceBufferImageDesc {
    /// The buffer reading of the storage: its low size half overlays the
    /// image width, its high half the image height.
    pub open spec fn spec_buffer(self) -> ResourceBufferDesc {
        ResourceBufferDesc {
            size_in_bytes_lo: self.image.width,
            size_in_bytes_hi: self.image.height,
        }
    }

    /// Wraps an image shape.
    pub fn from_image(image: ResourceImageDesc) -> (r: Self)
        ensures
            r.image == image,
    {
        ResourceBufferImageDesc { image }
    }

    /// Stores a buffer shape in the overlaid words; the words beyond the
    /// buffer shape are zeroed.
    pub fn from_buffer(buffer: ResourceBufferDesc) -> (r: Self)
        ensures
            r.spec_buffer() == buffer,
            r.image.width == buffer.size_in_bytes_lo,
            r.image.height == buffer.size_in_bytes_hi,
            r.image.depth_or_array_layers == 0,
            r.image.mip_levels == 0,
            r.image.format == Format::spec_from_raw(Format::UNKNOWN),
            r.image.sample_count == 0,
    {
        ResourceBufferImageDesc {
            image: ResourceImageDesc {
                width: buffer.size_in_bytes_lo,
                height: buffer.size_in_bytes_hi,
                depth_or_array_layers: 0,
                mip_levels: 0,
                format: Format::from_raw(0),
                sample_count: 0,
            },
        }
    }

    /// Reads the storage as the buffer shape.
    pub fn buffer(&self) -> (r: ResourceBufferDesc)
        ensures
            r == self.spec_buffer(),
    {
        ResourceBufferDesc {
            size_in_bytes_lo: self.image.width,
            size_in_bytes_hi: self.image.height,
        }
    }
}

impl Default for ResourceBufferImageDesc {
    /// All words zero, under either reading.
    fn default() -> (r: Self)
        ensures
            r.image == (ResourceImageDesc {
                width: 0,
                height: 0,
                depth_or_array_layers: 0,
                mip_levels: 0,
                format: Format::spec_from_raw(Format::UNKNOWN),
                sample_count: 0,
            }),
            r.spec_buffer().spec_size() == 0,
    {
        let d = ResourceBufferImageDesc { image: ResourceImageDesc::default() };
        proof {
            assert((((0u32 as u64) << 32) | (0u32 as u64)) == 0u64) by (bit_vector);
        }
        d
    }
}

/// Top-level resource descriptor: the kind tag, the temporal layer count,
/// the creation flags, and the overlaid shape storage.
///
/// The kind is the sole discriminant of the shape storage: a buffer kind
/// means the buffer reading is the meaningful one, an image kind the image
/// reading. Raw field access performs no validation; the validating
/// constructors reject a kind code at or above the count sentinel and a
/// temporal layer count outside `[1, RESOURCE_MAX_TEMPORAL_LAYERS]`.
#[derive(Clone, Copy, Debug, PartialEq, Eq, Hash, Structural)]
pub struct ResourceDesc {
    /// Kind of the resource; discriminates `buffer_image`.
    pub type_: ResourceType,
    /// Number of frame-indexed physical copies; one means no temporal
    /// multiplexing.
    pub temporal_layers: u32,
    /// Creation hints.
    pub flags: ResourceFlags,
    /// The overlaid shape storage.
    pub buffer_image: ResourceBufferImageDesc,
}

impl ResourceDesc {
    /// A meaningful temporal layer count: at least one copy, at most the
    /// fixed maximum.
    pub open spec fn spec_temporal_layers_valid(n: u32) -> bool {
        1 <= n <= RESOURCE_MAX_TEMPORAL_LAYERS
    }

    /// What the validating constructors establish: a kind below the count
    /// sentinel and a temporal layer count in range.
    pub open spec fn spec_valid(self) -> bool {
        self.type_.spec_is_valid() && Self::spec_temporal_layers_valid(self.temporal_layers)
    }

    /// Validating constructor over raw parts. Rejects a kind code at or
    /// above the count sentinel, then a temporal layer count out of range;
    /// accepts everything else verbatim.
    pub fn new(
        type_: ResourceType,
        temporal_layers: u32,
        flags: ResourceFlags,
        buffer_image: ResourceBufferImageDesc,
    ) -> (r: Result<Self, ValidationError>)
        ensures
            r is Ok <==> type_.spec_is_valid() && Self::spec_temporal_layers_valid(
                temporal_layers,
            ),
            r matches Ok(d) ==> d == (ResourceDesc { type_, temporal_layers, flags, buffer_image }),
            r matches Ok(d) ==> d.spec_valid(),
            !type_.spec_is_valid() ==> r == Err::<ResourceDesc, ValidationError>(
                ValidationError::InvalidKind,
            ),
            type_.spec_is_valid() && !Self::spec_temporal_layers_valid(temporal_layers)
                ==> r == Err::<ResourceDesc, ValidationError>(
                ValidationError::InvalidTemporalLayerCount,
            ),
    {
        if !type_.is_valid() {
            Err(ValidationError::InvalidKind)
        } else if temporal_layers < 1 || (temporal_layers as usize) > RESOURCE_MAX_TEMPORAL_LAYERS {
            Err(ValidationError::InvalidTemporalLayerCount)
        } else {
            Ok(ResourceDesc { type_, temporal_layers, flags, buffer_image })
        }
    }

    /// Validating constructor for a buffer of `size_in_bytes` bytes: sets
    /// the buffer kind and the matching shape reading atomically.
    pub fn new_buffer(size_in_bytes: u64, temporal_layers: u32, flags: ResourceFlags) -> (r:
        Result<Self, ValidationError>)
        ensures
            r is Ok <==> Self::spec_temporal_layers_valid(temporal_layers),
            r matches Err(e) ==> e == ValidationError::InvalidTemporalLayerCount,
            r matches Ok(d) ==> d.type_ == ResourceType::spec_from_raw(ResourceType::BUFFER),
            r matches Ok(d) ==> d.type_.spec_is_buffer(),
            r matches Ok(d) ==> d.temporal_layers == temporal_layers,
            r matches Ok(d) ==> d.flags == flags,
            r matches Ok(d) ==> d.buffer_image.spec_buffer() == ResourceBufferDesc::spec_from_size(
                size_in_bytes,
            ),
            r matches Ok(d) ==> d.buffer_image.spec_buffer().spec_size() == size_in_bytes,
            r matches Ok(d) ==> d.spec_valid(),
    {
        if temporal_layers < 1 || (temporal_layers as usize) > RESOURCE_MAX_TEMPORAL_LAYERS {
            Err(ValidationError::InvalidTemporalLayerCount)
        } else {
            Ok(
                ResourceDesc {
                    type_: ResourceType::from_raw(ResourceType::BUFFER),
                    temporal_layers,
                    flags,
                    buffer_image: ResourceBufferImageDesc::from_buffer(
                        ResourceBufferDesc::from_size(size_in_bytes),
                    ),
                },
            )
        }
    }

    /// Validating constructor for a one-dimensional image: height and
    /// sample count are one, the third extent counts array layers.
    pub fn new_image_1d(
        width: u32,
        array_layers: u32,
        mip_levels: u32,
        format: Format,
        temporal_layers: u32,
        flags: ResourceFlags,
    ) -> (r: Result<Self, ValidationError>)
        ensures
            r is Ok <==> Self::spec_temporal_layers_valid(temporal_layers),
            r matches Err(e) ==> e == ValidationError::InvalidTemporalLayerCount,
            r matches Ok(d) ==> d.type_ == ResourceType::spec_from_raw(ResourceType::IMAGE_1D),
            r matches Ok(d) ==> d.type_.spec_is_image(),
            r matches Ok(d) ==> d.temporal_layers == temporal_layers,
            r matches Ok(d) ==> d.flags == flags,
            r matches Ok(d) ==> d.buffer_image.image == (ResourceImageDesc {
                width,
                height: 1,
                depth_or_array_layers: array_layers,
                mip_levels,
                format,
                sample_count: 1,
            }),
            r matches Ok(d) ==> d.spec_valid(),
    {
        if temporal_layers < 1 || (temporal_layers as usize) > RESOURCE_MAX_TEMPORAL_LAYERS {
            Err(ValidationError::InvalidTemporalLayerCount)
        } else {
            Ok(
                ResourceDesc {
                    type_: ResourceType::from_raw(ResourceType::IMAGE_1D),
                    temporal_layers,
                    flags,
                    buffer_image: ResourceBufferImageDesc::from_image(
                        ResourceImageDesc {
                            width,
                            height: 1,
                            depth_or_array_layers: array_layers,
                            mip_levels,
                            format,
                            sample_count: 1,
                        },
                    ),
                },
            )
        }
    }

    /// Validating constructor for a two-dimensional image: the third
    /// extent counts array layers.
    pub fn new_image_2d(
        width: u32,
        height: u32,
        array_layers: u32,
        mip_levels: u32,
        format: Format,
        sample_count: u32,
        temporal_layers: u32,
        flags: ResourceFlags,
    ) -> (r: Result<Self, ValidationError>)
        ensures
            r is Ok <==> Self::spec_temporal_layers_valid(temporal_layers),
            r matches Err(e) ==> e == ValidationError::InvalidTemporalLayerCount,
            r matches Ok(d) ==> d.type_ == ResourceType::spec_from_raw(ResourceType::IMAGE_2D),
            r matches Ok(d) ==> d.type_.spec_is_image(),
            r matches Ok(d) ==> d.temporal_layers == temporal_layers,
            r matches Ok(d) ==> d.flags == flags,
            r matches Ok(d) ==> d.buffer_image.image == (ResourceImageDesc {
                width,
                height,
                depth_or_array_layers: array_layers,
                mip_levels,
                format,
                sample_count,
            }),
            r matches Ok(d) ==> d.spec_valid(),
    {
        if temporal_layers < 1 || (temporal_layers as usize) > RESOURCE_MAX_TEMPORAL_LAYERS {
            Err(ValidationError::InvalidTemporalLayerCount)
        } else {
            Ok(
                ResourceDesc {
                    type_: ResourceType::from_raw(ResourceType::IMAGE_2D),
                    temporal_layers,
                    flags,
                    buffer_image: ResourceBufferImageDesc::from_image(
                        ResourceImageDesc {
                            width,
                            height,
                            depth_or_array_layers: array_layers,
                            mip_levels,
                            format,
                            sample_count,
                        },
                    ),
                },
            )
        }
    }

    /// Validating constructor for a three-dimensional image: the third
    /// extent is the depth, the sample count is one.
    pub fn new_image_3d(
        width: u32,
        height: u32,
        depth: u32,
        mip_levels: u32,
        format: Format,
        temporal_layers: u32,
        flags: ResourceFlags,
    ) -> (r: Result<Self, ValidationError>)
        ensures
            r is Ok <==> Self::spec_temporal_layers_valid(temporal_layers),
            r matches Err(e) ==> e == ValidationError::InvalidTemporalLayerCount,
            r matches Ok(d) ==> d.type_ == ResourceType::spec_from_raw(ResourceType::IMAGE_3D),
            r matches Ok(d) ==> d.type_.spec_is_image(),
            r matches Ok(d) ==> d.temporal_layers == temporal_layers,
            r matches Ok(d) ==> d.flags == flags,
            r matches Ok(d) ==> d.buffer_image.image == (ResourceImageDesc {
                width,
                height,
                depth_or_array_layers: depth,
                mip_levels,
                format,
                sample_count: 1,
            }),
            r matches Ok(d) ==> d.spec_valid(),
    {
        if temporal_layers < 1 || (temporal_layers as usize) > RESOURCE_MAX_TEMPORAL_LAYERS {
            Err(ValidationError::InvalidTemporalLayerCount)
        } else {
            Ok(
                ResourceDesc {
                    type_: ResourceType::from_raw(ResourceType::IMAGE_3D),
                    temporal_layers,
                    flags,
                    buffer_image: ResourceBufferImageDesc::from_image(
                        ResourceImageDesc {
                            width,
                            height,
                            depth_or_array_layers: depth,
                            mip_levels,
                            format,
                            sample_count: 1,
                        },
                    ),
                },
            )
        }
    }

    /// Whether the descriptor passes the validating constructors' checks.
    pub fn is_valid(&self) -> (r: bool)
        ensures
            r == self.spec_valid(),
    {
        self.type_.is_valid() && self.temporal_layers >= 1 && (self.temporal_layers as usize)
            <= RESOURCE_MAX_TEMPORAL_LAYERS
    }

    /// The byte size under the buffer reading of the shape storage;
    /// meaningful when the kind is the buffer kind.
    pub fn buffer_size(&self) -> (r: u64)
        ensures
            r == self.buffer_image.spec_buffer().spec_size(),
    {
        self.buffer_image.buffer().size_in_bytes()
    }
}

impl Default for ResourceDesc {
    /// Unknown kind, zero layers and flags, zero shape words. Not a valid
    /// descriptor (the layer count is zero); a meaningful one comes from
    /// the validating constructors.
    fn default() -> (r: Self)
        ensures
            r.type_ == ResourceType::spec_from_raw(ResourceType::UNKNOWN),
            r.temporal_layers == 0,
            r.flags.spec_bits() == 0,
            r.buffer_image.image == (ResourceImageDesc {
                width: 0,
                height: 0,
                depth_or_array_layers: 0,
                mip_levels: 0,
                format: Format::spec_from_raw(Format::UNKNOWN),
                sample_count: 0,
            }),
    {
        ResourceDesc {
            type_: ResourceType::from_raw(0),
            temporal_layers: 0,
            flags: ResourceFlags::empty(),
            buffer_image: ResourceBufferImageDesc { image: ResourceImageDesc::default() },
        }
    }
}

} // verus!
