use render_graph_core::Format;
use render_graph_core::ResourceBufferDesc;
use render_graph_core::ResourceBufferImageDesc;
use render_graph_core::ResourceDesc;
use render_graph_core::ResourceFlags;
use render_graph_core::ResourceImageDesc;
use render_graph_core::ResourceType;
use render_graph_core::ValidationError;
use render_graph_core::RESOURCE_MAX_TEMPORAL_LAYERS;

#[test]
fn buffer_size_splits_and_reassembles_exactly() {
    for n in [
        0u64,
        1,
        5,
        0xffff_ffff,
        0x1_0000_0000,
        0x1_0000_0005,
        0xdead_beef_0123_4567,
        u64::MAX,
    ] {
        let halves = ResourceBufferDesc::from_size(n);
        assert_eq!(halves.size_in_bytes(), n);
        assert_eq!(halves.size_in_bytes_lo, (n & 0xffff_ffff) as u32);
        assert_eq!(halves.size_in_bytes_hi, (n >> 32) as u32);
    }
}

#[test]
fn buffer_descriptor_carries_size_through_the_union() {
    let desc = ResourceDesc::new_buffer(0x1_0000_0005, 1, ResourceFlags::empty()).unwrap();
    assert_eq!(desc.type_, ResourceType::from_raw(ResourceType::BUFFER));
    assert!(desc.type_.is_buffer());
    assert_eq!(desc.temporal_layers, 1);
    assert_eq!(desc.buffer_size(), 0x1_0000_0005);
    assert_eq!(desc.buffer_image.buffer().size_in_bytes_lo, 5);
    assert_eq!(desc.buffer_image.buffer().size_in_bytes_hi, 1);
}

#[test]
fn temporal_layers_bounds_are_inclusive() {
    assert!(ResourceDesc::new_buffer(16, 1, ResourceFlags::empty()).is_ok());
    assert!(
        ResourceDesc::new_buffer(16, RESOURCE_MAX_TEMPORAL_LAYERS as u32, ResourceFlags::empty())
            .is_ok()
    );
    assert_eq!(
        ResourceDesc::new_buffer(16, 0, ResourceFlags::empty()),
        Err(ValidationError::InvalidTemporalLayerCount)
    );
    assert_eq!(
        ResourceDesc::new_buffer(16, 257, ResourceFlags::empty()),
        Err(ValidationError::InvalidTemporalLayerCount)
    );
}

#[test]
fn image_2d_descriptor_reports_exact_shape() {
    let desc = ResourceDesc::new_image_2d(
        1920,
        1080,
        1,
        1,
        Format::from_raw(28),
        1,
        1,
        ResourceFlags::empty(),
    )
    .unwrap();
    assert_eq!(desc.type_, ResourceType::from_raw(ResourceType::IMAGE_2D));
    assert!(desc.type_.is_image());
    assert!(!desc.type_.is_buffer());
    let image = desc.buffer_image.image;
    assert_eq!(image.width, 1920);
    assert_eq!(image.height, 1080);
    assert_eq!(image.depth_or_array_layers, 1);
    assert_eq!(image.mip_levels, 1);
    assert_eq!(image.format, Format::from_raw(28));
    assert_eq!(image.sample_count, 1);
}

#[test]
fn image_1d_and_3d_fill_the_overloaded_extent() {
    let one_d = ResourceDesc::new_image_1d(256, 6, 1, Format::from_raw(2), 1, ResourceFlags::empty())
        .unwrap();
    assert_eq!(one_d.buffer_image.image.height, 1);
    assert_eq!(one_d.buffer_image.image.depth_or_array_layers, 6);
    assert_eq!(one_d.buffer_image.image.sample_count, 1);
    let three_d =
        ResourceDesc::new_image_3d(64, 64, 32, 1, Format::from_raw(2), 1, ResourceFlags::empty())
            .unwrap();
    assert_eq!(three_d.type_, ResourceType::from_raw(ResourceType::IMAGE_3D));
    assert_eq!(three_d.buffer_image.image.depth_or_array_layers, 32);
}

#[test]
fn raw_constructor_rejects_invalid_kind_first() {
    let shape = ResourceBufferImageDesc::default();
    assert_eq!(
        ResourceDesc::new(ResourceType::from_raw(ResourceType::COUNT), 1, ResourceFlags::empty(), shape),
        Err(ValidationError::InvalidKind)
    );
    assert_eq!(
        ResourceDesc::new(ResourceType::from_raw(99), 0, ResourceFlags::empty(), shape),
        Err(ValidationError::InvalidKind)
    );
    assert_eq!(
        ResourceDesc::new(ResourceType::from_raw(ResourceType::BUFFER), 0, ResourceFlags::empty(), shape),
        Err(ValidationError::InvalidTemporalLayerCount)
    );
    let ok = ResourceDesc::new(
        ResourceType::from_raw(ResourceType::IMAGE_2D),
        2,
        ResourceFlags::empty(),
        shape,
    )
    .unwrap();
    assert!(ok.is_valid());
}

#[test]
fn union_overlay_maps_buffer_onto_image_words() {
    let from_buffer = ResourceBufferImageDesc::from_buffer(ResourceBufferDesc {
        size_in_bytes_lo: 0x11,
        size_in_bytes_hi: 0x22,
    });
    assert_eq!(from_buffer.image.width, 0x11);
    assert_eq!(from_buffer.image.height, 0x22);
    assert_eq!(from_buffer.image.mip_levels, 0);
    let image = ResourceImageDesc::new(7, 9, 1, 1, Format::from_raw(3), 1);
    let from_image = ResourceBufferImageDesc::from_image(image);
    assert_eq!(from_image.buffer().size_in_bytes_lo, 7);
    assert_eq!(from_image.buffer().size_in_bytes_hi, 9);
}

#[test]
fn default_descriptor_is_zeroed_and_not_valid() {
    let desc = ResourceDesc::default();
    assert_eq!(desc.type_, ResourceType::from_raw(ResourceType::UNKNOWN));
    assert_eq!(desc.temporal_layers, 0);
    assert_eq!(desc.flags, ResourceFlags::empty());
    assert_eq!(desc.buffer_image.image, ResourceImageDesc::default());
    assert_eq!(desc.buffer_size(), 0);
    assert!(!desc.is_valid());
}
