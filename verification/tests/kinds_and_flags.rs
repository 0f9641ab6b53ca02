use render_graph_core::Format;
use render_graph_core::ImageAspectUsageFlags;
use render_graph_core::ResourceFlags;
use render_graph_core::ResourceType;
use render_graph_core::RESOURCE_ID_INVALID;

#[test]
fn kind_codes_round_trip_to_named_constants() {
    let named = [
        ResourceType::UNKNOWN,
        ResourceType::BUFFER,
        ResourceType::IMAGE_1D,
        ResourceType::IMAGE_2D,
        ResourceType::IMAGE_3D,
    ];
    for (k, code) in named.iter().enumerate() {
        let kind = ResourceType::from_raw(k as u32);
        assert_eq!(kind.as_raw(), *code);
        assert_eq!(kind, ResourceType::from_raw(*code));
        assert!(kind.is_valid());
    }
    assert_eq!(ResourceType::COUNT, 5);
}

#[test]
fn kind_preserves_out_of_range_codes_verbatim() {
    let future = ResourceType::from_raw(99);
    assert_eq!(future.as_raw(), 99);
    assert!(!future.is_valid());
    let sentinel = ResourceType::from_raw(ResourceType::COUNT);
    assert!(!sentinel.is_valid());
}

#[test]
fn kind_classification() {
    assert!(ResourceType::from_raw(ResourceType::BUFFER).is_buffer());
    assert!(!ResourceType::from_raw(ResourceType::BUFFER).is_image());
    assert!(ResourceType::from_raw(ResourceType::IMAGE_1D).is_image());
    assert!(ResourceType::from_raw(ResourceType::IMAGE_2D).is_image());
    assert!(ResourceType::from_raw(ResourceType::IMAGE_3D).is_image());
    assert!(!ResourceType::from_raw(ResourceType::UNKNOWN).is_image());
    assert!(!ResourceType::from_raw(ResourceType::UNKNOWN).is_buffer());
    assert_eq!(ResourceType::default(), ResourceType::from_raw(ResourceType::UNKNOWN));
}

#[test]
fn invalid_resource_id_is_all_ones() {
    assert_eq!(RESOURCE_ID_INVALID, u32::MAX);
}

#[test]
fn format_codes_pass_through() {
    assert_eq!(Format::from_raw(28).as_raw(), 28);
    assert_eq!(Format::default(), Format::from_raw(Format::UNKNOWN));
}

#[test]
fn resource_flags_default_is_empty() {
    assert_eq!(ResourceFlags::default(), ResourceFlags::empty());
    assert!(ResourceFlags::default().is_empty());
    assert_eq!(ResourceFlags::default().bits(), ResourceFlags::NONE);
}

#[test]
fn resource_flags_set_operations() {
    let cubemap = ResourceFlags::from_bits(ResourceFlags::CUBEMAP_COMPATIBLE).unwrap();
    let persistent = ResourceFlags::from_bits(ResourceFlags::PERSISTENT).unwrap();
    let both = cubemap.union(persistent);
    assert_eq!(both.bits(), ResourceFlags::CUBEMAP_COMPATIBLE | ResourceFlags::PERSISTENT);
    assert!(both.contains(cubemap));
    assert!(both.contains(persistent));
    assert!(both.intersects(cubemap));
    assert!(!cubemap.intersects(persistent));
    assert_eq!(both.intersection(cubemap), cubemap);
    assert_eq!(both.difference(cubemap), persistent);
    assert_eq!(both.difference(both), ResourceFlags::empty());
    assert_eq!(ResourceFlags::all().bits(), ResourceFlags::MASK);
}

#[test]
fn resource_flags_union_then_complement_intersection_is_empty() {
    // Two sets built from a subset of the defined bits, united, then
    // intersected with the complement of that subset: the empty set.
    let subset = ResourceFlags::from_bits(
        ResourceFlags::CUBEMAP_COMPATIBLE | ResourceFlags::ROWMAJOR_IMAGE
            | ResourceFlags::PERSISTENT,
    )
    .unwrap();
    let a = ResourceFlags::from_bits(ResourceFlags::CUBEMAP_COMPATIBLE).unwrap();
    let b = ResourceFlags::from_bits(
        ResourceFlags::ROWMAJOR_IMAGE | ResourceFlags::PERSISTENT,
    )
    .unwrap();
    assert!(subset.contains(a));
    assert!(subset.contains(b));
    let leaked = a.union(b).intersection(subset.complement());
    assert_eq!(leaked, ResourceFlags::empty());
}

#[test]
fn resource_flags_reject_unknown_bits() {
    assert!(ResourceFlags::from_bits(0x40).is_none());
    assert!(ResourceFlags::from_bits(0x1).is_none());
    assert_eq!(
        ResourceFlags::from_bits_truncate(0x40 | ResourceFlags::PERSISTENT).bits(),
        ResourceFlags::PERSISTENT
    );
}

#[test]
fn aspect_flags_default_combination() {
    assert_eq!(
        ImageAspectUsageFlags::DEFAULT,
        ImageAspectUsageFlags::COLOR | ImageAspectUsageFlags::DEPTH
            | ImageAspectUsageFlags::STENCIL
    );
    let combined = ImageAspectUsageFlags::from_bits(ImageAspectUsageFlags::DEFAULT).unwrap();
    let color = ImageAspectUsageFlags::from_bits(ImageAspectUsageFlags::COLOR).unwrap();
    let depth = ImageAspectUsageFlags::from_bits(ImageAspectUsageFlags::DEPTH).unwrap();
    let stencil = ImageAspectUsageFlags::from_bits(ImageAspectUsageFlags::STENCIL).unwrap();
    assert_eq!(color.union(depth).union(stencil), combined);
    assert!(combined.contains(color));
    assert_eq!(ImageAspectUsageFlags::default(), ImageAspectUsageFlags::empty());
}

#[test]
fn aspect_flags_union_then_complement_intersection_is_empty() {
    let subset =
        ImageAspectUsageFlags::from_bits(ImageAspectUsageFlags::COLOR | ImageAspectUsageFlags::DEPTH)
            .unwrap();
    let a = ImageAspectUsageFlags::from_bits(ImageAspectUsageFlags::COLOR).unwrap();
    let b = ImageAspectUsageFlags::from_bits(ImageAspectUsageFlags::DEPTH).unwrap();
    let leaked = a.union(b).intersection(subset.complement());
    assert_eq!(leaked, ImageAspectUsageFlags::empty());
}
