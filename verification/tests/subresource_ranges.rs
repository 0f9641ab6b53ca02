use render_graph_core::Format;
use render_graph_core::ResourceImageDesc;
use render_graph_core::SubresourceRange;
use render_graph_core::ValidationError;

fn single_mip_single_layer_image() -> ResourceImageDesc {
    ResourceImageDesc::new(64, 64, 1, 1, Format::from_raw(28), 1)
}

#[test]
fn single_subresource_range_is_accepted() {
    let image = single_mip_single_layer_image();
    let range = SubresourceRange::new_checked(0, 1, 0, 1, &image).unwrap();
    assert_eq!(range, SubresourceRange::new(0, 1, 0, 1));
    assert!(range.is_in_bounds(&image));
}

#[test]
fn range_exceeding_mip_count_is_rejected() {
    let image = single_mip_single_layer_image();
    assert_eq!(
        SubresourceRange::new_checked(0, 2, 0, 1, &image),
        Err(ValidationError::InvalidSubresourceRange)
    );
    assert!(!SubresourceRange::new(0, 2, 0, 1).is_in_bounds(&image));
}

#[test]
fn range_exceeding_array_layers_is_rejected() {
    let image = single_mip_single_layer_image();
    assert_eq!(
        SubresourceRange::new_checked(0, 1, 1, 1, &image),
        Err(ValidationError::InvalidSubresourceRange)
    );
    assert_eq!(
        SubresourceRange::new_checked(0, 1, 0, 2, &image),
        Err(ValidationError::InvalidSubresourceRange)
    );
}

#[test]
fn full_range_of_a_larger_image_is_accepted() {
    let image = ResourceImageDesc::new(1024, 1024, 16, 11, Format::from_raw(28), 1);
    let range = SubresourceRange::new_checked(0, 11, 0, 16, &image).unwrap();
    assert!(range.is_in_bounds(&image));
    let tail = SubresourceRange::new_checked(10, 1, 15, 1, &image).unwrap();
    assert!(tail.is_in_bounds(&image));
    assert_eq!(
        SubresourceRange::new_checked(10, 2, 0, 1, &image),
        Err(ValidationError::InvalidSubresourceRange)
    );
}

#[test]
fn extreme_counts_do_not_wrap_during_validation() {
    let image = ResourceImageDesc::new(4, 4, u32::MAX, u32::MAX, Format::from_raw(2), 1);
    let range = SubresourceRange::new_checked(0, u16::MAX, u32::MAX - 1, 1, &image).unwrap();
    assert!(range.is_in_bounds(&image));
    let wrapping = SubresourceRange::new_checked(0, 1, u32::MAX, 2, &image);
    assert_eq!(wrapping, Err(ValidationError::InvalidSubresourceRange));
}

#[test]
fn default_range_is_empty_at_origin() {
    let range = SubresourceRange::default();
    assert_eq!(range, SubresourceRange::new(0, 0, 0, 0));
}
