use indite::debug_messages::{category_label, severity_label, MessageCategory, MessageSeverity};
use indite::swapchain::{
    image_rect, swapchain_image_info, uniform_buffer_size, SwapchainDescriptor, MATRIX_BYTES,
};
use indite::{multiview_mask, MSAA_SAMPLE_COUNT, VIEW_COUNT};

#[test]
fn image_info_keeps_resolution_and_layers_one_of_everything_else() {
    let desc = SwapchainDescriptor { width: 1832, height: 1920, view_count: VIEW_COUNT };
    let info = swapchain_image_info(&desc);
    assert_eq!(info.width, 1832);
    assert_eq!(info.height, 1920);
    assert_eq!(info.array_size, 2);
    assert_eq!(info.sample_count, 1);
    assert_eq!(info.face_count, 1);
    assert_eq!(info.mip_count, 1);
}

#[test]
fn composition_rect_covers_the_whole_image_from_origin() {
    let desc = SwapchainDescriptor { width: 1832, height: 1920, view_count: VIEW_COUNT };
    let rect = image_rect(&desc);
    assert_eq!(rect.offset_x, 0);
    assert_eq!(rect.offset_y, 0);
    assert_eq!(rect.width, 1832);
    assert_eq!(rect.height, 1920);
}

#[test]
fn uniform_buffer_holds_one_matrix_per_view() {
    assert_eq!(MATRIX_BYTES, 64);
    assert_eq!(uniform_buffer_size(VIEW_COUNT), 128);
    assert_eq!(uniform_buffer_size(1), 64);
}

#[test]
fn two_views_give_the_two_low_mask_bits() {
    assert_eq!(multiview_mask(VIEW_COUNT), 0b11);
    assert_eq!(multiview_mask(1), 0b1);
    assert_eq!(multiview_mask(3), 0b111);
}

#[test]
fn msaa_sample_count_is_fixed() {
    assert_eq!(MSAA_SAMPLE_COUNT, 4);
}

#[test]
fn validation_message_labels() {
    assert_eq!(category_label(MessageCategory::General), "general");
    assert_eq!(category_label(MessageCategory::Validation), "validation");
    assert_eq!(category_label(MessageCategory::Performance), "performance");
    assert_eq!(category_label(MessageCategory::Conformance), "conformance");
    assert_eq!(category_label(MessageCategory::Unknown), "unknown");
    assert_eq!(severity_label(MessageSeverity::Verbose), "verbose");
    assert_eq!(severity_label(MessageSeverity::Info), "info");
    assert_eq!(severity_label(MessageSeverity::Warning), "warning");
    assert_eq!(severity_label(MessageSeverity::Error), "error");
    assert_eq!(severity_label(MessageSeverity::Unknown), "unknown");
}
