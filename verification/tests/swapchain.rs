use xr_session::fault::FrameFault;
use xr_session::swapchain::{
    acquired_image, format_offered, plan_swapchains, Extent, Offset, Rect, SetupFault, SwapchainRequest,
    ViewConfig, FORMAT_SRGB8_ALPHA8, USAGE_COLOR_ATTACHMENT, USAGE_SAMPLED,
};

fn view(width: u32, height: u32, samples: u32) -> ViewConfig {
    ViewConfig {
        recommended_width: width,
        recommended_height: height,
        recommended_sample_count: samples,
    }
}

#[test]
fn the_constants_are_those_of_the_runtime_and_of_opengl() {
    assert_eq!(USAGE_COLOR_ATTACHMENT, openxr::SwapchainUsageFlags::COLOR_ATTACHMENT.into_raw());
    assert_eq!(USAGE_SAMPLED, openxr::SwapchainUsageFlags::SAMPLED.into_raw());
    assert_eq!(FORMAT_SRGB8_ALPHA8, glow::SRGB8_ALPHA8);
    assert_eq!(FORMAT_SRGB8_ALPHA8, 0x8C43);
}

#[test]
fn a_request_asks_for_one_sampled_colour_image_of_the_recommended_size() {
    let request = view(1832, 1920, 4).request();
    assert_eq!(
        request,
        SwapchainRequest {
            create_flags: 0,
            usage_flags: 0x21,
            format: 0x8C43,
            sample_count: 4,
            width: 1832,
            height: 1920,
            face_count: 1,
            array_size: 1,
            mip_count: 1,
        }
    );
    assert_eq!(request.usage_flags, USAGE_COLOR_ATTACHMENT | USAGE_SAMPLED);
}

#[test]
fn a_rect_covers_the_recommended_image_from_the_origin() {
    assert_eq!(
        view(1832, 1920, 1).rect(),
        Some(Rect { offset: Offset { x: 0, y: 0 }, extent: Extent { width: 1832, height: 1920 } })
    );
    assert_eq!(
        view(0, 0, 1).rect(),
        Some(Rect { offset: Offset { x: 0, y: 0 }, extent: Extent { width: 0, height: 0 } })
    );
}

#[test]
fn a_rect_holds_sizes_up_to_the_largest_signed_number() {
    let largest = i32::MAX as u32;
    assert_eq!(
        view(largest, largest, 1).rect(),
        Some(Rect {
            offset: Offset { x: 0, y: 0 },
            extent: Extent { width: i32::MAX, height: i32::MAX },
        })
    );
    assert_eq!(view(largest + 1, 1, 1).rect(), None);
    assert_eq!(view(1, largest + 1, 1).rect(), None);
    assert_eq!(view(u32::MAX, u32::MAX, 1).rect(), None);
}

#[test]
fn format_offered_looks_through_the_whole_list() {
    assert!(!format_offered(&vec![], 0x8C43));
    assert!(format_offered(&vec![0x8C43], 0x8C43));
    assert!(format_offered(&vec![0x8058, 0x881A, 0x8C43], 0x8C43));
    assert!(format_offered(&vec![0x8C43, 0x8058], 0x8C43));
    assert!(!format_offered(&vec![0x8058, 0x881A], 0x8C43));
}

#[test]
fn a_stereo_set_is_planned_in_the_order_of_the_views() {
    let views = vec![view(1000, 1100, 1), view(1200, 1300, 2)];
    let plans = plan_swapchains(&views, &vec![0x8058, 0x8C43]).unwrap();
    assert_eq!(plans.len(), 2);
    assert_eq!(plans[0].request, views[0].request());
    assert_eq!(plans[1].request, views[1].request());
    assert_eq!(plans[0].rect.extent, Extent { width: 1000, height: 1100 });
    assert_eq!(plans[1].rect.extent, Extent { width: 1200, height: 1300 });
    assert_eq!(plans[0].rect.offset, Offset { x: 0, y: 0 });
    assert_eq!(plans[1].rect.offset, Offset { x: 0, y: 0 });
    assert_ne!(plans[0].rect, plans[1].rect);
    assert_eq!(plans[0].request.sample_count, 1);
    assert_eq!(plans[1].request.sample_count, 2);
}

#[test]
fn planning_wants_one_view_per_eye() {
    let formats = vec![0x8C43];
    assert_eq!(plan_swapchains(&vec![], &formats), Err(SetupFault::ViewCount { found: 0 }));
    assert_eq!(
        plan_swapchains(&vec![view(1, 1, 1)], &formats),
        Err(SetupFault::ViewCount { found: 1 })
    );
    assert_eq!(
        plan_swapchains(&vec![view(1, 1, 1); 3], &formats),
        Err(SetupFault::ViewCount { found: 3 })
    );
}

#[test]
fn planning_wants_the_pixel_format() {
    let views = vec![view(1, 1, 1); 2];
    assert_eq!(plan_swapchains(&views, &vec![]), Err(SetupFault::FormatUnsupported));
    assert_eq!(plan_swapchains(&views, &vec![0x8058, 0x881A]), Err(SetupFault::FormatUnsupported));
}

#[test]
fn planning_names_the_first_view_that_does_not_fit() {
    let formats = vec![0x8C43];
    let big = 1u32 << 31;
    assert_eq!(
        plan_swapchains(&vec![view(big, 1, 1), view(1, 1, 1)], &formats),
        Err(SetupFault::ExtentOutOfRange { view: 0 })
    );
    assert_eq!(
        plan_swapchains(&vec![view(1, 1, 1), view(1, big, 1)], &formats),
        Err(SetupFault::ExtentOutOfRange { view: 1 })
    );
    assert_eq!(
        plan_swapchains(&vec![view(big, 1, 1), view(1, big, 1)], &formats),
        Err(SetupFault::ExtentOutOfRange { view: 0 })
    );
}

#[test]
fn planning_checks_the_count_then_the_format_then_the_sizes() {
    let big = 1u32 << 31;
    assert_eq!(
        plan_swapchains(&vec![view(big, 1, 1)], &vec![]),
        Err(SetupFault::ViewCount { found: 1 })
    );
    assert_eq!(
        plan_swapchains(&vec![view(big, 1, 1), view(1, 1, 1)], &vec![]),
        Err(SetupFault::FormatUnsupported)
    );
}

#[test]
fn an_image_is_looked_up_by_the_index_the_runtime_hands_out() {
    let images = vec![11, 12, 13];
    assert_eq!(acquired_image(&images, 0, 0), Ok(11));
    assert_eq!(acquired_image(&images, 1, 2), Ok(13));
    assert_eq!(acquired_image(&images, 1, 3), Err(FrameFault::ImageIndex { eye: 1, index: 3 }));
    assert_eq!(
        acquired_image(&images, 0, u32::MAX),
        Err(FrameFault::ImageIndex { eye: 0, index: u32::MAX })
    );
    assert_eq!(acquired_image(&vec![], 0, 0), Err(FrameFault::ImageIndex { eye: 0, index: 0 }));
}

#[test]
fn setup_faults_have_their_messages() {
    assert_eq!(
        SetupFault::FormatUnsupported.message(),
        "XR: Cannot use OpenGL GL_SRGB8_ALPHA8 swapchain format"
    );
    assert_eq!(
        SetupFault::ViewCount { found: 1 }.message(),
        "XR: the runtime does not describe two views"
    );
    assert_eq!(
        SetupFault::ExtentOutOfRange { view: 0 }.message(),
        "XR: a recommended image size is out of range"
    );
}
