use frame_engine::surface::{
    choose_image_count, choose_swap_extent, choose_swap_present_mode, choose_swap_surface_format,
    negotiate, Capabilities, Extent, PresentMode, SupportedPresentModes, SurfaceConfiguration,
    SurfaceFormat, COLOR_SPACE_SRGB_NONLINEAR, FORMAT_B8G8R8A8_UNORM,
};

fn preferred() -> SurfaceFormat {
    SurfaceFormat { format: FORMAT_B8G8R8A8_UNORM, color_space: COLOR_SPACE_SRGB_NONLINEAR }
}

fn modes(immediate: bool, mailbox: bool, fifo: bool) -> SupportedPresentModes {
    SupportedPresentModes { immediate, mailbox, fifo, relaxed: false }
}

fn capabilities() -> Capabilities {
    Capabilities {
        min_image_count: 2,
        max_image_count: None,
        current_extent: None,
        min_image_extent: Extent { width: 100, height: 120 },
        max_image_extent: Extent { width: 640, height: 4096 },
        supported_formats: vec![SurfaceFormat { format: 37, color_space: 0 }, preferred()],
        present_modes: modes(true, false, true),
    }
}

#[test]
fn format_prefers_bgra_srgb() {
    let formats = vec![
        SurfaceFormat { format: 37, color_space: 0 },
        SurfaceFormat { format: FORMAT_B8G8R8A8_UNORM, color_space: 1000104001 },
        preferred(),
    ];
    assert_eq!(choose_swap_surface_format(&formats), preferred());
}

#[test]
fn format_falls_back_to_first() {
    let formats = vec![
        SurfaceFormat { format: 37, color_space: 0 },
        SurfaceFormat { format: FORMAT_B8G8R8A8_UNORM, color_space: 1000104001 },
        SurfaceFormat { format: 50, color_space: 0 },
    ];
    assert_eq!(choose_swap_surface_format(&formats), SurfaceFormat { format: 37, color_space: 0 });
}

#[test]
fn present_mode_order() {
    assert_eq!(choose_swap_present_mode(modes(true, true, true)), PresentMode::Mailbox);
    assert_eq!(choose_swap_present_mode(modes(true, false, true)), PresentMode::Immediate);
    assert_eq!(choose_swap_present_mode(modes(false, false, true)), PresentMode::Fifo);
    assert_eq!(choose_swap_present_mode(modes(false, false, false)), PresentMode::Fifo);
    let relaxed_only =
        SupportedPresentModes { immediate: false, mailbox: false, fifo: false, relaxed: true };
    assert_eq!(choose_swap_present_mode(relaxed_only), PresentMode::Fifo);
}

#[test]
fn extent_is_the_surface_extent_where_fixed() {
    let mut caps = capabilities();
    caps.current_extent = Some(Extent { width: 333, height: 222 });
    let chosen = choose_swap_extent(&caps, Extent { width: 800, height: 600 });
    assert_eq!(chosen, Extent { width: 333, height: 222 });
}

#[test]
fn extent_is_clamped_by_component() {
    let caps = capabilities();
    assert_eq!(
        choose_swap_extent(&caps, Extent { width: 800, height: 600 }),
        Extent { width: 640, height: 600 }
    );
    assert_eq!(
        choose_swap_extent(&caps, Extent { width: 10, height: 5000 }),
        Extent { width: 100, height: 4096 }
    );
    assert_eq!(
        choose_swap_extent(&caps, Extent { width: 100, height: 4096 }),
        Extent { width: 100, height: 4096 }
    );
}

#[test]
fn extent_lower_bound_wins_where_bounds_cross() {
    let mut caps = capabilities();
    caps.min_image_extent = Extent { width: 700, height: 120 };
    assert_eq!(
        choose_swap_extent(&caps, Extent { width: 800, height: 600 }),
        Extent { width: 700, height: 600 }
    );
}

#[test]
fn image_count_is_minimum_plus_one() {
    let caps = capabilities();
    assert_eq!(choose_image_count(&caps), 3);
}

#[test]
fn image_count_is_held_to_the_maximum() {
    let mut caps = capabilities();
    caps.max_image_count = Some(2);
    assert_eq!(choose_image_count(&caps), 2);
    caps.max_image_count = Some(3);
    assert_eq!(choose_image_count(&caps), 3);
    caps.max_image_count = Some(8);
    assert_eq!(choose_image_count(&caps), 3);
}

#[test]
fn image_count_zero_maximum_means_unbounded() {
    let mut caps = capabilities();
    caps.max_image_count = Some(0);
    assert_eq!(choose_image_count(&caps), 3);
}

#[test]
fn image_count_at_the_top_of_the_range() {
    let mut caps = capabilities();
    caps.min_image_count = u32::MAX;
    caps.max_image_count = Some(u32::MAX);
    assert!(caps.is_usable());
    assert_eq!(choose_image_count(&caps), u32::MAX);
    caps.min_image_count = u32::MAX - 1;
    caps.max_image_count = None;
    assert!(caps.is_usable());
    assert_eq!(choose_image_count(&caps), u32::MAX);
}

#[test]
fn usable_needs_a_format_and_a_count_that_fits() {
    let mut caps = capabilities();
    assert!(caps.is_usable());
    caps.supported_formats = vec![];
    assert!(!caps.is_usable());
    let mut caps = capabilities();
    caps.min_image_count = u32::MAX;
    assert!(!caps.is_usable());
    caps.max_image_count = Some(0);
    assert!(!caps.is_usable());
    caps.max_image_count = Some(7);
    assert!(caps.is_usable());
}

#[test]
fn negotiate_puts_the_four_choices_together() {
    let caps = capabilities();
    let configuration = negotiate(&caps, Extent { width: 800, height: 600 });
    assert_eq!(
        configuration,
        SurfaceConfiguration {
            format: preferred(),
            present_mode: PresentMode::Immediate,
            extent: Extent { width: 640, height: 600 },
            image_count: 3,
        }
    );
}

#[test]
fn negotiated_values_lie_within_reported_bounds() {
    let drawables = [
        Extent { width: 0, height: 0 },
        Extent { width: 1, height: 100000 },
        Extent { width: 640, height: 120 },
        Extent { width: u32::MAX, height: u32::MAX },
    ];
    let limits = [None, Some(0), Some(2), Some(3), Some(100)];
    for drawable in drawables.iter() {
        for limit in limits.iter() {
            let mut caps = capabilities();
            caps.max_image_count = *limit;
            let configuration = negotiate(&caps, *drawable);
            assert!(configuration.image_count >= caps.min_image_count);
            if let Some(limit) = *limit {
                if limit != 0 {
                    assert!(configuration.image_count <= limit);
                }
            }
            assert!(configuration.extent.width >= caps.min_image_extent.width);
            assert!(configuration.extent.width <= caps.max_image_extent.width);
            assert!(configuration.extent.height >= caps.min_image_extent.height);
            assert!(configuration.extent.height <= caps.max_image_extent.height);
        }
    }
}

#[test]
fn negotiating_twice_gives_the_same_configuration() {
    let caps = capabilities();
    let first = negotiate(&caps, Extent { width: 800, height: 600 });
    let second = negotiate(&caps, Extent { width: 800, height: 600 });
    assert_eq!(first, second);
    let mut resized = capabilities();
    resized.current_extent = Some(Extent { width: 320, height: 200 });
    let third = negotiate(&resized, Extent { width: 320, height: 200 });
    assert_eq!(third.format, first.format);
    assert_eq!(third.present_mode, first.present_mode);
    assert_eq!(third.extent, Extent { width: 320, height: 200 });
}

#[test]
fn degenerate_extent_has_a_zero_side() {
    assert!(Extent { width: 0, height: 600 }.is_degenerate());
    assert!(Extent { width: 800, height: 0 }.is_degenerate());
    assert!(Extent { width: 0, height: 0 }.is_degenerate());
    assert!(!Extent { width: 1, height: 1 }.is_degenerate());
}
