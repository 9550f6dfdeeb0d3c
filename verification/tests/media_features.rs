use style::device::{Context, Device};
use style::media_features::{
    eval_any_hover, eval_any_pointer, eval_aspect_ratio, eval_color, eval_color_gamut,
    eval_color_index, eval_device_aspect_ratio, eval_device_height, eval_device_width,
    eval_dynamic_range, eval_forced_colors, eval_grid, eval_height, eval_hover,
    eval_inverted_colors, eval_monochrome, eval_orientation, eval_overflow_block,
    eval_overflow_inline, eval_pointer, eval_prefers_color_scheme, eval_prefers_contrast,
    eval_prefers_reduced_motion, eval_prefers_reduced_transparency, eval_scan, eval_update,
    eval_video_dynamic_range, eval_width, Ratio, Scan,
};
use style::values::{
    AuSize, ColorGamut, DisplayMode, DynamicRange, ForcedColors, Hover, InvertedColors,
    MediaEnvironment, Orientation, OverflowBlock, OverflowInline, Pointer, PrefersColorScheme,
    PrefersContrast, PrefersReducedMotion, PrefersReducedTransparency, Scripting, Update,
};

fn desktop(width: i32, height: i32) -> Context {
    Context::new(Device::new(
        AuSize::new(width, height),
        MediaEnvironment::default(),
        Pointer::Fine,
        Pointer::Fine,
        Hover::Hover,
        Hover::Hover,
    ))
}

fn with_environment(environment: MediaEnvironment) -> Context {
    Context::new(Device::new(
        AuSize::new(48000, 36000),
        environment,
        Pointer::NoneValue,
        Pointer::Coarse,
        Hover::NoneValue,
        Hover::Hover,
    ))
}

#[test]
fn orientation_landscape_and_portrait() {
    let wide = AuSize::new(1200, 600);
    let tall = AuSize::new(600, 1200);
    assert!(Orientation::eval(wide, Some(Orientation::Landscape)));
    assert!(!Orientation::eval(wide, Some(Orientation::Portrait)));
    assert!(Orientation::eval(tall, Some(Orientation::Portrait)));
    assert!(!Orientation::eval(tall, Some(Orientation::Landscape)));
    assert!(Orientation::eval(wide, None));
    assert!(Orientation::eval(tall, None));
}

#[test]
fn orientation_square_is_portrait() {
    let square = AuSize::new(600, 600);
    assert!(Orientation::eval(square, Some(Orientation::Portrait)));
    assert!(!Orientation::eval(square, Some(Orientation::Landscape)));
}

#[test]
fn orientation_exactly_one_matches() {
    for (w, h) in [(0, 0), (1, 0), (0, 1), (-5, 3), (i32::MAX, i32::MIN), (60, 61)] {
        let size = AuSize::new(w, h);
        assert_ne!(
            Orientation::eval(size, Some(Orientation::Portrait)),
            Orientation::eval(size, Some(Orientation::Landscape))
        );
    }
}

#[test]
fn eval_orientation_reads_viewport() {
    let ctx = desktop(1920 * 60, 1080 * 60);
    assert!(eval_orientation(&ctx, Some(Orientation::Landscape)));
    assert!(!eval_orientation(&ctx, Some(Orientation::Portrait)));
    assert!(eval_orientation(&ctx, None));
}

#[test]
fn lengths_are_viewport_app_units() {
    let ctx = desktop(1920 * 60, 1080 * 60);
    assert_eq!(eval_width(&ctx), 115200);
    assert_eq!(eval_height(&ctx), 64800);
    assert_eq!(eval_device_width(&ctx), eval_width(&ctx));
    assert_eq!(eval_device_height(&ctx), eval_height(&ctx));
}

#[test]
fn aspect_ratio_is_width_over_height() {
    let ctx = desktop(800, 600);
    assert_eq!(eval_aspect_ratio(&ctx), Ratio { width: 800, height: 600 });
    assert_eq!(eval_device_aspect_ratio(&ctx), eval_aspect_ratio(&ctx));
}

#[test]
fn constant_features() {
    let ctx = desktop(100, 100);
    assert_eq!(eval_color(&ctx), 8);
    assert_eq!(eval_color_index(&ctx), 0);
    assert_eq!(eval_monochrome(&ctx), 0);
    assert!(!eval_grid(&ctx));
}

#[test]
fn scan_never_matches() {
    let ctx = desktop(100, 100);
    assert!(!eval_scan(&ctx, Some(Scan::Progressive)));
    assert!(!eval_scan(&ctx, Some(Scan::Interlace)));
    assert!(!eval_scan(&ctx, None));
}

#[test]
fn default_environment_is_conservative_desktop() {
    let env = MediaEnvironment::default();
    assert_eq!(env.prefers_color_scheme, PrefersColorScheme::Light);
    assert_eq!(env.prefers_reduced_motion, PrefersReducedMotion::NoPreference);
    assert_eq!(env.prefers_contrast, PrefersContrast::NoPreference);
    assert_eq!(env.prefers_reduced_transparency, PrefersReducedTransparency::NoPreference);
    assert_eq!(env.inverted_colors, InvertedColors::NoneValue);
    assert_eq!(env.forced_colors, ForcedColors::NoneValue);
    assert_eq!(env.update, Update::Fast);
    assert_eq!(env.overflow_block, OverflowBlock::Scroll);
    assert_eq!(env.overflow_inline, OverflowInline::Scroll);
    assert_eq!(env.color_gamut, ColorGamut::Srgb);
    assert_eq!(env.dynamic_range, DynamicRange::Standard);
    assert_eq!(env.video_dynamic_range, DynamicRange::Standard);
    assert_eq!(env.display_mode, DisplayMode::Browser);
    assert_eq!(env.scripting, Scripting::Enabled);
}

#[test]
fn enum_defaults() {
    assert_eq!(PrefersContrast::default(), PrefersContrast::NoPreference);
    assert_eq!(Update::default(), Update::Fast);
    assert_eq!(OverflowBlock::default(), OverflowBlock::Scroll);
    assert_eq!(DisplayMode::default(), DisplayMode::Browser);
    assert_eq!(Scripting::default(), Scripting::Enabled);
    assert_eq!(ForcedColors::default(), ForcedColors::NoneValue);
}

#[test]
fn default_desktop_preference_queries() {
    let ctx = desktop(100, 100);
    assert!(!eval_prefers_reduced_motion(&ctx, None));
    assert!(!eval_prefers_contrast(&ctx, None));
    assert!(!eval_prefers_reduced_transparency(&ctx, None));
    assert!(!eval_inverted_colors(&ctx, None));
    assert!(!eval_forced_colors(&ctx, None));
    assert!(eval_update(&ctx, None));
    assert!(eval_overflow_inline(&ctx, None));
    assert!(eval_prefers_color_scheme(&ctx, Some(PrefersColorScheme::Light)));
    assert!(!eval_prefers_color_scheme(&ctx, Some(PrefersColorScheme::Dark)));
    assert!(eval_prefers_color_scheme(&ctx, None));
}

#[test]
fn preference_keywords_match_device_value() {
    let mut env = MediaEnvironment::default();
    env.prefers_color_scheme = PrefersColorScheme::Dark;
    env.prefers_reduced_motion = PrefersReducedMotion::Reduce;
    env.prefers_contrast = PrefersContrast::Custom;
    env.prefers_reduced_transparency = PrefersReducedTransparency::Reduce;
    env.inverted_colors = InvertedColors::Inverted;
    env.forced_colors = ForcedColors::Active;
    let ctx = with_environment(env);

    assert!(eval_prefers_color_scheme(&ctx, Some(PrefersColorScheme::Dark)));
    assert!(!eval_prefers_color_scheme(&ctx, Some(PrefersColorScheme::Light)));

    assert!(eval_prefers_reduced_motion(&ctx, Some(PrefersReducedMotion::Reduce)));
    assert!(!eval_prefers_reduced_motion(&ctx, Some(PrefersReducedMotion::NoPreference)));
    assert!(eval_prefers_reduced_motion(&ctx, None));

    assert!(eval_prefers_contrast(&ctx, Some(PrefersContrast::Custom)));
    assert!(!eval_prefers_contrast(&ctx, Some(PrefersContrast::More)));
    assert!(!eval_prefers_contrast(&ctx, Some(PrefersContrast::Less)));
    assert!(eval_prefers_contrast(&ctx, None));

    assert!(eval_prefers_reduced_transparency(&ctx, Some(PrefersReducedTransparency::Reduce)));
    assert!(eval_prefers_reduced_transparency(&ctx, None));

    assert!(eval_inverted_colors(&ctx, Some(InvertedColors::Inverted)));
    assert!(!eval_inverted_colors(&ctx, Some(InvertedColors::NoneValue)));
    assert!(eval_inverted_colors(&ctx, None));

    assert!(eval_forced_colors(&ctx, Some(ForcedColors::Active)));
    assert!(!eval_forced_colors(&ctx, Some(ForcedColors::Requested)));
    assert!(eval_forced_colors(&ctx, None));
}

#[test]
fn pointer_and_hover() {
    let ctx = with_environment(MediaEnvironment::default());
    assert!(eval_pointer(&ctx, Some(Pointer::NoneValue)));
    assert!(!eval_pointer(&ctx, Some(Pointer::Fine)));
    assert!(!eval_pointer(&ctx, None));
    assert!(eval_any_pointer(&ctx, Some(Pointer::Coarse)));
    assert!(!eval_any_pointer(&ctx, Some(Pointer::Fine)));
    assert!(eval_any_pointer(&ctx, None));
    assert!(!eval_hover(&ctx, Some(Hover::Hover)));
    assert!(!eval_hover(&ctx, None));
    assert!(eval_any_hover(&ctx, Some(Hover::Hover)));
    assert!(eval_any_hover(&ctx, None));
}

#[test]
fn update_and_overflow() {
    let mut env = MediaEnvironment::default();
    env.update = Update::NoneValue;
    env.overflow_block = OverflowBlock::NoneValue;
    env.overflow_inline = OverflowInline::NoneValue;
    let ctx = with_environment(env);
    assert!(!eval_update(&ctx, None));
    assert!(eval_update(&ctx, Some(Update::NoneValue)));
    assert!(!eval_update(&ctx, Some(Update::Slow)));
    // The boolean context of overflow-block matches every device.
    assert!(eval_overflow_block(&ctx, None));
    assert!(eval_overflow_block(&ctx, Some(OverflowBlock::NoneValue)));
    assert!(!eval_overflow_block(&ctx, Some(OverflowBlock::Paged)));
    assert!(!eval_overflow_inline(&ctx, None));
    assert!(eval_overflow_inline(&ctx, Some(OverflowInline::NoneValue)));
    assert!(!eval_overflow_inline(&ctx, Some(OverflowInline::Scroll)));
}

#[test]
fn boolean_context_is_not_none_keyword() {
    for motion in [PrefersReducedMotion::NoPreference, PrefersReducedMotion::Reduce] {
        let mut env = MediaEnvironment::default();
        env.prefers_reduced_motion = motion;
        let ctx = with_environment(env);
        assert_eq!(
            eval_prefers_reduced_motion(&ctx, None),
            !eval_prefers_reduced_motion(&ctx, Some(PrefersReducedMotion::NoPreference))
        );
    }
}

#[test]
fn color_gamut_wider_device_matches_narrower_query() {
    let mut env = MediaEnvironment::default();
    env.color_gamut = ColorGamut::P3;
    let ctx = with_environment(env);
    assert!(eval_color_gamut(&ctx, Some(ColorGamut::Srgb)));
    assert!(eval_color_gamut(&ctx, Some(ColorGamut::P3)));
    assert!(!eval_color_gamut(&ctx, Some(ColorGamut::Rec2020)));
    assert!(!eval_color_gamut(&ctx, None));

    let srgb = with_environment(MediaEnvironment::default());
    assert!(eval_color_gamut(&srgb, Some(ColorGamut::Srgb)));
    assert!(!eval_color_gamut(&srgb, Some(ColorGamut::P3)));
}

#[test]
fn dynamic_range_higher_device_matches_lower_query() {
    let mut env = MediaEnvironment::default();
    env.dynamic_range = DynamicRange::High;
    let ctx = with_environment(env);
    assert!(eval_dynamic_range(&ctx, Some(DynamicRange::Standard)));
    assert!(eval_dynamic_range(&ctx, Some(DynamicRange::High)));
    assert!(!eval_dynamic_range(&ctx, None));
    assert!(eval_video_dynamic_range(&ctx, Some(DynamicRange::Standard)));
    assert!(!eval_video_dynamic_range(&ctx, Some(DynamicRange::High)));
    assert!(!eval_video_dynamic_range(&ctx, None));
}

#[test]
fn gamut_and_range_order() {
    assert!(ColorGamut::Srgb < ColorGamut::P3);
    assert!(ColorGamut::P3 < ColorGamut::Rec2020);
    assert!(ColorGamut::Srgb < ColorGamut::Rec2020);
    assert!(ColorGamut::P3 <= ColorGamut::P3);
    assert!(!(ColorGamut::Rec2020 <= ColorGamut::P3));
    assert_eq!(
        ColorGamut::Rec2020.partial_cmp(&ColorGamut::Srgb),
        Some(std::cmp::Ordering::Greater)
    );
    assert!(DynamicRange::Standard < DynamicRange::High);
    assert!(DynamicRange::High >= DynamicRange::High);
    assert_eq!(
        DynamicRange::Standard.partial_cmp(&DynamicRange::Standard),
        Some(std::cmp::Ordering::Equal)
    );
}

#[test]
fn forced_colors_is_active() {
    assert!(ForcedColors::Active.is_active());
    assert!(!ForcedColors::Requested.is_active());
    assert!(!ForcedColors::NoneValue.is_active());
}

#[test]
fn set_media_environment_replaces_all_values() {
    let mut device = Device::new(
        AuSize::new(10, 20),
        MediaEnvironment::default(),
        Pointer::Fine,
        Pointer::Fine,
        Hover::Hover,
        Hover::Hover,
    );
    let mut env = MediaEnvironment::default();
    env.prefers_color_scheme = PrefersColorScheme::Dark;
    env.color_gamut = ColorGamut::Rec2020;
    env.scripting = Scripting::InitialOnly;
    device.set_media_environment(env);
    assert_eq!(device.media_environment(), env);
    assert_eq!(device.color_scheme(), PrefersColorScheme::Dark);
    assert_eq!(device.color_gamut(), ColorGamut::Rec2020);
    assert_eq!(device.au_viewport_size(), AuSize::new(10, 20));
    assert_eq!(device.pointer(), Pointer::Fine);
    assert_eq!(device.any_hover(), Hover::Hover);
}
