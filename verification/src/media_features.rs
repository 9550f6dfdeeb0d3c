//! The media features that this engine supports, and their evaluators.
//!
//! Lengths are reported in app units (sixtieths of a CSS pixel) and aspect
//! ratios as a pair of app-unit lengths; turning them into floating-point
//! CSS pixels is left to the caller.

use vstd::prelude::*;
use crate::device::Context;
use crate::values::{
    color_gamut_rank, dynamic_range_rank, orientation_matches, ColorGamut, DynamicRange,
    ForcedColors, Hover, InvertedColors, Orientation, OverflowBlock, OverflowInline, Pointer,
    PrefersColorScheme, PrefersContrast, PrefersReducedMotion, PrefersReducedTransparency, Update,
};

verus! {

/// A keyword query on a feature with a `none`-like value: a keyword matches
/// when it is the device's value, and the boolean context matches unless the
/// device's value is that `none`-like value.
pub open spec fn keyword_matches<T>(device_value: T, query: Option<T>, none_value: T) -> bool {
    match query {
        Some(v) => device_value == v,
        None => device_value != none_value,
    }
}

/// A keyword query whose boolean context matches every device: a keyword
/// matches when it is the device's value.
pub open spec fn keyword_or_any_matches<T>(device_value: T, query: Option<T>) -> bool {
    match query {
        Some(v) => device_value == v,
        None => true,
    }
}

/// A `color-gamut` query: a gamut matches every device whose gamut is at
/// least as wide; the boolean context matches nothing.
pub open spec fn color_gamut_matches(device: ColorGamut, query: Option<ColorGamut>) -> bool {
    match query {
        Some(v) => color_gamut_rank(v) <= color_gamut_rank(device),
        None => false,
    }
}

/// A `dynamic-range` query: a range matches every device whose range is at
/// least as high; the boolean context matches nothing.
pub open spec fn dynamic_range_matches(device: DynamicRange, query: Option<DynamicRange>) -> bool {
    match query {
        Some(v) => dynamic_range_rank(v) <= dynamic_range_rank(device),
        None => false,
    }
}

/// An aspect ratio, as a width and a height in app units.
#[derive(Clone, Copy, Debug, PartialEq, Eq, Structural)]
pub struct Ratio {
    /// The width, in app units.
    pub width: i32,
    /// The height, in app units.
    pub height: i32,
}

/// https://drafts.csswg.org/mediaqueries-4/#width
pub fn eval_width(context: &Context) -> (r: i32)
    ensures
        r == context.device.viewport_size.width,
{
    context.device().au_viewport_size().width
}

/// https://drafts.csswg.org/mediaqueries-4/#height
pub fn eval_height(context: &Context) -> (r: i32)
    ensures
        r == context.device.viewport_size.height,
{
    context.device().au_viewport_size().height
}

/// https://drafts.csswg.org/mediaqueries-4/#device-width
/// Servo renders into the viewport with no separate device surface, so device
/// dimensions equal the viewport dimensions.
pub fn eval_device_width(context: &Context) -> (r: i32)
    ensures
        r == context.device.viewport_size.width,
{
    eval_width(context)
}

/// https://drafts.csswg.org/mediaqueries-4/#device-height
pub fn eval_device_height(context: &Context) -> (r: i32)
    ensures
        r == context.device.viewport_size.height,
{
    eval_height(context)
}

/// https://drafts.csswg.org/mediaqueries-4/#aspect-ratio
pub fn eval_aspect_ratio(context: &Context) -> (r: Ratio)
    ensures
        r.width == context.device.viewport_size.width,
        r.height == context.device.viewport_size.height,
{
    let size = context.device().au_viewport_size();
    Ratio { width: size.width, height: size.height }
}

/// https://drafts.csswg.org/mediaqueries-4/#device-aspect-ratio
pub fn eval_device_aspect_ratio(context: &Context) -> (r: Ratio)
    ensures
        r.width == context.device.viewport_size.width,
        r.height == context.device.viewport_size.height,
{
    eval_aspect_ratio(context)
}

/// https://drafts.csswg.org/mediaqueries-4/#orientation
pub fn eval_orientation(context: &Context, value: Option<Orientation>) -> (r: bool)
    ensures
        r == orientation_matches(context.device.viewport_size, value),
{
    Orientation::eval(context.device().au_viewport_size(), value)
}

/// https://drafts.csswg.org/mediaqueries-4/#color
pub fn eval_color(context: &Context) -> (r: i32)
    ensures
        r == 8,
{
    // Truecolor: 8 bits per color component.
    8
}

/// https://drafts.csswg.org/mediaqueries-4/#color-index
pub fn eval_color_index(context: &Context) -> (r: i32)
    ensures
        r == 0,
{
    // Not a color-lookup-table device.
    0
}

/// https://drafts.csswg.org/mediaqueries-4/#monochrome
pub fn eval_monochrome(context: &Context) -> (r: i32)
    ensures
        r == 0,
{
    // Color device, not monochrome.
    0
}

/// https://drafts.csswg.org/mediaqueries-4/#grid
pub fn eval_grid(context: &Context) -> (r: bool)
    ensures
        !r,
{
    // A bitmap device, not a grid/tty; the 'grid' feature is always 0.
    false
}

/// Values for the scan media feature.
#[derive(Clone, Copy, Debug)]
#[allow(missing_docs)]
pub enum Scan {
    Progressive,
    Interlace,
}

/// https://drafts.csswg.org/mediaqueries-4/#scan
pub fn eval_scan(context: &Context, value: Option<Scan>) -> (r: bool)
    ensures
        !r,
{
    // Since we doesn't support the 'tv' media type, the 'scan' feature never
    // matches.
    false
}

/// https://drafts.csswg.org/mediaqueries-5/#prefers-color-scheme
pub fn eval_prefers_color_scheme(context: &Context, query_value: Option<PrefersColorScheme>) -> (r: bool)
    ensures
        r == keyword_or_any_matches(context.device.environment.prefers_color_scheme, query_value),
{
    match query_value {
        Some(v) => context.device().color_scheme() == v,
        None => true,
    }
}

/// https://drafts.csswg.org/mediaqueries-5/#prefers-reduced-motion
pub fn eval_prefers_reduced_motion(
    context: &Context,
    query_value: Option<PrefersReducedMotion>,
) -> (r: bool)
    ensures
        r == keyword_matches(
            context.device.environment.prefers_reduced_motion,
            query_value,
            PrefersReducedMotion::NoPreference,
        ),
{
    let device_value = context.device().prefers_reduced_motion();
    match query_value {
        Some(v) => device_value == v,
        // Boolean context `(prefers-reduced-motion)`: true unless no-preference.
        None => device_value != PrefersReducedMotion::NoPreference,
    }
}

/// https://drafts.csswg.org/mediaqueries-5/#prefers-contrast
pub fn eval_prefers_contrast(context: &Context, query_value: Option<PrefersContrast>) -> (r: bool)
    ensures
        r == keyword_matches(
            context.device.environment.prefers_contrast,
            query_value,
            PrefersContrast::NoPreference,
        ),
{
    let value = context.device().prefers_contrast();
    match query_value {
        Some(v) => value == v,
        None => value != PrefersContrast::NoPreference,
    }
}

/// https://drafts.csswg.org/mediaqueries-5/#prefers-reduced-transparency
pub fn eval_prefers_reduced_transparency(
    context: &Context,
    query_value: Option<PrefersReducedTransparency>,
) -> (r: bool)
    ensures
        r == keyword_matches(
            context.device.environment.prefers_reduced_transparency,
            query_value,
            PrefersReducedTransparency::NoPreference,
        ),
{
    let value = context.device().prefers_reduced_transparency();
    match query_value {
        Some(v) => value == v,
        None => value != PrefersReducedTransparency::NoPreference,
    }
}

/// https://drafts.csswg.org/mediaqueries-5/#inverted
pub fn eval_inverted_colors(context: &Context, query_value: Option<InvertedColors>) -> (r: bool)
    ensures
        r == keyword_matches(
            context.device.environment.inverted_colors,
            query_value,
            InvertedColors::NoneValue,
        ),
{
    let value = context.device().inverted_colors();
    match query_value {
        Some(v) => value == v,
        None => value != InvertedColors::NoneValue,
    }
}

/// https://drafts.csswg.org/mediaqueries-5/#forced-colors
pub fn eval_forced_colors(context: &Context, query_value: Option<ForcedColors>) -> (r: bool)
    ensures
        r == keyword_matches(
            context.device.environment.forced_colors,
            query_value,
            ForcedColors::NoneValue,
        ),
{
    let value = context.device().forced_colors();
    match query_value {
        Some(v) => value == v,
        None => value != ForcedColors::NoneValue,
    }
}

/// https://drafts.csswg.org/mediaqueries-4/#pointer
pub fn eval_pointer(context: &Context, query_value: Option<Pointer>) -> (r: bool)
    ensures
        r == keyword_matches(context.device.pointer, query_value, Pointer::NoneValue),
{
    let value = context.device().pointer();
    match query_value {
        Some(v) => value == v,
        None => value != Pointer::NoneValue,
    }
}

/// https://drafts.csswg.org/mediaqueries-4/#descdef-media-any-pointer
pub fn eval_any_pointer(context: &Context, query_value: Option<Pointer>) -> (r: bool)
    ensures
        r == keyword_matches(context.device.any_pointer, query_value, Pointer::NoneValue),
{
    let value = context.device().any_pointer();
    match query_value {
        Some(v) => value == v,
        None => value != Pointer::NoneValue,
    }
}

/// https://drafts.csswg.org/mediaqueries-4/#hover
pub fn eval_hover(context: &Context, query_value: Option<Hover>) -> (r: bool)
    ensures
        r == keyword_matches(context.device.hover, query_value, Hover::NoneValue),
{
    let value = context.device().hover();
    match query_value {
        Some(v) => value == v,
        None => value != Hover::NoneValue,
    }
}

/// https://drafts.csswg.org/mediaqueries-4/#descdef-media-any-hover
pub fn eval_any_hover(context: &Context, query_value: Option<Hover>) -> (r: bool)
    ensures
        r == keyword_matches(context.device.any_hover, query_value, Hover::NoneValue),
{
    let value = context.device().any_hover();
    match query_value {
        Some(v) => value == v,
        None => value != Hover::NoneValue,
    }
}

/// https://drafts.csswg.org/mediaqueries-4/#update
pub fn eval_update(context: &Context, query_value: Option<Update>) -> (r: bool)
    ensures
        r == keyword_matches(context.device.environment.update, query_value, Update::NoneValue),
{
    let value = context.device().update();
    match query_value {
        Some(v) => value == v,
        None => value != Update::NoneValue,
    }
}

/// https://drafts.csswg.org/mediaqueries-4/#mf-overflow-block
pub fn eval_overflow_block(context: &Context, query_value: Option<OverflowBlock>) -> (r: bool)
    ensures
        r == keyword_or_any_matches(context.device.environment.overflow_block, query_value),
{
    let value = context.device().overflow_block();
    match query_value {
        Some(v) => value == v,
        None => true,
    }
}

/// https://drafts.csswg.org/mediaqueries-4/#mf-overflow-inline
pub fn eval_overflow_inline(context: &Context, query_value: Option<OverflowInline>) -> (r: bool)
    ensures
        r == keyword_matches(
            context.device.environment.overflow_inline,
            query_value,
            OverflowInline::NoneValue,
        ),
{
    let value = context.device().overflow_inline();
    match query_value {
        Some(v) => value == v,
        None => value != OverflowInline::NoneValue,
    }
}

/// https://drafts.csswg.org/mediaqueries-4/#color-gamut
pub fn eval_color_gamut(context: &Context, query_value: Option<ColorGamut>) -> (r: bool)
    ensures
        r == color_gamut_matches(context.device.environment.color_gamut, query_value),
{
    // A wider device gamut matches a narrower query.
    match query_value {
        Some(v) => v <= context.device().color_gamut(),
        None => false,
    }
}

/// https://drafts.csswg.org/mediaqueries-5/#dynamic-range
pub fn eval_dynamic_range(context: &Context, query_value: Option<DynamicRange>) -> (r: bool)
    ensures
        r == dynamic_range_matches(context.device.environment.dynamic_range, query_value),
{
    match query_value {
        Some(v) => context.device().dynamic_range() >= v,
        None => false,
    }
}

/// https://drafts.csswg.org/mediaqueries-5/#video-dynamic-range
pub fn eval_video_dynamic_range(context: &Context, query_value: Option<DynamicRange>) -> (r: bool)
    ensures
        r == dynamic_range_matches(context.device.environment.video_dynamic_range, query_value),
{
    match query_value {
        Some(v) => context.device().video_dynamic_range() >= v,
        None => false,
    }
}

} // verus!
