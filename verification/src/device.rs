//! The device that media features are evaluated against, and the
//! evaluation context that carries it.

use vstd::prelude::*;
use crate::values::{
    AuSize, ColorGamut, DynamicRange, ForcedColors, Hover, InvertedColors, MediaEnvironment,
    OverflowBlock, OverflowInline, Pointer, PrefersColorScheme, PrefersContrast,
    PrefersReducedMotion, PrefersReducedTransparency, Update,
};

verus! {

/// What the media-feature evaluators read of the rendering device: the
/// viewport size in app units, the embedder-controlled media environment,
/// and the pointing devices.
#[derive(Clone, Copy, Debug, PartialEq, Eq, Structural)]
pub struct Device {
    /// The viewport size, in app units.
    pub viewport_size: AuSize,
    /// The embedder-controlled media-feature values.
    pub environment: MediaEnvironment,
    /// The primary pointing device (`pointer`).
    pub pointer: Pointer,
    /// The union of all pointing devices (`any-pointer`).
    pub any_pointer: Pointer,
    /// Whether the primary pointing device can hover (`hover`).
    pub hover: Hover,
    /// Whether any pointing device can hover (`any-hover`).
    pub any_hover: Hover,
}

impl Device {
    /// Makes a device from its viewport size, media environment and pointing devices.
    pub fn new(
        viewport_size: AuSize,
        environment: MediaEnvironment,
        pointer: Pointer,
        any_pointer: Pointer,
        hover: Hover,
        any_hover: Hover,
    ) -> (r: Device)
        ensures
            r.viewport_size == viewport_size,
            r.environment == environment,
            r.pointer == pointer,
            r.any_pointer == any_pointer,
            r.hover == hover,
            r.any_hover == any_hover,
    {
        Device { viewport_size, environment, pointer, any_pointer, hover, any_hover }
    }

    /// The viewport size, in app units.
    pub fn au_viewport_size(&self) -> (r: AuSize)
        ensures
            r == self.viewport_size,
    {
        self.viewport_size
    }

    /// The embedder-controlled media-feature values.
    pub fn media_environment(&self) -> (r: MediaEnvironment)
        ensures
            r == self.environment,
    {
        self.environment
    }

    /// Replaces all the embedder-controlled media-feature values at once;
    /// the viewport and the pointing devices stay as they were.
    pub fn set_media_environment(&mut self, environment: MediaEnvironment)
        ensures
            final(self).environment == environment,
            final(self).viewport_size == old(self).viewport_size,
            final(self).pointer == old(self).pointer,
            final(self).any_pointer == old(self).any_pointer,
            final(self).hover == old(self).hover,
            final(self).any_hover == old(self).any_hover,
    {
        self.environment = environment;
    }

    /// The `prefers-color-scheme` value.
    pub fn color_scheme(&self) -> (r: PrefersColorScheme)
        ensures
            r == self.environment.prefers_color_scheme,
    {
        self.environment.prefers_color_scheme
    }

    /// The `prefers-reduced-motion` value.
    pub fn prefers_reduced_motion(&self) -> (r: PrefersReducedMotion)
        ensures
            r == self.environment.prefers_reduced_motion,
    {
        self.environment.prefers_reduced_motion
    }

    /// The `prefers-contrast` value.
    pub fn prefers_contrast(&self) -> (r: PrefersContrast)
        ensures
            r == self.environment.prefers_contrast,
    {
        self.environment.prefers_contrast
    }

    /// The `prefers-reduced-transparency` value.
    pub fn prefers_reduced_transparency(&self) -> (r: PrefersReducedTransparency)
        ensures
            r == self.environment.prefers_reduced_transparency,
    {
        self.environment.prefers_reduced_transparency
    }

    /// The `inverted-colors` value.
    pub fn inverted_colors(&self) -> (r: InvertedColors)
        ensures
            r == self.environment.inverted_colors,
    {
        self.environment.inverted_colors
    }

    /// The `forced-colors` value.
    pub fn forced_colors(&self) -> (r: ForcedColors)
        ensures
            r == self.environment.forced_colors,
    {
        self.environment.forced_colors
    }

    /// The `update` value.
    pub fn update(&self) -> (r: Update)
        ensures
            r == self.environment.update,
    {
        self.environment.update
    }

    /// The `overflow-block` value.
    pub fn overflow_block(&self) -> (r: OverflowBlock)
        ensures
            r == self.environment.overflow_block,
    {
        self.environment.overflow_block
    }

    /// The `overflow-inline` value.
    pub fn overflow_inline(&self) -> (r: OverflowInline)
        ensures
            r == self.environment.overflow_inline,
    {
        self.environment.overflow_inline
    }

    /// The `color-gamut` value.
    pub fn color_gamut(&self) -> (r: ColorGamut)
        ensures
            r == self.environment.color_gamut,
    {
        self.environment.color_gamut
    }

    /// The `dynamic-range` value.
    pub fn dynamic_range(&self) -> (r: DynamicRange)
        ensures
            r == self.environment.dynamic_range,
    {
        self.environment.dynamic_range
    }

    /// The `video-dynamic-range` value.
    pub fn video_dynamic_range(&self) -> (r: DynamicRange)
        ensures
            r == self.environment.video_dynamic_range,
    {
        self.environment.video_dynamic_range
    }

    /// The `pointer` value.
    pub fn pointer(&self) -> (r: Pointer)
        ensures
            r == self.pointer,
    {
        self.pointer
    }

    /// The `any-pointer` value.
    pub fn any_pointer(&self) -> (r: Pointer)
        ensures
            r == self.any_pointer,
    {
        self.any_pointer
    }

    /// The `hover` value.
    pub fn hover(&self) -> (r: Hover)
        ensures
            r == self.hover,
    {
        self.hover
    }

    /// The `any-hover` value.
    pub fn any_hover(&self) -> (r: Hover)
        ensures
            r == self.any_hover,
    {
        self.any_hover
    }
}

/// The context a media query is evaluated in.
#[derive(Clone, Copy, Debug)]
pub struct Context {
    /// The device the query is evaluated against.
    pub device: Device,
}

impl Context {
    /// Makes a context for a device.
    pub fn new(device: Device) -> (r: Context)
        ensures
            r.device == device,
    {
        Context { device }
    }

    /// The device the query is evaluated against.
    pub fn device(&self) -> (r: &Device)
        ensures
            *r == self.device,
    {
        &self.device
    }
}

} // verus!
