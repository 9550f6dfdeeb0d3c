//! Common feature values between media and container features.

use vstd::prelude::*;
use core::cmp::Ordering;
use vstd::std_specs::cmp::PartialOrdSpecImpl;

verus! {

/// A two-dimensional size in app units (sixtieths of a CSS pixel).
#[derive(Clone, Copy, Debug, PartialEq, Eq, Structural)]
pub struct AuSize {
    /// The width, in app units.
    pub width: i32,
    /// The height, in app units.
    pub height: i32,
}

impl AuSize {
    /// Makes a size from a width and a height in app units.
    pub fn new(width: i32, height: i32) -> (r: AuSize)
        ensures
            r.width == width,
            r.height == height,
    {
        AuSize { width, height }
    }
}

/// The orientation media / container feature.
/// https://drafts.csswg.org/mediaqueries-5/#orientation
/// https://drafts.csswg.org/css-contain-3/#orientation
#[derive(Clone, Copy, Debug)]
#[allow(missing_docs)]
pub enum Orientation {
    Portrait,
    Landscape,
}

/// Whether a size is landscape: strictly wider than it is tall.
/// A square size counts as portrait.
pub open spec fn is_landscape(size: AuSize) -> bool {
    size.width > size.height
}

/// Whether an orientation query matches a size. A query with no value
/// (the boolean context) matches every size.
pub open spec fn orientation_matches(size: AuSize, value: Option<Orientation>) -> bool {
    match value {
        None => true,
        Some(Orientation::Landscape) => is_landscape(size),
        Some(Orientation::Portrait) => !is_landscape(size),
    }
}

impl Orientation {
    /// A helper to evaluate a orientation query given a generic size getter.
    pub fn eval(size: AuSize, value: Option<Self>) -> (r: bool)
        ensures
            r == orientation_matches(size, value),
    {
        let query_orientation = match value {
            Some(v) => v,
            None => return true,
        };

        // Per spec, square viewports should be 'portrait'
        let is_landscape = size.width > size.height;
        match query_orientation {
            Self::Landscape => is_landscape,
            Self::Portrait => !is_landscape,
        }
    }
}

/// Values for the prefers-color-scheme media feature.
#[derive(Clone, Copy, Debug, PartialEq, Eq, Structural)]
#[allow(missing_docs)]
pub enum PrefersColorScheme {
    Light,
    Dark,
}

impl Default for PrefersColorScheme {
    fn default() -> (r: Self)
        ensures
            r == PrefersColorScheme::Light,
    {
        PrefersColorScheme::Light
    }
}

/// Values for the prefers-reduced-motion media feature.
/// https://drafts.csswg.org/mediaqueries-5/#prefers-reduced-motion
#[derive(Clone, Copy, Debug, PartialEq, Eq, Structural)]
#[allow(missing_docs)]
pub enum PrefersReducedMotion {
    NoPreference,
    Reduce,
}

impl Default for PrefersReducedMotion {
    fn default() -> (r: Self)
        ensures
            r == PrefersReducedMotion::NoPreference,
    {
        PrefersReducedMotion::NoPreference
    }
}

/// Values for the prefers-reduced-transparency media feature.
/// https://drafts.csswg.org/mediaqueries-5/#prefers-reduced-transparency
#[derive(Clone, Copy, Debug, PartialEq, Eq, Structural)]
#[allow(missing_docs)]
pub enum PrefersReducedTransparency {
    NoPreference,
    Reduce,
}

impl Default for PrefersReducedTransparency {
    fn default() -> (r: Self)
        ensures
            r == PrefersReducedTransparency::NoPreference,
    {
        PrefersReducedTransparency::NoPreference
    }
}

/// Values for the prefers-contrast media feature.
/// https://drafts.csswg.org/mediaqueries-5/#prefers-contrast
#[derive(Clone, Copy, Debug, PartialEq, Eq, Structural)]
#[allow(missing_docs)]
pub enum PrefersContrast {
    More,
    Less,
    Custom,
    NoPreference,
}

impl Default for PrefersContrast {
    fn default() -> (r: Self)
        ensures
            r == PrefersContrast::NoPreference,
    {
        PrefersContrast::NoPreference
    }
}

/// Values for the inverted-colors media feature.
/// https://drafts.csswg.org/mediaqueries-5/#inverted
#[derive(Clone, Copy, Debug, PartialEq, Eq, Structural)]
#[allow(missing_docs)]
pub enum InvertedColors {
    /// The `none` keyword.
    NoneValue,
    Inverted,
}

impl Default for InvertedColors {
    fn default() -> (r: Self)
        ensures
            r == InvertedColors::NoneValue,
    {
        InvertedColors::NoneValue
    }
}

/// Values for the update media feature.
/// https://drafts.csswg.org/mediaqueries-4/#update
#[derive(Clone, Copy, Debug, PartialEq, Eq, Structural)]
#[allow(missing_docs)]
pub enum Update {
    /// The `none` keyword.
    NoneValue,
    Slow,
    Fast,
}

impl Default for Update {
    fn default() -> (r: Self)
        ensures
            r == Update::Fast,
    {
        Update::Fast
    }
}

/// Values for the overflow-block media feature.
/// https://drafts.csswg.org/mediaqueries-4/#mf-overflow-block
#[derive(Clone, Copy, Debug, PartialEq, Eq, Structural)]
#[allow(missing_docs)]
pub enum OverflowBlock {
    /// The `none` keyword.
    NoneValue,
    Scroll,
    Paged,
}

impl Default for OverflowBlock {
    fn default() -> (r: Self)
        ensures
            r == OverflowBlock::Scroll,
    {
        OverflowBlock::Scroll
    }
}

/// Values for the overflow-inline media feature.
/// https://drafts.csswg.org/mediaqueries-4/#mf-overflow-inline
#[derive(Clone, Copy, Debug, PartialEq, Eq, Structural)]
#[allow(missing_docs)]
pub enum OverflowInline {
    /// The `none` keyword.
    NoneValue,
    Scroll,
}

impl Default for OverflowInline {
    fn default() -> (r: Self)
        ensures
            r == OverflowInline::Scroll,
    {
        OverflowInline::Scroll
    }
}

/// Values for the color-gamut media feature. `PartialOrd` so a wider device
/// gamut matches a narrower query (`query <= device`).
/// https://drafts.csswg.org/mediaqueries-4/#color-gamut
#[derive(Clone, Copy, Debug, PartialEq, Eq, Structural)]
#[allow(missing_docs)]
pub enum ColorGamut {
    Srgb,
    P3,
    Rec2020,
}

impl Default for ColorGamut {
    fn default() -> (r: Self)
        ensures
            r == ColorGamut::Srgb,
    {
        ColorGamut::Srgb
    }
}

/// Values for the dynamic-range / video-dynamic-range media features.
/// `PartialOrd` so a higher device range matches a lower query (`device >= query`).
/// https://drafts.csswg.org/mediaqueries-5/#dynamic-range
#[derive(Clone, Copy, Debug, PartialEq, Eq, Structural)]
#[allow(missing_docs)]
pub enum DynamicRange {
    Standard,
    High,
}

impl Default for DynamicRange {
    fn default() -> (r: Self)
        ensures
            r == DynamicRange::Standard,
    {
        DynamicRange::Standard
    }
}

/// Values for the display-mode media feature.
/// https://w3c.github.io/manifest/#the-display-mode-media-feature
#[derive(Clone, Copy, Debug, PartialEq, Eq, Structural)]
#[allow(missing_docs)]
pub enum DisplayMode {
    Browser,
    MinimalUi,
    Standalone,
    Fullscreen,
}

impl Default for DisplayMode {
    fn default() -> (r: Self)
        ensures
            r == DisplayMode::Browser,
    {
        DisplayMode::Browser
    }
}

/// Values for the scripting media feature.
/// https://drafts.csswg.org/mediaqueries-5/#scripting
#[derive(Clone, Copy, Debug, PartialEq, Eq, Structural)]
#[allow(missing_docs)]
pub enum Scripting {
    /// The `none` keyword.
    NoneValue,
    InitialOnly,
    Enabled,
}

impl Default for Scripting {
    fn default() -> (r: Self)
        ensures
            r == Scripting::Enabled,
    {
        Scripting::Enabled
    }
}

/// Values for the pointer / any-pointer media features.
/// https://drafts.csswg.org/mediaqueries-4/#pointer
#[derive(Clone, Copy, Debug, PartialEq, Eq, Structural)]
#[allow(missing_docs)]
pub enum Pointer {
    /// The `none` keyword.
    NoneValue,
    Coarse,
    Fine,
}

/// Values for the hover / any-hover media features.
/// https://drafts.csswg.org/mediaqueries-4/#hover
#[derive(Clone, Copy, Debug, PartialEq, Eq, Structural)]
#[allow(missing_docs)]
pub enum Hover {
    /// The `none` keyword.
    NoneValue,
    Hover,
}

/// Values for the forced-colors media feature.
/// https://drafts.csswg.org/mediaqueries-5/#forced-colors
#[derive(Clone, Copy, Debug, PartialEq, Eq, Structural)]
#[allow(missing_docs)]
pub enum ForcedColors {
    /// The `none` keyword.
    NoneValue,
    Requested,
    Active,
}

impl Default for ForcedColors {
    fn default() -> (r: Self)
        ensures
            r == ForcedColors::NoneValue,
    {
        ForcedColors::NoneValue
    }
}


/// The position of a colour gamut in the order from narrowest to widest.
pub open spec fn color_gamut_rank(g: ColorGamut) -> u8 {
    match g {
        ColorGamut::Srgb => 0,
        ColorGamut::P3 => 1,
        ColorGamut::Rec2020 => 2,
    }
}

/// The position of a dynamic range in the order from lowest to highest.
pub open spec fn dynamic_range_rank(d: DynamicRange) -> u8 {
    match d {
        DynamicRange::Standard => 0,
        DynamicRange::High => 1,
    }
}

/// How two positions in a declaration order compare.
pub open spec fn order_of_ranks(a: u8, b: u8) -> Option<Ordering> {
    if a < b {
        Some(Ordering::Less)
    } else if a == b {
        Some(Ordering::Equal)
    } else {
        Some(Ordering::Greater)
    }
}

impl ColorGamut {
    /// The position of this gamut in the order from narrowest to widest.
    fn rank(&self) -> (r: u8)
        ensures
            r == color_gamut_rank(*self),
    {
        match self {
            ColorGamut::Srgb => 0,
            ColorGamut::P3 => 1,
            ColorGamut::Rec2020 => 2,
        }
    }
}

impl DynamicRange {
    /// The position of this range in the order from lowest to highest.
    fn rank(&self) -> (r: u8)
        ensures
            r == dynamic_range_rank(*self),
    {
        match self {
            DynamicRange::Standard => 0,
            DynamicRange::High => 1,
        }
    }
}

/// Compares two ranks in declaration order.
fn order_ranks(a: u8, b: u8) -> (r: Option<Ordering>)
    ensures
        r == order_of_ranks(a, b),
{
    if a < b {
        Some(Ordering::Less)
    } else if a == b {
        Some(Ordering::Equal)
    } else {
        Some(Ordering::Greater)
    }
}

impl PartialOrd for ColorGamut {
    fn partial_cmp(&self, other: &Self) -> (r: Option<Ordering>) {
        order_ranks(self.rank(), other.rank())
    }
}

impl PartialOrdSpecImpl for ColorGamut {
    open spec fn obeys_partial_cmp_spec() -> bool {
        true
    }

    open spec fn partial_cmp_spec(&self, other: &Self) -> Option<Ordering> {
        order_of_ranks(color_gamut_rank(*self), color_gamut_rank(*other))
    }
}

impl PartialOrd for DynamicRange {
    fn partial_cmp(&self, other: &Self) -> (r: Option<Ordering>) {
        order_ranks(self.rank(), other.rank())
    }
}

impl PartialOrdSpecImpl for DynamicRange {
    open spec fn obeys_partial_cmp_spec() -> bool {
        true
    }

    open spec fn partial_cmp_spec(&self, other: &Self) -> Option<Ordering> {
        order_of_ranks(dynamic_range_rank(*self), dynamic_range_rank(*other))
    }
}

impl ForcedColors {
    /// Returns whether forced-colors is active for this page.
    pub fn is_active(self) -> (r: bool)
        ensures
            r == (self == ForcedColors::Active),
    {
        match self {
            ForcedColors::Active => true,
            _ => false,
        }
    }
}

/// The embedder-controlled media-feature values (user preferences and, as the
/// Servo-mode parity set grows, device capabilities), held together so a host
/// can set them on a [`Device`](crate::device::Device) atomically instead of one
/// clobbering setter per feature. `Default` is a conservative desktop screen.
#[derive(Clone, Copy, Debug, PartialEq, Eq, Structural)]
pub struct MediaEnvironment {
    /// `prefers-color-scheme` (default: light).
    pub prefers_color_scheme: PrefersColorScheme,
    /// `prefers-reduced-motion` (default: no-preference).
    pub prefers_reduced_motion: PrefersReducedMotion,
    /// `prefers-contrast` (default: no-preference).
    pub prefers_contrast: PrefersContrast,
    /// `prefers-reduced-transparency` (default: no-preference).
    pub prefers_reduced_transparency: PrefersReducedTransparency,
    /// `inverted-colors` (default: none).
    pub inverted_colors: InvertedColors,
    /// `forced-colors` (default: none). Query only; the forced-color-adjust
    /// computation behavior is a separate capability.
    pub forced_colors: ForcedColors,
    /// `update` — how fast the output can be updated (default: fast).
    pub update: Update,
    /// `overflow-block` — block-axis overflow handling (default: scroll).
    pub overflow_block: OverflowBlock,
    /// `overflow-inline` — inline-axis overflow handling (default: scroll).
    pub overflow_inline: OverflowInline,
    /// `color-gamut` — the display's color gamut (default: srgb).
    pub color_gamut: ColorGamut,
    /// `dynamic-range` — the display's dynamic range (default: standard).
    pub dynamic_range: DynamicRange,
    /// `video-dynamic-range` (default: standard).
    pub video_dynamic_range: DynamicRange,
    /// `display-mode` — the app window presentation mode (default: browser).
    pub display_mode: DisplayMode,
    /// `scripting` — whether scripting is available (default: enabled). Hosts
    /// set this from whether their script runtime is live.
    pub scripting: Scripting,
}

/// The conservative desktop screen: every field at its documented default.
pub open spec fn default_media_environment() -> MediaEnvironment {
    MediaEnvironment {
        prefers_color_scheme: PrefersColorScheme::Light,
        prefers_reduced_motion: PrefersReducedMotion::NoPreference,
        prefers_contrast: PrefersContrast::NoPreference,
        prefers_reduced_transparency: PrefersReducedTransparency::NoPreference,
        inverted_colors: InvertedColors::NoneValue,
        forced_colors: ForcedColors::NoneValue,
        update: Update::Fast,
        overflow_block: OverflowBlock::Scroll,
        overflow_inline: OverflowInline::Scroll,
        color_gamut: ColorGamut::Srgb,
        dynamic_range: DynamicRange::Standard,
        video_dynamic_range: DynamicRange::Standard,
        display_mode: DisplayMode::Browser,
        scripting: Scripting::Enabled,
    }
}

impl Default for MediaEnvironment {
    fn default() -> (r: Self)
        ensures
            r == default_media_environment(),
    {
        MediaEnvironment {
            prefers_color_scheme: PrefersColorScheme::default(),
            prefers_reduced_motion: PrefersReducedMotion::default(),
            prefers_contrast: PrefersContrast::default(),
            prefers_reduced_transparency: PrefersReducedTransparency::default(),
            inverted_colors: InvertedColors::default(),
            forced_colors: ForcedColors::default(),
            update: Update::default(),
            overflow_block: OverflowBlock::default(),
            overflow_inline: OverflowInline::default(),
            color_gamut: ColorGamut::default(),
            dynamic_range: DynamicRange::default(),
            video_dynamic_range: DynamicRange::default(),
            display_mode: DisplayMode::default(),
            scripting: Scripting::default(),
        }
    }
}

} // verus!
