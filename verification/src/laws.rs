//! Properties that hold of every evaluation.

use vstd::prelude::*;
use core::cmp::Ordering;
use vstd::std_specs::cmp::PartialOrdSpec;
use crate::media_features::{
    color_gamut_matches, dynamic_range_matches, keyword_matches, keyword_or_any_matches,
};
use crate::values::{orientation_matches, AuSize, ColorGamut, DynamicRange, Orientation};

verus! {

/// Exactly one of `(orientation: portrait)` and `(orientation: landscape)`
/// matches any size, and `(orientation)` matches every size.
pub proof fn orientation_exactly_one(size: AuSize)
    ensures
        orientation_matches(size, Some(Orientation::Portrait)) != orientation_matches(
            size,
            Some(Orientation::Landscape),
        ),
        orientation_matches(size, None),
{
}

/// A square size is portrait, not landscape.
pub proof fn square_is_portrait(size: AuSize)
    requires
        size.width == size.height,
    ensures
        orientation_matches(size, Some(Orientation::Portrait)),
        !orientation_matches(size, Some(Orientation::Landscape)),
{
}

/// On a feature with a `none`-like value, the boolean context matches
/// exactly when that value, queried as a keyword, does not.
pub proof fn boolean_context_is_not_none<T>(device_value: T, none_value: T)
    ensures
        keyword_matches(device_value, None, none_value) == !keyword_matches(
            device_value,
            Some(none_value),
            none_value,
        ),
{
}

/// A keyword query matches its device's own value and no other keyword; on
/// a feature without a `none`-like value the boolean context matches every device.
pub proof fn keyword_singles_out_device_value<T>(device_value: T, none_value: T, v: T)
    ensures
        keyword_matches(device_value, Some(device_value), none_value),
        keyword_or_any_matches(device_value, Some(device_value)),
        keyword_matches(device_value, Some(v), none_value) ==> v == device_value,
        keyword_or_any_matches(device_value, Some(v)) ==> v == device_value,
        keyword_or_any_matches(device_value, None),
{
}

/// A colour-gamut query that matches a device matches every device with a
/// gamut at least as wide; `srgb` matches every device, a device matches its
/// own gamut, and the boolean context matches none.
pub proof fn color_gamut_monotone(narrow: ColorGamut, wide: ColorGamut, query: Option<ColorGamut>)
    requires
        narrow.partial_cmp_spec(&wide) != Some(Ordering::Greater),
    ensures
        color_gamut_matches(narrow, query) ==> color_gamut_matches(wide, query),
        color_gamut_matches(narrow, Some(ColorGamut::Srgb)),
        color_gamut_matches(narrow, Some(narrow)),
        !color_gamut_matches(narrow, None),
{
}

/// A dynamic-range query that matches a device matches every device with a
/// range at least as high; `standard` matches every device, a device matches
/// its own range, and the boolean context matches none.
pub proof fn dynamic_range_monotone(low: DynamicRange, high: DynamicRange, query: Option<DynamicRange>)
    requires
        low.partial_cmp_spec(&high) != Some(Ordering::Greater),
    ensures
        dynamic_range_matches(low, query) ==> dynamic_range_matches(high, query),
        dynamic_range_matches(low, Some(DynamicRange::Standard)),
        dynamic_range_matches(low, Some(low)),
        !dynamic_range_matches(low, None),
{
}

/// Colour gamuts are totally ordered, narrowest first: srgb < p3 < rec2020.
pub proof fn color_gamut_total_order(a: ColorGamut, b: ColorGamut, c: ColorGamut)
    ensures
        a.partial_cmp_spec(&b) is Some,
        a.partial_cmp_spec(&b) == Some(Ordering::Equal) <==> a == b,
        a.partial_cmp_spec(&b) == Some(Ordering::Less) <==> b.partial_cmp_spec(&a) == Some(
            Ordering::Greater,
        ),
        a.partial_cmp_spec(&b) == Some(Ordering::Less) && b.partial_cmp_spec(&c) == Some(
            Ordering::Less,
        ) ==> a.partial_cmp_spec(&c) == Some(Ordering::Less),
        ColorGamut::Srgb.partial_cmp_spec(&ColorGamut::P3) == Some(Ordering::Less),
        ColorGamut::P3.partial_cmp_spec(&ColorGamut::Rec2020) == Some(Ordering::Less),
{
}

/// Dynamic ranges are totally ordered, lowest first: standard < high.
pub proof fn dynamic_range_total_order(a: DynamicRange, b: DynamicRange, c: DynamicRange)
    ensures
        a.partial_cmp_spec(&b) is Some,
        a.partial_cmp_spec(&b) == Some(Ordering::Equal) <==> a == b,
        a.partial_cmp_spec(&b) == Some(Ordering::Less) <==> b.partial_cmp_spec(&a) == Some(
            Ordering::Greater,
        ),
        a.partial_cmp_spec(&b) == Some(Ordering::Less) && b.partial_cmp_spec(&c) == Some(
            Ordering::Less,
        ) ==> a.partial_cmp_spec(&c) == Some(Ordering::Less),
        DynamicRange::Standard.partial_cmp_spec(&DynamicRange::High) == Some(Ordering::Less),
{
}


/// Landscape means strictly wider than tall, and portrait means at most as
/// wide as tall, for every size.
pub proof fn landscape_is_strictly_wider(size: AuSize)
    ensures
        orientation_matches(size, Some(Orientation::Landscape)) <==> size.width > size.height,
        orientation_matches(size, Some(Orientation::Portrait)) <==> size.width <= size.height,
{
}

/// A keyword query matches exactly when the keyword is the device's value;
/// the boolean context of a feature with a `none`-like value matches exactly
/// when the device's value is something else.
pub proof fn keyword_matches_iff_device_value<T>(device_value: T, query: T, none_value: T)
    ensures
        keyword_matches(device_value, Some(query), none_value) <==> query == device_value,
        keyword_or_any_matches(device_value, Some(query)) <==> query == device_value,
        keyword_matches(device_value, None, none_value) <==> device_value != none_value,
{
}

/// Which colour-gamut queries match which device: `srgb` matches every
/// device, `p3` matches p3 and rec2020 devices, `rec2020` only rec2020 devices.
pub proof fn color_gamut_query_cases(device: ColorGamut)
    ensures
        color_gamut_matches(device, Some(ColorGamut::Srgb)),
        color_gamut_matches(device, Some(ColorGamut::P3)) <==> (device == ColorGamut::P3
            || device == ColorGamut::Rec2020),
        color_gamut_matches(device, Some(ColorGamut::Rec2020)) <==> device == ColorGamut::Rec2020,
        !color_gamut_matches(device, None),
{
}

/// Which dynamic-range queries match which device: `standard` matches every
/// device, `high` only high-range devices.
pub proof fn dynamic_range_query_cases(device: DynamicRange)
    ensures
        dynamic_range_matches(device, Some(DynamicRange::Standard)),
        dynamic_range_matches(device, Some(DynamicRange::High)) <==> device == DynamicRange::High,
        !dynamic_range_matches(device, None),
{
}

} // verus!
