use vstd::prelude::*;

use crate::errors::InvalidSizeError;

verus! {

/// A desired target box. A missing dimension leaves that axis unconstrained.
#[derive(Debug, Clone, Copy, PartialEq, Eq, Structural)]
pub struct Size {
    pub width: Option<i32>,
    pub height: Option<i32>,
}

/// An offset whose meaning depends on the [`WatermarkPosition`] in use.
#[derive(Debug, Clone, Copy, PartialEq, Eq, Structural)]
pub struct Point {
    pub x: i32,
    pub y: i32,
}

/// How a watermark's anchor point is read.
#[derive(Debug, Clone, Copy, PartialEq, Eq, Structural)]
pub enum WatermarkPosition {
    /// The anchor is ignored and the layer is centred.
    Center,
    /// The anchor is the distance from the top-left corner.
    LeftTop,
    /// The anchor is the distance from the bottom-right corner.
    RightBottom,
}

/// A clockwise rotation.
#[derive(Debug, Clone, Copy, PartialEq, Eq, Structural)]
pub enum Rotation {
    R90,
    R180,
    R270,
}

/// Output codec of a transformation.
#[derive(Debug, Clone, Copy, PartialEq, Eq, Structural)]
pub enum ImageFormat {
    Png,
    Jpeg,
    Webp,
}

/// Regions of the object store, as they are written in the configuration.
#[derive(Debug, Clone, PartialEq, Eq)]
pub enum RegionDef {
    ApEast1,
    ApNortheast1,
    ApNortheast2,
    ApSouth1,
    ApSoutheast1,
    ApSoutheast2,
    CaCentral1,
    EuCentral1,
    EuWest1,
    EuWest2,
    EuWest3,
    EuNorth1,
    SaEast1,
    UsEast1,
    UsEast2,
    UsWest1,
    UsWest2,
    UsGovEast1,
    UsGovWest1,
    CnNorth1,
    CnNorthwest1,
    Custom { name: String, endpoint: String },
}

impl ImageFormat {
    pub open spec fn spec_name(self) -> Seq<char> {
        match self {
            ImageFormat::Jpeg => "jpeg"@,
            ImageFormat::Png => "png"@,
            ImageFormat::Webp => "webp"@,
        }
    }

    /// The lower-case codec name, as used in file extensions and media types.
    pub fn name(&self) -> (r: &'static str)
        ensures
            r@ == self.spec_name(),
    {
        match self {
            ImageFormat::Jpeg => "jpeg",
            ImageFormat::Png => "png",
            ImageFormat::Webp => "webp",
        }
    }
}

// ----------------------------------------------------------------------------
// Dimension resolver
// ----------------------------------------------------------------------------

/// `opposite` scaled by `desired / original`, truncated toward zero.
pub open spec fn scale(desired: int, original: int, opposite: int) -> int {
    opposite * desired / original
}

/// Whether some dimension of `size` is present and not strictly positive.
pub open spec fn has_non_positive(size: Size) -> bool {
    ||| size.width matches Some(w) && w <= 0
    ||| size.height matches Some(h) && h <= 0
}

/// Whether fitting to `size` scales by the original size: some dimension is
/// present and none is rejected.
pub open spec fn scales(size: Size) -> bool {
    &&& (size.width is Some || size.height is Some)
    &&& !has_non_positive(size)
}

/// The size that fits an image of `ow` x `oh` into `size`, keeping its aspect
/// ratio and never enlarging it; `None` when `size` holds a non-positive
/// dimension.
pub open spec fn target_size(ow: int, oh: int, size: Size) -> Option<(int, int)> {
    if size.width is None && size.height is None {
        Some((ow, oh))
    } else if has_non_positive(size) {
        None
    } else {
        match (size.width, size.height) {
            (Some(w), Some(h)) => {
                if h > oh && w > ow {
                    Some((ow, oh))
                } else if h * ow < w * oh && h <= oh {
                    // the height ratio is the smaller one: fit to height
                    Some((scale(h as int, oh, ow), h as int))
                } else {
                    Some((w as int, scale(w as int, ow, oh)))
                }
            },
            (None, Some(h)) => {
                if h > oh {
                    Some((ow, oh))
                } else {
                    Some((scale(h as int, oh, ow), h as int))
                }
            },
            (Some(w), _) => {
                if w > ow {
                    Some((ow, oh))
                } else {
                    Some((w as int, scale(w as int, ow, oh)))
                }
            },
            (None, None) => Some((ow, oh)),
        }
    }
}

proof fn lemma_product_fits(a: i32, b: i32)
    requires
        a >= 0,
        b >= 0,
    ensures
        0 <= a * b <= i64::MAX,
{
    assert(0 <= a * b <= 0x7fff_ffff * 0x7fff_ffff) by (nonlinear_arith)
        requires
            0 <= a <= 0x7fff_ffff,
            0 <= b <= 0x7fff_ffff,
    ;
}

/// `opposite_orig_measure` scaled by `desired_measure / original_measure`,
/// truncated toward zero.
fn get_ratio(desired_measure: i32, original_measure: i32, opposite_orig_measure: i32) -> (r: i32)
    requires
        desired_measure >= 0,
        original_measure > 0,
        opposite_orig_measure >= 0,
        scale(desired_measure as int, original_measure as int, opposite_orig_measure as int)
            <= i32::MAX,
    ensures
        r == scale(desired_measure as int, original_measure as int, opposite_orig_measure as int),
        r >= 0,
{
    proof {
        lemma_product_fits(opposite_orig_measure, desired_measure);
    }
    let product: i64 = opposite_orig_measure as i64 * desired_measure as i64;
    proof {
        assert((product as int) / (original_measure as int) >= 0) by (nonlinear_arith)
            requires
                product >= 0,
                original_measure > 0,
        ;
    }
    (product / original_measure as i64) as i32
}

/// Scaling by a ratio of at most one never grows a measure.
proof fn lemma_scale_within(desired: int, original: int, opposite: int)
    requires
        0 <= desired <= original,
        original > 0,
        opposite >= 0,
    ensures
        0 <= scale(desired, original, opposite) <= opposite,
{
    assert(0 <= opposite * desired <= opposite * original) by (nonlinear_arith)
        requires
            0 <= desired <= original,
            opposite >= 0,
    ;
    assert(0 <= (opposite * desired) / original <= opposite) by (nonlinear_arith)
        requires
            0 <= opposite * desired <= opposite * original,
            original > 0,
    ;
}

fn is_negative_or_zero(size: &Size) -> (r: bool)
    ensures
        r == has_non_positive(*size),
{
    (size.height.is_some() && size.height.unwrap() <= 0) || (size.width.is_some()
        && size.width.unwrap() <= 0)
}

/// Fits an image of `original_width` x `original_height` into
/// `desired_size`.
///
/// Without a desired dimension the original size comes back. A desired
/// dimension that is not strictly positive is rejected. When both desired
/// dimensions exceed the original, the original size comes back. Otherwise
/// the axis with the smaller ratio is fitted exactly and the other one is
/// scaled by the same ratio, truncated toward zero.
pub fn get_target_size(original_width: i32, original_height: i32, desired_size: &Size) -> (r:
    Result<(i32, i32), InvalidSizeError>)
    requires
        scales(*desired_size) ==> original_width > 0 && original_height > 0,
    ensures
        match target_size(original_width as int, original_height as int, *desired_size) {
            Some((w, h)) => r matches Ok((rw, rh)) && rw == w && rh == h,
            None => r matches Err(e) && e.size() == *desired_size,
        },
{
    match (desired_size.width, desired_size.height) {
        (None, None) => Ok((original_width, original_height)),
        _ if is_negative_or_zero(desired_size) => Err(InvalidSizeError::new(desired_size)),
        (Some(w), Some(h)) => {
            if h > original_height && w > original_width {
                Ok((original_width, original_height))
            } else {
                proof {
                    lemma_product_fits(h, original_width);
                    lemma_product_fits(w, original_height);
                }
                let h_cross: i64 = h as i64 * original_width as i64;
                let w_cross: i64 = w as i64 * original_height as i64;
                if h_cross < w_cross && h <= original_height {
                    proof {
                        lemma_scale_within(h as int, original_height as int, original_width as int);
                    }
                    Ok((get_ratio(h, original_height, original_width), h))
                } else {
                    proof {
                        // not both larger and not fitted to height: the width fits
                        if w > original_width {
                            assert(h <= original_height);
                            assert(w * original_height > original_width * original_height)
                                by (nonlinear_arith)
                                requires
                                    w > original_width,
                                    original_height > 0,
                            ;
                            assert(h * original_width <= original_height * original_width)
                                by (nonlinear_arith)
                                requires
                                    h <= original_height,
                                    original_width > 0,
                            ;
                        }
                    }
                    proof {
                        lemma_scale_within(w as int, original_width as int, original_height as int);
                    }
                    Ok((w, get_ratio(w, original_width, original_height)))
                }
            }
        },
        (None, Some(h)) => {
            if h > original_height {
                Ok((original_width, original_height))
            } else {
                proof {
                    lemma_scale_within(h as int, original_height as int, original_width as int);
                }
                Ok((get_ratio(h, original_height, original_width), h))
            }
        },
        (Some(w), None) => {
            if w > original_width {
                Ok((original_width, original_height))
            } else {
                proof {
                    lemma_scale_within(w as int, original_width as int, original_height as int);
                }
                Ok((w, get_ratio(w, original_width, original_height)))
            }
        },
    }
}

// ----------------------------------------------------------------------------
// Watermark placement
// ----------------------------------------------------------------------------

/// Space before and after a layer of `len` centred on an axis of `extent`.
/// An odd extent leaves the extra unit after the layer.
pub open spec fn centered_span(extent: int, len: int) -> (int, int) {
    let before = extent / 2 - len / 2;
    (before, before + extent % 2)
}

/// Space before and after a layer of `len` put `anchor` units after the
/// start of an axis of `extent`. A layer that would overrun the end is pulled
/// back until it ends on the edge.
pub open spec fn anchored_span(extent: int, anchor: int, len: int) -> (int, int) {
    let after = extent - anchor - len;
    if after < 0 {
        (anchor + after, 0)
    } else {
        (anchor, after)
    }
}

/// The space `(left, top, right, bottom)` around a `wm_width` x `wm_height`
/// layer placed on a `width` x `height` canvas.
pub open spec fn borders(
    width: int,
    height: int,
    wm_width: int,
    wm_height: int,
    point: Point,
    origin: WatermarkPosition,
) -> (int, int, int, int) {
    match origin {
        WatermarkPosition::Center => {
            let (left, right) = centered_span(width, wm_width);
            let (top, bottom) = centered_span(height, wm_height);
            (left, top, right, bottom)
        },
        WatermarkPosition::LeftTop => {
            let (left, right) = anchored_span(width, point.x as int, wm_width);
            let (top, bottom) = anchored_span(height, point.y as int, wm_height);
            (left, top, right, bottom)
        },
        WatermarkPosition::RightBottom => {
            // mirrored: the anchor is measured from the far edge
            let (right, left) = anchored_span(width, point.x as int, wm_width);
            let (bottom, top) = anchored_span(height, point.y as int, wm_height);
            (left, top, right, bottom)
        },
    }
}

/// Whether every quantity that placing the layer computes fits in an `i32`.
pub open spec fn borders_in_range(
    width: int,
    height: int,
    wm_width: int,
    wm_height: int,
    point: Point,
) -> bool {
    &&& i32::MIN <= width - point.x - wm_width <= i32::MAX
    &&& i32::MIN <= height - point.y - wm_height <= i32::MAX
}

/// The space `(left, top, right, bottom)` to leave around a `wm_width` x
/// `wm_height` watermark on a `width` x `height` canvas, for the anchor
/// `point` read as `origin` says. `(left, top)` is where the layer's top-left
/// corner goes. Anchors that would push the layer past the far edges are
/// clamped, never rejected.
pub fn get_watermark_borders(
    width: i32,
    height: i32,
    wm_width: i32,
    wm_height: i32,
    point: &Point,
    origin: &WatermarkPosition,
) -> (r: (i32, i32, i32, i32))
    requires
        width >= 0,
        height >= 0,
        wm_width >= 0,
        wm_height >= 0,
        *origin !is Center ==> borders_in_range(
            width as int,
            height as int,
            wm_width as int,
            wm_height as int,
            *point,
        ),
    ensures
        (r.0 as int, r.1 as int, r.2 as int, r.3 as int) == borders(
            width as int,
            height as int,
            wm_width as int,
            wm_height as int,
            *point,
            *origin,
        ),
{
    match origin {
        WatermarkPosition::Center => {
            let left = (width / 2) - (wm_width / 2);
            let top = (height / 2) - (wm_height / 2);
            let odd_w_acc = width % 2;
            let odd_h_acc = height % 2;
            (left, top, left + odd_w_acc, top + odd_h_acc)
        },
        WatermarkPosition::LeftTop => {
            let right = (width as i64 - point.x as i64 - wm_width as i64) as i32;
            let bottom = (height as i64 - point.y as i64 - wm_height as i64) as i32;
            let left = point.x + if right < 0 {
                right
            } else {
                0
            };
            let top = point.y + if bottom < 0 {
                bottom
            } else {
                0
            };
            (left, top, if right > 0 {
                right
            } else {
                0
            }, if bottom > 0 {
                bottom
            } else {
                0
            })
        },
        WatermarkPosition::RightBottom => {
            let left = (width as i64 - point.x as i64 - wm_width as i64) as i32;
            let top = (height as i64 - point.y as i64 - wm_height as i64) as i32;
            let right = point.x + if left < 0 {
                left
            } else {
                0
            };
            let bottom = point.y + if top < 0 {
                top
            } else {
                0
            };
            (if left > 0 {
                left
            } else {
                0
            }, if top > 0 {
                top
            } else {
                0
            }, right, bottom)
        },
    }
}

// ----------------------------------------------------------------------------
// Laws
// ----------------------------------------------------------------------------

/// Without a desired dimension, every original size is kept as it is.
pub proof fn lemma_no_desired_size_keeps_original(width: int, height: int)
    ensures
        target_size(width, height, Size { width: None, height: None }) == Some((width, height)),
{
}

/// A desired size larger than the original on both axes never enlarges the
/// image: the original size comes back.
pub proof fn lemma_never_upscales(width: int, height: int, desired_width: i32, desired_height: i32)
    requires
        width > 0,
        height > 0,
        desired_width > width,
        desired_height > height,
    ensures
        target_size(
            width,
            height,
            Size { width: Some(desired_width), height: Some(desired_height) },
        ) == Some((width, height)),
{
}

/// A size is rejected exactly when one of its present dimensions is not
/// strictly positive, whatever the other dimension holds.
pub proof fn lemma_rejects_exactly_non_positive(width: int, height: int, size: Size)
    ensures
        target_size(width, height, size) is None <==> has_non_positive(size),
{
}

/// A fitted size has no dimension at or below zero, provided that scaling
/// by a present dimension cannot truncate the other axis to zero.
pub proof fn lemma_fitted_size_positive(width: int, height: int, size: Size)
    requires
        width > 0,
        height > 0,
        size.width matches Some(w) ==> w * height >= width,
        size.height matches Some(h) ==> h * width >= height,
    ensures
        target_size(width, height, size) matches Some((w, h)) ==> w > 0 && h > 0,
{
    if let Some(w) = size.width {
        assert(scale(w as int, width, height) >= 1) by (nonlinear_arith)
            requires
                w * height >= width,
                width > 0,
                scale(w as int, width, height) == height * w / width,
        ;
    }
    if let Some(h) = size.height {
        assert(scale(h as int, height, width) >= 1) by (nonlinear_arith)
            requires
                h * width >= height,
                height > 0,
                scale(h as int, height, width) == width * h / height,
        ;
    }
}

/// A fitted size never exceeds the original on either axis, and is never
/// negative.
pub proof fn lemma_fitted_size_within_original(width: int, height: int, size: Size)
    requires
        width > 0,
        height > 0,
    ensures
        target_size(width, height, size) matches Some((w, h)) ==> 0 <= w <= width && 0 <= h
            <= height,
{
    if !has_non_positive(size) {
        if let Some(w) = size.width {
            if w <= width {
                assert(0 <= scale(w as int, width, height) <= height) by (nonlinear_arith)
                    requires
                        0 < w <= width,
                        height > 0,
                        scale(w as int, width, height) == height * w / width,
                ;
            }
        }
        if let Some(h) = size.height {
            if h <= height {
                assert(0 <= scale(h as int, height, width) <= width) by (nonlinear_arith)
                    requires
                        0 < h <= height,
                        width > 0,
                        scale(h as int, height, width) == width * h / height,
                ;
            }
        }
        if let (Some(w), Some(h)) = (size.width, size.height) {
            if w > width && h <= height {
                assert(h * width < w * height) by (nonlinear_arith)
                    requires
                        w > width,
                        0 < h <= height,
                        width > 0,
                ;
            }
        }
    }
}

/// Whether placing a layer leaves no negative space and fills the canvas
/// exactly: a centred layer needs even dimensions, an anchored one a
/// non-negative anchor, and both must not exceed the canvas.
pub open spec fn placement_fits(
    width: int,
    height: int,
    wm_width: int,
    wm_height: int,
    point: Point,
    origin: WatermarkPosition,
) -> bool {
    &&& 0 <= wm_width <= width
    &&& 0 <= wm_height <= height
    &&& origin is Center ==> wm_width % 2 == 0 && wm_height % 2 == 0
    &&& origin !is Center ==> point.x >= 0 && point.y >= 0
}

/// The four spaces around a placed layer are never negative and, with the
/// layer, add up to the canvas on each axis, for every origin policy and
/// every anchor, also anchors that would put the layer partly off the canvas.
pub proof fn lemma_borders_partition_canvas(
    width: int,
    height: int,
    wm_width: int,
    wm_height: int,
    point: Point,
    origin: WatermarkPosition,
)
    requires
        placement_fits(width, height, wm_width, wm_height, point, origin),
    ensures
        ({
            let (left, top, right, bottom) = borders(
                width,
                height,
                wm_width,
                wm_height,
                point,
                origin,
            );
            &&& left >= 0 && top >= 0 && right >= 0 && bottom >= 0
            &&& left + wm_width + right == width
            &&& top + wm_height + bottom == height
        }),
{
}

} // verus!
