//! Pure viewport geometry: fit-to-viewport scaling, destination rectangles
//! and the saturating pixel arithmetic the compositor builds its layers from.

use vstd::prelude::*;
use vstd::arithmetic::div_mod::{lemma_fundamental_div_mod, lemma_fundamental_div_mod_converse};
use vstd::arithmetic::mul::lemma_mul_is_commutative;

verus! {

/// Width and height of a texture, a viewport or a rendered text bitmap,
/// in device pixels.
#[derive(Clone, Copy, Debug, PartialEq, Eq, Structural)]
pub struct Dims {
    pub width: u32,
    pub height: u32,
}

/// An on-screen rectangle: position and size in device pixels.
#[derive(Clone, Copy, Debug, PartialEq, Eq, Structural)]
pub struct Rect {
    pub x: i32,
    pub y: i32,
    pub width: u32,
    pub height: u32,
}

/// An exact scale factor `num / den`. Keeping the ratio instead of a rounded
/// quotient means fitting an image to the viewport loses nothing to rounding
/// until the final destination rectangle is computed.
#[derive(Clone, Copy, Debug, PartialEq, Eq, Structural)]
pub struct Scale {
    pub num: u32,
    pub den: u32,
}

impl Scale {
    /// A scale is well formed when its denominator is positive.
    pub open spec fn wf(self) -> bool {
        self.den > 0
    }

    /// The identity scale: the image is shown at actual size.
    pub fn one() -> (s: Scale)
        ensures
            s == (Scale { num: 1u32, den: 1u32 }),
    {
        Scale { num: 1, den: 1 }
    }
}

/// The dimensions of a rectangle, dropping its position.
pub open spec fn rect_dims(r: Rect) -> Dims {
    Dims { width: r.width, height: r.height }
}

/// Saturate an integer into `u32` range; negative values become zero.
pub open spec fn clamp_u32(v: int) -> int {
    if v < 0 {
        0
    } else if v > u32::MAX {
        u32::MAX as int
    } else {
        v
    }
}

/// Saturate an integer into `i32` range.
pub open spec fn clamp_i32(v: int) -> int {
    if v < i32::MIN {
        i32::MIN as int
    } else if v > i32::MAX {
        i32::MAX as int
    } else {
        v
    }
}

/// Halve a difference, rounding toward zero, as centering does.
pub open spec fn half_toward_zero(d: int) -> int {
    if d >= 0 {
        d / 2
    } else {
        -((-d) / 2)
    }
}

/// The rectangle at `(x, y)` of size `w` by `h`, with every component
/// saturated into its pixel type.
pub open spec fn rect_at(x: int, y: int, w: int, h: int) -> Rect {
    Rect {
        x: clamp_i32(x) as i32,
        y: clamp_i32(y) as i32,
        width: clamp_u32(w) as u32,
        height: clamp_u32(h) as u32,
    }
}

/// A length scaled by `s`, rounded to the nearest pixel (half rounds up).
pub open spec fn scaled_len(len: u32, s: Scale) -> int
    recommends
        s.wf(),
{
    (len * s.num + s.den / 2) / (s.den as int)
}

/// The largest scale at most one that keeps a `tex`-sized image entirely
/// inside a `vp`-sized viewport while preserving its aspect ratio; an image
/// that already fits is left at actual size, never upscaled.
pub open spec fn fit_scale_spec(tex: Dims, vp: Dims) -> Scale {
    if tex.width <= vp.width && tex.height <= vp.height {
        Scale { num: 1u32, den: 1u32 }
    } else if vp.width * tex.height <= vp.height * tex.width {
        Scale { num: vp.width, den: tex.width }
    } else {
        Scale { num: vp.height, den: tex.height }
    }
}

/// Computes the fit-to-viewport scale for a texture of size `tex` shown in a
/// viewport of size `vp`: the largest scale at most one that keeps the whole
/// image visible, preserving aspect ratio. An image smaller than the viewport
/// in both axes keeps scale one.
pub fn fit_scale(tex: Dims, vp: Dims) -> (s: Scale)
    requires
        tex.width > 0,
        tex.height > 0,
    ensures
        s == fit_scale_spec(tex, vp),
        s.wf(),
        s.num <= s.den,
        tex.width <= vp.width && tex.height <= vp.height ==> s == (Scale {
            num: 1u32,
            den: 1u32,
        }),
{
    if tex.width <= vp.width && tex.height <= vp.height {
        Scale { num: 1, den: 1 }
    } else {
        proof {
            assert(vp.width as int * tex.height as int <= 0xffff_ffff * 0xffff_ffff
                && vp.height as int * tex.width as int <= 0xffff_ffff * 0xffff_ffff)
                by (nonlinear_arith)
                requires
                    vp.width <= 0xffff_ffffu32,
                    tex.height <= 0xffff_ffffu32,
                    vp.height <= 0xffff_ffffu32,
                    tex.width <= 0xffff_ffffu32,
            ;
        }
        let wide: u64 = vp.width as u64 * tex.height as u64;
        let tall: u64 = vp.height as u64 * tex.width as u64;
        if wide <= tall {
            proof {
                assert(vp.width < tex.width) by (nonlinear_arith)
                    requires
                        vp.width as int * tex.height as int <= vp.height as int
                            * tex.width as int,
                        tex.width > vp.width || tex.height > vp.height,
                        tex.width > 0,
                        tex.height > 0,
                ;
            }
            Scale { num: vp.width, den: tex.width }
        } else {
            proof {
                assert(vp.height < tex.height) by (nonlinear_arith)
                    requires
                        vp.width as int * tex.height as int > vp.height as int
                            * tex.width as int,
                        tex.width > vp.width || tex.height > vp.height,
                        tex.width > 0,
                        tex.height > 0,
                ;
            }
            Scale { num: vp.height, den: tex.height }
        }
    }
}

/// The destination rectangle for a texture of size `tex` under `scale`,
/// centered in `vp` and then offset by the pan, every component saturated
/// into its pixel type.
pub open spec fn dest_rect_spec(tex: Dims, vp: Rect, scale: Scale, pan_x: i32, pan_y: i32) -> Rect
    recommends
        scale.wf(),
{
    let w = clamp_u32(scaled_len(tex.width, scale));
    let h = clamp_u32(scaled_len(tex.height, scale));
    rect_at(
        vp.x + half_toward_zero(vp.width - w) + pan_x,
        vp.y + half_toward_zero(vp.height - h) + pan_y,
        w,
        h,
    )
}

/// Saturate a `u64` into `u32`.
pub(crate) fn clamp_to_u32(v: u64) -> (r: u32)
    ensures
        r as int == clamp_u32(v as int),
{
    if v > u32::MAX as u64 {
        u32::MAX
    } else {
        v as u32
    }
}

/// Saturate an `i64` into `i32`.
pub(crate) fn clamp_to_i32(v: i64) -> (r: i32)
    ensures
        r as int == clamp_i32(v as int),
{
    if v < i32::MIN as i64 {
        i32::MIN
    } else if v > i32::MAX as i64 {
        i32::MAX
    } else {
        v as i32
    }
}

/// Build the rectangle at `(x, y)` of size `w` by `h`, saturating each
/// component into its pixel type.
pub(crate) fn make_rect(x: i64, y: i64, w: u64, h: u64) -> (r: Rect)
    ensures
        r == rect_at(x as int, y as int, w as int, h as int),
{
    Rect { x: clamp_to_i32(x), y: clamp_to_i32(y), width: clamp_to_u32(w), height: clamp_to_u32(h) }
}

/// How far from the edge of a span of length `outer` a centered span of
/// length `inner` starts; negative when `inner` overhangs.
pub(crate) fn center_offset(outer: u32, inner: u32) -> (r: i64)
    ensures
        r as int == half_toward_zero(outer - inner),
        -0x1_0000_0000 <= r <= 0x1_0000_0000,
{
    if inner <= outer {
        ((outer - inner) / 2) as i64
    } else {
        -(((inner - outer) / 2) as i64)
    }
}

/// Computes the on-screen destination rectangle for a texture of size `tex`:
/// its size is `tex` scaled by `scale` and rounded to the nearest pixel, and
/// it is centered in `viewport` and then offset by `(pan_x, pan_y)` in device
/// pixels. The pan is unconstrained: the image may be moved entirely
/// off-screen.
pub fn destination_rect(tex: Dims, viewport: Rect, scale: Scale, pan_x: i32, pan_y: i32) -> (r:
    Rect)
    requires
        scale.wf(),
    ensures
        r == dest_rect_spec(tex, viewport, scale, pan_x, pan_y),
{
    proof {
        assert(tex.width as int * scale.num as int <= 0xffff_ffff * 0xffff_ffff
            && tex.height as int * scale.num as int <= 0xffff_ffff * 0xffff_ffff)
            by (nonlinear_arith)
            requires
                tex.width <= 0xffff_ffffu32,
                tex.height <= 0xffff_ffffu32,
                scale.num <= 0xffff_ffffu32,
        ;
    }
    let den: u64 = scale.den as u64;
    let w: u32 = clamp_to_u32((tex.width as u64 * scale.num as u64 + den / 2) / den);
    let h: u32 = clamp_to_u32((tex.height as u64 * scale.num as u64 + den / 2) / den);
    let x: i64 = viewport.x as i64 + center_offset(viewport.width, w) + pan_x as i64;
    let y: i64 = viewport.y as i64 + center_offset(viewport.height, h) + pan_y as i64;
    make_rect(x, y, w as u64, h as u64)
}

/// Rounding a whole multiple of the denominator leaves the quotient exact:
/// `(q * d + d / 2) / d == q`.
proof fn lemma_scaled_multiple_exact(q: int, d: int)
    requires
        0 <= q,
        1 <= d,
    ensures
        (q * d + d / 2) / d == q,
{
    lemma_fundamental_div_mod(d, 2);
    assert(0 <= d / 2 < d);
    lemma_fundamental_div_mod_converse(q * d + d / 2, d, q, d / 2);
}

/// Law of fit idempotence: for a texture whose aspect ratio matches the
/// viewport's and which is at least viewport-sized, the destination
/// rectangle under the fit scale has exactly the viewport's dimensions,
/// whatever the pan. (A strictly smaller texture is the one excluded case:
/// it keeps scale one and its own size.)
pub proof fn lemma_fit_scale_idempotent(tex: Dims, vp: Rect, pan_x: i32, pan_y: i32)
    requires
        tex.width > 0,
        tex.height > 0,
        vp.width > 0,
        vp.height > 0,
        tex.width * vp.height == tex.height * vp.width,
        vp.width <= tex.width,
    ensures
        dest_rect_spec(tex, vp, fit_scale_spec(tex, rect_dims(vp)), pan_x, pan_y).width
            == vp.width,
        dest_rect_spec(tex, vp, fit_scale_spec(tex, rect_dims(vp)), pan_x, pan_y).height
            == vp.height,
{
    let s = fit_scale_spec(tex, rect_dims(vp));
    if tex.width <= vp.width && tex.height <= vp.height {
        assert(tex.width == vp.width);
        assert(vp.height == tex.height) by (nonlinear_arith)
            requires
                tex.width as int * vp.height as int == tex.height as int * vp.width as int,
                tex.width == vp.width,
                vp.width > 0,
                tex.height <= vp.height,
        ;
        assert(s == Scale { num: 1u32, den: 1u32 });
        lemma_scaled_multiple_exact(tex.width as int, 1);
        lemma_scaled_multiple_exact(tex.height as int, 1);
        assert(scaled_len(tex.width, s) == vp.width);
        assert(scaled_len(tex.height, s) == vp.height);
    } else {
        lemma_mul_is_commutative(vp.width as int, tex.height as int);
        lemma_mul_is_commutative(vp.height as int, tex.width as int);
        assert(vp.width * tex.height <= vp.height * tex.width);
        assert(s == Scale { num: vp.width, den: tex.width });
        lemma_scaled_multiple_exact(vp.width as int, tex.width as int);
        lemma_mul_is_commutative(tex.width as int, vp.width as int);
        assert(scaled_len(tex.width, s) == vp.width);
        lemma_mul_is_commutative(tex.height as int, vp.width as int);
        assert(tex.height as int * vp.width as int == vp.height as int * tex.width as int);
        lemma_scaled_multiple_exact(vp.height as int, tex.width as int);
        lemma_mul_is_commutative(vp.height as int, tex.width as int);
        assert(scaled_len(tex.height, s) == vp.height);
    }
}

} // verus!
