//! The frame plan: the list of draw commands one frame is composed of, and
//! the layout of the status-bar and help layers from measured text bitmaps.
//!
//! Text rasterization is the shell's job; each layer here takes the measured
//! dimensions of the rasterized text and turns them into filled rectangles
//! and blit instructions.

use vstd::prelude::*;
use crate::geometry::{
    clamp_to_u32, clamp_u32, center_offset, dest_rect_spec, half_toward_zero, make_rect, rect_at,
    Dims, Rect,
};
use crate::style::{mode_colors, mode_colors_spec, spec_help_background_color, help_background_color, Color};
use crate::ui::{HelpRender, Mode, ViewState};

verus! {

/// Pixels between the viewport edge and the status-bar label.
pub const PADDING: u32 = 30;

/// Half of `PADDING`; the status bar's first segment ends this far past its
/// label, three halves in all.
pub const HALF_PAD: u32 = 15;

/// Vertical pixels reserved for one help-table line.
pub const LINE_HEIGHT: u32 = 22;

/// Vertical pixels between two help-table lines.
pub const LINE_PADDING: u32 = 5;

/// Which rasterized text bitmap a `CopyText` command blits: the short
/// mode/index label, the longer information string, or one line of the help
/// table, counted from the top.
#[derive(Clone, Copy, Debug, PartialEq, Eq, Structural)]
pub enum TextSource {
    ModeLabel,
    Information,
    HelpLine(usize),
}

/// One drawing step of a composed frame, in the order the shell must run
/// them.
#[derive(Clone, Copy, Debug, PartialEq, Eq, Structural)]
pub enum DrawCmd {
    /// Fill the whole frame with a color.
    Clear(Color),
    /// Blit the cached image texture into `dst`, rotated clockwise by
    /// `angle` degrees around the rectangle's center, mirrored by the flips.
    CopyImage { dst: Rect, angle: u32, flip_horizontal: bool, flip_vertical: bool },
    /// Fill a rectangle; `blend` asks for alpha blending.
    FillRect { rect: Rect, color: Color, blend: bool },
    /// Blit a rasterized text bitmap into `dst`.
    CopyText { source: TextSource, dst: Rect },
    /// Present the composed frame.
    Present,
}

/// The measured sizes of the two rasterized status-bar strings.
#[derive(Clone, Copy, Debug, PartialEq, Eq, Structural)]
pub struct InfobarMeasure {
    /// Size of the short mode/index label.
    pub mode_dims: Dims,
    /// Size of the longer information string.
    pub info_dims: Dims,
}

/// The measured sizes of the rasterized help-table lines, top to bottom.
#[derive(Debug)]
pub struct HelpMeasure {
    pub line_dims: Vec<Dims>,
}

/// Everything one frame needs from outside the core: whether a current image
/// exists at all, the viewport, and the measured text bitmaps for whichever
/// overlays are enabled (`None` where rasterization failed or was not
/// attempted).
#[derive(Debug)]
pub struct FrameInputs {
    pub has_image: bool,
    pub viewport: Rect,
    pub infobar_text: Option<InfobarMeasure>,
    pub help_text: Option<HelpMeasure>,
}

/// The one fatal failure of frame composition: an enabled overlay's text
/// could not be rasterized.
#[derive(Clone, Copy, Debug, PartialEq, Eq, Structural)]
pub enum RenderError {
    RasterFailure,
}

/// How many lines each help table has; zero when no help is shown.
pub open spec fn help_line_count(kind: HelpRender) -> int {
    match kind {
        HelpRender::Off => 0,
        HelpRender::Normal => 24,
        HelpRender::Command => 18,
    }
}

/// The image layer: one blit of the cached texture into its destination
/// rectangle under the current view transform, or nothing while no texture
/// is cached.
pub open spec fn image_cmds(texture: Option<Dims>, view: ViewState, vp: Rect) -> Seq<DrawCmd> {
    match texture {
        None => Seq::<DrawCmd>::empty(),
        Some(t) => seq![
            DrawCmd::CopyImage {
                dst: dest_rect_spec(t, vp, view.scale, view.pan_x, view.pan_y),
                angle: crate::ui::rotation_degrees_spec(view.rot_angle),
                flip_horizontal: view.flip_horizontal,
                flip_vertical: view.flip_vertical,
            },
        ],
    }
}

/// Appends the image layer for the cached texture, if any.
pub(crate) fn push_image_cmds(
    texture: &Option<Dims>,
    view: &ViewState,
    vp: Rect,
    out: &mut Vec<DrawCmd>,
)
    requires
        view.scale.wf(),
    ensures
        final(out)@ == old(out)@ + image_cmds(*texture, *view, vp),
{
    match texture {
        None => {
            proof {
                assert(out@ =~= old(out)@ + image_cmds(*texture, *view, vp));
            }
        },
        Some(t) => {
            let dst = crate::geometry::destination_rect(*t, vp, view.scale, view.pan_x, view.pan_y);
            let angle = crate::ui::rotation_degrees(&view.rot_angle);
            out.push(
                DrawCmd::CopyImage {
                    dst,
                    angle,
                    flip_horizontal: view.flip_horizontal,
                    flip_vertical: view.flip_vertical,
                },
            );
            proof {
                assert(out@ =~= old(out)@ + image_cmds(*texture, *view, vp));
            }
        },
    }
}

/// The status-bar layer: a three-segment bar anchored to the bottom of the
/// viewport, then the two text blits. The first segment is as wide as the
/// mode label plus padding, the second as wide as the information string
/// plus padding, the third takes the remaining viewport width (nothing when
/// the first two already cover it).
pub open spec fn infobar_cmds(m: Mode, meas: InfobarMeasure, vp: Rect) -> Seq<DrawCmd> {
    let colors = mode_colors_spec(m);
    let h = meas.mode_dims.height as int;
    let y = vp.height - meas.mode_dims.height;
    let w1 = clamp_u32(meas.mode_dims.width + 3 * HALF_PAD);
    let w2 = clamp_u32(meas.info_dims.width + 2 * PADDING);
    seq![
        DrawCmd::FillRect { rect: rect_at(0, y, w1, h), color: colors.primary, blend: false },
        DrawCmd::FillRect { rect: rect_at(w1, y, w2, h), color: colors.secondary, blend: false },
        DrawCmd::FillRect {
            rect: rect_at(w1 + w2, y, vp.width - w1 - w2, h),
            color: colors.tertiary,
            blend: false,
        },
        DrawCmd::CopyText {
            source: TextSource::ModeLabel,
            dst: rect_at(PADDING as int, y, meas.mode_dims.width as int, h),
        },
        DrawCmd::CopyText {
            source: TextSource::Information,
            dst: rect_at(
                meas.mode_dims.width + 2 * PADDING,
                y,
                meas.info_dims.width as int,
                meas.info_dims.height as int,
            ),
        },
    ]
}

/// Appends the status-bar layer for the given mode and measured texts.
pub(crate) fn push_infobar_cmds(m: &Mode, meas: &InfobarMeasure, vp: Rect, out: &mut Vec<DrawCmd>)
    ensures
        final(out)@ == old(out)@ + infobar_cmds(*m, *meas, vp),
{
    let colors = mode_colors(m);
    let h: u64 = meas.mode_dims.height as u64;
    let y: i64 = vp.height as i64 - meas.mode_dims.height as i64;
    let w1: u32 = clamp_to_u32(meas.mode_dims.width as u64 + 3 * HALF_PAD as u64);
    let w2: u32 = clamp_to_u32(meas.info_dims.width as u64 + 2 * PADDING as u64);
    out.push(DrawCmd::FillRect { rect: make_rect(0, y, w1 as u64, h), color: colors.primary, blend: false });
    out.push(
        DrawCmd::FillRect {
            rect: make_rect(w1 as i64, y, w2 as u64, h),
            color: colors.secondary,
            blend: false,
        },
    );
    let remaining: i64 = vp.width as i64 - w1 as i64 - w2 as i64;
    let w3: u64 = if remaining > 0 {
        remaining as u64
    } else {
        0
    };
    out.push(
        DrawCmd::FillRect {
            rect: make_rect(w1 as i64 + w2 as i64, y, w3, h),
            color: colors.tertiary,
            blend: false,
        },
    );
    out.push(
        DrawCmd::CopyText {
            source: TextSource::ModeLabel,
            dst: make_rect(PADDING as i64, y, meas.mode_dims.width as u64, h),
        },
    );
    out.push(
        DrawCmd::CopyText {
            source: TextSource::Information,
            dst: make_rect(
                meas.mode_dims.width as i64 + 2 * PADDING as i64,
                y,
                meas.info_dims.width as u64,
                meas.info_dims.height as u64,
            ),
        },
    );
    proof {
        assert(out@ =~= old(out)@ + infobar_cmds(*m, *meas, vp));
    }
}

/// The widest measured line width, zero for no lines.
pub open spec fn max_line_width(dims: Seq<Dims>) -> int
    decreases dims.len(),
{
    if dims.len() == 0 {
        0
    } else {
        let rest = max_line_width(dims.drop_last());
        if dims.last().width as int > rest {
            dims.last().width as int
        } else {
            rest
        }
    }
}

/// The help box's height: one line height per line plus the spacing between
/// consecutive lines.
pub open spec fn help_total_height(n: int) -> int {
    LINE_HEIGHT * n + LINE_PADDING * (n - 1)
}

/// The semi-transparent box behind the help table, centered in the viewport,
/// as wide as the widest line and as tall as all lines with their spacing.
pub open spec fn help_box_cmd(meas: HelpMeasure, vp: Rect) -> DrawCmd {
    let total_h = help_total_height(meas.line_dims@.len() as int);
    let box_w = max_line_width(meas.line_dims@);
    DrawCmd::FillRect {
        rect: rect_at(
            half_toward_zero(vp.width - box_w),
            half_toward_zero(vp.height - total_h),
            box_w,
            total_h,
        ),
        color: spec_help_background_color(),
        blend: true,
    }
}

/// The blit of help line `i`: centered horizontally, stacked below the
/// previous lines starting at the vertical center minus half the box height.
pub open spec fn help_line_cmd(meas: HelpMeasure, vp: Rect, i: int) -> DrawCmd {
    let total_h = help_total_height(meas.line_dims@.len() as int);
    let y0 = half_toward_zero(vp.height - total_h);
    DrawCmd::CopyText {
        source: TextSource::HelpLine(i as usize),
        dst: rect_at(
            half_toward_zero(vp.width - meas.line_dims@[i].width),
            y0 + i * ((LINE_HEIGHT + LINE_PADDING) as int),
            meas.line_dims@[i].width as int,
            meas.line_dims@[i].height as int,
        ),
    }
}

/// The help layer: the background box, then every line top to bottom.
pub open spec fn help_cmds(meas: HelpMeasure, vp: Rect) -> Seq<DrawCmd> {
    seq![help_box_cmd(meas, vp)] + Seq::new(
        meas.line_dims@.len(),
        |i: int| help_line_cmd(meas, vp, i),
    )
}

/// The widest measured line width.
fn max_width_of(dims: &Vec<Dims>) -> (r: u32)
    ensures
        r as int == max_line_width(dims@),
{
    let mut m: u32 = 0;
    let mut i: usize = 0;
    proof {
        assert(dims@.take(0) =~= Seq::<Dims>::empty());
    }
    while i < dims.len()
        invariant
            i <= dims@.len(),
            m as int == max_line_width(dims@.take(i as int)),
        decreases dims@.len() - i,
    {
        let w = dims[i].width;
        if w > m {
            m = w;
        }
        proof {
            assert(dims@.take(i + 1).drop_last() =~= dims@.take(i as int));
            assert(dims@.take(i + 1).last() == dims@[i as int]);
        }
        i = i + 1;
    }
    proof {
        assert(dims@.take(dims@.len() as int) =~= dims@);
    }
    m
}

/// Appends the help layer for the measured lines. The tables are short;
/// the bound on the line count keeps every pixel sum within its type.
pub(crate) fn push_help_cmds(meas: &HelpMeasure, vp: Rect, out: &mut Vec<DrawCmd>)
    requires
        1 <= meas.line_dims@.len() <= 100_000,
    ensures
        final(out)@ == old(out)@ + help_cmds(*meas, vp),
{
    let n: usize = meas.line_dims.len();
    let total_h: u64 = 22 * (n as u64) + 5 * ((n as u64) - 1);
    let box_w: u32 = max_width_of(&meas.line_dims);
    proof {
        assert(LINE_HEIGHT == 22 && LINE_PADDING == 5);
        assert(total_h as int == help_total_height(n as int));
        assert(total_h <= 0xffff_ffffu64);
    }
    let y0: i64 = center_offset(vp.height, total_h as u32);
    let x0: i64 = center_offset(vp.width, box_w);
    out.push(
        DrawCmd::FillRect {
            rect: make_rect(x0, y0, box_w as u64, total_h),
            color: help_background_color(),
            blend: true,
        },
    );
    let ghost base: Seq<DrawCmd> = out@;
    let mut i: usize = 0;
    let mut y: i64 = y0;
    while i < n
        invariant
            i <= n,
            n == meas.line_dims@.len(),
            n <= 100_000,
            y0 as int == half_toward_zero(vp.height - help_total_height(n as int)),
            -0x1_0000_0000 <= y0 <= 0x1_0000_0000,
            y as int == y0 + (i as int) * ((LINE_HEIGHT + LINE_PADDING) as int),
            y as int == y0 + (i as int) * 27,
            y0 <= y <= y0 + 27 * (n as int),
            out@ == base + Seq::new(i as nat, |j: int| help_line_cmd(*meas, vp, j)),
        decreases n - i,
    {
        let d = meas.line_dims[i];
        let x: i64 = center_offset(vp.width, d.width);
        out.push(
            DrawCmd::CopyText {
                source: TextSource::HelpLine(i),
                dst: make_rect(x, y, d.width as u64, d.height as u64),
            },
        );
        proof {
            assert(out@.last() == help_line_cmd(*meas, vp, i as int));
            assert(Seq::new((i + 1) as nat, |j: int| help_line_cmd(*meas, vp, j)) =~= Seq::new(
                i as nat,
                |j: int| help_line_cmd(*meas, vp, j),
            ).push(help_line_cmd(*meas, vp, i as int)));
            assert(out@ =~= base + Seq::new(
                (i + 1) as nat,
                |j: int| help_line_cmd(*meas, vp, j),
            ));
            assert(((i + 1) as int) * 27 == (i as int) * 27 + 27);
        }
        y = y + 27;
        i = i + 1;
    }
    proof {
        assert(out@ =~= old(out)@ + help_cmds(*meas, vp));
    }
}

} // verus!
