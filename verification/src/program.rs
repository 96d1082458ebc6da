//! The viewer session: the texture cache with its reuse rule, the view
//! transform it resets on every fresh load, and the per-frame compositor.
//!
//! Decoding an image and presenting a frame are the shell's work. One frame
//! runs as: ask [`Program::ensure_texture`] whether the cached texture can be
//! reused; if not, decode outside and hand the outcome to
//! [`Program::apply_load_result`]; rasterize the overlay text and measure it;
//! then [`Program::render_screen`] composes the full frame as draw commands
//! for the shell to execute.

use vstd::prelude::*;
use crate::compose::{
    help_line_count, image_cmds, infobar_cmds, help_cmds, push_help_cmds, push_image_cmds,
    push_infobar_cmds, DrawCmd, FrameInputs, RenderError,
};
use crate::geometry::{fit_scale, fit_scale_spec, Dims};
use crate::style::dark_grey;
use crate::ui::{HelpRender, Mode, RotAngle, UiState, ViewState};

verus! {

/// The resource cache: which image the cached texture was decoded from,
/// its dimensions, and whether its content is stale even though the index
/// matches.
#[derive(Clone, Copy, Debug, PartialEq, Eq, Structural)]
pub struct CacheState {
    /// The image index the cached texture belongs to.
    pub last_index: usize,
    /// The dimensions of the cached texture; `None` while nothing is cached.
    /// The texture itself is GPU-resident and owned by the shell.
    pub texture: Option<Dims>,
    /// Content must be reloaded even if the index matches.
    pub dirty: bool,
}

/// What one `ensure_texture` call asks the shell to do.
#[derive(Clone, Copy, Debug, PartialEq, Eq, Structural)]
pub enum EnsureAction {
    /// The cached texture is fresh: draw it, decode nothing.
    Reuse,
    /// Decode the requested image and report back through
    /// `apply_load_result`.
    Load,
    /// No current image exists: render a blank frame.
    Blank,
}

/// The verified core of the viewer session: interaction state plus the
/// texture cache.
#[derive(Debug)]
pub struct Program {
    pub ui_state: UiState,
    pub cache: CacheState,
}

/// The view transform right after a fresh load: fit to the viewport, no pan,
/// no rotation, no flips.
pub open spec fn post_load_view(tex: Dims, viewport: Dims) -> ViewState {
    ViewState {
        scale: fit_scale_spec(tex, viewport),
        pan_x: 0,
        pan_y: 0,
        rot_angle: RotAngle::Up,
        flip_horizontal: false,
        flip_vertical: false,
    }
}

/// The frame plan: clear to the neutral background, the image layer when a
/// current image exists, the status bar when enabled, the help overlay when
/// enabled, then present.
pub open spec fn plan_with(p: Program, f: FrameInputs, with_image: bool) -> Seq<DrawCmd> {
    seq![DrawCmd::Clear(crate::style::spec_dark_grey())] + (if with_image {
        image_cmds(p.cache.texture, p.ui_state.view, f.viewport)
    } else {
        Seq::<DrawCmd>::empty()
    }) + (if p.ui_state.render_infobar {
        infobar_cmds(p.ui_state.mode, f.infobar_text->0, f.viewport)
    } else {
        Seq::<DrawCmd>::empty()
    }) + (if p.ui_state.render_help is Off {
        Seq::<DrawCmd>::empty()
    } else {
        help_cmds(f.help_text->0, f.viewport)
    }) + seq![DrawCmd::Present]
}

/// The plan of a full frame.
pub open spec fn frame_plan(p: Program, f: FrameInputs) -> Seq<DrawCmd> {
    plan_with(p, f, f.has_image)
}

/// The plan of a blank-image frame: overlays only.
pub open spec fn blank_plan(p: Program, f: FrameInputs) -> Seq<DrawCmd> {
    plan_with(p, f, false)
}

/// An enabled overlay lacks its rasterized text: the one fatal condition of
/// frame composition.
pub open spec fn raster_missing(p: Program, f: FrameInputs) -> bool {
    ||| (p.ui_state.render_infobar && f.infobar_text is None)
    ||| (!(p.ui_state.render_help is Off) && (f.help_text is None
        || f.help_text->0.line_dims@.len() != help_line_count(p.ui_state.render_help)))
}

impl Program {
    /// A session is well formed when its scale has a positive denominator.
    pub open spec fn wf(self) -> bool {
        self.ui_state.view.scale.wf()
    }

    /// The cached texture is fresh for `index`: present, decoded from that
    /// very image, and not marked stale.
    pub open spec fn cache_fresh_for(self, index: usize) -> bool {
        &&& self.cache.texture is Some
        &&& self.cache.last_index == index
        &&& !self.cache.dirty
    }

    /// What `ensure_texture` answers for a request.
    pub open spec fn ensure_action_spec(self, requested_index: Option<usize>, force: bool)
        -> EnsureAction {
        match requested_index {
            None => EnsureAction::Blank,
            Some(i) => if self.cache_fresh_for(i) && !force {
                EnsureAction::Reuse
            } else {
                EnsureAction::Load
            },
        }
    }

    /// The session state after a successful decode of image `index` with
    /// dimensions `tex`: the texture is cached fresh and the view transform
    /// is reset to its post-load defaults; mode and overlay toggles keep
    /// their values.
    pub open spec fn after_load(self, index: usize, tex: Dims, viewport: Dims) -> Program {
        Program {
            ui_state: UiState {
                mode: self.ui_state.mode,
                render_infobar: self.ui_state.render_infobar,
                render_help: self.ui_state.render_help,
                view: post_load_view(tex, viewport),
            },
            cache: CacheState { last_index: index, texture: Some(tex), dirty: false },
        }
    }

    /// A fresh session: nothing cached, normal mode, status bar shown, no
    /// help overlay, identity view transform.
    pub fn new() -> (p: Program)
        ensures
            p.wf(),
            p.cache.texture is None,
            !p.cache.dirty,
            p.cache.last_index == 0,
            p.ui_state.mode is Normal,
            p.ui_state.render_infobar,
            p.ui_state.render_help is Off,
            p.ui_state.view == (ViewState {
                scale: crate::geometry::Scale { num: 1u32, den: 1u32 },
                pan_x: 0i32,
                pan_y: 0i32,
                rot_angle: RotAngle::Up,
                flip_horizontal: false,
                flip_vertical: false,
            }),
    {
        Program {
            ui_state: UiState {
                mode: Mode::Normal,
                render_infobar: true,
                render_help: HelpRender::Off,
                view: ViewState {
                    scale: crate::geometry::Scale { num: 1, den: 1 },
                    pan_x: 0,
                    pan_y: 0,
                    rot_angle: RotAngle::Up,
                    flip_horizontal: false,
                    flip_vertical: false,
                },
            },
            cache: CacheState { last_index: 0, texture: None, dirty: false },
        }
    }

    /// Decides whether the cached texture can be reused for the requested
    /// image. `Reuse` exactly when the request names the cached image, the
    /// cache is not dirty and no reload is forced; `Blank` exactly when no
    /// current image exists; `Load` otherwise — and only a `Load` answer has
    /// the shell invoke the decode service.
    pub fn ensure_texture(&self, requested_index: Option<usize>, force: bool) -> (a: EnsureAction)
        ensures
            a == self.ensure_action_spec(requested_index, force),
            requested_index is None <==> a is Blank,
            requested_index matches Some(i) && self.cache_fresh_for(i) && !force ==> a is Reuse,
            requested_index is Some && force ==> a is Load,
    {
        match requested_index {
            None => EnsureAction::Blank,
            Some(i) => {
                if !force && !self.cache.dirty && self.cache.last_index == i
                    && self.cache.texture.is_some() {
                    EnsureAction::Reuse
                } else {
                    EnsureAction::Load
                }
            },
        }
    }

    /// Records the outcome of a decode the shell ran for image `index`.
    /// On success the new texture replaces the cached one and the view
    /// transform is reset to its post-load defaults. On failure the whole
    /// session is left untouched, so the viewer keeps showing the last good
    /// frame.
    pub fn apply_load_result(&mut self, index: usize, loaded: Option<Dims>, viewport: Dims)
        requires
            loaded matches Some(t) ==> t.width > 0 && t.height > 0,
        ensures
            loaded is None ==> *final(self) == *old(self),
            loaded matches Some(t) ==> *final(self) == old(self).after_load(index, t, viewport),
            loaded matches Some(t) ==> final(self).cache_fresh_for(index),
            old(self).wf() ==> final(self).wf(),
    {
        match loaded {
            None => {},
            Some(t) => {
                self.cache.texture = Some(t);
                self.cache.last_index = index;
                self.cache.dirty = false;
                let s = fit_scale(t, viewport);
                self.ui_state.view = ViewState {
                    scale: s,
                    pan_x: 0,
                    pan_y: 0,
                    rot_angle: RotAngle::Up,
                    flip_horizontal: false,
                    flip_vertical: false,
                };
            },
        }
    }

    /// Marks the cached content stale: the next `ensure_texture` for any
    /// index answers `Load`. Used when the image behind the cached index
    /// changed on disk.
    pub fn mark_dirty(&mut self)
        ensures
            final(self).cache.dirty,
            final(self).cache.last_index == old(self).cache.last_index,
            final(self).cache.texture == old(self).cache.texture,
            final(self).ui_state == old(self).ui_state,
    {
        self.cache.dirty = true;
    }

    /// Whether an image of size `src_dims` overflows `dest_dims` in either
    /// axis; decides the default of the actual-size-versus-scaled toggle.
    pub fn default_actual_size(src_dims: &Dims, dest_dims: &Dims) -> (r: bool)
        ensures
            r == (src_dims.width > dest_dims.width || src_dims.height > dest_dims.height),
    {
        src_dims.width > dest_dims.width || src_dims.height > dest_dims.height
    }

    /// Composes one frame, with or without the image layer.
    fn compose_frame(&self, frame: &FrameInputs, with_image: bool) -> (r: Result<
        Vec<DrawCmd>,
        RenderError,
    >)
        requires
            self.wf(),
        ensures
            r is Err <==> raster_missing(*self, *frame),
            r matches Ok(cmds) ==> cmds@ == plan_with(*self, *frame, with_image),
            r matches Err(e) ==> e == RenderError::RasterFailure,
    {
        if self.ui_state.render_infobar && frame.infobar_text.is_none() {
            return Err(RenderError::RasterFailure);
        }
        let help_lines: usize = match self.ui_state.render_help {
            HelpRender::Off => 0,
            HelpRender::Normal => 24,
            HelpRender::Command => 18,
        };
        if help_lines > 0 {
            match &frame.help_text {
                None => {
                    return Err(RenderError::RasterFailure);
                },
                Some(hm) => {
                    if hm.line_dims.len() != help_lines {
                        return Err(RenderError::RasterFailure);
                    }
                },
            }
        }
        let mut cmds: Vec<DrawCmd> = Vec::new();
        cmds.push(DrawCmd::Clear(dark_grey()));
        if with_image {
            push_image_cmds(&self.cache.texture, &self.ui_state.view, frame.viewport, &mut cmds);
        }
        if self.ui_state.render_infobar {
            if let Some(m) = &frame.infobar_text {
                push_infobar_cmds(&self.ui_state.mode, m, frame.viewport, &mut cmds);
            }
        }
        if help_lines > 0 {
            if let Some(hm) = &frame.help_text {
                push_help_cmds(hm, frame.viewport, &mut cmds);
            }
        }
        cmds.push(DrawCmd::Present);
        proof {
            assert(cmds@ =~= plan_with(*self, *frame, with_image));
        }
        Ok(cmds)
    }

    /// Composes one full frame: clear, the image layer (when a current image
    /// exists — drawn from whatever texture is cached, so a failed reload
    /// degrades to the last good image), the status bar when enabled, the
    /// help overlay when enabled, then present. Fails only when an enabled
    /// overlay lacks its rasterized text.
    pub fn render_screen(&self, frame: &FrameInputs) -> (r: Result<Vec<DrawCmd>, RenderError>)
        requires
            self.wf(),
        ensures
            r is Err <==> raster_missing(*self, *frame),
            r matches Ok(cmds) ==> cmds@ == frame_plan(*self, *frame),
            r matches Err(e) ==> e == RenderError::RasterFailure,
    {
        if frame.has_image {
            self.compose_frame(frame, true)
        } else {
            self.render_blank(frame)
        }
    }

    /// Composes the blank-image frame: clear, the enabled overlays, present;
    /// the image layer is skipped even if a texture is cached.
    pub fn render_blank(&self, frame: &FrameInputs) -> (r: Result<Vec<DrawCmd>, RenderError>)
        requires
            self.wf(),
        ensures
            r is Err <==> raster_missing(*self, *frame),
            r matches Ok(cmds) ==> cmds@ == blank_plan(*self, *frame),
            r matches Err(e) ==> e == RenderError::RasterFailure,
    {
        self.compose_frame(frame, false)
    }
}

/// How often the decode service runs over `n` frames that each call
/// `ensure_texture(index, false)` and, told to load, complete a successful
/// decode of a `tex`-sized texture.
pub open spec fn frame_decodes(p: Program, index: usize, tex: Dims, viewport: Dims, n: nat) -> nat
    decreases n,
{
    if n == 0 {
        0
    } else if p.ensure_action_spec(Some(index), false) is Load {
        1 + frame_decodes(p.after_load(index, tex, viewport), index, tex, viewport, (n - 1) as nat)
    } else {
        frame_decodes(p, index, tex, viewport, (n - 1) as nat)
    }
}

/// While the cache is fresh for `index`, unforced frames never decode.
pub proof fn lemma_fresh_no_decode(p: Program, index: usize, tex: Dims, viewport: Dims, n: nat)
    requires
        p.cache_fresh_for(index),
    ensures
        frame_decodes(p, index, tex, viewport, n) == 0,
    decreases n,
{
    if n > 0 {
        lemma_fresh_no_decode(p, index, tex, viewport, (n - 1) as nat);
    }
}

/// Law of cache reuse: over any run of frames that each ask
/// `ensure_texture(index, false)` and complete a successful load when told
/// to, the decode service runs at most once, whatever state the cache
/// started in.
pub proof fn lemma_cache_reuse(p: Program, index: usize, tex: Dims, viewport: Dims, n: nat)
    ensures
        frame_decodes(p, index, tex, viewport, n) <= 1,
    decreases n,
{
    if n > 0 {
        if p.ensure_action_spec(Some(index), false) is Load {
            let q = p.after_load(index, tex, viewport);
            assert(q.cache_fresh_for(index));
            lemma_fresh_no_decode(q, index, tex, viewport, (n - 1) as nat);
        } else {
            lemma_cache_reuse(p, index, tex, viewport, (n - 1) as nat);
        }
    }
}

/// Law of cache invalidation: a forced `ensure_texture` always invokes the
/// decode service, whatever the cache holds.
pub proof fn lemma_cache_invalidation(p: Program, index: usize)
    ensures
        p.ensure_action_spec(Some(index), true) is Load,
{
}

} // verus!
