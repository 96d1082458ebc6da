use riv::geometry::{Dims, Scale};
use riv::program::{CacheState, EnsureAction, Program};
use riv::ui::{HelpRender, Mode, RotAngle, UiState, ViewState};

fn session() -> Program {
    Program::new()
}

#[test]
fn blank_when_no_image() {
    let p = session();
    assert_eq!(p.ensure_texture(None, false), EnsureAction::Blank);
    assert_eq!(p.ensure_texture(None, true), EnsureAction::Blank);
}

#[test]
fn load_once_then_reuse() {
    // Repeated unforced requests for the same image decode at most once.
    let mut p = session();
    let vp = Dims { width: 800, height: 600 };
    let tex = Dims { width: 400, height: 300 };
    let mut decodes = 0;
    for _ in 0..5 {
        if p.ensure_texture(Some(2), false) == EnsureAction::Load {
            decodes += 1;
            p.apply_load_result(2, Some(tex), vp);
        }
    }
    assert_eq!(decodes, 1);
    assert_eq!(p.ensure_texture(Some(2), false), EnsureAction::Reuse);
}

#[test]
fn force_always_loads() {
    let mut p = session();
    let vp = Dims { width: 800, height: 600 };
    p.apply_load_result(2, Some(Dims { width: 400, height: 300 }), vp);
    assert_eq!(p.ensure_texture(Some(2), false), EnsureAction::Reuse);
    assert_eq!(p.ensure_texture(Some(2), true), EnsureAction::Load);
}

#[test]
fn dirty_forces_reload() {
    let mut p = session();
    let vp = Dims { width: 800, height: 600 };
    p.apply_load_result(2, Some(Dims { width: 400, height: 300 }), vp);
    p.mark_dirty();
    assert_eq!(p.ensure_texture(Some(2), false), EnsureAction::Load);
}

#[test]
fn other_index_loads() {
    let mut p = session();
    let vp = Dims { width: 800, height: 600 };
    p.apply_load_result(2, Some(Dims { width: 400, height: 300 }), vp);
    assert_eq!(p.ensure_texture(Some(3), false), EnsureAction::Load);
}

#[test]
fn view_resets_on_load() {
    // Loading image 2 while zoomed, panned and rotated resets the view.
    let mut p = Program {
        ui_state: UiState {
            mode: Mode::Normal,
            render_infobar: true,
            render_help: HelpRender::Off,
            view: ViewState {
                scale: Scale { num: 2, den: 1 },
                pan_x: 50,
                pan_y: -10,
                rot_angle: RotAngle::Right,
                flip_horizontal: true,
                flip_vertical: true,
            },
        },
        cache: CacheState { last_index: 0, texture: None, dirty: false },
    };
    let tex = Dims { width: 400, height: 300 };
    p.apply_load_result(2, Some(tex), Dims { width: 800, height: 600 });
    assert_eq!(
        p.ui_state.view,
        ViewState {
            scale: Scale { num: 1, den: 1 },
            pan_x: 0,
            pan_y: 0,
            rot_angle: RotAngle::Up,
            flip_horizontal: false,
            flip_vertical: false,
        }
    );
    assert_eq!(p.cache, CacheState { last_index: 2, texture: Some(tex), dirty: false });
}

#[test]
fn failed_load_leaves_session_untouched() {
    // A decode failure keeps the last good texture and the whole view.
    let mut p = session();
    let vp = Dims { width: 800, height: 600 };
    let tex = Dims { width: 400, height: 300 };
    p.apply_load_result(2, Some(tex), vp);
    let cache_before = p.cache;
    let view_before = p.ui_state.view;
    p.apply_load_result(3, None, vp);
    assert_eq!(p.cache, cache_before);
    assert_eq!(p.ui_state.view, view_before);
    assert_eq!(p.ensure_texture(Some(2), false), EnsureAction::Reuse);
}
