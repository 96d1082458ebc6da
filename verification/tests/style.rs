use riv::style::{
    blue, dark_grey, dark_text_color, green, grey, help_background_color, light_blue, light_green,
    light_red, light_text_color, light_yellow, mode_colors, mode_text_color, red, yellow, Color,
};
use riv::ui::{rotation_degrees, Mode, RotAngle};

#[test]
fn palette_normal_is_blue() {
    for m in [Mode::Normal, Mode::MultiNormal, Mode::Exit] {
        let c = mode_colors(&m);
        assert_eq!(c.primary, light_blue());
        assert_eq!(c.secondary, blue());
        assert_eq!(c.tertiary, grey());
    }
}

#[test]
fn palette_error_is_red() {
    let c = mode_colors(&Mode::Error(String::from("no such file")));
    assert_eq!(c.primary, light_red());
    assert_eq!(c.secondary, red());
    assert_eq!(c.tertiary, grey());
}

#[test]
fn palette_success_is_green() {
    let c = mode_colors(&Mode::Success(String::new()));
    assert_eq!(c.primary, light_green());
    assert_eq!(c.secondary, green());
    assert_eq!(c.tertiary, grey());
}

#[test]
fn palette_command_is_yellow() {
    let c = mode_colors(&Mode::Command(String::from(":newglob")));
    assert_eq!(c.primary, light_yellow());
    assert_eq!(c.secondary, yellow());
    assert_eq!(c.tertiary, grey());
}

#[test]
fn text_color_light_only_on_error() {
    assert_eq!(mode_text_color(&Mode::Error(String::new())), light_text_color());
    assert_eq!(mode_text_color(&Mode::Normal), dark_text_color());
    assert_eq!(mode_text_color(&Mode::MultiNormal), dark_text_color());
    assert_eq!(mode_text_color(&Mode::Exit), dark_text_color());
    assert_eq!(mode_text_color(&Mode::Success(String::new())), dark_text_color());
    assert_eq!(mode_text_color(&Mode::Command(String::new())), dark_text_color());
}

#[test]
fn color_values() {
    assert_eq!(dark_grey(), Color { r: 45, g: 45, b: 45, a: 255 });
    assert_eq!(help_background_color(), Color { r: 0, g: 223, b: 252, a: 200 });
    assert_eq!(light_blue(), Color { r: 0, g: 223, b: 252, a: 255 });
    assert_eq!(blue(), Color { r: 0, g: 180, b: 204, a: 255 });
    assert_eq!(dark_text_color(), Color { r: 52, g: 56, b: 56, a: 255 });
    assert_eq!(light_text_color(), Color { r: 255, g: 255, b: 255, a: 255 });
}

#[test]
fn rotation_mapping_total() {
    assert_eq!(rotation_degrees(&RotAngle::Up), 0);
    assert_eq!(rotation_degrees(&RotAngle::Right), 90);
    assert_eq!(rotation_degrees(&RotAngle::Down), 180);
    assert_eq!(rotation_degrees(&RotAngle::Left), 270);
}
