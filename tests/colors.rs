use crossterm::style::Color as BackendColor;
use inquire_terminal::style::{native_color, Attributes, Color, StyleSheet, Styled};

#[test]
fn every_named_color_maps_to_one_backend_color() {
    let pairs = [
        (Color::Black, BackendColor::Black),
        (Color::LightRed, BackendColor::Red),
        (Color::DarkRed, BackendColor::DarkRed),
        (Color::LightGreen, BackendColor::Green),
        (Color::DarkGreen, BackendColor::DarkGreen),
        (Color::LightYellow, BackendColor::Yellow),
        (Color::DarkYellow, BackendColor::DarkYellow),
        (Color::LightBlue, BackendColor::Blue),
        (Color::DarkBlue, BackendColor::DarkBlue),
        (Color::LightMagenta, BackendColor::Magenta),
        (Color::DarkMagenta, BackendColor::DarkMagenta),
        (Color::LightCyan, BackendColor::Cyan),
        (Color::DarkCyan, BackendColor::DarkCyan),
        (Color::White, BackendColor::White),
        (Color::Grey, BackendColor::Grey),
        (Color::DarkGrey, BackendColor::DarkGrey),
    ];
    for (c, n) in pairs {
        assert_eq!(native_color(c), n);
    }
}

#[test]
fn palette_and_rgb_extremes_pass_through() {
    assert_eq!(native_color(Color::AnsiValue(0)), BackendColor::AnsiValue(0));
    assert_eq!(native_color(Color::AnsiValue(255)), BackendColor::AnsiValue(255));
    assert_eq!(
        native_color(Color::Rgb { r: 0, g: 0, b: 0 }),
        BackendColor::Rgb { r: 0, g: 0, b: 0 }
    );
    assert_eq!(
        native_color(Color::Rgb { r: 255, g: 255, b: 255 }),
        BackendColor::Rgb { r: 255, g: 255, b: 255 }
    );
}

#[test]
fn attribute_sets_and_styles() {
    let a = Attributes::bold().union(Attributes::italic());
    assert_eq!(a.bits, 3);
    assert!(a.contains(Attributes::italic()));
    assert!(Attributes::empty().is_empty());
    let s = StyleSheet::new().with_fg(Color::White).with_bg(Color::Black).with_attr(Attributes::bold());
    assert_eq!(s.fg, Some(Color::White));
    assert_eq!(s.bg, Some(Color::Black));
    assert_eq!(s.att, Attributes::bold());
    let t = Styled::new("x".to_string()).with_style(s);
    assert_eq!(t.content, "x");
    assert_eq!(t.style, s);
}

#[test]
fn colors_convert_with_into() {
    let red: BackendColor = Color::LightRed.into();
    assert_eq!(red, BackendColor::Red);
    let idx: BackendColor = Color::AnsiValue(255).into();
    assert_eq!(idx, BackendColor::AnsiValue(255));
    let rgb: BackendColor = Color::Rgb { r: 255, g: 255, b: 255 }.into();
    assert_eq!(rgb, BackendColor::Rgb { r: 255, g: 255, b: 255 });
}
