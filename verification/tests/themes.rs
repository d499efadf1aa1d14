use xilem_bar::color::{rgb, with_alpha, Alpha, Color};
use xilem_bar::theme::{load_theme_mode, theme_mode_text, Theme, ThemeMode};

#[test]
fn colors_keep_their_channels() {
    assert_eq!(rgb(1, 2, 3), Color { red: 1, green: 2, blue: 3, alpha: Alpha::Byte(255) });
    assert_eq!(with_alpha(rgb(1, 2, 3), 70), Color { red: 1, green: 2, blue: 3, alpha: Alpha::Percent(70) });
}

#[test]
fn each_mode_has_its_palette() {
    let dark = Theme::from_mode(ThemeMode::Dark);
    assert_eq!(dark, Theme::mocha());
    assert_eq!(dark.bar_bg, Color { red: 0x1E, green: 0x20, blue: 0x32, alpha: Alpha::Byte(128) });
    assert_eq!(dark.green, rgb(0xA6, 0xE3, 0xA1));
    assert_eq!(dark.tag_active_text, rgb(255, 255, 255));
    let light = Theme::from_mode(ThemeMode::Light);
    assert_eq!(light, Theme::latte());
    assert_eq!(light.bar_bg, Color { red: 0xEF, green: 0xF1, blue: 0xF5, alpha: Alpha::Byte(160) });
    assert_eq!(light.pink, rgb(0xEA, 0x76, 0xCB));
    assert_ne!(light, dark);
}

#[test]
fn a_stored_mode_is_loaded_again() {
    assert_eq!(theme_mode_text(ThemeMode::Dark), "dark");
    assert_eq!(theme_mode_text(ThemeMode::Light), "light");
    for mode in [ThemeMode::Dark, ThemeMode::Light] {
        let stored = theme_mode_text(mode);
        assert_eq!(load_theme_mode(Some(stored)), mode);
        assert_eq!(load_theme_mode(Some(&format!("  {stored}\n"))), mode);
        assert_eq!(load_theme_mode(Some(&format!("\u{3000}\t{stored}\u{a0}\r\n"))), mode);
    }
}

#[test]
fn everything_else_is_dark() {
    assert_eq!(load_theme_mode(None), ThemeMode::Dark);
    for content in ["", " ", "Light", "light mode", "l ight", "lights", "\u{200b}light"] {
        assert_eq!(load_theme_mode(Some(content)), ThemeMode::Dark);
    }
}

#[test]
fn white_space_is_what_unicode_says() {
    let mut code = 0_u32;
    while code < 0x4000 {
        if let Some(c) = char::from_u32(code) {
            let listed = matches!(
                code,
                0x9..=0xd | 0x20 | 0x85 | 0xa0 | 0x1680 | 0x2000..=0x200a | 0x2028 | 0x2029 | 0x202f | 0x205f | 0x3000
            );
            let loaded = load_theme_mode(Some(&format!("{c}light{c}")));
            assert_eq!(loaded == ThemeMode::Light, listed);
        }
        code += 1;
    }
}
