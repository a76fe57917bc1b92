use stelarc::console::Rgb;
use stelarc::theme::Theme;

#[test]
fn two_themes_dark_first() {
    let themes = Theme::default_themes();
    assert_eq!(themes.len(), 2);
    assert_eq!(
        themes[0],
        Theme {
            name: "Dark".to_string(),
            primary_color: Rgb { red: 28, green: 29, blue: 32 },
            secondary_color: Rgb { red: 35, green: 36, blue: 40 },
            background_color: Rgb { red: 32, green: 33, blue: 36 },
            text_color: Rgb { red: 255, green: 255, blue: 255 },
            accent_color: Rgb { red: 66, green: 133, blue: 244 },
        }
    );
    assert_eq!(
        themes[1],
        Theme {
            name: "Light".to_string(),
            primary_color: Rgb { red: 245, green: 245, blue: 245 },
            secondary_color: Rgb { red: 255, green: 255, blue: 255 },
            background_color: Rgb { red: 250, green: 250, blue: 250 },
            text_color: Rgb { red: 0, green: 0, blue: 0 },
            accent_color: Rgb { red: 26, green: 115, blue: 232 },
        }
    );
}
