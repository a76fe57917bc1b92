//! The colour themes that the interface offers.

use crate::console::Rgb;
use vstd::prelude::*;

verus! {

/// A colour theme.
#[derive(Clone, Debug, PartialEq, Eq)]
pub struct Theme {
    pub name: String,
    pub primary_color: Rgb,
    pub secondary_color: Rgb,
    pub background_color: Rgb,
    pub text_color: Rgb,
    pub accent_color: Rgb,
}

/// The mathematical value of a [`Theme`].
pub struct ThemeView {
    pub name: Seq<char>,
    pub primary_color: Rgb,
    pub secondary_color: Rgb,
    pub background_color: Rgb,
    pub text_color: Rgb,
    pub accent_color: Rgb,
}

impl View for Theme {
    type V = ThemeView;

    open spec fn view(&self) -> ThemeView {
        ThemeView {
            name: self.name@,
            primary_color: self.primary_color,
            secondary_color: self.secondary_color,
            background_color: self.background_color,
            text_color: self.text_color,
            accent_color: self.accent_color,
        }
    }
}

/// The dark theme.
pub open spec fn dark_theme() -> ThemeView {
    ThemeView {
        name: "Dark"@,
        primary_color: Rgb { red: 28, green: 29, blue: 32 },
        secondary_color: Rgb { red: 35, green: 36, blue: 40 },
        background_color: Rgb { red: 32, green: 33, blue: 36 },
        text_color: Rgb { red: 255, green: 255, blue: 255 },
        accent_color: Rgb { red: 66, green: 133, blue: 244 },
    }
}

/// The light theme.
pub open spec fn light_theme() -> ThemeView {
    ThemeView {
        name: "Light"@,
        primary_color: Rgb { red: 245, green: 245, blue: 245 },
        secondary_color: Rgb { red: 255, green: 255, blue: 255 },
        background_color: Rgb { red: 250, green: 250, blue: 250 },
        text_color: Rgb { red: 0, green: 0, blue: 0 },
        accent_color: Rgb { red: 26, green: 115, blue: 232 },
    }
}

impl Theme {
    /// The themes on offer: the dark one, which is the default, and the
    /// light one.
    pub fn default_themes() -> (themes: Vec<Theme>)
        ensures
            themes@.len() == 2,
            themes@[0]@ == dark_theme(),
            themes@[1]@ == light_theme(),
    {
        let mut themes: Vec<Theme> = Vec::new();
        themes.push(
            Theme {
                name: String::from_str("Dark"),
                primary_color: Rgb { red: 28, green: 29, blue: 32 },
                secondary_color: Rgb { red: 35, green: 36, blue: 40 },
                background_color: Rgb { red: 32, green: 33, blue: 36 },
                text_color: Rgb { red: 255, green: 255, blue: 255 },
                accent_color: Rgb { red: 66, green: 133, blue: 244 },
            },
        );
        themes.push(
            Theme {
                name: String::from_str("Light"),
                primary_color: Rgb { red: 245, green: 245, blue: 245 },
                secondary_color: Rgb { red: 255, green: 255, blue: 255 },
                background_color: Rgb { red: 250, green: 250, blue: 250 },
                text_color: Rgb { red: 0, green: 0, blue: 0 },
                accent_color: Rgb { red: 26, green: 115, blue: 232 },
            },
        );
        themes
    }
}

} // verus!
