//! The themes and the one in use.

use crate::styles::color::{Color, ColorView, CssColor};
use vstd::prelude::*;
use vstd::string::*;

verus! {

/// The colors with which a theme fills the eight roles.
#[derive(Clone, Copy, Debug, PartialEq, Eq, Structural)]
pub struct Palette {
    pub primary: CssColor,
    pub primary_bg: CssColor,
    pub secondary: CssColor,
    pub secondary_bg: CssColor,
    pub highlight: CssColor,
    pub highlight2: CssColor,
    pub error: CssColor,
    pub error2: CssColor,
}

/// A theme: a name and a color for every role.
#[derive(Clone, Debug, PartialEq)]
pub struct Theme {
    pub name: String,
    pub color_data: Palette,
}

/// What a theme holds, as mathematical values.
pub struct ThemeView {
    pub name: Seq<char>,
    pub color_data: Palette,
}

impl View for Theme {
    type V = ThemeView;

    open spec fn view(&self) -> ThemeView {
        ThemeView { name: self.name@, color_data: self.color_data }
    }
}

impl ThemeView {
    /// A color as CSS writes it: a color written out stands for itself, a
    /// role for the color with which the theme fills it.
    pub open spec fn css_color(self, color: ColorView) -> Seq<char> {
        match color {
            ColorView::Primary => self.color_data.primary.css(),
            ColorView::PrimaryBg => self.color_data.primary_bg.css(),
            ColorView::Secondary => self.color_data.secondary.css(),
            ColorView::SecondaryBg => self.color_data.secondary_bg.css(),
            ColorView::Highlight => self.color_data.highlight.css(),
            ColorView::Highlight2 => self.color_data.highlight2.css(),
            ColorView::Error => self.color_data.error.css(),
            ColorView::Error2 => self.color_data.error2.css(),
            ColorView::CustomStr(css) => css,
        }
    }
}

impl Theme {
    /// A color as CSS writes it.
    pub fn get_css_color(&self, color: &Color) -> (r: String)
        ensures
            r@ == self@.css_color(color@),
    {
        match color {
            Color::Primary => self.color_data.primary.to_css(),
            Color::PrimaryBg => self.color_data.primary_bg.to_css(),
            Color::Secondary => self.color_data.secondary.to_css(),
            Color::SecondaryBg => self.color_data.secondary_bg.to_css(),
            Color::Highlight => self.color_data.highlight.to_css(),
            Color::Highlight2 => self.color_data.highlight2.to_css(),
            Color::Error => self.color_data.error.to_css(),
            Color::Error2 => self.color_data.error2.to_css(),
            Color::CustomStr(css) => css.clone(),
        }
    }

    /// A copy of the theme.
    pub fn duplicate(&self) -> (r: Theme)
        ensures
            r@ == self@,
    {
        Theme { name: self.name.clone(), color_data: self.color_data }
    }
}

/// What a list of themes holds, as mathematical values.
pub open spec fn theme_views(themes: Seq<Theme>) -> Seq<ThemeView> {
    themes.map_values(|theme: Theme| theme@)
}

/// A fully opaque color.
pub open spec fn opaque(r: u8, g: u8, b: u8) -> CssColor {
    CssColor { r, g, b, a: 100 }
}

/// The first of the built-in themes.
pub open spec fn hospital() -> ThemeView {
    ThemeView {
        name: "Hospital"@,
        color_data: Palette {
            primary: opaque(142, 202, 230),
            primary_bg: opaque(2, 48, 71),
            secondary: opaque(33, 156, 186),
            secondary_bg: opaque(220, 235, 250),
            highlight: opaque(255, 183, 3),
            highlight2: opaque(251, 133, 0),
            error: opaque(158, 42, 43),
            error2: opaque(213, 47, 49),
        },
    }
}

/// The second of the built-in themes.
pub open spec fn neon() -> ThemeView {
    ThemeView {
        name: "Neon"@,
        color_data: Palette {
            primary: opaque(225, 176, 219),
            primary_bg: opaque(73, 48, 107),
            secondary: opaque(146, 127, 181),
            secondary_bg: opaque(225, 205, 181),
            highlight: opaque(172, 228, 170),
            highlight2: opaque(106, 211, 137),
            error: opaque(158, 42, 43),
            error2: opaque(213, 47, 49),
        },
    }
}

/// The third of the built-in themes, and the one that a new context uses.
pub open spec fn white_widow() -> ThemeView {
    ThemeView {
        name: "White Widow"@,
        color_data: Palette {
            primary: opaque(86, 82, 84),
            primary_bg: opaque(250, 252, 254),
            secondary: opaque(182, 185, 185),
            secondary_bg: opaque(228, 227, 227),
            highlight: opaque(63, 109, 162),
            highlight2: opaque(79, 129, 186),
            error: opaque(158, 42, 43),
            error2: opaque(213, 47, 49),
        },
    }
}

/// The built-in themes, in the order in which they are offered.
pub open spec fn built_in_themes() -> Seq<ThemeView> {
    seq![hospital(), neon(), white_widow()]
}

/// The first theme of a list that has a name; nothing where no theme has
/// it.
pub open spec fn first_named(themes: Seq<ThemeView>, name: Seq<char>) -> Option<ThemeView>
    decreases themes.len(),
{
    if themes.len() == 0 {
        None
    } else if themes[0].name == name {
        Some(themes[0])
    } else {
        first_named(themes.drop_first(), name)
    }
}

/// The themes and the one in use.
#[derive(Clone, Debug, PartialEq)]
pub struct AppContext {
    pub theme: Theme,
    pub themes_data: Vec<Theme>,
}

impl Default for AppContext {
    /// The built-in themes, with the last of them in use.
    fn default() -> (r: AppContext)
        ensures
            theme_views(r.themes_data@) == built_in_themes(),
            r.theme@ == white_widow(),
    {
        let themes_data = Self::get_themes_data();
        assert(built_in_themes().len() == 3);
        assert(theme_views(themes_data@).len() == themes_data@.len());
        assert(theme_views(themes_data@)[2] == themes_data@[2]@);
        let theme = themes_data[2].duplicate();
        AppContext { theme, themes_data }
    }
}

impl AppContext {
    /// The context with another theme in use and the same themes on offer.
    pub fn reduce(self, action: Theme) -> (r: AppContext)
        ensures
            r.theme == action,
            r.themes_data == self.themes_data,
    {
        AppContext { theme: action, themes_data: self.themes_data }
    }

    /// Puts the first theme with the given name in use. A name that no
    /// theme has changes nothing.
    pub fn set_theme(&mut self, name: &str)
        ensures
            final(self).themes_data == old(self).themes_data,
            final(self).theme@ == (match first_named(theme_views(old(self).themes_data@), name@) {
                Some(theme) => theme,
                None => old(self).theme@,
            }),
    {
        let ghost all = theme_views(self.themes_data@);
        let mut i: usize = 0;
        assert(all.skip(0) =~= all);
        while i < self.themes_data.len()
            invariant
                i <= self.themes_data.len(),
                *self == *old(self),
                all == theme_views(self.themes_data@),
                first_named(all, name@) == first_named(all.skip(i as int), name@),
            decreases self.themes_data.len() - i,
        {
            assert(all.skip(i as int)[0] == self.themes_data@[i as int]@);
            assert(all.skip(i as int).drop_first() =~= all.skip(i as int + 1));
            if self.themes_data[i].name.as_str().eq(name) {
                self.theme = self.themes_data[i].duplicate();
                return ;
            }
            i = i + 1;
        }
    }

    /// The theme in use.
    pub fn get_theme(&self) -> (r: &Theme)
        ensures
            *r == self.theme,
    {
        &self.theme
    }

    /// The themes on offer.
    pub fn get_themes(&self) -> (r: &Vec<Theme>)
        ensures
            *r == self.themes_data,
    {
        &self.themes_data
    }

    /// The built-in themes.
    pub fn get_themes_data() -> (r: Vec<Theme>)
        ensures
            theme_views(r@) == built_in_themes(),
    {
        let mut themes: Vec<Theme> = Vec::new();
        themes.push(
            Theme {
                name: String::from_str("Hospital"),
                color_data: Palette {
                    primary: CssColor::new(142, 202, 230, 100),
                    primary_bg: CssColor::new(2, 48, 71, 100),
                    secondary: CssColor::new(33, 156, 186, 100),
                    secondary_bg: CssColor::new(220, 235, 250, 100),
                    highlight: CssColor::new(255, 183, 3, 100),
                    highlight2: CssColor::new(251, 133, 0, 100),
                    error: CssColor::new(158, 42, 43, 100),
                    error2: CssColor::new(213, 47, 49, 100),
                },
            },
        );
        themes.push(
            Theme {
                name: String::from_str("Neon"),
                color_data: Palette {
                    primary: CssColor::new(225, 176, 219, 100),
                    primary_bg: CssColor::new(73, 48, 107, 100),
                    secondary: CssColor::new(146, 127, 181, 100),
                    secondary_bg: CssColor::new(225, 205, 181, 100),
                    highlight: CssColor::new(172, 228, 170, 100),
                    highlight2: CssColor::new(106, 211, 137, 100),
                    error: CssColor::new(158, 42, 43, 100),
                    error2: CssColor::new(213, 47, 49, 100),
                },
            },
        );
        themes.push(
            Theme {
                name: String::from_str("White Widow"),
                color_data: Palette {
                    primary: CssColor::new(86, 82, 84, 100),
                    primary_bg: CssColor::new(250, 252, 254, 100),
                    secondary: CssColor::new(182, 185, 185, 100),
                    secondary_bg: CssColor::new(228, 227, 227, 100),
                    highlight: CssColor::new(63, 109, 162, 100),
                    highlight2: CssColor::new(79, 129, 186, 100),
                    error: CssColor::new(158, 42, 43, 100),
                    error2: CssColor::new(213, 47, 49, 100),
                },
            },
        );
        assert(theme_views(themes@) =~= built_in_themes());
        themes
    }
}

} // verus!
