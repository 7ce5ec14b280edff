//! The colors of a theme.

use crate::app_context::AppContext;
use crate::text::{decimal, u64_to_decimal};
use vstd::prelude::*;
use vstd::string::*;

verus! {

/// A color: one of the roles that every theme fills, or a color written
/// out in CSS.
#[derive(Clone, Debug, PartialEq, Eq, Hash)]
pub enum Color {
    Primary,
    PrimaryBg,
    Secondary,
    SecondaryBg,
    Highlight,
    Highlight2,
    Error,
    Error2,
    CustomStr(String),
}

/// What a color holds, as mathematical values.
pub enum ColorView {
    Primary,
    PrimaryBg,
    Secondary,
    SecondaryBg,
    Highlight,
    Highlight2,
    Error,
    Error2,
    CustomStr(Seq<char>),
}

impl View for Color {
    type V = ColorView;

    open spec fn view(&self) -> ColorView {
        match self {
            Color::Primary => ColorView::Primary,
            Color::PrimaryBg => ColorView::PrimaryBg,
            Color::Secondary => ColorView::Secondary,
            Color::SecondaryBg => ColorView::SecondaryBg,
            Color::Highlight => ColorView::Highlight,
            Color::Highlight2 => ColorView::Highlight2,
            Color::Error => ColorView::Error,
            Color::Error2 => ColorView::Error2,
            Color::CustomStr(css) => ColorView::CustomStr(css@),
        }
    }
}

/// A color by its red, green and blue parts and its opacity in percent.
#[derive(Clone, Copy, Debug, PartialEq, Eq, Hash, Structural)]
pub struct CssColor {
    pub r: u8,
    pub g: u8,
    pub b: u8,
    pub a: u8,
}

impl CssColor {
    /// The color as CSS writes it.
    pub open spec fn css(self) -> Seq<char> {
        "rgba("@ + decimal(self.r as int) + ", "@ + decimal(self.g as int) + ", "@ + decimal(
            self.b as int,
        ) + ", "@ + decimal(self.a as int) + "%)"@
    }

    /// A color; an opacity above 100 percent counts as 100.
    pub fn new(r: u8, g: u8, b: u8, a: u8) -> (c: CssColor)
        ensures
            c.r == r,
            c.g == g,
            c.b == b,
            c.a == (if a > 100 { 100u8 } else { a }),
            c.a <= 100,
    {
        let a = if a > 100 {
            100
        } else {
            a
        };
        CssColor { r, g, b, a }
    }

    /// Writes the color as CSS does.
    pub fn to_css(&self) -> (r: String)
        ensures
            r@ == self.css(),
    {
        let mut r = String::from_str("rgba(");
        r.append(u64_to_decimal(self.r as u64).as_str());
        r.append(", ");
        r.append(u64_to_decimal(self.g as u64).as_str());
        r.append(", ");
        r.append(u64_to_decimal(self.b as u64).as_str());
        r.append(", ");
        r.append(u64_to_decimal(self.a as u64).as_str());
        r.append("%)");
        r
    }
}

/// The CSS declaration that sets `target` to a color.
pub open spec fn style_rule(target: Seq<char>, color: Seq<char>) -> Seq<char> {
    target + ": "@ + color + ";"@
}

impl Color {
    /// The style that sets `target` to the color, as the current theme
    /// fills it.
    pub fn into_style(&self, target: &str, ctx: &AppContext) -> (r: String)
        ensures
            r@ == style_rule(target@, ctx.theme@.css_color(self@)),
    {
        let mut r = String::from_str(target);
        r.append(": ");
        r.append(self.get_css_color(ctx).as_str());
        r.append(";");
        r
    }

    /// The color as CSS writes it, as the current theme fills it.
    pub fn get_css_color(&self, ctx: &AppContext) -> (r: String)
        ensures
            r@ == ctx.theme@.css_color(self@),
    {
        ctx.get_theme().get_css_color(self)
    }
}

} // verus!
