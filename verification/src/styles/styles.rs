//! The style sheets of the pages, as CSS text.
//!
//! A style sheet is made of fixed text and of the colors of the theme in
//! use. The functions here write the text; turning it into a style that a
//! page can carry is the caller's part.

use crate::app_context::{AppContext, ThemeView};
use crate::styles::color::{Color, ColorView};
use vstd::prelude::*;
use vstd::string::*;

verus! {

/// The style sheets of the pages.
pub struct Styles;

/// The layout of a page on which a task is shown or edited.
pub const EDITABLE_DETAILS_STYLE: &'static str =
    "padding: 10px;\nmargin: auto;\ndisplay: flex;\nflex-direction: column;\nwidth: min(80vw, 1050px);\n\ndiv {\n    margin: 0.5em 0;\n}\n";

/// The layout of the row of buttons under a task.
pub const EDITABLE_DETAILS_BUTTON_STYLE: &'static str =
    "margin-top: 2vw;\ndisplay: flex;\njustify-content: space-between;\nflex-wrap: wrap;\n";

/// The layout of the row of controls above the list of tasks.
pub const TABLE_CONTROLS_STYLE: &'static str =
    "display: flex;\njustify-content: space-between;\nflex-flow: wrap-reverse;\nmargin: 0.5rem;\n";

/// The layout of the home page.
pub const HOME_STYLE: &'static str =
    "padding: 1em;\nmargin: auto;\ndisplay: flex;\nflex-direction: column;\nwidth: min(80vw, 1050px);\n";

/// The layout of a form.
pub const FORM_STYLE: &'static str =
    "padding: 10px;\nmargin: auto;\ndisplay: flex;\nflex-direction: column;\nwidth: min(80vw, 850px);\ndiv {\n    display: flex;\n    justify-content: center;\n    padding: 10px;\n}\nbutton {\n    margin: auto;\n}\n";

/// The layout of a group of links in the navigation bar.
pub const NAVBAR_GROUP_STYLE: &'static str = "padding: 1em;\na {\n    margin: 0 0.1em;\n}\n";

/// A color as CSS writes it, or the theme's primary color where none is
/// given.
pub open spec fn color_or_primary(theme: ThemeView, color: Option<ColorView>) -> Seq<char> {
    match color {
        Some(c) => theme.css_color(c),
        None => theme.css_color(ColorView::Primary),
    }
}

/// The view of an optional color.
pub open spec fn opt_color(color: Option<&Color>) -> Option<ColorView> {
    match color {
        Some(c) => Some(c@),
        None => None,
    }
}

/// The style sheet of the list of tasks.
pub open spec fn table_style(theme: ThemeView) -> Seq<char> {
    "margin-top: 1em;\n\nth {\n    color: "@ + theme.css_color(ColorView::PrimaryBg)
        + ";\n    background-color: "@ + theme.css_color(ColorView::Secondary)
        + ";\n    font-weight: bold;\n    border-bottom: 0.75em solid;\n    border-color: "@
        + theme.css_color(ColorView::PrimaryBg)
        + ";\n}\n\ntable {\n    width: 100%;\n    margin: auto;\n    background-color: "@
        + theme.css_color(ColorView::Secondary)
        + ";\n}\n\ntr {\n    color: black;\n    background-color: "@ + theme.css_color(
        ColorView::SecondaryBg,
    ) + ";\n    border-bottom: 0.25em solid;\n    border-top: 0.25em solid;\n    border-color: "@
        + theme.css_color(ColorView::PrimaryBg)
        + ";\n}\n\nth, td {\n    padding: 0.5em;\n    text-align: center;\n    vertical-align: middle;\n}\n\ndiv {\n    justify-content: center;\n}\n"@
}

/// The style sheet of a link: the text in the fore color, or in the
/// theme's primary color where none is given; under the pointer in the
/// hover color, or in the fore color where none is given; and on the back
/// color, where one is given.
pub open spec fn link_style(
    theme: ThemeView,
    fore_color: Option<ColorView>,
    back_color: Option<ColorView>,
    hover_color: Option<ColorView>,
) -> Seq<char> {
    let fore = color_or_primary(theme, fore_color);
    let hover = match hover_color {
        Some(c) => theme.css_color(c),
        None => fore,
    };
    let base = "text-decoration: none;\ncolor: "@ + fore + ";\n:hover {\n    color: "@ + hover
        + ";\n    text-decoration: underline;\n}\n"@;
    match back_color {
        Some(c) => base + "background-color: "@ + theme.css_color(c) + ";"@,
        None => base,
    }
}

/// The style sheet of the navigation bar: drawn in the fore color, or in
/// the theme's primary color where none is given, and on the back color,
/// where one is given.
pub open spec fn navbar_style(
    theme: ThemeView,
    fore_color: Option<ColorView>,
    back_color: Option<ColorView>,
) -> Seq<char> {
    let fore = color_or_primary(theme, fore_color);
    let base = "border-bottom: 1px solid "@ + fore + ";\ncolor: "@ + fore
        + ";\ndisplay: flex;\nflex-direction: row;\njustify-content: space-between;\n"@;
    match back_color {
        Some(c) => base + " background-color: "@ + theme.css_color(c),
        None => base,
    }
}

fn css_or_primary(ctx: &AppContext, color: Option<&Color>) -> (r: String)
    ensures
        r@ == color_or_primary(ctx.theme@, opt_color(color)),
{
    match color {
        Some(c) => c.get_css_color(ctx),
        None => Color::Primary.get_css_color(ctx),
    }
}

impl Styles {
    /// The style sheets of a page on which a task is shown or edited: that
    /// of the page, and that of its row of buttons.
    pub fn get_editable_details_style() -> (r: (String, String))
        ensures
            r.0@ == EDITABLE_DETAILS_STYLE@,
            r.1@ == EDITABLE_DETAILS_BUTTON_STYLE@,
    {
        (String::from_str(EDITABLE_DETAILS_STYLE), String::from_str(EDITABLE_DETAILS_BUTTON_STYLE))
    }

    /// The style sheets of the list of tasks: that of the list, and that of
    /// the row of controls above it.
    pub fn get_table_style(ctx: &AppContext) -> (r: (String, String))
        ensures
            r.0@ == table_style(ctx.theme@),
            r.1@ == TABLE_CONTROLS_STYLE@,
    {
        let primary_bg = Color::PrimaryBg.get_css_color(ctx);
        let secondary = Color::Secondary.get_css_color(ctx);
        let secondary_bg = Color::SecondaryBg.get_css_color(ctx);
        let mut style = String::from_str("margin-top: 1em;\n\nth {\n    color: ");
        style.append(primary_bg.as_str());
        style.append(";\n    background-color: ");
        style.append(secondary.as_str());
        style.append(
            ";\n    font-weight: bold;\n    border-bottom: 0.75em solid;\n    border-color: ",
        );
        style.append(primary_bg.as_str());
        style.append(
            ";\n}\n\ntable {\n    width: 100%;\n    margin: auto;\n    background-color: ",
        );
        style.append(secondary.as_str());
        style.append(";\n}\n\ntr {\n    color: black;\n    background-color: ");
        style.append(secondary_bg.as_str());
        style.append(
            ";\n    border-bottom: 0.25em solid;\n    border-top: 0.25em solid;\n    border-color: ",
        );
        style.append(primary_bg.as_str());
        style.append(
            ";\n}\n\nth, td {\n    padding: 0.5em;\n    text-align: center;\n    vertical-align: middle;\n}\n\ndiv {\n    justify-content: center;\n}\n",
        );
        (style, String::from_str(TABLE_CONTROLS_STYLE))
    }

    /// The style sheet of a link.
    pub fn get_link_style(
        ctx: &AppContext,
        fore_color: Option<&Color>,
        back_color: Option<&Color>,
        hover_color: Option<&Color>,
    ) -> (r: String)
        ensures
            r@ == link_style(
                ctx.theme@,
                opt_color(fore_color),
                opt_color(back_color),
                opt_color(hover_color),
            ),
    {
        let fore = css_or_primary(ctx, fore_color);
        let hover = match hover_color {
            Some(c) => c.get_css_color(ctx),
            None => fore.clone(),
        };
        let mut style = String::from_str("text-decoration: none;\ncolor: ");
        style.append(fore.as_str());
        style.append(";\n:hover {\n    color: ");
        style.append(hover.as_str());
        style.append(";\n    text-decoration: underline;\n}\n");
        match back_color {
            Some(c) => {
                style.append("background-color: ");
                style.append(c.get_css_color(ctx).as_str());
                style.append(";");
            },
            None => {},
        }
        style
    }

    /// The style sheet of the home page.
    pub fn get_home_style() -> (r: String)
        ensures
            r@ == HOME_STYLE@,
    {
        String::from_str(HOME_STYLE)
    }

    /// The style sheet of a form.
    pub fn get_form_style() -> (r: String)
        ensures
            r@ == FORM_STYLE@,
    {
        String::from_str(FORM_STYLE)
    }

    /// The style sheets of the navigation bar: that of the bar, and that of
    /// a group of links in it.
    pub fn get_navbar_styles(
        ctx: &AppContext,
        fore_color: Option<&Color>,
        back_color: Option<&Color>,
    ) -> (r: (String, String))
        ensures
            r.0@ == navbar_style(ctx.theme@, opt_color(fore_color), opt_color(back_color)),
            r.1@ == NAVBAR_GROUP_STYLE@,
    {
        let fore = css_or_primary(ctx, fore_color);
        let mut style = String::from_str("border-bottom: 1px solid ");
        style.append(fore.as_str());
        style.append(";\ncolor: ");
        style.append(fore.as_str());
        style.append(
            ";\ndisplay: flex;\nflex-direction: row;\njustify-content: space-between;\n",
        );
        match back_color {
            Some(c) => {
                style.append(" background-color: ");
                style.append(c.get_css_color(ctx).as_str());
            },
            None => {},
        }
        (style, String::from_str(NAVBAR_GROUP_STYLE))
    }
}

} // verus!
