//! The root of the application: the theme in use and the style sheet of
//! the whole page.

use crate::app_context::{built_in_themes, first_named, theme_views, white_widow, AppContext, ThemeView};
use crate::store::SessionStore;
use crate::styles::color::{Color, ColorView};
use crate::text::opt_text;
use vstd::prelude::*;
use vstd::string::*;

verus! {

/// The theme that the application uses for a session: the built-in theme
/// that the session names, and the default where it names none or one
/// that does not exist.
pub open spec fn theme_in_use(chosen: Option<Seq<char>>) -> ThemeView {
    match chosen {
        Some(name) => match first_named(built_in_themes(), name) {
            Some(theme) => theme,
            None => white_widow(),
        },
        None => white_widow(),
    }
}

/// The style sheet of the whole page: the fixed style sheet, followed by
/// the colors of the theme for the background, the headings and the text.
pub open spec fn global_css(main_stylesheet: Seq<char>, theme: ThemeView) -> Seq<char> {
    main_stylesheet + "\nhtml, body {\n    background-color: "@ + theme.css_color(
        ColorView::PrimaryBg,
    ) + ";\n}\n\nh1, h2, h3, h4, h5, h6 {\n    color: "@ + theme.css_color(ColorView::Highlight)
        + ";\n}\n\nlabel, p, a {\n    color: "@ + theme.css_color(ColorView::Primary) + ";\n}\n"@
}

/// The themes, with the theme of the session in use.
pub fn app_context(theme: &Option<String>) -> (r: AppContext)
    ensures
        theme_views(r.themes_data@) == built_in_themes(),
        r.theme@ == theme_in_use(opt_text(*theme)),
{
    let mut ctx = AppContext::default();
    match theme {
        Some(name) => {
            ctx.set_theme(name.as_str());
        },
        None => {},
    }
    ctx
}

/// The root of the application: the themes with the theme of the session
/// in use, and the style sheet of the whole page.
pub fn app(session: &SessionStore, main_stylesheet: &str) -> (r: (AppContext, String))
    ensures
        theme_views(r.0.themes_data@) == built_in_themes(),
        r.0.theme@ == theme_in_use(session@.theme),
        r.1@ == global_css(main_stylesheet@, r.0.theme@),
{
    let ctx = app_context(&session.theme);
    let mut css = String::from_str(main_stylesheet);
    css.append("\nhtml, body {\n    background-color: ");
    css.append(Color::PrimaryBg.get_css_color(&ctx).as_str());
    css.append(";\n}\n\nh1, h2, h3, h4, h5, h6 {\n    color: ");
    css.append(Color::Highlight.get_css_color(&ctx).as_str());
    css.append(";\n}\n\nlabel, p, a {\n    color: ");
    css.append(Color::Primary.get_css_color(&ctx).as_str());
    css.append(";\n}\n");
    (ctx, css)
}

} // verus!
