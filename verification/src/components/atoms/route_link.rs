//! A link to a page.

use crate::app_context::AppContext;
use crate::router::Route;
use crate::styles::color::Color;
use crate::styles::styles::{link_style, Styles};
use vstd::prelude::*;

verus! {

/// What a link is made from. What happens on a click is the page's to say
/// and is not held here.
#[derive(Clone, Debug, PartialEq)]
pub struct RouteLinkProperties {
    pub text: String,
    pub link: Option<Route>,
    pub data_test: Option<String>,
    pub fore_color: Option<Color>,
    pub back_color: Option<Color>,
    pub hover_color: Option<Color>,
}

/// The view of an optional color that is held by value.
pub open spec fn held_color(color: Option<Color>) -> Option<crate::styles::color::ColorView> {
    match color {
        Some(c) => Some(c@),
        None => None,
    }
}

/// The style sheet of a link.
pub fn link(props: &RouteLinkProperties, ctx: &AppContext) -> (r: String)
    ensures
        r@ == link_style(
            ctx.theme@,
            held_color(props.fore_color),
            held_color(props.back_color),
            held_color(props.hover_color),
        ),
{
    Styles::get_link_style(
        ctx,
        props.fore_color.as_ref(),
        props.back_color.as_ref(),
        props.hover_color.as_ref(),
    )
}

} // verus!
