//! The badge that shows the priority of a task.

use crate::styles::color::{Color, ColorView};
use vstd::prelude::*;
use vstd::string::*;

verus! {

/// What a badge is made from.
#[derive(Clone, Debug, PartialEq)]
pub struct PriorityProperties {
    pub text: String,
    pub data_test: Option<String>,
}

/// The name of the color behind the text of a badge.
pub open spec fn badge_color(text: Seq<char>) -> Seq<char> {
    if text == "A"@ {
        "red"@
    } else if text == "B"@ {
        "orange"@
    } else if text == "C"@ {
        "green"@
    } else if text == "D"@ {
        "blue"@
    } else {
        "gray"@
    }
}

/// The color behind the text of a badge.
pub fn priority(props: &PriorityProperties) -> (r: Color)
    ensures
        r@ == ColorView::CustomStr(badge_color(props.text@)),
{
    let text = props.text.as_str();
    let name = if text.eq("A") {
        "red"
    } else if text.eq("B") {
        "orange"
    } else if text.eq("C") {
        "green"
    } else if text.eq("D") {
        "blue"
    } else {
        "gray"
    };
    Color::CustomStr(String::from_str(name))
}

} // verus!
