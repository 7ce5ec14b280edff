//! One choice of a dropdown.

use crate::text::opt_text;
use vstd::prelude::*;
use vstd::string::*;

verus! {

/// One choice of a dropdown: the value that it stands for, and the label
/// under which it is offered. A choice without a label is offered under its
/// value.
#[derive(Clone, Debug, PartialEq)]
pub struct DropdownOption {
    pub label: Option<String>,
    pub value: String,
}

/// What a choice holds, as mathematical values.
pub struct DropdownOptionView {
    pub label: Option<Seq<char>>,
    pub value: Seq<char>,
}

impl View for DropdownOption {
    type V = DropdownOptionView;

    open spec fn view(&self) -> DropdownOptionView {
        DropdownOptionView { label: opt_text(self.label), value: self.value@ }
    }
}

/// What a list of choices holds, as mathematical values.
pub open spec fn option_views(options: Seq<DropdownOption>) -> Seq<DropdownOptionView> {
    options.map_values(|option: DropdownOption| option@)
}

/// A choice with a label.
pub open spec fn labelled(label: Seq<char>, value: Seq<char>) -> DropdownOptionView {
    DropdownOptionView { label: Some(label), value }
}

/// A choice without a label.
pub open spec fn unlabelled(value: Seq<char>) -> DropdownOptionView {
    DropdownOptionView { label: None, value }
}

impl DropdownOption {
    /// A choice with a label.
    pub fn new(label: &str, value: &str) -> (r: DropdownOption)
        ensures
            r@ == labelled(label@, value@),
    {
        DropdownOption { label: Some(String::from_str(label)), value: String::from_str(value) }
    }

    /// A choice without a label.
    pub fn of_value(value: String) -> (r: DropdownOption)
        ensures
            r@ == unlabelled(value@),
    {
        DropdownOption { label: None, value }
    }
}

} // verus!
