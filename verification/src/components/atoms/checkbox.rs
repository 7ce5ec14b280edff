//! A checkbox with an optional label.

use crate::text::opt_text;
use vstd::prelude::*;
use vstd::string::*;

verus! {

/// On which side of the checkbox its label stands.
#[derive(Clone, Copy, Debug, PartialEq, Eq, Structural)]
pub enum LabelLocation {
    Left,
    Right,
}

impl Default for LabelLocation {
    /// A label stands on the left unless told otherwise.
    fn default() -> (r: LabelLocation)
        ensures
            r == LabelLocation::Left,
    {
        LabelLocation::Left
    }
}

/// The size of a checkbox that is given none.
pub const DEFAULT_CHECKBOX_SIZE: &'static str = "max(2vh, 1em, 1rem)";

/// What a checkbox is made from. What happens on a change or a click is the
/// page's to say and is not held here.
#[derive(Clone, Debug, PartialEq)]
pub struct CheckboxProperties {
    pub checked: bool,
    pub label: Option<String>,
    pub label_location: Option<LabelLocation>,
    pub size: Option<String>,
    pub id: Option<String>,
    pub data_test: Option<String>,
}

impl CheckboxProperties {
    /// The side on which the label stands: the left, where none is given.
    pub open spec fn side(self) -> LabelLocation {
        match self.label_location {
            Some(location) => location,
            None => LabelLocation::Left,
        }
    }

    /// The side on which the label stands.
    pub fn label_location(&self) -> (r: LabelLocation)
        ensures
            r == self.side(),
    {
        match self.label_location {
            Some(location) => location,
            None => LabelLocation::default(),
        }
    }

    /// The label to draw on one side of the checkbox: the label, if there
    /// is one and it stands on that side.
    pub fn label_on(&self, side: LabelLocation) -> (r: Option<String>)
        ensures
            opt_text(r) == (if self.side() == side {
                opt_text(self.label)
            } else {
                None
            }),
    {
        if self.label_location() == side {
            crate::text::clone_opt_text(&self.label)
        } else {
            None
        }
    }

    /// The size of the checkbox, as CSS writes it.
    pub fn size(&self) -> (r: String)
        ensures
            r@ == (match self.size {
                Some(size) => size@,
                None => DEFAULT_CHECKBOX_SIZE@,
            }),
    {
        match &self.size {
            Some(size) => size.clone(),
            None => String::from_str(DEFAULT_CHECKBOX_SIZE),
        }
    }
}

/// What is drawn of a checkbox.
#[derive(Clone, Debug, PartialEq)]
pub struct CheckboxView {
    /// The label to the left of the box, if it stands there.
    pub left_label: Option<String>,
    /// The label to the right of the box, if it stands there.
    pub right_label: Option<String>,
    /// The size of the box, as CSS writes it.
    pub size: String,
    pub checked: bool,
}

/// What is drawn of a checkbox: the label on its side, and the box in its
/// size.
pub fn checkbox(props: &CheckboxProperties) -> (r: CheckboxView)
    ensures
        opt_text(r.left_label) == (if props.side() == LabelLocation::Left {
            opt_text(props.label)
        } else {
            None
        }),
        opt_text(r.right_label) == (if props.side() == LabelLocation::Right {
            opt_text(props.label)
        } else {
            None
        }),
        r.size@ == (match props.size {
            Some(size) => size@,
            None => DEFAULT_CHECKBOX_SIZE@,
        }),
        r.checked == props.checked,
{
    CheckboxView {
        left_label: props.label_on(LabelLocation::Left),
        right_label: props.label_on(LabelLocation::Right),
        size: props.size(),
        checked: props.checked,
    }
}

} // verus!
