//! The error banner of a page.

use vstd::prelude::*;

verus! {

/// How long a banner stays before its timer fires, in milliseconds.
pub const DEFAULT_TIMEOUT_MS: u32 = 5000;

/// The error banner of a page: a message, whether it is shown, and the
/// token of the error that put it there.
///
/// Each error that is raised gets a token of its own, and a timer that
/// clears the banner after a fixed delay. The timer carries the token: it
/// clears the banner only if the banner still shows its error.
#[derive(Clone, Debug, PartialEq)]
pub struct ErrorData {
    pub message: String,
    pub display: bool,
    pub uuid: u128,
}

/// What a banner holds, as mathematical values.
pub struct ErrorDataView {
    pub message: Seq<char>,
    pub display: bool,
    pub uuid: u128,
}

impl View for ErrorData {
    type V = ErrorDataView;

    open spec fn view(&self) -> ErrorDataView {
        ErrorDataView { message: self.message@, display: self.display, uuid: self.uuid }
    }
}

impl ErrorDataView {
    /// The banner that shows nothing.
    pub open spec fn cleared() -> ErrorDataView {
        ErrorDataView { message: Seq::empty(), display: false, uuid: 0 }
    }

    /// The banner that shows an error.
    pub open spec fn raised(message: Seq<char>, token: u128) -> ErrorDataView {
        ErrorDataView { message, display: true, uuid: token }
    }

    /// The banner after the timer of the error with `token` has fired: it
    /// is cleared if it still shows that error, and left as it is if a
    /// newer error has taken its place.
    pub open spec fn expired(self, token: u128) -> ErrorDataView {
        if self.uuid == token {
            Self::cleared()
        } else {
            self
        }
    }
}

impl Default for ErrorData {
    /// The banner that shows nothing.
    fn default() -> (r: ErrorData)
        ensures
            r@ == ErrorDataView::cleared(),
    {
        ErrorData { message: String::new(), display: false, uuid: 0 }
    }
}

impl ErrorData {
    /// The banner that shows an error.
    pub fn raise(message: String, token: u128) -> (r: ErrorData)
        ensures
            r@ == ErrorDataView::raised(message@, token),
    {
        ErrorData { message, display: true, uuid: token }
    }

    /// The timer to start when the banner is put up: the delay after which
    /// it fires, in milliseconds, and the token that it carries.
    pub fn timer(&self) -> (r: (u32, u128))
        ensures
            r == (DEFAULT_TIMEOUT_MS, self.uuid),
    {
        (DEFAULT_TIMEOUT_MS, self.uuid)
    }

    /// The banner after the timer of the error with `token` has fired.
    pub fn expire(self, token: u128) -> (r: ErrorData)
        ensures
            r@ == self@.expired(token),
    {
        if self.uuid == token {
            ErrorData::default()
        } else {
            self
        }
    }
}

/// A newer error is not cleared by an older timer: if error A is raised,
/// then error B under another token, the banner shows B after A's timer has
/// fired, and is cleared when B's own timer fires.
pub proof fn lemma_newer_error_outlives_older_timer(
    message_a: Seq<char>,
    token_a: u128,
    message_b: Seq<char>,
    token_b: u128,
)
    requires
        token_a != token_b,
    ensures
        ErrorDataView::raised(message_b, token_b).expired(token_a) == ErrorDataView::raised(
            message_b,
            token_b,
        ),
        ErrorDataView::raised(message_b, token_b).expired(token_a).display,
        ErrorDataView::raised(message_b, token_b).expired(token_a).expired(token_b)
            == ErrorDataView::cleared(),
        ErrorDataView::raised(message_a, token_a).expired(token_a) == ErrorDataView::cleared(),
{
}

} // verus!
