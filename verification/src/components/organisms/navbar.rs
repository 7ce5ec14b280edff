//! The navigation bar: its links, the switch of the theme, and the
//! sign-out.

use crate::app_context::{theme_views, AppContext, ThemeView};
use crate::router::Route;
use crate::store::{SessionStore, SessionView, TaskStore, TaskStoreView};
use crate::styles::color::Color;
use crate::text::opt_text;
use vstd::prelude::*;
use vstd::string::*;

verus! {

/// What the navigation bar is made from.
#[derive(Clone, Debug, PartialEq)]
pub struct NavbarProperties {
    pub data_test: Option<String>,
    pub fore_color: Option<Color>,
    pub back_color: Option<Color>,
}

/// The place of the first theme from place `from` on that has a name;
/// nothing where no such theme has it.
pub open spec fn place_named_from(themes: Seq<ThemeView>, name: Seq<char>, from: int) -> Option<
    int,
>
    decreases themes.len() - from,
{
    if from < 0 || from >= themes.len() {
        None
    } else if themes[from].name == name {
        Some(from)
    } else {
        place_named_from(themes, name, from + 1)
    }
}

/// The place that follows a place in a list of `len` themes: the next
/// one, and the first after the last.
pub open spec fn place_after(place: int, len: int) -> int {
    if place == len - 1 {
        0
    } else {
        place + 1
    }
}

/// The name of the theme that follows the one in use, going round the
/// list of themes; nothing where the theme in use is not in the list.
pub open spec fn next_theme_name(themes: Seq<ThemeView>, current: Seq<char>) -> Option<Seq<char>> {
    match place_named_from(themes, current, 0) {
        Some(place) => Some(themes[place_after(place, themes.len() as int)].name),
        None => None,
    }
}

/// The name of the theme that follows the one in use.
pub fn next_theme(ctx: &AppContext) -> (r: Option<String>)
    ensures
        opt_text(r) == next_theme_name(theme_views(ctx.themes_data@), ctx.theme@.name),
{
    let themes = ctx.get_themes();
    let current = ctx.get_theme();
    let ghost all = theme_views(themes@);
    let mut i: usize = 0;
    while i < themes.len()
        invariant
            i <= themes.len(),
            *themes == ctx.themes_data,
            *current == ctx.theme,
            all == theme_views(themes@),
            place_named_from(all, current@.name, 0) == place_named_from(
                all,
                current@.name,
                i as int,
            ),
        decreases themes.len() - i,
    {
        assert(all[i as int] == themes@[i as int]@);
        if themes[i].name.as_str().eq(current.name.as_str()) {
            let next = if i == themes.len() - 1 {
                0
            } else {
                i + 1
            };
            assert(all[next as int] == themes@[next as int]@);
            return Some(themes[next].name.clone());
        }
        i = i + 1;
    }
    None
}

/// Puts the theme that follows the one in use into the session. Where the
/// theme in use is not in the list, the session stays as it is.
pub fn switch_theme(ctx: &AppContext, session: &mut SessionStore)
    ensures
        final(session)@ == (match next_theme_name(
            theme_views(ctx.themes_data@),
            ctx.theme@.name,
        ) {
            Some(name) => old(session)@.with_theme(name),
            None => old(session)@,
        }),
{
    match next_theme(ctx) {
        Some(name) => session.set_theme(name),
        None => {},
    }
}

/// Signs the user out: the session holds no user, and the cached tasks are
/// forgotten, so that the next user sees none of them.
pub fn logout(session: &mut SessionStore, task_store: &mut TaskStore)
    ensures
        final(session)@ == old(session)@.signed_out(),
        final(task_store)@ == TaskStoreView::empty(),
{
    task_store.clear();
    session.logout();
}

/// A link of the navigation bar.
#[derive(Clone, Copy, Debug, PartialEq, Eq, Structural)]
pub enum NavLink {
    Login,
    CreateAccount,
    LogOut,
}

impl NavLink {
    /// The page that the link leads to.
    pub fn route(&self) -> (r: Route)
        ensures
            r == (match self {
                NavLink::Login => Route::Login,
                NavLink::CreateAccount => Route::CreateAccount,
                NavLink::LogOut => Route::Home,
            }),
    {
        match self {
            NavLink::Login => Route::Login,
            NavLink::CreateAccount => Route::CreateAccount,
            NavLink::LogOut => Route::Home,
        }
    }

    /// The text of the link.
    pub fn text(&self) -> (r: &'static str)
        ensures
            r@ == (match self {
                NavLink::Login => "Login"@,
                NavLink::CreateAccount => "Create Account"@,
                NavLink::LogOut => "Log out"@,
            }),
    {
        match self {
            NavLink::Login => "Login",
            NavLink::CreateAccount => "Create Account",
            NavLink::LogOut => "Log out",
        }
    }
}

/// The links of the navigation bar: sign-out for a signed-in user, and
/// sign-in and registration for anybody else.
pub fn navbar(session: &SessionStore) -> (r: Vec<NavLink>)
    ensures
        r@ == (if session@.user is Some {
            seq![NavLink::LogOut]
        } else {
            seq![NavLink::Login, NavLink::CreateAccount]
        }),
{
    let mut links: Vec<NavLink> = Vec::new();
    if session.user.is_some() {
        links.push(NavLink::LogOut);
    } else {
        links.push(NavLink::Login);
        links.push(NavLink::CreateAccount);
    }
    links
}

} // verus!
