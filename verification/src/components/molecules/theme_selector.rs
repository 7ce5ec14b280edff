//! The selector that offers the themes other than the one in use.

use crate::app_context::{theme_views, AppContext, Theme, ThemeView};
use crate::store::SessionStore;
use vstd::prelude::*;

verus! {

/// What the theme selector is made from: nothing.
#[derive(Clone, Copy, Debug, PartialEq, Eq, Structural)]
pub struct ThemeSelectorProperties {}

/// By how much a thumbnail is scaled: by one and a half while all themes
/// are shown, else not at all.
pub fn thumb_scale(show_all: bool) -> (r: &'static str)
    ensures
        r@ == (if show_all {
            "1.5"@
        } else {
            "1"@
        }),
{
    if show_all {
        "1.5"
    } else {
        "1"
    }
}

/// The themes that the selector offers: all but those with the name of the
/// theme in use, in the order of the list.
pub fn theme_selector(ctx: &AppContext) -> (r: Vec<Theme>)
    ensures
        theme_views(r@) == theme_views(ctx.themes_data@).filter(
            |theme: ThemeView| theme.name != ctx.theme@.name,
        ),
{
    let ghost others = |theme: ThemeView| theme.name != ctx.theme@.name;
    let ghost all = theme_views(ctx.themes_data@);
    let themes = ctx.get_themes();
    let name = &ctx.get_theme().name;
    let mut offered: Vec<Theme> = Vec::new();
    let mut i: usize = 0;
    proof {
        reveal(Seq::filter);
        assert(all.take(0) =~= Seq::<ThemeView>::empty());
        assert(theme_views(offered@) =~= Seq::<ThemeView>::empty());
    }
    while i < themes.len()
        invariant
            i <= themes.len(),
            *themes == ctx.themes_data,
            name@ == ctx.theme@.name,
            all == theme_views(themes@),
            others == |theme: ThemeView| theme.name != ctx.theme@.name,
            theme_views(offered@) == all.take(i as int).filter(others),
        decreases themes.len() - i,
    {
        let ghost before = theme_views(offered@);
        proof {
            assert(all.take(i as int + 1) =~= all.take(i as int) + seq![all[i as int]]);
            Seq::filter_distributes_over_add(all.take(i as int), seq![all[i as int]], others);
            reveal_with_fuel(Seq::filter, 2);
            assert(seq![all[i as int]].drop_last() =~= Seq::<ThemeView>::empty());
            assert(seq![all[i as int]].last() == all[i as int]);
            assert(all[i as int] == themes@[i as int]@);
        }
        if !themes[i].name.as_str().eq(name.as_str()) {
            offered.push(themes[i].duplicate());
            assert(theme_views(offered@) =~= before + seq![all[i as int]]);
            assert(seq![all[i as int]].filter(others) =~= seq![all[i as int]]);
        } else {
            assert(seq![all[i as int]].filter(others) =~= Seq::<ThemeView>::empty());
            assert(before + Seq::<ThemeView>::empty() =~= before);
        }
        i = i + 1;
    }
    assert(all.take(themes.len() as int) =~= all);
    offered
}

/// Puts a theme into the session.
pub fn switch_theme(name: String, session: &mut SessionStore)
    ensures
        final(session)@ == old(session)@.with_theme(name@),
{
    session.set_theme(name);
}

} // verus!
