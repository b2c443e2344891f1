//! The key hints of each screen: the actions available, the navigation help,
//! and the short form shown in the footer.
use crate::app::{App, Screen, Tab};
use crate::text::str_eq;
use crate::gh::ItemKind;
use crate::ui::item_detail::ItemTab;
use crate::ui::lists_view::ListsMode;
use crate::ui::repo_detail::RepoTab;
use vstd::prelude::*;

verus! {

/// A key with what it does.
pub type Action = (&'static str, &'static str);

/// The view of key hints.
pub open spec fn hints(v: Seq<Action>) -> Seq<(Seq<char>, Seq<char>)> {
    v.map_values(|a: Action| (a.0@, a.1@))
}

/// Whether a filter or the search query is being typed on the current screen.
pub open spec fn spec_is_filtering(a: App) -> bool {
    match a.screen {
        Screen::Home => match a.tab {
            Tab::Repos => a.repo_list.filtering,
            Tab::Lists => a.lists_view.filtering,
            Tab::Search => a.search.editing,
            Tab::Notifications => a.notif_list.filtering,
        },
        Screen::RepoDetail => match a.repo_detail {
            Some(d) => d.filtering,
            None => false,
        },
        Screen::ItemDetail => false,
    }
}

/// Whether a filter or the search query is being typed on the current screen.
pub fn is_filtering(app: &App) -> (r: bool)
    ensures
        r == spec_is_filtering(*app),
{
    match app.screen {
        Screen::Home => match app.tab {
            Tab::Repos => app.repo_list.filtering,
            Tab::Lists => app.lists_view.filtering,
            Tab::Search => app.search.editing,
            Tab::Notifications => app.notif_list.filtering,
        },
        Screen::RepoDetail => match &app.repo_detail {
            Some(d) => d.filtering,
            None => false,
        },
        Screen::ItemDetail => false,
    }
}

/// The hints while typing a filter.
pub open spec fn filtering_hints() -> Seq<(Seq<char>, Seq<char>)> {
    seq![("Type"@, "Filter"@), ("Enter"@, "Apply"@), ("Backspace"@, "Delete"@), ("Esc"@, "Clear"@)]
}

/// The hints when the lists could not be loaded.
pub open spec fn lists_error_hints() -> Seq<(Seq<char>, Seq<char>)> {
    seq![
        ("r"@, "Retry"@),
        ("Tab"@, "Next tab"@),
        ("A"@, "Account"@),
        ("a"@, "Actions"@),
        ("?"@, "Help"@),
        ("q"@, "Quit"@),
    ]
}

/// The hints of the current screen itself.
pub open spec fn screen_hints(a: App) -> Seq<(Seq<char>, Seq<char>)> {
    match a.screen {
        Screen::Home => match a.tab {
            Tab::Repos => seq![
                ("Enter"@, "Details"@),
                ("/"@, "Filter"@),
                ("s"@, "Sources"@),
                ("[ / ]"@, "Previous/next source"@),
                ("o"@, "Browser"@),
                ("Tab"@, "Next tab"@),
            ],
            Tab::Lists => if a.lists_view.mode == ListsMode::Repos {
                seq![("Enter"@, "Details"@), ("/"@, "Filter"@), ("o"@, "Browser"@), ("Esc"@, "Lists"@)]
            } else {
                seq![("Enter"@, "Browse"@), ("/"@, "Filter"@), ("Tab"@, "Next tab"@)]
            },
            Tab::Search => seq![
                ("/"@, "Search"@),
                ("Enter"@, "Details"@),
                ("o"@, "Browser"@),
                ("Tab"@, "Next tab"@),
            ],
            Tab::Notifications => seq![
                ("Enter"@, "Details"@),
                ("m"@, "Mark read"@),
                ("/"@, "Filter"@),
                ("o"@, "Browser"@),
            ],
        },
        Screen::RepoDetail => if (match a.repo_detail {
            Some(d) => d.tab == RepoTab::Issues || d.tab == RepoTab::PullRequests,
            None => false,
        }) {
            seq![("Enter"@, "Details"@), ("/"@, "Filter"@), ("o"@, "Browser"@), ("Tab"@, "Next tab"@)]
        } else {
            seq![("j/k"@, "Scroll"@), ("o"@, "Browser"@), ("Tab"@, "Next tab"@)]
        },
        Screen::ItemDetail => {
            let base = seq![("j/k"@, "Scroll"@), ("o"@, "Browser"@)];
            let with_reader = if (a.item_detail matches Some(d) && d.tab == ItemTab::Conversation) {
                base.push(("r"@, "Reader"@))
            } else {
                base
            };
            if (a.item_detail matches Some(d) && d.kind == ItemKind::PullRequest) {
                with_reader.push(("Tab"@, "Conversation/Diff"@))
            } else {
                with_reader
            }
        },
    }
}

/// Whether some hint is for key `k`.
pub open spec fn has_key(s: Seq<(Seq<char>, Seq<char>)>, k: Seq<char>) -> bool {
    exists|i: int| 0 <= i < s.len() && (#[trigger] s[i]).0 == k
}

/// The actions available here: the filter keys while typing; retrying when
/// the lists failed; else the screen's own actions, the source picker on the
/// home screen, then account, actions, help, and quit (home) or back.
pub open spec fn spec_contextual_actions(a: App) -> Seq<(Seq<char>, Seq<char>)> {
    if spec_is_filtering(a) {
        filtering_hints()
    } else if a.screen == Screen::Home && a.tab == Tab::Lists && a.lists_view.error is Some {
        lists_error_hints()
    } else {
        let own = screen_hints(a);
        let with_sources = if a.screen == Screen::Home && !has_key(own, "s"@) {
            own.push(("s"@, "Sources"@))
        } else {
            own
        };
        with_sources + seq![
            ("A"@, "Account"@),
            ("a"@, "Actions"@),
            ("?"@, "Help"@),
            ("q"@, if a.screen == Screen::Home {
                "Quit"@
            } else {
                "Back"@
            }),
        ]
    }
}

fn push_hint(v: &mut Vec<Action>, k: &'static str, d: &'static str)
    ensures
        hints(final(v)@) == hints(old(v)@).push((k@, d@)),
{
    let ghost before = v@;
    v.push((k, d));
    assert(hints(v@) =~= hints(before).push((k@, d@)));
}

/// The actions available on the current screen.
pub fn contextual_actions(app: &App) -> (r: Vec<Action>)
    ensures
        hints(r@) == spec_contextual_actions(*app),
{
    let mut v: Vec<Action> = Vec::new();
    if is_filtering(app) {
        push_hint(&mut v, "Type", "Filter");
        push_hint(&mut v, "Enter", "Apply");
        push_hint(&mut v, "Backspace", "Delete");
        push_hint(&mut v, "Esc", "Clear");
        assert(hints(v@) =~= filtering_hints());
        return v;
    }
    if app.screen == Screen::Home && app.tab == Tab::Lists && app.lists_view.error.is_some() {
        push_hint(&mut v, "r", "Retry");
        push_hint(&mut v, "Tab", "Next tab");
        push_hint(&mut v, "A", "Account");
        push_hint(&mut v, "a", "Actions");
        push_hint(&mut v, "?", "Help");
        push_hint(&mut v, "q", "Quit");
        assert(hints(v@) =~= lists_error_hints());
        return v;
    }
    match app.screen {
        Screen::Home => match app.tab {
            Tab::Repos => {
                push_hint(&mut v, "Enter", "Details");
                push_hint(&mut v, "/", "Filter");
                push_hint(&mut v, "s", "Sources");
                push_hint(&mut v, "[ / ]", "Previous/next source");
                push_hint(&mut v, "o", "Browser");
                push_hint(&mut v, "Tab", "Next tab");
            },
            Tab::Lists => if app.lists_view.is_browsing_repos() {
                push_hint(&mut v, "Enter", "Details");
                push_hint(&mut v, "/", "Filter");
                push_hint(&mut v, "o", "Browser");
                push_hint(&mut v, "Esc", "Lists");
            } else {
                push_hint(&mut v, "Enter", "Browse");
                push_hint(&mut v, "/", "Filter");
                push_hint(&mut v, "Tab", "Next tab");
            },
            Tab::Search => {
                push_hint(&mut v, "/", "Search");
                push_hint(&mut v, "Enter", "Details");
                push_hint(&mut v, "o", "Browser");
                push_hint(&mut v, "Tab", "Next tab");
            },
            Tab::Notifications => {
                push_hint(&mut v, "Enter", "Details");
                push_hint(&mut v, "m", "Mark read");
                push_hint(&mut v, "/", "Filter");
                push_hint(&mut v, "o", "Browser");
            },
        },
        Screen::RepoDetail => {
            let is_list = match &app.repo_detail {
                Some(d) => d.tab == RepoTab::Issues || d.tab == RepoTab::PullRequests,
                None => false,
            };
            if is_list {
                push_hint(&mut v, "Enter", "Details");
                push_hint(&mut v, "/", "Filter");
                push_hint(&mut v, "o", "Browser");
                push_hint(&mut v, "Tab", "Next tab");
            } else {
                push_hint(&mut v, "j/k", "Scroll");
                push_hint(&mut v, "o", "Browser");
                push_hint(&mut v, "Tab", "Next tab");
            }
        },
        Screen::ItemDetail => {
            push_hint(&mut v, "j/k", "Scroll");
            push_hint(&mut v, "o", "Browser");
            let reader = match &app.item_detail {
                Some(d) => d.tab == ItemTab::Conversation,
                None => false,
            };
            if reader {
                push_hint(&mut v, "r", "Reader");
            }
            let diff = match &app.item_detail {
                Some(d) => d.has_diff(),
                None => false,
            };
            if diff {
                push_hint(&mut v, "Tab", "Conversation/Diff");
            }
        },
    }
    let ghost own = hints(v@);
    assert(own =~= screen_hints(*app));
    if app.screen == Screen::Home {
        let n = v.len();
        let mut i: usize = 0;
        let mut found = false;
        while i < n && !found
            invariant
                n == v.len(),
                i <= n,
                own == hints(v@),
                found ==> has_key(own, "s"@),
                !found ==> forall|j: int| 0 <= j < i ==> own[j].0 != "s"@,
            decreases (n - i) as int + (if found {
                0int
            } else {
                1int
            }),
        {
            if str_eq(v[i].0, "s") {
                assert(own[i as int].0 == "s"@);
                found = true;
            } else {
                i += 1;
            }
        }
        if !found {
            push_hint(&mut v, "s", "Sources");
        }
    }
    push_hint(&mut v, "A", "Account");
    push_hint(&mut v, "a", "Actions");
    push_hint(&mut v, "?", "Help");
    push_hint(
        &mut v,
        "q",
        if app.screen == Screen::Home {
            "Quit"
        } else {
            "Back"
        },
    );
    assert(hints(v@) =~= spec_contextual_actions(*app));
    v
}

/// How to move around on the current screen.
pub open spec fn spec_navigation_help(a: App) -> Seq<(Seq<char>, Seq<char>)> {
    match a.screen {
        Screen::Home => seq![
            ("j/k, \u{2191}/\u{2193}"@, "Move selection"@),
            ("g/G, Home/End"@, "First/last item"@),
            ("PgDn/PgUp"@, "Page down/up"@),
            ("Tab/S-Tab"@, "Next/previous section"@),
            ("s"@, "Choose repository source"@),
            ("[ / ]"@, "Previous/next repository source"@),
        ],
        Screen::RepoDetail => seq![
            ("j/k, \u{2191}/\u{2193}"@, "Move or scroll"@),
            ("g/G, Home/End"@, "First/last or top/bottom"@),
            ("PgDn/PgUp"@, "Page down/up"@),
            ("Tab/S-Tab"@, "Next/previous repository tab"@),
        ],
        Screen::ItemDetail => seq![
            ("j/k, \u{2191}/\u{2193}"@, "Scroll one line"@),
            ("d/u"@, "Scroll ten lines"@),
            ("g/G, Home/End"@, "Top/bottom"@),
            ("PgDn/PgUp"@, "Page down/up"@),
        ],
    }
}

/// How to move around on the current screen.
pub fn navigation_help(app: &App) -> (r: Vec<Action>)
    ensures
        hints(r@) == spec_navigation_help(*app),
{
    let mut v: Vec<Action> = Vec::new();
    match app.screen {
        Screen::Home => {
            push_hint(&mut v, "j/k, \u{2191}/\u{2193}", "Move selection");
            push_hint(&mut v, "g/G, Home/End", "First/last item");
            push_hint(&mut v, "PgDn/PgUp", "Page down/up");
            push_hint(&mut v, "Tab/S-Tab", "Next/previous section");
            push_hint(&mut v, "s", "Choose repository source");
            push_hint(&mut v, "[ / ]", "Previous/next repository source");
        },
        Screen::RepoDetail => {
            push_hint(&mut v, "j/k, \u{2191}/\u{2193}", "Move or scroll");
            push_hint(&mut v, "g/G, Home/End", "First/last or top/bottom");
            push_hint(&mut v, "PgDn/PgUp", "Page down/up");
            push_hint(&mut v, "Tab/S-Tab", "Next/previous repository tab");
        },
        Screen::ItemDetail => {
            push_hint(&mut v, "j/k, \u{2191}/\u{2193}", "Scroll one line");
            push_hint(&mut v, "d/u", "Scroll ten lines");
            push_hint(&mut v, "g/G, Home/End", "Top/bottom");
            push_hint(&mut v, "PgDn/PgUp", "Page down/up");
        },
    }
    assert(hints(v@) =~= spec_navigation_help(*app));
    v
}

/// The short form of hints: without the browser, help and tab keys; the
/// source keys shown as `[/]` to cycle, and the actions key as `More`.
pub open spec fn shortened(s: Seq<(Seq<char>, Seq<char>)>) -> Seq<(Seq<char>, Seq<char>)>
    decreases s.len(),
{
    if s.len() == 0 {
        Seq::empty()
    } else {
        let rest = shortened(s.drop_last());
        let (k, d) = s.last();
        if k == "o"@ || k == "?"@ || k == "Tab"@ {
            rest
        } else if k == "[ / ]"@ {
            rest.push(("[/]"@, "Cycle"@))
        } else if k == "a"@ {
            rest.push((k, "More"@))
        } else {
            rest.push((k, d))
        }
    }
}

/// The hints of the footer: all of them while typing, else their short form.
pub open spec fn spec_footer_actions(a: App) -> Seq<(Seq<char>, Seq<char>)> {
    if spec_is_filtering(a) {
        spec_contextual_actions(a)
    } else {
        shortened(spec_contextual_actions(a))
    }
}

/// The hints of the footer.
pub fn footer_actions(app: &App) -> (r: Vec<Action>)
    ensures
        hints(r@) == spec_footer_actions(*app),
{
    let all = contextual_actions(app);
    if is_filtering(app) {
        return all;
    }
    let ghost s = hints(all@);
    let mut v: Vec<Action> = Vec::new();
    let n = all.len();
    let mut i: usize = 0;
    assert(s.take(0) =~= Seq::<(Seq<char>, Seq<char>)>::empty());
    while i < n
        invariant
            n == all.len(),
            i <= n,
            s == hints(all@),
            hints(v@) == shortened(s.take(i as int)),
        decreases n - i,
    {
        assert(s.take(i as int + 1).drop_last() =~= s.take(i as int));
        assert(s.take(i as int + 1).last() == (all@[i as int].0@, all@[i as int].1@));
        let (k, d) = all[i];
        if str_eq(k, "o") || str_eq(k, "?") || str_eq(k, "Tab") {
        } else if str_eq(k, "[ / ]") {
            push_hint(&mut v, "[/]", "Cycle");
        } else if str_eq(k, "a") {
            push_hint(&mut v, k, "More");
        } else {
            push_hint(&mut v, k, d);
        }
        i += 1;
    }
    assert(s.take(n as int) =~= s);
    v
}

/// Whether `i` is the first index at which a hint is for key `k`.
pub open spec fn is_first_with_key(s: Seq<(Seq<char>, Seq<char>)>, k: Seq<char>, i: int) -> bool {
    &&& 0 <= i < s.len()
    &&& s[i].0 == k
    &&& forall|j: int| 0 <= j < i ==> (#[trigger] s[j]).0 != k
}

/// The first index at which a hint is for key `k`, if there is one.
pub open spec fn first_with_key(s: Seq<(Seq<char>, Seq<char>)>, k: Seq<char>) -> Option<int> {
    if exists|i: int| is_first_with_key(s, k, i) {
        Some(choose|i: int| is_first_with_key(s, k, i))
    } else {
        None
    }
}

/// The actions available here with the theme switch put before the last four
/// (first, when there are fewer).
pub open spec fn spec_actions_menu_base(a: App) -> Seq<(Seq<char>, Seq<char>)> {
    let c = spec_contextual_actions(a);
    let at: int = if c.len() >= 4 {
        c.len() - 4
    } else {
        0
    };
    c.take(at) + seq![("t"@, "Switch theme"@)] + c.skip(at)
}

/// The entries of the actions menu: the actions available here with the theme
/// switch put in, and the first entry for `a` described as closing the menu.
pub open spec fn spec_actions_menu(a: App) -> Seq<(Seq<char>, Seq<char>)> {
    let with_theme = spec_actions_menu_base(a);
    match first_with_key(with_theme, "a"@) {
        Some(i) => with_theme.update(i, (with_theme[i].0, "Close menu"@)),
        None => with_theme,
    }
}

/// The entries of the actions menu.
pub fn actions_menu(app: &App) -> (r: Vec<Action>)
    ensures
        hints(r@) == spec_actions_menu(*app),
{
    let mut v = contextual_actions(app);
    let ghost c = hints(v@);
    let at: usize = if v.len() >= 4 {
        v.len() - 4
    } else {
        0
    };
    let ghost before = v@;
    v.insert(at, ("t", "Switch theme"));
    let ghost with_theme = c.take(at as int) + seq![("t"@, "Switch theme"@)] + c.skip(at as int);
    assert(hints(v@) =~= with_theme) by {
        assert(v@ =~= before.take(at as int) + seq![("t", "Switch theme")] + before.skip(
            at as int,
        ));
    }
    let n = v.len();
    let mut j: usize = 0;
    while j < n
        invariant
            n == v.len(),
            j <= n,
            hints(v@) == with_theme,
            with_theme == spec_actions_menu_base(*app),
            forall|i: int| 0 <= i < j ==> (#[trigger] with_theme[i]).0 != "a"@,
        decreases n - j,
    {
        let (key, _) = v[j];
        if str_eq(key, "a") {
            let ghost w = hints(v@);
            v.set(j, (key, "Close menu"));
            proof {
                assert(is_first_with_key(w, "a"@, j as int));
                let i = choose|i: int| is_first_with_key(w, "a"@, i);
                assert(i == j as int) by {
                    if i < j as int {
                        assert(w[i].0 != "a"@);
                    } else if i > j as int {
                        assert(w[j as int].0 != "a"@);
                    }
                }
                assert(hints(v@) =~= w.update(j as int, (w[j as int].0, "Close menu"@)));
            }
            return v;
        }
        j += 1;
    }
    v
}

} // verus!
