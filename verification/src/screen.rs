//! The frame around the screens: the breadcrumb, the tabs, the filter line of
//! the home sections, the footer of key hints, the help and the theme picker.
use crate::actions::{
    actions_menu, contextual_actions, footer_actions, hints, navigation_help,
    spec_actions_menu, spec_contextual_actions, spec_footer_actions, spec_navigation_help, Action,
};
use crate::app::{App, Screen, Tab};
use crate::text::{chars_of, decimal, string_of};
use crate::theme::{dashes_to_spaces, spaced, Theme};
use crate::ui::display::{
    concat, concat3, dim_line, with_number, filter_info_line, filter_info_text, pieces, push_line, push_piece,
    push_text, text_lines, typing_line, typing_text, Piece, Tone,
};
use crate::gh::ItemKind;
use crate::ui::item_detail::{conversation_title, item_kind_label, ItemTab};
use crate::ui::lists_view::{ListsMode, ListsView};
use crate::ui::repo_detail::RepoTab;
use crate::ui::repo_list::{labels_of, source_index, RepoList, RepoSource};
use vstd::prelude::*;

verus! {

/// The name of the program and a separator, which open the breadcrumb.
pub open spec fn prefix_text() -> Seq<(Seq<char>, Tone)> {
    seq![(" ghx"@, Tone::AccentBold), (" \u{2502} "@, Tone::Dim)]
}

/// The label of the current source of a repository list, if it is listed.
pub open spec fn source_label(l: RepoList) -> Option<Seq<char>> {
    let i = source_index(l.source);
    if i < labels_of(l.orgs@).len() {
        Some(labels_of(l.orgs@)[i])
    } else {
        None
    }
}

/// The name of the list whose repositories are shown, if any.
pub open spec fn shown_list_name(v: ListsView) -> Option<Seq<char>> {
    if v.mode == ListsMode::Repos && v.selected_list < v.lists@.len() {
        Some(v.lists@[v.selected_list as int].name@)
    } else {
        None
    }
}

/// The breadcrumb: the program's name; then on a repository's screen the
/// repository; on an item's screen its repository, a `›`, its kind and
/// number; on the home screen the section, and after a `›` the current
/// source or the list shown.
pub open spec fn breadcrumb_text(a: App) -> Seq<(Seq<char>, Tone)> {
    match a.screen {
        Screen::RepoDetail => match a.repo_detail {
            Some(d) => prefix_text().push((d.repo_name@, Tone::Normal)),
            None => prefix_text(),
        },
        Screen::ItemDetail => match a.item_detail {
            Some(d) => prefix_text().push((d.repo_name@, Tone::Normal)).push(
                (" \u{203a} "@, Tone::Dim),
            ).push((item_kind_label(d.kind) + " #"@ + decimal(d.number as nat), Tone::HeadingBold)),
            None => prefix_text(),
        },
        Screen::Home => {
            let section = match a.tab {
                Tab::Repos => "Repositories"@,
                Tab::Lists => "Lists"@,
                Tab::Search => "Search"@,
                Tab::Notifications => "Notifications"@,
            };
            let context = match a.tab {
                Tab::Repos => source_label(a.repo_list),
                Tab::Lists => shown_list_name(a.lists_view),
                _ => None,
            };
            let s = prefix_text().push((section, Tone::Normal));
            match context {
                Some(c) => s.push((" \u{203a} "@, Tone::Dim)).push((c, Tone::HeadingBold)),
                None => s,
            }
        },
    }
}

/// The label of the current source of a repository list, if it is listed.
pub fn active_source_label(l: &RepoList) -> (r: Option<String>)
    requires
        l.orgs.len() <= usize::MAX - 2,
        l.source matches RepoSource::Org(i) ==> i <= usize::MAX - 2,
    ensures
        match source_label(*l) {
            Some(s) => r matches Some(x) && x@ == s,
            None => r is None,
        },
{
    let labels = l.source_labels();
    let i = l.active_source_index();
    if i < labels.len() {
        Some(labels[i].clone())
    } else {
        None
    }
}

/// The breadcrumb.
pub fn breadcrumb(app: &App) -> (line: Vec<Piece>)
    requires
        app.repo_list.orgs.len() <= usize::MAX - 2,
        app.repo_list.source matches RepoSource::Org(i) ==> i <= usize::MAX - 2,
    ensures
        pieces(line@) == breadcrumb_text(*app),
{
    let mut line: Vec<Piece> = Vec::new();
    push_text(&mut line, " ghx", Tone::AccentBold);
    push_text(&mut line, " \u{2502} ", Tone::Dim);
    assert(pieces(line@) =~= prefix_text());
    match app.screen {
        Screen::RepoDetail => {
            if let Some(d) = &app.repo_detail {
                push_piece(&mut line, d.repo_name.clone(), Tone::Normal);
            }
        },
        Screen::ItemDetail => {
            if let Some(d) = &app.item_detail {
                push_piece(&mut line, d.repo_name.clone(), Tone::Normal);
                push_text(&mut line, " \u{203a} ", Tone::Dim);
                let title = concat(d.kind_label(), " #");
                push_piece(
                    &mut line,
                    with_number(title.as_str(), d.number as u64),
                    Tone::HeadingBold,
                );
            }
        },
        Screen::Home => {
            let section = match app.tab {
                Tab::Repos => "Repositories",
                Tab::Lists => "Lists",
                Tab::Search => "Search",
                Tab::Notifications => "Notifications",
            };
            push_text(&mut line, section, Tone::Normal);
            let context: Option<String> = match app.tab {
                Tab::Repos => active_source_label(&app.repo_list),
                Tab::Lists => match app.lists_view.current_list_name() {
                    Some(n) => Some(string_of(&chars_of(n))),
                    None => None,
                },
                _ => None,
            };
            if let Some(c) = context {
                push_text(&mut line, " \u{203a} ", Tone::Dim);
                push_piece(&mut line, c, Tone::HeadingBold);
            }
        },
    }
    line
}

/// The tabs of a line: a space, then the titles four spaces apart, the
/// active one in brackets.
pub open spec fn tab_pieces(titles: Seq<Seq<char>>, active: int) -> Seq<(Seq<char>, Tone)>
    decreases titles.len(),
{
    if titles.len() == 0 {
        seq![(" "@, Tone::Plain)]
    } else {
        let k = titles.len() - 1;
        let rest = tab_pieces(titles.drop_last(), active);
        let sep = if k > 0 {
            rest.push(("    "@, Tone::Plain))
        } else {
            rest
        };
        if k == active {
            sep.push(("["@ + titles[k] + "]"@, Tone::Selected))
        } else {
            sep.push((titles[k], Tone::Dim))
        }
    }
}

/// The titles of the tabs, and the position of the active one: the sections
/// of the home screen, the tabs of a repository's screen, or those of an
/// item's screen (the conversation, and the diff of a pull request).
pub open spec fn tab_titles(a: App) -> Option<(Seq<Seq<char>>, int)> {
    match a.screen {
        Screen::Home => Some(
            (
                seq!["Repositories"@, "Lists"@, "Search"@, "Notifications"@],
                match a.tab {
                    Tab::Repos => 0,
                    Tab::Lists => 1,
                    Tab::Search => 2,
                    Tab::Notifications => 3,
                },
            ),
        ),
        Screen::RepoDetail => match a.repo_detail {
            Some(d) => Some(
                (
                    seq!["Overview"@, "Issues"@, "Pull Requests"@],
                    match d.tab {
                        RepoTab::Overview => 0,
                        RepoTab::Issues => 1,
                        RepoTab::PullRequests => 2,
                    },
                ),
            ),
            None => None,
        },
        Screen::ItemDetail => match a.item_detail {
            Some(d) => Some(
                (
                    if d.kind == ItemKind::PullRequest {
                        seq![conversation_title(d), "Diff"@]
                    } else {
                        seq![conversation_title(d)]
                    },
                    if d.tab == ItemTab::Diff {
                        1
                    } else {
                        0
                    },
                ),
            ),
            None => None,
        },
    }
}

/// The line of the tabs (empty when there are none).
pub open spec fn tabs_text(a: App) -> Seq<(Seq<char>, Tone)> {
    match tab_titles(a) {
        Some((t, i)) => tab_pieces(t, i),
        None => Seq::empty(),
    }
}

/// The line of the tabs.
pub fn tabs_line(app: &App) -> (line: Vec<Piece>)
    ensures
        pieces(line@) == tabs_text(*app),
{
    let (titles, active): (Vec<&'static str>, usize) = match app.screen {
        Screen::Home => (
            vec!["Repositories", "Lists", "Search", "Notifications"],
            match app.tab {
                Tab::Repos => 0,
                Tab::Lists => 1,
                Tab::Search => 2,
                Tab::Notifications => 3,
            },
        ),
        Screen::RepoDetail => match &app.repo_detail {
            Some(d) => (
                vec!["Overview", "Issues", "Pull Requests"],
                match d.tab {
                    RepoTab::Overview => 0,
                    RepoTab::Issues => 1,
                    RepoTab::PullRequests => 2,
                },
            ),
            None => return Vec::new(),
        },
        Screen::ItemDetail => match &app.item_detail {
            Some(d) => {
                let mut t: Vec<&'static str> = Vec::new();
                t.push(d.conversation_label());
                if d.has_diff() {
                    t.push("Diff");
                }
                (
                    t,
                    if d.tab == ItemTab::Diff {
                        1
                    } else {
                        0
                    },
                )
            },
            None => return Vec::new(),
        },
    };
    let ghost ts = titles@.map_values(|t: &'static str| t@);
    proof {
        reveal_strlit("Repositories");
        reveal_strlit("Lists");
        reveal_strlit("Search");
        reveal_strlit("Notifications");
        reveal_strlit("Overview");
        reveal_strlit("Issues");
        reveal_strlit("Pull Requests");
        reveal_strlit("Diff");
    }
    assert(tab_titles(*app) == Some((ts, active as int)));
    let mut line: Vec<Piece> = Vec::new();
    push_text(&mut line, " ", Tone::Plain);
    let n = titles.len();
    let mut k: usize = 0;
    assert(ts.take(0) =~= Seq::<Seq<char>>::empty());
    while k < n
        invariant
            n == titles.len(),
            k <= n,
            ts == titles@.map_values(|t: &'static str| t@),
            pieces(line@) == tab_pieces(ts.take(k as int), active as int),
        decreases n - k,
    {
        assert(ts.take(k as int + 1).drop_last() =~= ts.take(k as int));
        assert(ts.take(k as int + 1)[k as int] == titles@[k as int]@);
        if k > 0 {
            push_text(&mut line, "    ", Tone::Plain);
        }
        if k == active {
            push_piece(&mut line, concat3("[", titles[k], "]"), Tone::Selected);
        } else {
            push_text(&mut line, titles[k], Tone::Dim);
        }
        k += 1;
    }
    assert(ts.take(n as int) =~= ts);
    line
}

/// The footer: a space, then each hint two spaces apart, its key then its
/// label.
pub open spec fn footer_pieces(hs: Seq<(Seq<char>, Seq<char>)>) -> Seq<(Seq<char>, Tone)>
    decreases hs.len(),
{
    if hs.len() == 0 {
        seq![(" "@, Tone::Plain)]
    } else {
        let k = hs.len() - 1;
        let rest = footer_pieces(hs.drop_last());
        let sep = if k > 0 {
            rest.push(("  "@, Tone::Dim))
        } else {
            rest
        };
        sep.push((hs[k].0, Tone::Key)).push((" "@ + hs[k].1, Tone::Dim))
    }
}

/// The footer line of the key hints.
pub fn footer_line(app: &App) -> (line: Vec<Piece>)
    ensures
        pieces(line@) == footer_pieces(spec_footer_actions(*app)),
{
    let actions = footer_actions(app);
    let ghost hs = hints(actions@);
    let mut line: Vec<Piece> = Vec::new();
    push_text(&mut line, " ", Tone::Plain);
    let n = actions.len();
    let mut k: usize = 0;
    assert(hs.take(0) =~= Seq::<(Seq<char>, Seq<char>)>::empty());
    while k < n
        invariant
            n == actions.len(),
            k <= n,
            hs == hints(actions@),
            pieces(line@) == footer_pieces(hs.take(k as int)),
        decreases n - k,
    {
        assert(hs.take(k as int + 1).drop_last() =~= hs.take(k as int));
        assert(hs.take(k as int + 1)[k as int] == (actions@[k as int].0@, actions@[k as int].1@));
        if k > 0 {
            push_text(&mut line, "  ", Tone::Dim);
        }
        let (key, label) = actions[k];
        push_text(&mut line, key, Tone::Key);
        push_piece(&mut line, concat(" ", label), Tone::Dim);
        k += 1;
    }
    assert(hs.take(n as int) =~= hs);
    line
}

/// `s` padded with spaces to `w` characters (as `{:<w}` formats it).
pub open spec fn padded(s: Seq<char>, w: nat) -> Seq<char> {
    if s.len() < w {
        s + Seq::new((w - s.len()) as nat, |i: int| ' ')
    } else {
        s
    }
}

fn pad(s: &str, w: usize) -> (r: String)
    ensures
        r@ == padded(s@, w as nat),
{
    let mut v = chars_of(s);
    let ghost start = v@;
    while v.len() < w
        invariant
            v@.len() >= start.len(),
            start.len() < w ==> v@.len() <= w,
            start.len() >= w ==> v@ == start,
            v@ == start + Seq::new((v@.len() - start.len()) as nat, |i: int| ' '),
        decreases w - v.len(),
    {
        v.push(' ');
        assert(v@ =~= start + Seq::new((v@.len() - start.len()) as nat, |i: int| ' '));
    }
    assert(v@ =~= padded(start, w as nat));
    string_of(&v)
}

/// The keys that work everywhere, as the help lists them.
pub open spec fn global_hints() -> Seq<(Seq<char>, Seq<char>)> {
    seq![("A"@, "Switch GitHub account"@), ("t"@, "Switch theme"@), ("C-c"@, "Quit immediately"@)]
}

/// A section of the help: its title, its hints (the key padded to fourteen
/// characters), then an empty line.
pub open spec fn help_section(title: Seq<char>, hs: Seq<(Seq<char>, Seq<char>)>) -> Seq<
    Seq<(Seq<char>, Tone)>,
> {
    seq![seq![(" "@ + title, Tone::HeadingBold)]] + hs.map_values(
        |h: (Seq<char>, Seq<char>)| seq![("  "@ + padded(h.0, 14), Tone::Key), (h.1, Tone::Normal)],
    ) + seq![Seq::empty()]
}

/// The help: the navigation, the actions available here, the global keys,
/// and how to close it.
pub open spec fn help_text(a: App) -> Seq<Seq<(Seq<char>, Tone)>> {
    help_section("Navigation"@, spec_navigation_help(a)) + help_section(
        "Available here"@,
        spec_contextual_actions(a),
    ) + help_section("Global"@, global_hints()) + seq![seq![(" Press any key to close"@, Tone::Dim)]]
}

fn push_section(lines: &mut Vec<Vec<Piece>>, title: &str, items: &Vec<Action>)
    ensures
        text_lines(final(lines)@) == text_lines(old(lines)@) + help_section(title@, hints(items@)),
{
    let ghost start = text_lines(lines@);
    let ghost hs = hints(items@);
    let mut head: Vec<Piece> = Vec::new();
    push_piece(&mut head, concat(" ", title), Tone::HeadingBold);
    assert(pieces(head@) =~= seq![(" "@ + title@, Tone::HeadingBold)]);
    push_line(lines, head);
    assert(hs.take(0).map_values(
        |h: (Seq<char>, Seq<char>)| seq![("  "@ + padded(h.0, 14), Tone::Key), (h.1, Tone::Normal)],
    ) =~= Seq::<Seq<(Seq<char>, Tone)>>::empty());
    assert(text_lines(lines@) =~= start + seq![seq![(" "@ + title@, Tone::HeadingBold)]]
        + hs.take(0).map_values(
        |h: (Seq<char>, Seq<char>)| seq![("  "@ + padded(h.0, 14), Tone::Key), (h.1, Tone::Normal)],
    ));
    let n = items.len();
    let mut k: usize = 0;
    while k < n
        invariant
            n == items.len(),
            k <= n,
            hs == hints(items@),
            text_lines(lines@) == start + seq![seq![(" "@ + title@, Tone::HeadingBold)]]
                + hs.take(k as int).map_values(
                |h: (Seq<char>, Seq<char>)|
                    seq![("  "@ + padded(h.0, 14), Tone::Key), (h.1, Tone::Normal)],
            ),
        decreases n - k,
    {
        let (key, desc) = items[k];
        let mut l: Vec<Piece> = Vec::new();
        push_piece(&mut l, concat("  ", pad(key, 14).as_str()), Tone::Key);
        push_text(&mut l, desc, Tone::Normal);
        assert(pieces(l@) =~= seq![("  "@ + padded(key@, 14), Tone::Key), (desc@, Tone::Normal)]);
        push_line(lines, l);
        assert(hs[k as int] == (key@, desc@));
        assert(hs.take(k as int + 1).map_values(
            |h: (Seq<char>, Seq<char>)| seq![("  "@ + padded(h.0, 14), Tone::Key), (h.1, Tone::Normal)],
        ) =~= hs.take(k as int).map_values(
            |h: (Seq<char>, Seq<char>)| seq![("  "@ + padded(h.0, 14), Tone::Key), (h.1, Tone::Normal)],
        ).push(seq![("  "@ + padded(key@, 14), Tone::Key), (desc@, Tone::Normal)]));
        k += 1;
    }
    assert(hs.take(n as int) =~= hs);
    let empty: Vec<Piece> = Vec::new();
    assert(pieces(empty@) =~= Seq::<(Seq<char>, Tone)>::empty());
    push_line(lines, empty);
    assert(text_lines(lines@) =~= start + help_section(title@, hs));
}

/// The lines of the help.
pub fn help_lines(app: &App) -> (lines: Vec<Vec<Piece>>)
    ensures
        text_lines(lines@) == help_text(*app),
{
    let mut lines: Vec<Vec<Piece>> = Vec::new();
    push_section(&mut lines, "Navigation", &navigation_help(app));
    push_section(&mut lines, "Available here", &contextual_actions(app));
    let global: Vec<Action> = vec![
        ("A", "Switch GitHub account"),
        ("t", "Switch theme"),
        ("C-c", "Quit immediately"),
    ];
    assert(hints(global@) =~= global_hints());
    push_section(&mut lines, "Global", &global);
    push_line(&mut lines, dim_line(" Press any key to close"));
    assert(text_lines(lines@) =~= help_text(*app)) by {
        assert(text_lines(lines@) =~= help_section("Navigation"@, spec_navigation_help(*app))
            + help_section("Available here"@, spec_contextual_actions(*app)) + help_section(
            "Global"@,
            global_hints(),
        ) + seq![seq![(" Press any key to close"@, Tone::Dim)]]);
    }
    lines
}

/// The line above a home section's list while its filter is typed or in use:
/// the repositories' or the notifications' (the lists and the search have
/// their own).
pub open spec fn home_filter_text(a: App) -> Option<Seq<(Seq<char>, Tone)>> {
    if a.screen != Screen::Home {
        None
    } else {
        match a.tab {
            Tab::Repos => if a.repo_list.filtering {
                Some(typing_text(a.repo_list.filter@, Tone::Key))
            } else if a.repo_list.filter@.len() > 0 {
                Some(
                    filter_info_text(
                        a.repo_list.filter@,
                        a.repo_list.filtered_indices@.len(),
                        a.repo_list.repos@.len(),
                    ),
                )
            } else {
                None
            },
            Tab::Notifications => if a.notif_list.filtering {
                Some(typing_text(a.notif_list.filter@, Tone::Key))
            } else if a.notif_list.filter@.len() > 0 {
                Some(
                    filter_info_text(
                        a.notif_list.filter@,
                        a.notif_list.filtered_indices@.len(),
                        a.notif_list.notifs@.len(),
                    ),
                )
            } else {
                None
            },
            _ => None,
        }
    }
}

/// The filter line of the current home section, if any.
pub fn home_filter_line(app: &App) -> (l: Option<Vec<Piece>>)
    ensures
        match home_filter_text(*app) {
            Some(t) => l matches Some(x) && pieces(x@) == t,
            None => l is None,
        },
{
    if app.screen != Screen::Home {
        return None;
    }
    match app.tab {
        Tab::Repos => if app.repo_list.filtering {
            Some(typing_line(app.repo_list.filter.as_str(), Tone::Key))
        } else if !app.repo_list.filter.as_str().is_empty() {
            Some(
                filter_info_line(
                    app.repo_list.filter.as_str(),
                    app.repo_list.filtered_indices.len(),
                    app.repo_list.repos.len(),
                ),
            )
        } else {
            None
        },
        Tab::Notifications => if app.notif_list.filtering {
            Some(typing_line(app.notif_list.filter.as_str(), Tone::Key))
        } else if !app.notif_list.filter.as_str().is_empty() {
            Some(
                filter_info_line(
                    app.notif_list.filter.as_str(),
                    app.notif_list.filtered_indices.len(),
                    app.notif_list.notifs.len(),
                ),
            )
        } else {
            None
        },
        _ => None,
    }
}

/// The first theme shown in a picker of `visible` rows, so that the selected
/// one stays in view.
pub open spec fn theme_offset(index: usize, visible: usize) -> int {
    if index >= visible {
        index - visible + 1
    } else {
        0
    }
}

/// How a theme is listed in the picker (its name with dashes read as
/// spaces): the selected one after a `›`, in a bar `width - 5` wide.
pub open spec fn theme_row_text(name: Seq<char>, selected: bool, width: usize) -> Seq<
    (Seq<char>, Tone),
> {
    if selected {
        seq![
            ("  \u{203a} "@, Tone::Selected),
            (
                padded(
                    dashes_to_spaces(name),
                    if width >= 5 {
                        (width - 5) as nat
                    } else {
                        0
                    },
                ),
                Tone::SelectedBar,
            ),
        ]
    } else {
        seq![("    "@, Tone::Plain), (dashes_to_spaces(name), Tone::Normal)]
    }
}

/// The number of themes a picker of `visible` rows shows from `offset` on.
pub open spec fn theme_rows_count(len: nat, offset: int, visible: usize) -> nat {
    if offset >= len {
        0
    } else if len - offset < visible {
        (len - offset) as nat
    } else {
        visible as nat
    }
}

/// The rows of the theme picker: at most `visible` themes, from the offset
/// that keeps the selected theme in view.
pub open spec fn theme_picker_text(
    themes: Seq<(String, Theme)>,
    index: usize,
    visible: usize,
    width: usize,
) -> Seq<Seq<(Seq<char>, Tone)>> {
    let off = theme_offset(index, visible);
    Seq::new(
        theme_rows_count(themes.len(), off, visible),
        |r: int| theme_row_text(themes[off + r].0@, off + r == index, width),
    )
}

/// The rows of the theme picker, `visible` rows `width` characters wide.
pub fn theme_picker_lines(app: &App, visible: usize, width: usize) -> (lines: Vec<Vec<Piece>>)
    requires
        app.theme_index < usize::MAX,
    ensures
        text_lines(lines@) == theme_picker_text(app.themes@, app.theme_index, visible, width),
{
    let off = if app.theme_index >= visible {
        app.theme_index - visible + 1
    } else {
        0
    };
    let count = if off >= app.themes.len() {
        0
    } else if app.themes.len() - off < visible {
        app.themes.len() - off
    } else {
        visible
    };
    let ghost want = theme_picker_text(app.themes@, app.theme_index, visible, width);
    let bar = if width >= 5 {
        width - 5
    } else {
        0
    };
    let mut lines: Vec<Vec<Piece>> = Vec::new();
    let mut r: usize = 0;
    while r < count
        invariant
            count == theme_rows_count(app.themes@.len(), off as int, visible),
            off == theme_offset(app.theme_index, visible),
            bar == (if width >= 5 {
                (width - 5) as nat
            } else {
                0
            }),
            want == theme_picker_text(app.themes@, app.theme_index, visible, width),
            r <= count,
            count == 0 || off + count <= app.themes@.len(),
            text_lines(lines@) == want.take(r as int),
        decreases count - r,
    {
        let i = off + r;
        let name = spaced(&chars_of(app.themes[i].0.as_str()));
        let mut l: Vec<Piece> = Vec::new();
        if i == app.theme_index {
            push_text(&mut l, "  \u{203a} ", Tone::Selected);
            push_piece(&mut l, pad(string_of(&name).as_str(), bar), Tone::SelectedBar);
        } else {
            push_text(&mut l, "    ", Tone::Plain);
            push_piece(&mut l, string_of(&name), Tone::Normal);
        }
        assert(pieces(l@) =~= want[r as int]);
        push_line(&mut lines, l);
        assert(want.take(r as int + 1) =~= want.take(r as int).push(want[r as int]));
        r += 1;
    }
    assert(want.take(count as int) =~= want);
    lines
}

/// The line of keys under the theme picker.
pub open spec fn theme_status_text() -> Seq<(Seq<char>, Tone)> {
    seq![
        (" j/k"@, Tone::Key),
        (":select  "@, Tone::Dim),
        ("enter"@, Tone::Key),
        (":ok  "@, Tone::Dim),
        ("esc"@, Tone::Key),
        (":cancel"@, Tone::Dim),
    ]
}

/// The line of keys under the theme picker.
pub fn theme_status_line() -> (l: Vec<Piece>)
    ensures
        pieces(l@) == theme_status_text(),
{
    let mut l: Vec<Piece> = Vec::new();
    push_text(&mut l, " j/k", Tone::Key);
    push_text(&mut l, ":select  ", Tone::Dim);
    push_text(&mut l, "enter", Tone::Key);
    push_text(&mut l, ":ok  ", Tone::Dim);
    push_text(&mut l, "esc", Tone::Key);
    push_text(&mut l, ":cancel", Tone::Dim);
    assert(pieces(l@) =~= theme_status_text());
    l
}

/// The lines of the actions menu: one per entry, its key padded to twelve
/// characters, then the hint on running a shortcut.
pub open spec fn actions_menu_text(a: App) -> Seq<Seq<(Seq<char>, Tone)>> {
    spec_actions_menu(a).map_values(
        |h: (Seq<char>, Seq<char>)| seq![(" "@ + padded(h.0, 12), Tone::Key), (h.1, Tone::Normal)],
    ) + seq![seq![(" Press a shortcut to run it"@, Tone::Dim)]]
}

/// The lines of the actions menu.
pub fn actions_menu_lines(app: &App) -> (lines: Vec<Vec<Piece>>)
    ensures
        text_lines(lines@) == actions_menu_text(*app),
{
    let items = actions_menu(app);
    let ghost hs = hints(items@);
    let mut lines: Vec<Vec<Piece>> = Vec::new();
    let n = items.len();
    let mut k: usize = 0;
    assert(text_lines(lines@) =~= hs.take(0).map_values(
        |h: (Seq<char>, Seq<char>)| seq![(" "@ + padded(h.0, 12), Tone::Key), (h.1, Tone::Normal)],
    ));
    while k < n
        invariant
            n == items.len(),
            k <= n,
            hs == hints(items@),
            text_lines(lines@) == hs.take(k as int).map_values(
                |h: (Seq<char>, Seq<char>)|
                    seq![(" "@ + padded(h.0, 12), Tone::Key), (h.1, Tone::Normal)],
            ),
        decreases n - k,
    {
        let (key, desc) = items[k];
        let mut l: Vec<Piece> = Vec::new();
        push_piece(&mut l, concat(" ", pad(key, 12).as_str()), Tone::Key);
        push_text(&mut l, desc, Tone::Normal);
        assert(pieces(l@) =~= seq![(" "@ + padded(key@, 12), Tone::Key), (desc@, Tone::Normal)]);
        push_line(&mut lines, l);
        assert(hs[k as int] == (key@, desc@));
        assert(hs.take(k as int + 1).map_values(
            |h: (Seq<char>, Seq<char>)| seq![(" "@ + padded(h.0, 12), Tone::Key), (h.1, Tone::Normal)],
        ) =~= hs.take(k as int).map_values(
            |h: (Seq<char>, Seq<char>)| seq![(" "@ + padded(h.0, 12), Tone::Key), (h.1, Tone::Normal)],
        ).push(seq![(" "@ + padded(key@, 12), Tone::Key), (desc@, Tone::Normal)]));
        k += 1;
    }
    assert(hs.take(n as int) =~= hs);
    push_line(&mut lines, dim_line(" Press a shortcut to run it"));
    assert(text_lines(lines@) =~= actions_menu_text(*app));
    lines
}

} // verus!
