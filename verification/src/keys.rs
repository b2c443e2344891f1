//! What a key press does: from the state of the browser and the key, the next
//! state and the work that the caller carries out (showing or saving a theme,
//! a fetch, opening a web page, marking a notification as read).
use crate::app::{
    enter_target, enter_without_repo, entered, next_tab_load, next_tab_state,
    open_target, prev_tab_load, prev_tab_state, sources_ok, went_back, App, AppView, Screen, Tab,
};
use crate::gh;
use crate::text::{chars_of, string_of, trim, views};
use crate::theme::Theme;
use crate::ui::list::{nav_fits, navigated, Nav};
use crate::ui::lists_view::{current_len, current_selection, with_selection, ListsViewView};
use crate::ui::notif_list::{marked_read, selected_position, NotifListView};
use crate::ui::repo_detail::{
    fetches_for, list_len, next_repo_tab, on_tab, prev_repo_tab, scrolled_down, scrolled_up,
    RepoDetailView, RepoDetailViewView, RepoFetches, RepoTab,
};
use crate::ui::repo_list::{cache_lookup, fetch_for, source_at, RepoFetch, RepoListView};
use crate::ui::search::SearchViewView;
use crate::ui::account_picker::SwitchRequest;
use crate::ui::{lists_view, notif_list, repo_detail, repo_list};
use crate::modal::{
    account_picker_key, accounts_opened, item_key, item_opened, item_target, next_source,
    notif_target, picker_moves_down, picker_opened, prev_source, source_chosen,
    source_picker_key,
};
use vstd::prelude::*;

verus! {

/// The key that was pressed.
#[derive(Debug, Clone, Copy, PartialEq, Eq, Structural)]
pub enum KeyCode {
    Char(char),
    Esc,
    Backspace,
    Enter,
    Up,
    Down,
    Home,
    End,
    PageUp,
    PageDown,
    Tab,
    BackTab,
    Other,
}

/// A key press: the key, and whether Control was held.
#[derive(Debug, Clone, Copy, PartialEq, Eq, Structural)]
pub struct KeyPress {
    pub code: KeyCode,
    pub ctrl: bool,
}

/// The work that a key press leaves to the caller.
pub enum Effect {
    Nothing,
    /// Show this theme.
    ShowTheme(Theme),
    /// Save this theme name as the configured one.
    SaveTheme(String),
    /// Fetch the repositories of a source.
    FetchRepos(RepoFetch),
    /// Fetch what the screen of the repository just opened shows.
    FetchRepoScreen(RepoFetches),
    /// Run a repository search with these `gh` arguments.
    Search(Vec<String>),
    /// Open this web page.
    OpenUrl(String),
    /// Mark the notification thread with this id as read.
    MarkRead(String),
    /// List the accounts of the `gh` tool for the account picker, tagged with
    /// this generation.
    ListAccounts(u64),
    /// Make this account the active one.
    SwitchAccount(SwitchRequest),
    /// Fetch an issue or pull request with these `gh` arguments.
    FetchItem(Vec<String>),
    /// Fetch the diff of a pull request with these `gh` arguments.
    FetchDiff(Vec<String>),
}

/// Who takes the key: the help overlay, the theme picker, a filter or the
/// search query being typed, or the screen itself.
#[derive(Debug, Clone, Copy, PartialEq, Eq, Structural)]
pub enum KeyMode {
    ThemePicker,
    ListsFilter,
    NotifFilter,
    DetailFilter,
    RepoFilter,
    SearchEdit,
    Normal,
}

/// Who takes a key once the help and the actions overlay are closed, in this
/// order: the theme picker, the filter of the lists, of the notifications, of
/// a repository's screen, of the repositories, the search query, else the
/// screen.
pub open spec fn key_mode(v: AppView) -> KeyMode {
    if v.show_theme_picker {
        KeyMode::ThemePicker
    } else if v.screen == Screen::Home && v.tab == Tab::Lists && v.lists_view.filtering {
        KeyMode::ListsFilter
    } else if v.screen == Screen::Home && v.tab == Tab::Notifications && v.notif_list.filtering {
        KeyMode::NotifFilter
    } else if v.screen == Screen::RepoDetail && (v.repo_detail matches Some(d) && d.filtering) {
        KeyMode::DetailFilter
    } else if v.screen == Screen::Home && v.tab == Tab::Repos && v.repo_list.filtering {
        KeyMode::RepoFilter
    } else if v.screen == Screen::Home && v.tab == Tab::Search && v.search.editing {
        KeyMode::SearchEdit
    } else {
        KeyMode::Normal
    }
}

/// The move of the selection that a key asks for: `j`/Down, `k`/Up,
/// `g`/Home, `G`/End, PageDown or Control+`f`, PageUp or Control+`b`.
pub open spec fn nav_of(k: KeyPress) -> Option<Nav> {
    if k.code == KeyCode::Char('j') || k.code == KeyCode::Down {
        Some(Nav::Down)
    } else if k.code == KeyCode::Char('k') || k.code == KeyCode::Up {
        Some(Nav::Up)
    } else if k.code == KeyCode::Char('g') || k.code == KeyCode::Home {
        Some(Nav::First)
    } else if k.code == KeyCode::Char('G') || k.code == KeyCode::End {
        Some(Nav::Last)
    } else if k.code == KeyCode::PageDown || (k.code == KeyCode::Char('f') && k.ctrl) {
        Some(Nav::PageDown)
    } else if k.code == KeyCode::PageUp || (k.code == KeyCode::Char('b') && k.ctrl) {
        Some(Nav::PageUp)
    } else {
        None
    }
}

/// A text without its last character, if it has one.
pub open spec fn dropped(s: Seq<char>) -> Seq<char> {
    if s.len() > 0 {
        s.drop_last()
    } else {
        s
    }
}

/// The position of the last theme (0 when there is none).
pub open spec fn last_theme(v: AppView) -> int {
    if v.themes.len() > 0 {
        v.themes.len() - 1
    } else {
        0
    }
}

/// The theme that a key moves the picker to, if it is a move.
pub open spec fn theme_target(v: AppView, k: KeyPress) -> Option<int> {
    if k.code == KeyCode::Char('j') || k.code == KeyCode::Down {
        Some(
            if v.theme_index + 1 <= last_theme(v) {
                v.theme_index + 1
            } else {
                last_theme(v)
            },
        )
    } else if k.code == KeyCode::Char('k') || k.code == KeyCode::Up {
        Some(
            if v.theme_index > 0 {
                v.theme_index - 1
            } else {
                0
            },
        )
    } else if k.code == KeyCode::Char('g') || k.code == KeyCode::Home {
        Some(0)
    } else if k.code == KeyCode::Char('G') || k.code == KeyCode::End {
        Some(last_theme(v))
    } else {
        None
    }
}

/// The keys that close the theme picker without keeping the selected theme.
pub open spec fn is_theme_cancel(k: KeyPress) -> bool {
    k.code == KeyCode::Esc || k.code == KeyCode::Char('q') || k.code == KeyCode::Char('t')
}

/// A key in the theme picker: a move selects and shows a theme (when there is
/// one at the target); Enter keeps the selected theme, to be saved; Esc, `q`
/// or `t` go back to the theme shown before; both close the picker.
pub open spec fn theme_picker_key(v: AppView, k: KeyPress, w: AppView, e: Effect) -> bool {
    match theme_target(v, k) {
        Some(i) => if i < v.themes.len() {
            w == (AppView { theme_index: i as usize, ..v }) && (e matches Effect::ShowTheme(t)
                && t == v.themes[i].1)
        } else {
            w == v && e is Nothing
        },
        None => if k.code == KeyCode::Enter {
            w == (AppView { show_theme_picker: false, ..v }) && (e matches Effect::SaveTheme(n)
                && n@ == v.themes[v.theme_index as int].0@)
        } else if is_theme_cancel(k) {
            w == (AppView {
                theme_index: v.original_theme_index,
                show_theme_picker: false,
                ..v
            }) && (e matches Effect::ShowTheme(t) && t == v.themes[v.original_theme_index as int].1)
        } else {
            w == v && e is Nothing
        },
    }
}

/// A key while the filter of the lists is typed: Esc drops it, Backspace
/// removes a character, Enter stops typing, a character is added.
pub open spec fn lists_filter_key(l: ListsViewView, code: KeyCode) -> ListsViewView {
    match code {
        KeyCode::Esc => lists_view::refiltered(
            ListsViewView { filter: Seq::empty(), filtering: false, ..l },
        ),
        KeyCode::Backspace => lists_view::refiltered(ListsViewView { filter: dropped(l.filter), ..l }),
        KeyCode::Enter => ListsViewView { filtering: false, ..l },
        KeyCode::Char(c) => lists_view::refiltered(ListsViewView { filter: l.filter.push(c), ..l }),
        _ => l,
    }
}

/// A key while the filter of the notifications is typed (as for the lists).
pub open spec fn notif_filter_key(l: NotifListView, code: KeyCode) -> NotifListView {
    match code {
        KeyCode::Esc => notif_list::refiltered(
            NotifListView { filter: Seq::empty(), filtering: false, ..l },
        ),
        KeyCode::Backspace => notif_list::refiltered(NotifListView { filter: dropped(l.filter), ..l }),
        KeyCode::Enter => NotifListView { filtering: false, ..l },
        KeyCode::Char(c) => notif_list::refiltered(NotifListView { filter: l.filter.push(c), ..l }),
        _ => l,
    }
}

/// A key while the filter of a repository's screen is typed (as for the
/// lists).
pub open spec fn detail_filter_key(d: RepoDetailViewView, code: KeyCode) -> RepoDetailViewView {
    match code {
        KeyCode::Esc => repo_detail::refiltered(
            RepoDetailViewView { filter: Seq::empty(), filtering: false, ..d },
        ),
        KeyCode::Backspace => repo_detail::refiltered(
            RepoDetailViewView { filter: dropped(d.filter), ..d },
        ),
        KeyCode::Enter => RepoDetailViewView { filtering: false, ..d },
        KeyCode::Char(c) => repo_detail::refiltered(
            RepoDetailViewView { filter: d.filter.push(c), ..d },
        ),
        _ => d,
    }
}

/// A key while the filter of the repositories is typed (as for the lists).
pub open spec fn repo_filter_key(l: RepoListView, code: KeyCode) -> RepoListView {
    match code {
        KeyCode::Esc => repo_list::refiltered(
            RepoListView { filter: Seq::empty(), filtering: false, ..l },
        ),
        KeyCode::Backspace => repo_list::refiltered(RepoListView { filter: dropped(l.filter), ..l }),
        KeyCode::Enter => RepoListView { filtering: false, ..l },
        KeyCode::Char(c) => repo_list::refiltered(RepoListView { filter: l.filter.push(c), ..l }),
        _ => l,
    }
}

/// The work of loading source `s` into list `l`: a fetch, unless the cache
/// holds what the source gave.
pub open spec fn fetch_effect(e: Effect, l: RepoListView, s: repo_list::RepoSource) -> bool {
    match cache_lookup(l.cache, s) {
        Some(_) => e is Nothing,
        None => e matches Effect::FetchRepos(f) && fetch_for(f, s, l.orgs),
    }
}

/// Tab (`forward`) or Shift+Tab from `v`.
pub open spec fn tab_key(v: AppView, forward: bool, w: AppView, e: Effect) -> bool {
    if forward {
        w == next_tab_state(v) && match next_tab_load(v) {
            Some(s) => fetch_effect(e, v.repo_list, s),
            None => e is Nothing,
        }
    } else {
        w == prev_tab_state(v) && match prev_tab_load(v) {
            Some(s) => fetch_effect(e, v.repo_list, s),
            None => e is Nothing,
        }
    }
}

/// The browser with the search no longer being typed.
pub open spec fn search_done(v: AppView) -> AppView {
    AppView { search: SearchViewView { editing: false, ..v.search }, ..v }
}

/// A key while the search query is typed: Esc stops typing; Backspace and a
/// character edit the query; Enter stops typing and runs the search unless
/// the query is blank; Tab and Shift+Tab stop typing and change the section.
pub open spec fn search_edit_key(v: AppView, k: KeyPress, w: AppView, e: Effect) -> bool {
    let s = v.search;
    match k.code {
        KeyCode::Esc => w == search_done(v) && e is Nothing,
        KeyCode::Backspace => w == (AppView {
            search: SearchViewView { query: dropped(s.query), ..s },
            ..v
        }) && e is Nothing,
        KeyCode::Char(c) => w == (AppView { search: SearchViewView { query: s.query.push(c), ..s }, ..v })
            && e is Nothing,
        KeyCode::Enter => if trim(s.query).len() == 0 {
            w == search_done(v) && e is Nothing
        } else {
            w == (AppView {
                search: SearchViewView {
                    editing: false,
                    loading: true,
                    error: None,
                    searched: true,
                    ..s
                },
                ..v
            }) && (e matches Effect::Search(a) && views(a@) == gh::search_repos_args(s.query, 30))
        },
        KeyCode::Tab => tab_key(search_done(v), true, w, e),
        KeyCode::BackTab => tab_key(search_done(v), false, w, e),
        _ => w == v && e is Nothing,
    }
}

/// The keys that work on every screen: `q`, Control+`c`, `?`, `a`, `A`,
/// `t`, `o`, Esc and Backspace.
pub open spec fn is_global(k: KeyPress) -> bool {
    ||| k.code == KeyCode::Char('q')
    ||| (k.code == KeyCode::Char('c') && k.ctrl)
    ||| k.code == KeyCode::Char('?')
    ||| k.code == KeyCode::Char('a')
    ||| k.code == KeyCode::Char('A')
    ||| k.code == KeyCode::Char('t')
    ||| k.code == KeyCode::Char('o')
    ||| k.code == KeyCode::Esc
    ||| k.code == KeyCode::Backspace
}

/// Esc or Backspace: on a repository's screen, drops its filter, else goes
/// back; on the home screen, drops the filter of the repositories, of the
/// lists or of the notifications, or goes back from a list to the names.
pub open spec fn escaped(v: AppView) -> AppView {
    if v.screen == Screen::RepoDetail && (v.repo_detail matches Some(d) && d.filter.len() > 0) {
        AppView {
            repo_detail: Some(
                repo_detail::refiltered(
                    RepoDetailViewView {
                        filter: Seq::empty(),
                        filtering: false,
                        ..v.repo_detail->0
                    },
                ),
            ),
            ..v
        }
    } else if v.screen != Screen::Home {
        went_back(v)
    } else if v.tab == Tab::Repos && v.repo_list.filter.len() > 0 {
        AppView {
            repo_list: repo_list::refiltered(RepoListView { filter: Seq::empty(), ..v.repo_list }),
            ..v
        }
    } else if v.tab == Tab::Lists && v.lists_view.filter.len() > 0 {
        AppView {
            lists_view: lists_view::refiltered(
                ListsViewView { filter: Seq::empty(), filtering: false, ..v.lists_view },
            ),
            ..v
        }
    } else if v.tab == Tab::Lists && v.lists_view.mode == lists_view::ListsMode::Repos {
        AppView {
            lists_view: ListsViewView {
                mode: lists_view::ListsMode::Names,
                filter: Seq::empty(),
                filtering: false,
                ..v.lists_view
            },
            ..v
        }
    } else if v.tab == Tab::Notifications && v.notif_list.filter.len() > 0 {
        AppView {
            notif_list: notif_list::refiltered(
                NotifListView { filter: Seq::empty(), filtering: false, ..v.notif_list },
            ),
            ..v
        }
    } else {
        v
    }
}

/// A key that works on every screen: `q` quits from the home screen and goes
/// back elsewhere; Control+`c` quits; `?` shows the help; `a` shows the
/// actions overlay; `A` shows the account picker, whose accounts the caller
/// lists; `t` opens the theme picker; `o` opens the web page of
/// what is selected; Esc and Backspace see `escaped`.
pub open spec fn global_key(v: AppView, k: KeyPress, w: AppView, e: Effect) -> bool {
    if k.code == KeyCode::Char('q') {
        e is Nothing && w == if v.screen == Screen::Home {
            AppView { should_quit: true, ..v }
        } else {
            went_back(v)
        }
    } else if k.code == KeyCode::Char('c') && k.ctrl {
        e is Nothing && w == (AppView { should_quit: true, ..v })
    } else if k.code == KeyCode::Char('?') {
        e is Nothing && w == (AppView { show_help: true, ..v })
    } else if k.code == KeyCode::Char('a') {
        e is Nothing && w == (AppView { show_actions: true, ..v })
    } else if k.code == KeyCode::Char('A') {
        let p = accounts_opened(v.account_picker);
        w == (AppView { account_picker: p, ..v }) && (e matches Effect::ListAccounts(g) && g
            == p.generation)
    } else if k.code == KeyCode::Char('t') {
        e is Nothing && w == (AppView {
            original_theme_index: v.theme_index,
            show_theme_picker: true,
            ..v
        })
    } else if k.code == KeyCode::Char('o') {
        w == v && match open_target(v) {
            Some(u) => e matches Effect::OpenUrl(s) && s@ == u,
            None => e is Nothing,
        }
    } else {
        e is Nothing && w == escaped(v)
    }
}

/// The home screen after a move of the selection of the current section (the
/// search results only move up and down).
pub open spec fn home_nav(v: AppView, n: Nav, page: usize) -> AppView {
    match v.tab {
        Tab::Repos => AppView {
            repo_list: RepoListView {
                state: navigated(v.repo_list.state, v.repo_list.filtered.len(), n, page as nat),
                ..v.repo_list
            },
            ..v
        },
        Tab::Lists => AppView {
            lists_view: with_selection(
                v.lists_view,
                navigated(
                    current_selection(v.lists_view),
                    current_len(v.lists_view),
                    n,
                    page as nat,
                ),
            ),
            ..v
        },
        Tab::Search => if n == Nav::Down || n == Nav::Up {
            AppView {
                search: SearchViewView {
                    state: navigated(v.search.state, v.search.results.len(), n, page as nat),
                    ..v.search
                },
                ..v
            }
        } else {
            v
        },
        Tab::Notifications => AppView {
            notif_list: NotifListView {
                state: navigated(v.notif_list.state, v.notif_list.filtered.len(), n, page as nat),
                ..v.notif_list
            },
            ..v
        },
    }
}

/// The home screen with typing started: the filter of the current section,
/// or the search query.
pub open spec fn typing_started(v: AppView) -> AppView {
    match v.tab {
        Tab::Repos => AppView { repo_list: RepoListView { filtering: true, ..v.repo_list }, ..v },
        Tab::Lists => AppView { lists_view: ListsViewView { filtering: true, ..v.lists_view }, ..v },
        Tab::Search => AppView { search: SearchViewView { editing: true, ..v.search }, ..v },
        Tab::Notifications => AppView {
            notif_list: NotifListView { filtering: true, ..v.notif_list },
            ..v
        },
    }
}

/// A key on the home screen: the moves of the selection; `m` marks the
/// selected notification as read; `/` starts typing; `s` shows the source
/// picker; on the repositories `]` and `[` show the next and the previous
/// source; Enter opens what is selected (on the notifications, the issue
/// or pull request it is about); Tab and Shift+Tab change the
/// section.
pub open spec fn home_key(v: AppView, k: KeyPress, page: usize, w: AppView, e: Effect) -> bool {
    match nav_of(k) {
        Some(n) => w == home_nav(v, n, page) && e is Nothing,
        None => if k.code == KeyCode::Char('m') && v.tab == Tab::Notifications {
            match selected_position(v.notif_list) {
                Some(i) => w == (AppView { notif_list: marked_read(v.notif_list, i), ..v }) && (e matches Effect::MarkRead(id) && id == v.notif_list.notifs[i].id),
                None => w == v && e is Nothing,
            }
        } else if k.code == KeyCode::Char('/') {
            w == typing_started(v) && e is Nothing
        } else if k.code == KeyCode::Char('s') {
            w == (AppView { source_picker: picker_opened(v.repo_list), ..v }) && e is Nothing
        } else if k.code == KeyCode::Char(']') && v.tab == Tab::Repos {
            let i = next_source(v.repo_list);
            w == source_chosen(v, i) && fetch_effect(e, v.repo_list, source_at(i))
        } else if k.code == KeyCode::Char('[') && v.tab == Tab::Repos {
            let i = prev_source(v.repo_list);
            w == source_chosen(v, i) && fetch_effect(e, v.repo_list, source_at(i))
        } else if k.code == KeyCode::Enter && v.tab == Tab::Notifications {
            match notif_target(v) {
                Some(t) => item_opened(v, t, w, e),
                None => w == v && e is Nothing,
            }
        } else if k.code == KeyCode::Enter {
            match enter_target(v) {
                Some(name) => w == entered(v, name) && (e matches Effect::FetchRepoScreen(f)
                    && fetches_for(f, name)),
                None => w == enter_without_repo(v) && e is Nothing,
            }
        } else if k.code == KeyCode::Tab {
            tab_key(v, true, w, e)
        } else if k.code == KeyCode::BackTab {
            tab_key(v, false, w, e)
        } else {
            w == v && e is Nothing
        },
    }
}

/// The lists of a repository's screen are shown (not the overview).
pub open spec fn shows_list(d: RepoDetailViewView) -> bool {
    d.tab == RepoTab::Issues || d.tab == RepoTab::PullRequests
}

/// A repository's screen after a key: on the lists the moves of the
/// selection and `/` to filter; on the overview the moves scroll (`d` and `u`
/// by ten lines); Tab and Shift+Tab change the tab.
pub open spec fn detail_after(d: RepoDetailViewView, k: KeyPress, page: usize) -> RepoDetailViewView {
    match nav_of(k) {
        Some(n) => if shows_list(d) {
            RepoDetailViewView {
                list_state: navigated(d.list_state, list_len(d), n, page as nat),
                ..d
            }
        } else {
            match n {
                Nav::Down => scrolled_down(d, 1),
                Nav::Up => scrolled_up(d, 1),
                Nav::First => RepoDetailViewView { scroll: 0, ..d },
                Nav::Last => scrolled_down(d, d.lines_count as u16),
                Nav::PageDown => scrolled_down(d, page as u16),
                Nav::PageUp => scrolled_up(d, page as u16),
            }
        },
        None => if k.code == KeyCode::Char('d') && !shows_list(d) {
            scrolled_down(d, 10)
        } else if k.code == KeyCode::Char('u') && !shows_list(d) {
            scrolled_up(d, 10)
        } else if k.code == KeyCode::Tab {
            on_tab(d, next_repo_tab(d.tab))
        } else if k.code == KeyCode::BackTab {
            on_tab(d, prev_repo_tab(d.tab))
        } else if k.code == KeyCode::Char('/') && shows_list(d) {
            RepoDetailViewView { filtering: true, ..d }
        } else {
            d
        },
    }
}

/// The keys that close the actions overlay and do nothing more: `a` and Esc.
pub open spec fn closes_actions(k: KeyPress) -> bool {
    k.code == KeyCode::Char('a') || k.code == KeyCode::Esc
}

/// What a key does, and the work it leaves: the source picker, then the
/// account picker, take every key while shown; any key closes the help; a key
/// closes the actions overlay, and unless it is `a` or Esc it then does what
/// it does without the overlay (see `mode_step`).
pub open spec fn key_step(v: AppView, k: KeyPress, page: usize, w: AppView, e: Effect) -> bool {
    if v.source_picker.visible {
        source_picker_key(v, k, w, e)
    } else if v.account_picker.visible {
        account_picker_key(v, k, w, e)
    } else if v.show_help {
        w == (AppView { show_help: false, ..v }) && e is Nothing
    } else if v.show_actions && closes_actions(k) {
        w == (AppView { show_actions: false, ..v }) && e is Nothing
    } else {
        mode_step(AppView { show_actions: false, ..v }, k, page, w, e)
    }
}

/// What a key does once the help and the actions overlay are closed: see
/// `key_mode` for who takes it.
pub open spec fn mode_step(v: AppView, k: KeyPress, page: usize, w: AppView, e: Effect) -> bool {
    match key_mode(v) {
        KeyMode::ThemePicker => theme_picker_key(v, k, w, e),
        KeyMode::ListsFilter => w == (AppView { lists_view: lists_filter_key(v.lists_view, k.code), ..v })
            && e is Nothing,
        KeyMode::NotifFilter => w == (AppView { notif_list: notif_filter_key(v.notif_list, k.code), ..v })
            && e is Nothing,
        KeyMode::DetailFilter => w == (AppView {
            repo_detail: Some(detail_filter_key(v.repo_detail->0, k.code)),
            ..v
        }) && e is Nothing,
        KeyMode::RepoFilter => w == (AppView { repo_list: repo_filter_key(v.repo_list, k.code), ..v })
            && e is Nothing,
        KeyMode::SearchEdit => search_edit_key(v, k, w, e),
        KeyMode::Normal => if is_global(k) {
            global_key(v, k, w, e)
        } else if v.screen == Screen::Home {
            home_key(v, k, page, w, e)
        } else if v.screen == Screen::RepoDetail {
            if k.code == KeyCode::Enter {
                match item_target(v) {
                    Some(t) => item_opened(v, t, w, e),
                    None => w == v && e is Nothing,
                }
            } else {
                e is Nothing && w == match v.repo_detail {
                    Some(d) => AppView { repo_detail: Some(detail_after(d, k, page)), ..v },
                    None => v,
                }
            }
        } else {
            item_key(v, k, page, w, e)
        },
    }
}

/// The counting that a key does stays within the integer types: the theme
/// positions, the sources (for Tab), the selection (for its moves) and the
/// scrolling of a repository's overview.
pub open spec fn key_fits(v: AppView, k: KeyPress, page: usize) -> bool {
    if v.source_picker.visible {
        picker_moves_down(v.source_picker, k) ==> v.source_picker.selected < usize::MAX
    } else if v.account_picker.visible {
        (k.code == KeyCode::Char('j') || k.code == KeyCode::Down) ==> v.account_picker.selected
            < usize::MAX
    } else if v.show_help || (v.show_actions && closes_actions(k)) {
        true
    } else {
        mode_fits(AppView { show_actions: false, ..v }, k, page)
    }
}

/// The counting of a key once the help and the actions overlay are closed
/// stays within the integer types.
pub open spec fn mode_fits(v: AppView, k: KeyPress, page: usize) -> bool {
    match key_mode(v) {
        KeyMode::ThemePicker => {
            &&& (k.code == KeyCode::Char('j') || k.code == KeyCode::Down) ==> v.theme_index
                < usize::MAX
            &&& k.code == KeyCode::Enter ==> v.theme_index < v.themes.len()
            &&& is_theme_cancel(k) ==> v.original_theme_index < v.themes.len()
        },
        KeyMode::SearchEdit => (k.code == KeyCode::Tab || k.code == KeyCode::BackTab) ==> sources_ok(
            v.repo_list,
        ),
        KeyMode::Normal => if is_global(k) {
            true
        } else if v.screen == Screen::Home {
            &&& is_source_key(k) ==> sources_ok(v.repo_list)
            &&& nav_of(k) matches Some(n) ==> match v.tab {
                Tab::Repos => nav_fits(v.repo_list.state, n, page as nat),
                Tab::Lists => nav_fits(current_selection(v.lists_view), n, page as nat),
                Tab::Search => nav_fits(v.search.state, n, page as nat),
                Tab::Notifications => nav_fits(v.notif_list.state, n, page as nat),
            }
        } else if v.screen == Screen::RepoDetail {
            v.repo_detail matches Some(d) ==> if shows_list(d) {
                nav_of(k) matches Some(n) ==> nav_fits(d.list_state, n, page as nat)
            } else {
                &&& nav_of(k) == Some(Nav::Down) ==> d.scroll + 1 <= u16::MAX
                &&& nav_of(k) == Some(Nav::Last) ==> d.scroll + (d.lines_count as u16) <= u16::MAX
                &&& nav_of(k) == Some(Nav::PageDown) ==> d.scroll + (page as u16) <= u16::MAX
                &&& k.code == KeyCode::Char('d') ==> d.scroll + 10 <= u16::MAX
            }
        } else {
            true
        },
        _ => true,
    }
}

/// The keys of the home screen that count the sources: Tab, Shift+Tab, `s`,
/// `[` and `]`.
pub open spec fn is_source_key(k: KeyPress) -> bool {
    ||| k.code == KeyCode::Tab
    ||| k.code == KeyCode::BackTab
    ||| k.code == KeyCode::Char('s')
    ||| k.code == KeyCode::Char('[')
    ||| k.code == KeyCode::Char(']')
}

/// The move of the selection that a key asks for.
pub fn nav_key(key: KeyPress) -> (n: Option<Nav>)
    ensures
        n == nav_of(key),
{
    match key.code {
        KeyCode::Char('j') | KeyCode::Down => Some(Nav::Down),
        KeyCode::Char('k') | KeyCode::Up => Some(Nav::Up),
        KeyCode::Char('g') | KeyCode::Home => Some(Nav::First),
        KeyCode::Char('G') | KeyCode::End => Some(Nav::Last),
        KeyCode::PageDown => Some(Nav::PageDown),
        KeyCode::PageUp => Some(Nav::PageUp),
        KeyCode::Char('f') if key.ctrl => Some(Nav::PageDown),
        KeyCode::Char('b') if key.ctrl => Some(Nav::PageUp),
        _ => None,
    }
}

/// Whether a key works on every screen.
pub fn global(key: KeyPress) -> (r: bool)
    ensures
        r == is_global(key),
{
    match key.code {
        KeyCode::Char('q') | KeyCode::Char('?') | KeyCode::Char('a') | KeyCode::Char('A')
        | KeyCode::Char('t') | KeyCode::Char('o') | KeyCode::Esc | KeyCode::Backspace => true,
        KeyCode::Char('c') => key.ctrl,
        _ => false,
    }
}

fn pushed(s: &String, c: char) -> (r: String)
    ensures
        r@ == s@.push(c),
{
    let mut v = chars_of(s.as_str());
    v.push(c);
    string_of(&v)
}

fn popped(s: &String) -> (r: String)
    ensures
        r@ == dropped(s@),
{
    let mut v = chars_of(s.as_str());
    if v.len() > 0 {
        v.pop();
    }
    string_of(&v)
}

fn fits_u16(a: u16, b: u16) -> (r: bool)
    ensures
        r == (a + b <= u16::MAX),
{
    (a as u32) + (b as u32) <= 65535
}

fn fits_nav(sel: Option<usize>, n: Nav, page: usize) -> (r: bool)
    ensures
        r == nav_fits(sel, n, page as nat),
{
    match sel {
        Some(i) => match n {
            Nav::Down => i < usize::MAX,
            Nav::PageDown => page <= usize::MAX - i,
            _ => true,
        },
        None => true,
    }
}

impl RepoDetailView {
    fn navigate(&mut self, n: Nav, page: usize)
        requires
            nav_fits(old(self).list_state, n, page as nat),
        ensures
            final(self)@ == (RepoDetailViewView {
                list_state: navigated(old(self).list_state, list_len(old(self)@), n, page as nat),
                ..old(self)@
            }),
    {
        match n {
            Nav::Down => self.move_down(),
            Nav::Up => self.move_up(),
            Nav::First => self.move_to_first(),
            Nav::Last => self.move_to_last(),
            Nav::PageDown => self.page_down_list(page),
            Nav::PageUp => self.page_up_list(page),
        }
    }

    fn scroll_by(&mut self, n: Nav, page: usize)
        requires
            n == Nav::Down ==> old(self).scroll + 1 <= u16::MAX,
            n == Nav::Last ==> old(self).scroll + (old(self).lines_count as u16) <= u16::MAX,
            n == Nav::PageDown ==> old(self).scroll + (page as u16) <= u16::MAX,
        ensures
            final(self)@ == match n {
                Nav::Down => scrolled_down(old(self)@, 1),
                Nav::Up => scrolled_up(old(self)@, 1),
                Nav::First => RepoDetailViewView { scroll: 0, ..old(self)@ },
                Nav::Last => scrolled_down(old(self)@, old(self).lines_count as u16),
                Nav::PageDown => scrolled_down(old(self)@, page as u16),
                Nav::PageUp => scrolled_up(old(self)@, page as u16),
            },
    {
        #[verifier::truncate]
        let lines = self.lines_count as u16;
        #[verifier::truncate]
        let amount = page as u16;
        match n {
            Nav::Down => self.scroll_down(1),
            Nav::Up => self.scroll_up(1),
            Nav::First => self.scroll = 0,
            Nav::Last => self.scroll_down(lines),
            Nav::PageDown => self.scroll_down(amount),
            Nav::PageUp => self.scroll_up(amount),
        }
    }

    fn other_key(&mut self, key: KeyPress)
        requires
            key.code == KeyCode::Char('d') && !shows_list(old(self)@) ==> old(self).scroll + 10
                <= u16::MAX,
            nav_of(key) is None,
        ensures
            final(self)@ == detail_after(old(self)@, key, 0),
    {
        let is_list = self.tab == RepoTab::Issues || self.tab == RepoTab::PullRequests;
        if key.code == KeyCode::Char('d') && !is_list {
            self.scroll_down(10);
        } else if key.code == KeyCode::Char('u') && !is_list {
            self.scroll_up(10);
        } else if key.code == KeyCode::Tab {
            self.next_tab();
        } else if key.code == KeyCode::BackTab {
            self.prev_tab();
        } else if key.code == KeyCode::Char('/') && is_list {
            self.filtering = true;
        }
    }

    fn take_key(&mut self, key: KeyPress, page: usize)
        requires
            if shows_list(old(self)@) {
                nav_of(key) matches Some(n) ==> nav_fits(old(self).list_state, n, page as nat)
            } else {
                &&& nav_of(key) == Some(Nav::Down) ==> old(self).scroll + 1 <= u16::MAX
                &&& nav_of(key) == Some(Nav::Last) ==> old(self).scroll + (old(self).lines_count as u16)
                    <= u16::MAX
                &&& nav_of(key) == Some(Nav::PageDown) ==> old(self).scroll + (page as u16) <= u16::MAX
                &&& key.code == KeyCode::Char('d') ==> old(self).scroll + 10 <= u16::MAX
            },
        ensures
            final(self)@ == detail_after(old(self)@, key, page),
    {
        let is_list = self.tab == RepoTab::Issues || self.tab == RepoTab::PullRequests;
        match nav_key(key) {
            Some(n) => if is_list {
                self.navigate(n, page);
            } else {
                self.scroll_by(n, page);
            },
            None => self.other_key(key),
        }
    }
}

impl App {
    /// Who takes the next key.
    pub fn key_mode(&self) -> (m: KeyMode)
        ensures
            m == key_mode(self@),
    {
        if self.show_theme_picker {
            KeyMode::ThemePicker
        } else if self.screen == Screen::Home && self.tab == Tab::Lists && self.lists_view.filtering {
            KeyMode::ListsFilter
        } else if self.screen == Screen::Home && self.tab == Tab::Notifications
            && self.notif_list.filtering {
            KeyMode::NotifFilter
        } else if self.screen == Screen::RepoDetail && match &self.repo_detail {
            Some(d) => d.filtering,
            None => false,
        } {
            KeyMode::DetailFilter
        } else if self.screen == Screen::Home && self.tab == Tab::Repos && self.repo_list.filtering {
            KeyMode::RepoFilter
        } else if self.screen == Screen::Home && self.tab == Tab::Search && self.search.editing {
            KeyMode::SearchEdit
        } else {
            KeyMode::Normal
        }
    }

    fn sources_fit(&self) -> (r: bool)
        ensures
            r == sources_ok(self@.repo_list),
    {
        self.repo_list.orgs.len() <= usize::MAX - 2 && match self.repo_list.source {
            repo_list::RepoSource::Org(i) => i <= usize::MAX - 3,
            _ => true,
        }
    }

    /// Whether the counting that `key` does stays within the integer types
    /// (see `key_fits`); `handle_key` takes the keys for which it does.
    pub fn key_fits(&self, key: KeyPress, page_size: usize) -> (r: bool)
        ensures
            r == key_fits(self@, key, page_size),
    {
        if self.source_picker.visible {
            let down = match key.code {
                KeyCode::Down => true,
                KeyCode::Char('j') => !self.source_picker.filtering,
                _ => false,
            };
            return !down || self.source_picker.selected < usize::MAX;
        }
        if self.account_picker.visible {
            let down = match key.code {
                KeyCode::Char('j') | KeyCode::Down => true,
                _ => false,
            };
            return !down || self.account_picker.selected < usize::MAX;
        }
        let closes = match key.code {
            KeyCode::Char('a') | KeyCode::Esc => true,
            _ => false,
        };
        if self.show_help || (self.show_actions && closes) {
            true
        } else {
            self.mode_fits(key, page_size)
        }
    }

    fn mode_fits(&self, key: KeyPress, page_size: usize) -> (r: bool)
        ensures
            r == mode_fits(AppView { show_actions: false, ..self@ }, key, page_size),
    {
        match self.key_mode() {
            KeyMode::ThemePicker => {
                let down_ok = match key.code {
                    KeyCode::Char('j') | KeyCode::Down => self.theme_index < usize::MAX,
                    _ => true,
                };
                let enter_ok = match key.code {
                    KeyCode::Enter => self.theme_index < self.themes.len(),
                    _ => true,
                };
                let cancel_ok = match key.code {
                    KeyCode::Esc | KeyCode::Char('q') | KeyCode::Char('t') => self.original_theme_index
                        < self.themes.len(),
                    _ => true,
                };
                down_ok && enter_ok && cancel_ok
            },
            KeyMode::SearchEdit => match key.code {
                KeyCode::Tab | KeyCode::BackTab => self.sources_fit(),
                _ => true,
            },
            KeyMode::Normal => {
                if global(key) {
                    true
                } else if self.screen == Screen::Home {
                    let tab_ok = match key.code {
                        KeyCode::Tab | KeyCode::BackTab | KeyCode::Char('s') | KeyCode::Char('[')
                        | KeyCode::Char(']') => self.sources_fit(),
                        _ => true,
                    };
                    let nav_ok = match nav_key(key) {
                        Some(n) => match self.tab {
                            Tab::Repos => fits_nav(self.repo_list.state, n, page_size),
                            Tab::Lists => fits_nav(
                                match self.lists_view.mode {
                                    lists_view::ListsMode::Names => self.lists_view.name_state,
                                    lists_view::ListsMode::Repos => self.lists_view.repo_state,
                                },
                                n,
                                page_size,
                            ),
                            Tab::Search => fits_nav(self.search.state, n, page_size),
                            Tab::Notifications => fits_nav(self.notif_list.state, n, page_size),
                        },
                        None => true,
                    };
                    tab_ok && nav_ok
                } else if self.screen == Screen::ItemDetail {
                    true
                } else {
                    match &self.repo_detail {
                        Some(d) => {
                            if d.tab == RepoTab::Issues || d.tab == RepoTab::PullRequests {
                                match nav_key(key) {
                                    Some(n) => fits_nav(d.list_state, n, page_size),
                                    None => true,
                                }
                            } else {
                                #[verifier::truncate]
                                let lines = d.lines_count as u16;
                                #[verifier::truncate]
                                let amount = page_size as u16;
                                let n = nav_key(key);
                                let down_ok = match n {
                                    Some(Nav::Down) => fits_u16(d.scroll, 1),
                                    Some(Nav::Last) => fits_u16(d.scroll, lines),
                                    Some(Nav::PageDown) => fits_u16(d.scroll, amount),
                                    _ => true,
                                };
                                let d_ok = match key.code {
                                    KeyCode::Char('d') => fits_u16(d.scroll, 10),
                                    _ => true,
                                };
                                down_ok && d_ok
                            }
                        },
                        None => true,
                    }
                }
            },
            _ => true,
        }
    }

    fn theme_key(&mut self, key: KeyPress) -> (e: Effect)
        requires
            (key.code == KeyCode::Char('j') || key.code == KeyCode::Down) ==> old(self).theme_index
                < usize::MAX,
            key.code == KeyCode::Enter ==> old(self).theme_index < old(self).themes.len(),
            is_theme_cancel(key) ==> old(self).original_theme_index < old(self).themes.len(),
        ensures
            theme_picker_key(old(self)@, key, final(self)@, e),
    {
        let last = self.themes.len().saturating_sub(1);
        let target: Option<usize> = match key.code {
            KeyCode::Char('j') | KeyCode::Down => Some(
                if self.theme_index + 1 <= last {
                    self.theme_index + 1
                } else {
                    last
                },
            ),
            KeyCode::Char('k') | KeyCode::Up => Some(self.theme_index.saturating_sub(1)),
            KeyCode::Char('g') | KeyCode::Home => Some(0),
            KeyCode::Char('G') | KeyCode::End => Some(last),
            _ => None,
        };
        match target {
            Some(i) => match self.theme_picker_select(i) {
                Some(t) => Effect::ShowTheme(t),
                None => Effect::Nothing,
            },
            None => match key.code {
                KeyCode::Enter => Effect::SaveTheme(self.theme_picker_confirm()),
                KeyCode::Esc | KeyCode::Char('q') | KeyCode::Char('t') => Effect::ShowTheme(
                    self.theme_picker_cancel(),
                ),
                _ => Effect::Nothing,
            },
        }
    }

    fn tab_fetch(&mut self, forward: bool) -> (e: Effect)
        requires
            sources_ok(old(self)@.repo_list),
        ensures
            tab_key(old(self)@, forward, final(self)@, e),
    {
        let fetch = if forward {
            self.next_tab()
        } else {
            self.prev_tab()
        };
        match fetch {
            Some(f) => Effect::FetchRepos(f),
            None => Effect::Nothing,
        }
    }

    fn search_key(&mut self, key: KeyPress) -> (e: Effect)
        requires
            (key.code == KeyCode::Tab || key.code == KeyCode::BackTab) ==> sources_ok(
                old(self)@.repo_list,
            ),
        ensures
            search_edit_key(old(self)@, key, final(self)@, e),
    {
        match key.code {
            KeyCode::Esc => {
                self.search.editing = false;
                Effect::Nothing
            },
            KeyCode::Backspace => {
                self.search.query = popped(&self.search.query);
                Effect::Nothing
            },
            KeyCode::Char(c) => {
                self.search.query = pushed(&self.search.query, c);
                Effect::Nothing
            },
            KeyCode::Enter => {
                self.search.editing = false;
                match self.search.search() {
                    Some(args) => Effect::Search(args),
                    None => Effect::Nothing,
                }
            },
            KeyCode::Tab => {
                self.search.editing = false;
                self.tab_fetch(true)
            },
            KeyCode::BackTab => {
                self.search.editing = false;
                self.tab_fetch(false)
            },
            _ => Effect::Nothing,
        }
    }

    fn escape(&mut self)
        ensures
            final(self)@ == escaped(old(self)@),
    {
        let detail_filtered = self.screen == Screen::RepoDetail && match &self.repo_detail {
            Some(d) => !d.filter.as_str().is_empty(),
            None => false,
        };
        if detail_filtered {
            if let Some(d) = &mut self.repo_detail {
                d.clear_filter();
            }
        } else if self.screen != Screen::Home {
            self.go_back();
        } else if self.tab == Tab::Repos && !self.repo_list.filter.as_str().is_empty() {
            self.repo_list.filter = String::new();
            self.repo_list.refilter();
        } else if self.tab == Tab::Lists && !self.lists_view.filter.as_str().is_empty() {
            self.lists_view.on_filter_clear();
        } else if self.tab == Tab::Lists && self.lists_view.is_browsing_repos() {
            self.lists_view.go_back();
        } else if self.tab == Tab::Notifications && !self.notif_list.filter.as_str().is_empty() {
            self.notif_list.clear_filter();
        }
    }

    fn global_key(&mut self, key: KeyPress) -> (e: Effect)
        requires
            is_global(key),
        ensures
            global_key(old(self)@, key, final(self)@, e),
    {
        match key.code {
            KeyCode::Char('q') => {
                if self.screen == Screen::Home {
                    self.should_quit = true;
                } else {
                    self.go_back();
                }
                Effect::Nothing
            },
            KeyCode::Char('c') if key.ctrl => {
                self.should_quit = true;
                Effect::Nothing
            },
            KeyCode::Char('?') => {
                self.show_help = true;
                Effect::Nothing
            },
            KeyCode::Char('a') => {
                self.show_actions = true;
                Effect::Nothing
            },
            KeyCode::Char('A') => Effect::ListAccounts(self.account_picker.open()),
            KeyCode::Char('t') => {
                self.open_theme_picker();
                Effect::Nothing
            },
            KeyCode::Char('o') => match self.on_open() {
                Some(url) => Effect::OpenUrl(url),
                None => Effect::Nothing,
            },
            _ => {
                self.escape();
                Effect::Nothing
            },
        }
    }

    #[verifier::rlimit(40)]
    fn home_navigate(&mut self, n: Nav, page: usize)
        requires
            match old(self).tab {
                Tab::Repos => nav_fits(old(self).repo_list.state, n, page as nat),
                Tab::Lists => nav_fits(current_selection(old(self)@.lists_view), n, page as nat),
                Tab::Search => nav_fits(old(self).search.state, n, page as nat),
                Tab::Notifications => nav_fits(old(self).notif_list.state, n, page as nat),
            },
        ensures
            final(self)@ == home_nav(old(self)@, n, page),
    {
        match self.tab {
            Tab::Repos => match n {
                Nav::Down => self.repo_list.move_down(),
                Nav::Up => self.repo_list.move_up(),
                Nav::First => self.repo_list.move_to_first(),
                Nav::Last => self.repo_list.move_to_last(),
                Nav::PageDown => self.repo_list.page_down(page),
                Nav::PageUp => self.repo_list.page_up(page),
            },
            Tab::Lists => match n {
                Nav::Down => self.lists_view.move_down(),
                Nav::Up => self.lists_view.move_up(),
                Nav::First => self.lists_view.move_to_first(),
                Nav::Last => self.lists_view.move_to_last(),
                Nav::PageDown => self.lists_view.page_down(page),
                Nav::PageUp => self.lists_view.page_up(page),
            },
            Tab::Search => match n {
                Nav::Down => self.search.move_down(),
                Nav::Up => self.search.move_up(),
                _ => {},
            },
            Tab::Notifications => match n {
                Nav::Down => self.notif_list.move_down(),
                Nav::Up => self.notif_list.move_up(),
                Nav::First => self.notif_list.move_to_first(),
                Nav::Last => self.notif_list.move_to_last(),
                Nav::PageDown => self.notif_list.page_down(page),
                Nav::PageUp => self.notif_list.page_up(page),
            },
        }
    }

    fn home_key(&mut self, key: KeyPress, page: usize) -> (e: Effect)
        requires
            is_source_key(key) ==> sources_ok(old(self)@.repo_list),
            nav_of(key) matches Some(n) ==> match old(self).tab {
                Tab::Repos => nav_fits(old(self).repo_list.state, n, page as nat),
                Tab::Lists => nav_fits(current_selection(old(self)@.lists_view), n, page as nat),
                Tab::Search => nav_fits(old(self).search.state, n, page as nat),
                Tab::Notifications => nav_fits(old(self).notif_list.state, n, page as nat),
            },
        ensures
            home_key(old(self)@, key, page, final(self)@, e),
    {
        match nav_key(key) {
            Some(n) => {
                self.home_navigate(n, page);
                Effect::Nothing
            },
            None => match key.code {
                KeyCode::Char('m') if self.tab == Tab::Notifications => {
                    match self.notif_list.mark_selected_read() {
                        Some(id) => Effect::MarkRead(id),
                        None => Effect::Nothing,
                    }
                },
                KeyCode::Char('/') => {
                    match self.tab {
                        Tab::Repos => self.repo_list.filtering = true,
                        Tab::Lists => self.lists_view.filtering = true,
                        Tab::Search => self.search.editing = true,
                        Tab::Notifications => self.notif_list.filtering = true,
                    }
                    Effect::Nothing
                },
                KeyCode::Char('s') => {
                    self.source_picker.open(&self.repo_list);
                    Effect::Nothing
                },
                KeyCode::Char(']') if self.tab == Tab::Repos => {
                    let total = self.repo_list.total_sources();
                    let i = self.repo_list.active_source_index();
                    let next = if i + 1 < total {
                        i + 1
                    } else {
                        0
                    };
                    self.choose_source(next)
                },
                KeyCode::Char('[') if self.tab == Tab::Repos => {
                    let total = self.repo_list.total_sources();
                    let i = self.repo_list.active_source_index();
                    let prev = if 0 < i && i - 1 < total {
                        i - 1
                    } else {
                        total - 1
                    };
                    self.choose_source(prev)
                },
                KeyCode::Enter if self.tab == Tab::Notifications => self.open_notification(),
                KeyCode::Enter => match self.on_enter() {
                    Some(f) => Effect::FetchRepoScreen(f),
                    None => Effect::Nothing,
                },
                KeyCode::Tab => self.tab_fetch(true),
                KeyCode::BackTab => self.tab_fetch(false),
                _ => Effect::Nothing,
            },
        }
    }

    /// Takes a key press (see `key_step`); `page_size` is the number of
    /// entries that a page move passes. The answer is the work left to the
    /// caller.
    pub fn handle_key(&mut self, key: KeyPress, page_size: usize) -> (e: Effect)
        requires
            key_fits(old(self)@, key, page_size),
        ensures
            key_step(old(self)@, key, page_size, final(self)@, e),
    {
        if self.source_picker.visible {
            return self.source_picker_key(key);
        }
        if self.account_picker.visible {
            return self.account_picker_key(key);
        }
        if self.show_help {
            self.show_help = false;
            return Effect::Nothing;
        }
        let closes = match key.code {
            KeyCode::Char('a') | KeyCode::Esc => true,
            _ => false,
        };
        if self.show_actions && closes {
            self.show_actions = false;
            return Effect::Nothing;
        }
        self.show_actions = false;
        self.take_key(key, page_size)
    }

    fn take_key(&mut self, key: KeyPress, page_size: usize) -> (e: Effect)
        requires
            mode_fits(old(self)@, key, page_size),
        ensures
            mode_step(old(self)@, key, page_size, final(self)@, e),
    {
        match self.key_mode() {
            KeyMode::ThemePicker => self.theme_key(key),
            KeyMode::ListsFilter => {
                match key.code {
                    KeyCode::Esc => self.lists_view.on_filter_clear(),
                    KeyCode::Backspace => self.lists_view.on_filter_backspace(),
                    KeyCode::Enter => self.lists_view.filtering = false,
                    KeyCode::Char(c) => self.lists_view.on_filter_key(c),
                    _ => {},
                }
                Effect::Nothing
            },
            KeyMode::NotifFilter => {
                match key.code {
                    KeyCode::Esc => self.notif_list.clear_filter(),
                    KeyCode::Backspace => self.notif_list.on_filter_backspace(),
                    KeyCode::Enter => self.notif_list.filtering = false,
                    KeyCode::Char(c) => self.notif_list.on_filter_key(c),
                    _ => {},
                }
                Effect::Nothing
            },
            KeyMode::DetailFilter => {
                if let Some(d) = &mut self.repo_detail {
                    match key.code {
                        KeyCode::Esc => d.clear_filter(),
                        KeyCode::Backspace => d.on_filter_backspace(),
                        KeyCode::Enter => d.filtering = false,
                        KeyCode::Char(c) => d.on_filter_key(c),
                        _ => {},
                    }
                }
                Effect::Nothing
            },
            KeyMode::RepoFilter => {
                match key.code {
                    KeyCode::Esc => {
                        self.repo_list.filtering = false;
                        self.repo_list.filter = String::new();
                        self.repo_list.refilter();
                    },
                    KeyCode::Backspace => {
                        self.repo_list.filter = popped(&self.repo_list.filter);
                        self.repo_list.refilter();
                    },
                    KeyCode::Enter => self.repo_list.filtering = false,
                    KeyCode::Char(c) => {
                        self.repo_list.filter = pushed(&self.repo_list.filter, c);
                        self.repo_list.refilter();
                    },
                    _ => {},
                }
                Effect::Nothing
            },
            KeyMode::SearchEdit => self.search_key(key),
            KeyMode::Normal => {
                if global(key) {
                    self.global_key(key)
                } else if self.screen == Screen::Home {
                    self.home_key(key, page_size)
                } else if self.screen == Screen::RepoDetail {
                    if key.code == KeyCode::Enter {
                        return self.open_item();
                    }
                    if let Some(d) = &mut self.repo_detail {
                        d.take_key(key, page_size);
                    }
                    Effect::Nothing
                } else {
                    self.item_key(key, page_size)
                }
            },
        }
    }
}

} // verus!
