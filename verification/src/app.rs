//! The browser as a whole: the home sections, the repository screen, the
//! screen of an issue or pull request, the pickers of sources, accounts and
//! themes.
use crate::gh;
use crate::text::decimal;
use crate::theme::Theme;
use crate::ui::account_picker::{AccountPicker, AccountPickerView};
use crate::ui::item_detail::ItemDetailView;
use crate::ui::lists_view::{lists_selected_repo, ListsMode, ListsView, ListsViewView};
use crate::ui::notif_list::{NotifList, NotifListView};
use crate::ui::repo_detail::{
    fetches_for, fresh_detail, on_tab, selected_issue, selected_pr, RepoDetailView,
    RepoDetailViewView, RepoFetches, RepoTab,
};
use crate::ui::repo_list::{
    after_load, cache_lookup, fetch_for, selected_index, source_at, source_index, RepoFetch,
    RepoList, RepoListView, RepoSource,
};
use crate::ui::search::{search_selected_repo, SearchView, SearchViewView};
use crate::ui::source_picker::{SourcePicker, SourcePickerView};
use vstd::prelude::*;

verus! {

/// The screens.
#[derive(Debug, Clone, Copy, PartialEq, Eq, Structural)]
pub enum Screen {
    Home,
    RepoDetail,
    ItemDetail,
}

/// The sections of the home screen.
#[derive(Debug, Clone, Copy, PartialEq, Eq, Structural)]
pub enum Tab {
    Repos,
    Lists,
    Search,
    Notifications,
}

/// The whole state of the browser.
pub struct App {
    pub screen: Screen,
    pub tab: Tab,
    pub repo_list: RepoList,
    pub repo_detail: Option<RepoDetailView>,
    pub item_detail: Option<ItemDetailView>,
    pub lists_view: ListsView,
    pub notif_list: NotifList,
    pub search: SearchView,
    pub selected_repo: Option<String>,
    pub context_repo: Option<String>,
    pub should_quit: bool,
    pub show_help: bool,
    pub show_actions: bool,
    pub tick: usize,
    pub show_theme_picker: bool,
    pub themes: Vec<(String, Theme)>,
    pub theme_index: usize,
    pub original_theme_index: usize,
    pub source_picker: SourcePicker,
    pub account_picker: AccountPicker,
}

/// What the browser holds.
#[verifier::ext_equal]
pub struct AppView {
    pub screen: Screen,
    pub tab: Tab,
    pub repo_list: RepoListView,
    pub repo_detail: Option<RepoDetailViewView>,
    pub item_detail: Option<ItemDetailView>,
    pub lists_view: ListsViewView,
    pub notif_list: NotifListView,
    pub search: SearchViewView,
    pub selected_repo: Option<Seq<char>>,
    pub context_repo: Option<Seq<char>>,
    pub should_quit: bool,
    pub show_help: bool,
    pub show_actions: bool,
    pub tick: usize,
    pub show_theme_picker: bool,
    pub themes: Seq<(String, Theme)>,
    pub theme_index: usize,
    pub original_theme_index: usize,
    pub source_picker: SourcePickerView,
    pub account_picker: AccountPickerView,
}

/// The view of an optional string.
pub open spec fn opt_view(s: Option<String>) -> Option<Seq<char>> {
    match s {
        Some(t) => Some(t@),
        None => None,
    }
}

impl View for App {
    type V = AppView;

    open spec fn view(&self) -> AppView {
        AppView {
            screen: self.screen,
            tab: self.tab,
            repo_list: self.repo_list@,
            repo_detail: match self.repo_detail {
                Some(d) => Some(d@),
                None => None,
            },
            item_detail: self.item_detail,
            lists_view: self.lists_view@,
            notif_list: self.notif_list@,
            search: self.search@,
            selected_repo: opt_view(self.selected_repo),
            context_repo: opt_view(self.context_repo),
            should_quit: self.should_quit,
            show_help: self.show_help,
            show_actions: self.show_actions,
            tick: self.tick,
            show_theme_picker: self.show_theme_picker,
            themes: self.themes@,
            theme_index: self.theme_index,
            original_theme_index: self.original_theme_index,
            source_picker: self.source_picker@,
            account_picker: self.account_picker@,
        }
    }
}

/// The sources of the repository list are few enough for their indices to be
/// counted without overflow.
pub open spec fn sources_ok(l: RepoListView) -> bool {
    &&& l.orgs.len() <= usize::MAX - 2
    &&& (l.source matches RepoSource::Org(i) ==> i <= usize::MAX - 3)
}

/// The position of the first theme named `name`, if any.
pub open spec fn theme_position(themes: Seq<(String, Theme)>, name: Seq<char>) -> Option<int>
    decreases themes.len(),
{
    if themes.len() == 0 {
        None
    } else if themes[0].0@ == name {
        Some(0)
    } else {
        match theme_position(themes.drop_first(), name) {
            Some(k) => Some(k + 1),
            None => None,
        }
    }
}

proof fn lemma_theme_position(s: Seq<(String, Theme)>, name: Seq<char>, i: int)
    requires
        0 <= i <= s.len(),
        forall|j: int| 0 <= j < i ==> s[j].0@ != name,
        i < s.len() ==> s[i].0@ == name,
    ensures
        theme_position(s, name) == if i < s.len() {
            Some(i)
        } else {
            None::<int>
        },
    decreases i,
{
    if i > 0 {
        let t = s.drop_first();
        assert forall|j: int| 0 <= j < i - 1 implies t[j].0@ != name by {
            assert(t[j] == s[j + 1]);
        }
        if i < s.len() {
            assert(t[i - 1] == s[i]);
        }
        lemma_theme_position(t, name, i - 1);
    }
}

/// The browser after entering the screen of repository `name`.
pub open spec fn entered(v: AppView, name: Seq<char>) -> AppView {
    AppView {
        selected_repo: Some(name),
        repo_detail: Some(fresh_detail(name)),
        screen: Screen::RepoDetail,
        ..v
    }
}

/// The browser after opening the screen of repository `name` on its issues,
/// as in a repository's working directory.
pub open spec fn entered_on_issues(v: AppView, name: Seq<char>) -> AppView {
    AppView { repo_detail: Some(on_tab(fresh_detail(name), RepoTab::Issues)), ..entered(v, name) }
}

/// The browser after the repository list moved to source `idx` and loaded it.
pub open spec fn with_source(v: AppView, idx: usize) -> AppView {
    AppView {
        repo_list: after_load(RepoListView { source: source_at(idx), ..v.repo_list }),
        ..v
    }
}

/// The browser after Tab: the repository sources come first, one after the
/// other; after the last one come the lists, the search and the
/// notifications, and after these the first source again.
pub open spec fn next_tab_state(v: AppView) -> AppView {
    let current = source_index(v.repo_list.source);
    let total = 2 + v.repo_list.orgs.len();
    match v.tab {
        Tab::Repos => if current + 1 < total {
            with_source(v, (current + 1) as usize)
        } else {
            AppView { tab: Tab::Lists, ..v }
        },
        Tab::Lists => AppView { tab: Tab::Search, ..v },
        Tab::Search => AppView { tab: Tab::Notifications, ..v },
        Tab::Notifications => with_source(AppView { tab: Tab::Repos, ..v }, 0),
    }
}

/// The browser after Shift+Tab: the order of `next_tab_state`, backwards.
pub open spec fn prev_tab_state(v: AppView) -> AppView {
    let current = source_index(v.repo_list.source);
    let total = 2 + v.repo_list.orgs.len();
    match v.tab {
        Tab::Repos => if current > 0 {
            with_source(v, (current - 1) as usize)
        } else {
            AppView { tab: Tab::Notifications, ..v }
        },
        Tab::Lists => with_source(AppView { tab: Tab::Repos, ..v }, (total - 1) as usize),
        Tab::Search => AppView { tab: Tab::Lists, ..v },
        Tab::Notifications => AppView { tab: Tab::Search, ..v },
    }
}

/// The repository source that Tab loads, if any.
pub open spec fn next_tab_load(v: AppView) -> Option<RepoSource> {
    let current = source_index(v.repo_list.source);
    let total = 2 + v.repo_list.orgs.len();
    match v.tab {
        Tab::Repos => if current + 1 < total {
            Some(source_at((current + 1) as usize))
        } else {
            None
        },
        Tab::Notifications => Some(RepoSource::Mine),
        _ => None,
    }
}

/// The repository source that Shift+Tab loads, if any.
pub open spec fn prev_tab_load(v: AppView) -> Option<RepoSource> {
    let current = source_index(v.repo_list.source);
    let total = 2 + v.repo_list.orgs.len();
    match v.tab {
        Tab::Repos => if current > 0 {
            Some(source_at((current - 1) as usize))
        } else {
            None
        },
        Tab::Lists => Some(source_at((total - 1) as usize)),
        _ => None,
    }
}

/// The fetch that loading source `s` into list `l` needs: none when the
/// cache holds what it gave.
pub open spec fn load_fetch(fetch: Option<RepoFetch>, l: RepoListView, s: RepoSource) -> bool {
    match cache_lookup(l.cache, s) {
        Some(_) => fetch is None,
        None => fetch matches Some(f) && fetch_for(f, s, l.orgs),
    }
}

/// The repository that Enter opens on the home screen, if any.
pub open spec fn enter_target(v: AppView) -> Option<Seq<char>> {
    if v.screen != Screen::Home {
        None
    } else {
        match v.tab {
            Tab::Repos => match selected_index(v.repo_list) {
                Some(k) => Some(v.repo_list.repos[k].full_name@),
                None => None,
            },
            Tab::Lists => if v.lists_view.mode == crate::ui::lists_view::ListsMode::Repos {
                match lists_selected_repo(v.lists_view) {
                    Some(r) => Some(r.full_name@),
                    None => None,
                }
            } else {
                None
            },
            Tab::Search => match search_selected_repo(v.search) {
                Some(r) => Some(r.full_name@),
                None => None,
            },
            Tab::Notifications => None,
        }
    }
}

/// The browser after Enter when no repository opens: on the names of the
/// lists, the selected list is shown (without a filter); elsewhere nothing
/// changes.
pub open spec fn enter_without_repo(v: AppView) -> AppView {
    if v.screen == Screen::Home && v.tab == Tab::Lists && v.lists_view.mode == ListsMode::Names
        && v.lists_view.name_state is Some {
        AppView {
            lists_view: crate::ui::lists_view::refiltered(
                ListsViewView {
                    selected_list: v.lists_view.name_state->0,
                    mode: ListsMode::Repos,
                    filter: Seq::empty(),
                    filtering: false,
                    ..v.lists_view
                },
            ),
            ..v
        }
    } else {
        v
    }
}

/// The web page that `o` opens, if any: the selected repository on the home
/// screen; on a repository's screen the selected issue or pull request on
/// those tabs, else the repository.
pub open spec fn open_target(v: AppView) -> Option<Seq<char>> {
    match v.screen {
        Screen::Home => match enter_target(v) {
            Some(name) => Some("https://github.com/"@ + name),
            None => None,
        },
        Screen::RepoDetail => match (v.repo_detail, v.selected_repo) {
            (Some(d), Some(name)) => match d.tab {
                RepoTab::Issues => match selected_issue(d) {
                    Some(n) => Some(
                        "https://github.com/"@ + name + "/issues/"@ + decimal(n as nat),
                    ),
                    None => Some("https://github.com/"@ + name),
                },
                RepoTab::PullRequests => match selected_pr(d) {
                    Some(n) => Some("https://github.com/"@ + name + "/pull/"@ + decimal(n as nat)),
                    None => Some("https://github.com/"@ + name),
                },
                RepoTab::Overview => Some("https://github.com/"@ + name),
            },
            _ => None,
        },
        Screen::ItemDetail => match v.item_detail {
            Some(d) => Some(item_url(d)),
            None => None,
        },
    }
}

/// The browser after going back: from a repository's screen to the home
/// screen, forgetting the repository; from an issue or pull request to the
/// repository's screen it was opened from (the home screen when there is
/// none), forgetting the item; elsewhere nothing changes.
pub open spec fn went_back(v: AppView) -> AppView {
    if v.screen == Screen::RepoDetail {
        AppView { screen: Screen::Home, repo_detail: None, selected_repo: None, ..v }
    } else if v.screen == Screen::ItemDetail {
        AppView {
            screen: if v.repo_detail is Some {
                Screen::RepoDetail
            } else {
                Screen::Home
            },
            item_detail: None,
            ..v
        }
    } else {
        v
    }
}

/// The browser with the theme picker shown, the current theme remembered.
pub open spec fn theme_opened(v: AppView) -> AppView {
    AppView { original_theme_index: v.theme_index, show_theme_picker: true, ..v }
}

/// The browser with theme `index` selected, when there is one.
pub open spec fn theme_selected(v: AppView, index: usize) -> AppView {
    if index < v.themes.len() {
        AppView { theme_index: index, ..v }
    } else {
        v
    }
}

/// The browser back on the theme remembered when the picker opened, with the
/// picker hidden.
pub open spec fn theme_cancelled(v: AppView) -> AppView {
    AppView { theme_index: v.original_theme_index, show_theme_picker: false, ..v }
}

/// The browser after selecting the themes `picks` one after the other.
pub open spec fn theme_selections(v: AppView, picks: Seq<usize>) -> AppView
    decreases picks.len(),
{
    if picks.len() == 0 {
        v
    } else {
        theme_selected(theme_selections(v, picks.drop_last()), picks.last())
    }
}

/// The web page of an item: its issue or pull request page.
pub open spec fn item_url(d: ItemDetailView) -> Seq<char> {
    match d.kind {
        gh::ItemKind::Issue => "https://github.com/"@ + d.repo_name@ + "/issues/"@ + decimal(
            d.number as nat,
        ),
        gh::ItemKind::PullRequest => "https://github.com/"@ + d.repo_name@ + "/pull/"@ + decimal(
            d.number as nat,
        ),
    }
}

impl App {
    /// The browser at start: on the user's repositories, with the themes to
    /// choose from and the configured one selected (the first when it is not
    /// among them).
    pub fn new(context_repo: Option<String>, themes: Vec<(String, Theme)>, configured: String) -> (a: Self)
        ensures
            a@ == (AppView {
                screen: Screen::Home,
                tab: Tab::Repos,
                repo_list: a.repo_list@,
                repo_detail: None,
                item_detail: None,
                lists_view: a.lists_view@,
                notif_list: a.notif_list@,
                search: a.search@,
                selected_repo: None,
                context_repo: opt_view(context_repo),
                should_quit: false,
                show_help: false,
                show_actions: false,
                tick: 0,
                show_theme_picker: false,
                themes: themes@,
                theme_index: match theme_position(themes@, configured@) {
                    Some(k) => k as usize,
                    None => 0,
                },
                original_theme_index: 0,
                source_picker: a.source_picker@,
                account_picker: a.account_picker@,
            }),
            a.repo_list@ == crate::ui::repo_list::new_list_view(),
            a.source_picker@ == crate::ui::source_picker::new_source_picker(),
            a.account_picker@ == crate::ui::account_picker::new_account_picker(),
            a.lists_view@ == crate::ui::lists_view::new_lists_view(),
            a.notif_list@ == crate::ui::notif_list::new_notif_view(),
            a.search@ == crate::ui::search::new_search_view(),
    {
        let n = themes.len();
        let mut i: usize = 0;
        while i < n && !crate::text::str_eq(themes[i].0.as_str(), configured.as_str())
            invariant
                i <= n,
                n == themes.len(),
                forall|j: int| 0 <= j < i ==> themes@[j].0@ != configured@,
            decreases n - i,
        {
            i += 1;
        }
        proof {
            lemma_theme_position(themes@, configured@, i as int);
        }
        let theme_index = if i < n {
            i
        } else {
            0
        };
        App {
            screen: Screen::Home,
            tab: Tab::Repos,
            repo_list: RepoList::new(),
            repo_detail: None,
            item_detail: None,
            lists_view: ListsView::new(),
            notif_list: NotifList::new(),
            search: SearchView::new(),
            selected_repo: None,
            context_repo,
            should_quit: false,
            show_help: false,
            show_actions: false,
            tick: 0,
            show_theme_picker: false,
            themes,
            theme_index,
            original_theme_index: 0,
            source_picker: SourcePicker::new(),
            account_picker: AccountPicker::new(),
        }
    }

    /// Takes in the organizations (when listing them succeeded) and loads the
    /// repository list; in a repository's working directory, opens that
    /// repository's screen on its issues. The answers are the fetches to make.
    pub fn init(&mut self, orgs: Option<Vec<String>>) -> (r: (Option<RepoFetch>, Option<RepoFetches>))
        ensures
            ({
                let with_orgs = match orgs {
                    Some(o) => RepoListView { orgs: o@, ..old(self)@.repo_list },
                    None => old(self)@.repo_list,
                };
                let loaded = AppView { repo_list: after_load(with_orgs), ..old(self)@ };
                &&& final(self)@ == match old(self)@.context_repo {
                    Some(name) => entered_on_issues(loaded, name),
                    None => loaded,
                }
                &&& load_fetch(r.0, with_orgs, with_orgs.source)
                &&& match old(self)@.context_repo {
                    Some(name) => r.1 matches Some(f) && fetches_for(f, name),
                    None => r.1 is None,
                }
            }),
    {
        self.repo_list.load_orgs(orgs);
        let fetch = self.repo_list.load();
        let detail = match &self.context_repo {
            Some(repo) => {
                let fetches = self.enter_repo(repo.clone());
                if let Some(d) = &mut self.repo_detail {
                    d.next_tab();
                }
                Some(fetches)
            },
            None => None,
        };
        (fetch, detail)
    }

    /// After the active account changed: the home screen on the user's own
    /// repositories, with the organizations of the new account (when listing
    /// them succeeded), and nothing kept of what was fetched for the previous
    /// account. The answer is the fetch of the repositories.
    pub fn reload_after_account_switch(&mut self, orgs: Option<Vec<String>>) -> (fetch: Option<RepoFetch>)
        ensures
            ({
                let l = match orgs {
                    Some(o) => RepoListView { orgs: o@, ..crate::ui::repo_list::new_list_view() },
                    None => crate::ui::repo_list::new_list_view(),
                };
                &&& final(self)@ == (AppView {
                    screen: Screen::Home,
                    tab: Tab::Repos,
                    repo_list: after_load(l),
                    repo_detail: None,
                    item_detail: None,
                    lists_view: crate::ui::lists_view::new_lists_view(),
                    notif_list: crate::ui::notif_list::new_notif_view(),
                    search: crate::ui::search::new_search_view(),
                    selected_repo: None,
                    ..old(self)@
                })
                &&& load_fetch(fetch, l, l.source)
            }),
    {
        self.screen = Screen::Home;
        self.tab = Tab::Repos;
        self.repo_detail = None;
        self.item_detail = None;
        self.selected_repo = None;
        self.lists_view = ListsView::new();
        self.notif_list = NotifList::new();
        self.search = SearchView::new();
        self.repo_list = RepoList::new();
        self.repo_list.load_orgs(orgs);
        self.repo_list.load()
    }

    /// Shows the theme picker, remembering the current theme.
    pub fn open_theme_picker(&mut self)
        ensures
            final(self)@ == theme_opened(old(self)@),
    {
        self.original_theme_index = self.theme_index;
        self.show_theme_picker = true;
    }

    /// Selects theme `index` when there is one; the answer is the theme to
    /// show.
    pub fn theme_picker_select(&mut self, index: usize) -> (t: Option<Theme>)
        ensures
            final(self)@ == theme_selected(old(self)@, index),
            index < old(self)@.themes.len() ==> t == Some(old(self)@.themes[index as int].1),
            index >= old(self)@.themes.len() ==> t is None,
    {
        if index < self.themes.len() {
            self.theme_index = index;
            Some(self.themes[index].1)
        } else {
            None
        }
    }

    /// Keeps the selected theme and hides the picker; the answer is its name,
    /// to be saved as the configured theme.
    pub fn theme_picker_confirm(&mut self) -> (name: String)
        requires
            old(self).theme_index < old(self).themes.len(),
        ensures
            name@ == old(self)@.themes[old(self).theme_index as int].0@,
            final(self)@ == (AppView { show_theme_picker: false, ..old(self)@ }),
    {
        self.show_theme_picker = false;
        self.themes[self.theme_index].0.clone()
    }

    /// Goes back to the theme shown before the picker opened, and hides it;
    /// the answer is that theme.
    pub fn theme_picker_cancel(&mut self) -> (t: Theme)
        requires
            old(self).original_theme_index < old(self).themes.len(),
        ensures
            t == old(self)@.themes[old(self).original_theme_index as int].1,
            final(self)@ == theme_cancelled(old(self)@),
    {
        self.theme_index = self.original_theme_index;
        let t = self.themes[self.theme_index].1;
        self.show_theme_picker = false;
        t
    }

    /// Tab: see `next_tab_state`; the answer is the fetch that loading a new
    /// source needs, if any.
    pub fn next_tab(&mut self) -> (fetch: Option<RepoFetch>)
        requires
            sources_ok(old(self)@.repo_list),
        ensures
            final(self)@ == next_tab_state(old(self)@),
            match next_tab_load(old(self)@) {
                Some(s) => load_fetch(fetch, old(self)@.repo_list, s),
                None => fetch is None,
            },
    {
        let total = self.repo_list.total_sources();
        let current = self.repo_list.active_source_index();
        match self.tab {
            Tab::Repos => {
                if current + 1 < total {
                    self.repo_list.set_source_by_index(current + 1);
                    self.repo_list.load()
                } else {
                    self.tab = Tab::Lists;
                    None
                }
            },
            Tab::Lists => {
                self.tab = Tab::Search;
                None
            },
            Tab::Search => {
                self.tab = Tab::Notifications;
                None
            },
            Tab::Notifications => {
                self.tab = Tab::Repos;
                self.repo_list.set_source_by_index(0);
                self.repo_list.load()
            },
        }
    }

    /// Shift+Tab: see `prev_tab_state`; the answer is the fetch that loading
    /// a new source needs, if any.
    pub fn prev_tab(&mut self) -> (fetch: Option<RepoFetch>)
        requires
            sources_ok(old(self)@.repo_list),
        ensures
            final(self)@ == prev_tab_state(old(self)@),
            match prev_tab_load(old(self)@) {
                Some(s) => load_fetch(fetch, old(self)@.repo_list, s),
                None => fetch is None,
            },
    {
        let total = self.repo_list.total_sources();
        let current = self.repo_list.active_source_index();
        match self.tab {
            Tab::Repos => {
                if current > 0 {
                    self.repo_list.set_source_by_index(current - 1);
                    self.repo_list.load()
                } else {
                    self.tab = Tab::Notifications;
                    None
                }
            },
            Tab::Lists => {
                self.tab = Tab::Repos;
                self.repo_list.set_source_by_index(total - 1);
                self.repo_list.load()
            },
            Tab::Search => {
                self.tab = Tab::Lists;
                None
            },
            Tab::Notifications => {
                self.tab = Tab::Search;
                None
            },
        }
    }

    /// Enter on the home screen: opens the selected repository of the
    /// repositories, of a list or of the search (the answer is the fetches of
    /// its screen); on the names of the lists, opens the selected list.
    pub fn on_enter(&mut self) -> (fetches: Option<RepoFetches>)
        ensures
            match enter_target(old(self)@) {
                Some(name) => final(self)@ == entered(old(self)@, name) && (fetches matches Some(
                    f,
                ) && fetches_for(f, name)),
                None => fetches is None && final(self)@ == enter_without_repo(old(self)@),
            },
    {
        if self.screen != Screen::Home {
            return None;
        }
        match self.tab {
            Tab::Repos => {
                let name = match self.repo_list.selected_repo() {
                    Some(repo) => repo.full_name.clone(),
                    None => return None,
                };
                Some(self.enter_repo(name))
            },
            Tab::Lists => {
                if self.lists_view.is_browsing_repos() {
                    let name = match self.lists_view.selected_repo() {
                        Some(repo) => repo.full_name.clone(),
                        None => return None,
                    };
                    Some(self.enter_repo(name))
                } else {
                    self.lists_view.enter();
                    None
                }
            },
            Tab::Search => {
                let name = match self.search.selected_repo() {
                    Some(repo) => repo.full_name.clone(),
                    None => return None,
                };
                Some(self.enter_repo(name))
            },
            Tab::Notifications => None,
        }
    }

    fn enter_repo(&mut self, name: String) -> (fetches: RepoFetches)
        ensures
            final(self)@ == entered(old(self)@, name@),
            fetches_for(fetches, name@),
    {
        self.selected_repo = Some(name.clone());
        let mut detail = RepoDetailView::new(name);
        let fetches = detail.load_all();
        self.repo_detail = Some(detail);
        self.screen = Screen::RepoDetail;
        fetches
    }

    /// Back: see `went_back`.
    pub fn go_back(&mut self)
        ensures
            final(self)@ == went_back(old(self)@),
    {
        match self.screen {
            Screen::RepoDetail => {
                self.screen = Screen::Home;
                self.repo_detail = None;
                self.selected_repo = None;
            },
            Screen::ItemDetail => {
                self.screen = if self.repo_detail.is_some() {
                    Screen::RepoDetail
                } else {
                    Screen::Home
                };
                self.item_detail = None;
            },
            _ => {},
        }
    }

    /// The web page to open in the browser, if any (see `open_target`).
    pub fn on_open(&self) -> (url: Option<String>)
        ensures
            match open_target(self@) {
                Some(u) => url matches Some(s) && s@ == u,
                None => url is None,
            },
    {
        match self.screen {
            Screen::Home => {
                let repo = match self.tab {
                    Tab::Repos => self.repo_list.selected_repo(),
                    Tab::Lists => if self.lists_view.is_browsing_repos() {
                        self.lists_view.selected_repo()
                    } else {
                        None
                    },
                    Tab::Search => self.search.selected_repo(),
                    Tab::Notifications => None,
                };
                match repo {
                    Some(r) => Some(gh::open_repo(r.full_name.as_str())),
                    None => None,
                }
            },
            Screen::RepoDetail => {
                match (&self.repo_detail, &self.selected_repo) {
                    (Some(detail), Some(name)) => match detail.tab {
                        RepoTab::Issues => match detail.selected_issue_number() {
                            Some(n) => Some(gh::open_issue(name.as_str(), n)),
                            None => Some(gh::open_repo(name.as_str())),
                        },
                        RepoTab::PullRequests => match detail.selected_pr_number() {
                            Some(n) => Some(gh::open_pr(name.as_str(), n)),
                            None => Some(gh::open_repo(name.as_str())),
                        },
                        RepoTab::Overview => Some(gh::open_repo(name.as_str())),
                    },
                    _ => None,
                }
            },
            Screen::ItemDetail => match &self.item_detail {
                Some(d) => match d.kind {
                    gh::ItemKind::Issue => Some(gh::open_issue(d.repo_name.as_str(), d.number)),
                    gh::ItemKind::PullRequest => Some(gh::open_pr(d.repo_name.as_str(), d.number)),
                },
                None => None,
            },
        }
    }
}

} // verus!
