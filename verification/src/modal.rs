//! The keys of the source picker, of the account picker and of the screen of
//! an issue or pull request; how the repository sources are chosen; and which
//! issue or pull request Enter opens from a repository or a notification.
use crate::app::{App, AppView, Screen, Tab};
use crate::gh::{self, last_part, last_segment, ItemKind, Notification};
use crate::keys::{dropped, fetch_effect, nav_key, nav_of, Effect, KeyCode, KeyPress};
use crate::text::{decimal, digits_u32, parse_digits_u32, str_eq, views};
use crate::ui::notif_list::selected_position;
use crate::ui::account_picker::AccountPickerView;
use crate::ui::item_detail::{
    max_scroll, other_tab, saturating_add_u16, saturating_sub_u16, ItemDetailView, ItemTab,
};
use crate::ui::list::Nav;
use crate::ui::repo_detail::{selected_issue, selected_pr, RepoTab};
use crate::ui::repo_list::{after_load, labels_of, source_at, source_index, RepoListView};
use crate::ui::source_picker::{first_position, label_filter, refiltered, SourcePickerView};
use vstd::prelude::*;

verus! {

// ---------------------------------------------------------------------------
// Choosing a repository source
// ---------------------------------------------------------------------------

/// The browser showing source `index` in the repositories section (from the
/// cache when it holds that source).
pub open spec fn source_chosen(v: AppView, index: usize) -> AppView {
    AppView {
        tab: Tab::Repos,
        repo_list: after_load(RepoListView { source: source_at(index), ..v.repo_list }),
        ..v
    }
}

/// The number of sources: the user's own, the starred ones, one per
/// organization.
pub open spec fn source_count(l: RepoListView) -> int {
    2 + l.orgs.len() as int
}

/// The source after the current one, the first after the last (`]`).
pub open spec fn next_source(l: RepoListView) -> usize {
    let i = source_index(l.source);
    if i + 1 < source_count(l) {
        (i + 1) as usize
    } else {
        0
    }
}

/// The source before the current one, the last before the first (`[`).
pub open spec fn prev_source(l: RepoListView) -> usize {
    let i = source_index(l.source);
    if 0 < i && i - 1 < source_count(l) {
        (i - 1) as usize
    } else {
        (source_count(l) - 1) as usize
    }
}

// ---------------------------------------------------------------------------
// The source picker
// ---------------------------------------------------------------------------

/// The source picker as `s` shows it over the repository list `l`: no filter,
/// every source listed, the current one selected (the first when it is not
/// listed).
pub open spec fn picker_opened(l: RepoListView) -> SourcePickerView {
    let f = label_filter(labels_of(l.orgs), Seq::empty());
    SourcePickerView {
        visible: true,
        filtering: false,
        filter: Seq::empty(),
        filtered: f,
        selected: match first_position(f, source_index(l.source)) {
            Some(k) => k as usize,
            None => 0,
        },
    }
}

/// The source picker hidden, without its filter.
pub open spec fn picker_closed(p: SourcePickerView) -> SourcePickerView {
    SourcePickerView { visible: false, filtering: false, filter: Seq::empty(), ..p }
}

/// The selection moved to the next listed source, if there is one.
pub open spec fn picker_down(p: SourcePickerView) -> SourcePickerView {
    SourcePickerView {
        selected: if p.selected + 1 < p.filtered.len() {
            (p.selected + 1) as usize
        } else {
            p.selected
        },
        ..p
    }
}

/// The selection moved to the previous listed source, if there is one.
pub open spec fn picker_up(p: SourcePickerView) -> SourcePickerView {
    SourcePickerView {
        selected: if p.selected > 0 {
            (p.selected - 1) as usize
        } else {
            0
        },
        ..p
    }
}

/// Whether a key moves the selection of the source picker down: Down, and
/// `j` when no filter is typed.
pub open spec fn picker_moves_down(p: SourcePickerView, k: KeyPress) -> bool {
    k.code == KeyCode::Down || (!p.filtering && k.code == KeyCode::Char('j'))
}

/// A key other than Enter in the source picker. While a filter is typed: Esc
/// drops it, Backspace removes a character, a character is added (each
/// filters anew), Up and Down move. Otherwise: the moves of `j`/`k`,
/// `g`/Home, `G`/End; `/` starts typing; Esc, `q` or `s` close the picker.
pub open spec fn picker_after(p: SourcePickerView, k: KeyPress, labels: Seq<Seq<char>>) -> SourcePickerView {
    if p.filtering {
        match k.code {
            KeyCode::Esc => refiltered(
                SourcePickerView { filter: Seq::empty(), filtering: false, ..p },
                labels,
            ),
            KeyCode::Backspace => refiltered(SourcePickerView { filter: dropped(p.filter), ..p }, labels),
            KeyCode::Up => picker_up(p),
            KeyCode::Down => picker_down(p),
            KeyCode::Char(c) => refiltered(SourcePickerView { filter: p.filter.push(c), ..p }, labels),
            _ => p,
        }
    } else if k.code == KeyCode::Char('j') || k.code == KeyCode::Down {
        picker_down(p)
    } else if k.code == KeyCode::Char('k') || k.code == KeyCode::Up {
        picker_up(p)
    } else if k.code == KeyCode::Char('g') || k.code == KeyCode::Home {
        SourcePickerView { selected: 0, ..p }
    } else if k.code == KeyCode::Char('G') || k.code == KeyCode::End {
        SourcePickerView {
            selected: if p.filtered.len() > 0 {
                (p.filtered.len() - 1) as usize
            } else {
                p.selected
            },
            ..p
        }
    } else if k.code == KeyCode::Char('/') {
        SourcePickerView { filtering: true, ..p }
    } else if k.code == KeyCode::Esc || k.code == KeyCode::Char('q') || k.code == KeyCode::Char('s') {
        picker_closed(p)
    } else {
        p
    }
}

/// A key while the source picker is shown: Enter closes it and shows the
/// selected source in the repositories section (with the fetch it needs),
/// when one is selected; other keys see `picker_after`.
pub open spec fn source_picker_key(v: AppView, k: KeyPress, w: AppView, e: Effect) -> bool {
    let p = v.source_picker;
    if k.code == KeyCode::Enter {
        if p.selected < p.filtered.len() {
            let i = p.filtered[p.selected as int];
            &&& w == source_chosen(AppView { source_picker: picker_closed(p), ..v }, i)
            &&& fetch_effect(e, v.repo_list, source_at(i))
        } else {
            w == v && e is Nothing
        }
    } else {
        e is Nothing && w == (AppView {
            source_picker: picker_after(p, k, labels_of(v.repo_list.orgs)),
            ..v
        })
    }
}

// ---------------------------------------------------------------------------
// The account picker
// ---------------------------------------------------------------------------

/// The generation after `g`, wrapping around.
pub open spec fn next_generation(g: u64) -> u64 {
    if g == u64::MAX {
        0
    } else {
        (g + 1) as u64
    }
}

/// The account picker as `A` shows it: empty and loading, as a new
/// generation.
pub open spec fn accounts_opened(p: AccountPickerView) -> AccountPickerView {
    AccountPickerView {
        visible: true,
        accounts: Seq::empty(),
        selected: 0,
        loading: true,
        switching: false,
        error: None,
        generation: next_generation(p.generation),
    }
}

/// A key other than Enter in the account picker: unless a switch is under
/// way, `j`/`k`, `g`/Home and `G`/End move the selection; Esc, `q` or `A`
/// close it (not during a switch).
pub open spec fn account_picker_after(p: AccountPickerView, k: KeyPress) -> AccountPickerView {
    if k.code == KeyCode::Char('j') || k.code == KeyCode::Down {
        AccountPickerView {
            selected: if !p.switching && p.selected + 1 < p.accounts.len() {
                (p.selected + 1) as usize
            } else {
                p.selected
            },
            ..p
        }
    } else if k.code == KeyCode::Char('k') || k.code == KeyCode::Up {
        AccountPickerView {
            selected: if !p.switching && p.selected > 0 {
                (p.selected - 1) as usize
            } else {
                p.selected
            },
            ..p
        }
    } else if k.code == KeyCode::Char('g') || k.code == KeyCode::Home {
        AccountPickerView {
            selected: if !p.switching {
                0
            } else {
                p.selected
            },
            ..p
        }
    } else if k.code == KeyCode::Char('G') || k.code == KeyCode::End {
        AccountPickerView {
            selected: if !p.switching && p.accounts.len() > 0 {
                (p.accounts.len() - 1) as usize
            } else {
                p.selected
            },
            ..p
        }
    } else if k.code == KeyCode::Esc || k.code == KeyCode::Char('q') || k.code == KeyCode::Char('A') {
        AccountPickerView { visible: p.visible && p.switching, ..p }
    } else {
        p
    }
}

/// A key while the account picker is shown. Enter chooses the selected
/// account: nothing while loading or switching or without a selection; the
/// active account closes the picker; another starts a switch to it, which the
/// caller carries out. Other keys see `account_picker_after`.
pub open spec fn account_picker_key(v: AppView, k: KeyPress, w: AppView, e: Effect) -> bool {
    let p = v.account_picker;
    if k.code == KeyCode::Enter {
        if p.loading || p.switching || p.selected >= p.accounts.len() {
            w == v && e is Nothing
        } else if p.accounts[p.selected as int].active {
            w == (AppView { account_picker: AccountPickerView { visible: false, ..p }, ..v })
                && e is Nothing
        } else {
            &&& w == (AppView {
                account_picker: AccountPickerView { switching: true, error: None, ..p },
                ..v
            })
            &&& e matches Effect::SwitchAccount(r)
            &&& r.generation == p.generation
            &&& r.host == p.accounts[p.selected as int].host
            &&& r.login == p.accounts[p.selected as int].login
        }
    } else {
        e is Nothing && w == (AppView { account_picker: account_picker_after(p, k), ..v })
    }
}

// ---------------------------------------------------------------------------
// The screen of an issue or pull request
// ---------------------------------------------------------------------------

/// What Enter opens on a repository's screen: the selected issue or pull
/// request of the tab shown, with its repository.
pub open spec fn item_target(v: AppView) -> Option<(Seq<char>, u32, ItemKind)> {
    if v.screen == Screen::RepoDetail {
        match v.repo_detail {
            Some(d) => match d.tab {
                RepoTab::Issues => match selected_issue(d) {
                    Some(n) => Some((d.repo_name, n, ItemKind::Issue)),
                    None => None,
                },
                RepoTab::PullRequests => match selected_pr(d) {
                    Some(n) => Some((d.repo_name, n, ItemKind::PullRequest)),
                    None => None,
                },
                RepoTab::Overview => None,
            },
            None => None,
        }
    } else {
        None
    }
}

/// The issue or pull request that a notification is about: its kind from the
/// subject's type (`Issue` or `PullRequest`), its number from the last part
/// of the subject's address; none for other subjects, or when the address
/// ends in no number that fits in a `u32`.
pub open spec fn notif_item(n: Notification) -> Option<(Seq<char>, u32, ItemKind)> {
    let kind = if n.subject.kind@ == "Issue"@ {
        Some(ItemKind::Issue)
    } else if n.subject.kind@ == "PullRequest"@ {
        Some(ItemKind::PullRequest)
    } else {
        None
    };
    match (kind, n.subject.url) {
        (Some(k), Some(u)) => match digits_u32(last_segment(u@)) {
            Some(x) => Some((n.repository.full_name@, x, k)),
            None => None,
        },
        _ => None,
    }
}

/// What Enter opens on the notifications: the issue or pull request of the
/// selected one.
pub open spec fn notif_target(v: AppView) -> Option<(Seq<char>, u32, ItemKind)> {
    match selected_position(v.notif_list) {
        Some(i) => notif_item(v.notif_list.notifs[i]),
        None => None,
    }
}

/// A new screen of item `number` of `repo`: on its conversation, loading it.
pub open spec fn fresh_item(i: ItemDetailView, repo: Seq<char>, number: u32, kind: ItemKind) -> bool {
    &&& i.repo_name@ == repo
    &&& i.number == number
    &&& i.kind == kind
    &&& i.tab == ItemTab::Conversation
    &&& !i.body_only
    &&& i.loading
    &&& i.error is None
    &&& i.detail is None
    &&& !i.diff_loading
    &&& i.diff_error is None
    &&& i.diff is None
    &&& i.scroll == 0
    &&& i.lines_count == 0
    &&& i.visible_height == 0
}

/// The `gh` arguments that fetch an item with its comments.
pub open spec fn item_load_args(repo: Seq<char>, number: u32, kind: ItemKind) -> Seq<Seq<char>> {
    match kind {
        ItemKind::Issue => seq![
            "issue"@,
            "view"@,
            decimal(number as nat),
            "-R"@,
            repo,
            "--json"@,
            gh::item_view_fields(),
        ],
        ItemKind::PullRequest => seq![
            "pr"@,
            "view"@,
            decimal(number as nat),
            "-R"@,
            repo,
            "--json"@,
            gh::item_view_fields(),
        ],
    }
}

/// Opening item `t`: its screen is shown, fresh, and the caller fetches it;
/// the repository's screen stays underneath.
pub open spec fn item_opened(
    v: AppView,
    t: (Seq<char>, u32, ItemKind),
    w: AppView,
    e: Effect,
) -> bool {
    &&& w.item_detail matches Some(i) && fresh_item(i, t.0, t.1, t.2)
    &&& w == (AppView { screen: Screen::ItemDetail, item_detail: w.item_detail, ..v })
    &&& e matches Effect::FetchItem(a) && views(a@) == item_load_args(t.0, t.1, t.2)
}

/// Scrolled down by `amount` lines, no further than `max_scroll`.
pub open spec fn item_down(d: ItemDetailView, amount: u16) -> ItemDetailView {
    ItemDetailView {
        scroll: ({
            let s = saturating_add_u16(d.scroll, amount);
            let m = max_scroll(d.lines_count, d.visible_height);
            if s <= m {
                s
            } else {
                m
            }
        }),
        ..d
    }
}

/// Scrolled up by `amount` lines, no further than the top.
pub open spec fn item_up(d: ItemDetailView, amount: u16) -> ItemDetailView {
    ItemDetailView { scroll: saturating_sub_u16(d.scroll, amount), ..d }
}

/// The reader switched on or off, from the top, when the conversation of a
/// loaded item is shown.
pub open spec fn reader_toggled(d: ItemDetailView) -> ItemDetailView {
    if d.tab == ItemTab::Conversation && d.detail is Some {
        ItemDetailView { body_only: !d.body_only, scroll: 0, ..d }
    } else {
        d
    }
}

/// An item's screen after a key other than Tab: the moves scroll (`g` to the
/// top, `G` to the bottom, a page at a time), `d` and `u` by ten lines, `r`
/// switches the reader.
pub open spec fn item_after(d: ItemDetailView, k: KeyPress, page: usize) -> ItemDetailView {
    match nav_of(k) {
        Some(n) => match n {
            Nav::Down => item_down(d, 1),
            Nav::Up => item_up(d, 1),
            Nav::First => ItemDetailView { scroll: 0, ..d },
            Nav::Last => ItemDetailView { scroll: max_scroll(d.lines_count, d.visible_height), ..d },
            Nav::PageDown => item_down(d, page as u16),
            Nav::PageUp => item_up(d, page as u16),
        },
        None => if k.code == KeyCode::Char('d') {
            item_down(d, 10)
        } else if k.code == KeyCode::Char('u') {
            item_up(d, 10)
        } else if k.code == KeyCode::Char('r') {
            reader_toggled(d)
        } else {
            d
        },
    }
}

/// Tab on an item's screen: a pull request switches between conversation and
/// diff (back to the full conversation, at the top), and entering a diff that
/// is neither here, nor coming, nor failed starts its fetch; an issue stays
/// as it is.
pub open spec fn item_tab_switched(o: ItemDetailView, n: ItemDetailView, fetch: Option<Vec<String>>) -> bool {
    &&& o.kind != ItemKind::PullRequest ==> n == o && fetch is None
    &&& o.kind == ItemKind::PullRequest ==> {
        &&& n.tab == other_tab(o.tab)
        &&& !n.body_only
        &&& n.scroll == 0
        &&& n.repo_name == o.repo_name
        &&& n.number == o.number
        &&& n.kind == o.kind
        &&& n.detail == o.detail
        &&& n.diff == o.diff
        &&& n.diff_error == o.diff_error
        &&& n.loading == o.loading
        &&& n.error == o.error
        &&& n.lines_count == o.lines_count
        &&& n.visible_height == o.visible_height
        &&& (if n.tab == ItemTab::Diff && o.diff is None && !o.diff_loading && o.diff_error is None {
            &&& n.diff_loading
            &&& (fetch matches Some(args) && views(args@) == seq![
                "pr"@,
                "diff"@,
                decimal(o.number as nat),
                "-R"@,
                o.repo_name@,
            ])
        } else {
            n.diff_loading == o.diff_loading && fetch is None
        })
    }
}

/// The fetch of a diff that an effect asks for.
pub open spec fn diff_fetch(e: Effect) -> Option<Vec<String>> {
    match e {
        Effect::FetchDiff(a) => Some(a),
        _ => None,
    }
}

/// A key on an item's screen (see `item_after` and `item_tab_switched`).
pub open spec fn item_key(v: AppView, k: KeyPress, page: usize, w: AppView, e: Effect) -> bool {
    match v.item_detail {
        None => w == v && e is Nothing,
        Some(d) => if k.code == KeyCode::Tab || k.code == KeyCode::BackTab {
            &&& w.item_detail matches Some(nd) && item_tab_switched(d, nd, diff_fetch(e))
            &&& (e is Nothing || e is FetchDiff)
            &&& w == (AppView { item_detail: w.item_detail, ..v })
        } else {
            e is Nothing && w == (AppView { item_detail: Some(item_after(d, k, page)), ..v })
        },
    }
}

impl App {
    /// Shows source `index` in the repositories section; the answer is the
    /// fetch it needs, if any.
    pub fn choose_source(&mut self, index: usize) -> (e: Effect)
        ensures
            final(self)@ == source_chosen(old(self)@, index),
            fetch_effect(e, old(self)@.repo_list, source_at(index)),
    {
        self.tab = Tab::Repos;
        self.repo_list.set_source_by_index(index);
        match self.repo_list.load() {
            Some(f) => Effect::FetchRepos(f),
            None => Effect::Nothing,
        }
    }

    /// Takes a key while the source picker is shown (see `source_picker_key`).
    pub fn source_picker_key(&mut self, key: KeyPress) -> (e: Effect)
        requires
            picker_moves_down(old(self)@.source_picker, key) ==> old(self).source_picker.selected
                < usize::MAX,
        ensures
            source_picker_key(old(self)@, key, final(self)@, e),
    {
        if key.code == KeyCode::Enter {
            return match self.source_picker.selected_source_index() {
                Some(i) => {
                    self.source_picker.close();
                    self.choose_source(i)
                },
                None => Effect::Nothing,
            };
        }
        if self.source_picker.filtering {
            match key.code {
                KeyCode::Esc => self.source_picker.clear_filter(&self.repo_list),
                KeyCode::Backspace => self.source_picker.on_filter_backspace(&self.repo_list),
                KeyCode::Up => self.source_picker.move_up(),
                KeyCode::Down => self.source_picker.move_down(),
                KeyCode::Char(c) => self.source_picker.on_filter_key(c, &self.repo_list),
                _ => {},
            }
        } else {
            match key.code {
                KeyCode::Char('j') | KeyCode::Down => self.source_picker.move_down(),
                KeyCode::Char('k') | KeyCode::Up => self.source_picker.move_up(),
                KeyCode::Char('g') | KeyCode::Home => self.source_picker.move_to_first(),
                KeyCode::Char('G') | KeyCode::End => self.source_picker.move_to_last(),
                KeyCode::Char('/') => self.source_picker.start_filtering(),
                KeyCode::Esc | KeyCode::Char('q') | KeyCode::Char('s') => self.source_picker.close(),
                _ => {},
            }
        }
        Effect::Nothing
    }

    /// Takes a key while the account picker is shown (see
    /// `account_picker_key`).
    pub fn account_picker_key(&mut self, key: KeyPress) -> (e: Effect)
        requires
            (key.code == KeyCode::Char('j') || key.code == KeyCode::Down) ==> old(
                self,
            ).account_picker.selected < usize::MAX,
        ensures
            account_picker_key(old(self)@, key, final(self)@, e),
    {
        match key.code {
            KeyCode::Char('j') | KeyCode::Down => self.account_picker.move_down(),
            KeyCode::Char('k') | KeyCode::Up => self.account_picker.move_up(),
            KeyCode::Char('g') | KeyCode::Home => self.account_picker.move_to_first(),
            KeyCode::Char('G') | KeyCode::End => self.account_picker.move_to_last(),
            KeyCode::Enter => {
                return match self.account_picker.confirm() {
                    Some(r) => Effect::SwitchAccount(r),
                    None => Effect::Nothing,
                };
            },
            KeyCode::Esc | KeyCode::Char('q') | KeyCode::Char('A') => self.account_picker.close(),
            _ => {},
        }
        Effect::Nothing
    }

    /// Enter on a repository's screen: opens the selected issue or pull
    /// request (see `item_target` and `item_opened`).
    pub fn open_item(&mut self) -> (e: Effect)
        ensures
            match item_target(old(self)@) {
                Some(t) => item_opened(old(self)@, t, final(self)@, e),
                None => final(self)@ == old(self)@ && e is Nothing,
            },
    {
        if self.screen != Screen::RepoDetail {
            return Effect::Nothing;
        }
        let target: Option<(String, u32, ItemKind)> = match &self.repo_detail {
            Some(d) => match d.tab {
                RepoTab::Issues => match d.selected_issue_number() {
                    Some(n) => Some((d.repo_name.clone(), n, ItemKind::Issue)),
                    None => None,
                },
                RepoTab::PullRequests => match d.selected_pr_number() {
                    Some(n) => Some((d.repo_name.clone(), n, ItemKind::PullRequest)),
                    None => None,
                },
                RepoTab::Overview => None,
            },
            None => None,
        };
        match target {
            Some((name, n, kind)) => {
                let item = ItemDetailView::new(name, n, kind);
                let args = item.load_detail();
                self.item_detail = Some(item);
                self.screen = Screen::ItemDetail;
                Effect::FetchItem(args)
            },
            None => Effect::Nothing,
        }
    }

    /// The item of a notification (see `notif_item`).
    pub fn notification_item(n: &Notification) -> (r: Option<(String, u32, ItemKind)>)
        ensures
            match notif_item(*n) {
                Some(t) => r matches Some(x) && x.0@ == t.0 && x.1 == t.1 && x.2 == t.2,
                None => r is None,
            },
    {
        proof {
            reveal_strlit("Issue");
            reveal_strlit("PullRequest");
        }
        let kind = if str_eq(n.subject.kind.as_str(), "Issue") {
            ItemKind::Issue
        } else if str_eq(n.subject.kind.as_str(), "PullRequest") {
            ItemKind::PullRequest
        } else {
            return None;
        };
        let url = match &n.subject.url {
            Some(u) => u,
            None => return None,
        };
        match parse_digits_u32(&last_part(url.as_str())) {
            Some(x) => Some((n.repository.full_name.clone(), x, kind)),
            None => None,
        }
    }

    /// Enter on the notifications: opens the issue or pull request of the
    /// selected one (see `notif_target` and `item_opened`).
    pub fn open_notification(&mut self) -> (e: Effect)
        ensures
            match notif_target(old(self)@) {
                Some(t) => item_opened(old(self)@, t, final(self)@, e),
                None => final(self)@ == old(self)@ && e is Nothing,
            },
    {
        let target = match self.notif_list.selected() {
            Some(n) => App::notification_item(n),
            None => None,
        };
        match target {
            Some((name, n, kind)) => {
                let item = ItemDetailView::new(name, n, kind);
                let args = item.load_detail();
                self.item_detail = Some(item);
                self.screen = Screen::ItemDetail;
                Effect::FetchItem(args)
            },
            None => Effect::Nothing,
        }
    }

    /// Takes a key on an item's screen (see `item_key`).
    pub fn item_key(&mut self, key: KeyPress, page: usize) -> (e: Effect)
        ensures
            item_key(old(self)@, key, page, final(self)@, e),
    {
        #[verifier::truncate]
        let amount = page as u16;
        match &mut self.item_detail {
            Some(d) => {
                if key.code == KeyCode::Tab || key.code == KeyCode::BackTab {
                    let fetch = if key.code == KeyCode::Tab {
                        d.next_tab()
                    } else {
                        d.prev_tab()
                    };
                    match fetch {
                        Some(a) => Effect::FetchDiff(a),
                        None => Effect::Nothing,
                    }
                } else {
                    match nav_key(key) {
                        Some(Nav::Down) => d.scroll_down(1),
                        Some(Nav::Up) => d.scroll_up(1),
                        Some(Nav::First) => d.scroll_to_top(),
                        Some(Nav::Last) => d.scroll_to_bottom(),
                        Some(Nav::PageDown) => d.scroll_down(amount),
                        Some(Nav::PageUp) => d.scroll_up(amount),
                        None => match key.code {
                            KeyCode::Char('d') => d.scroll_down(10),
                            KeyCode::Char('u') => d.scroll_up(10),
                            KeyCode::Char('r') => d.toggle_reader(),
                            _ => {},
                        },
                    }
                    Effect::Nothing
                }
            },
            None => Effect::Nothing,
        }
    }
}

} // verus!
