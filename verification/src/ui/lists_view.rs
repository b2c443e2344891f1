//! The user's GitHub lists: first their names, then the repositories of the
//! chosen list, with a filter.
use crate::gh::{self, Repo, UserList};
use crate::text::{chars_of, decimal, string_of, views};
use crate::ui::list::{first_selection, moved_down, moved_first, moved_last, moved_up, paged_down, paged_up};
use crate::ui::display::{
    error_line, error_text, filter_info_line, filter_info_text, pieces, push_line, push_piece,
    spinner_line, spinner_text, text_lines, typing_line, typing_text, with_number, Body, Piece,
    Tone,
};
use crate::ui::repo_list::{filter_repos, listed_rows, repo_filter, repo_rows, rows_ok};
use vstd::prelude::*;

verus! {

/// What the lists screen shows: the list names, or one list's repositories.
#[derive(Debug, Clone, Copy, PartialEq, Eq, Structural)]
pub enum ListsMode {
    Names,
    Repos,
}

/// The lists screen.
pub struct ListsView {
    pub lists: Vec<UserList>,
    pub name_state: Option<usize>,
    pub repo_state: Option<usize>,
    pub mode: ListsMode,
    pub selected_list: usize,
    pub loading: bool,
    pub error: Option<String>,
    pub filter: String,
    pub filtering: bool,
    pub filtered_indices: Vec<usize>,
}

/// What the lists screen holds.
#[verifier::ext_equal]
pub struct ListsViewView {
    pub lists: Seq<UserList>,
    pub name_state: Option<usize>,
    pub repo_state: Option<usize>,
    pub mode: ListsMode,
    pub selected_list: usize,
    pub loading: bool,
    pub error: Option<String>,
    pub filter: Seq<char>,
    pub filtering: bool,
    pub filtered: Seq<usize>,
}

impl View for ListsView {
    type V = ListsViewView;

    open spec fn view(&self) -> ListsViewView {
        ListsViewView {
            lists: self.lists@,
            name_state: self.name_state,
            repo_state: self.repo_state,
            mode: self.mode,
            selected_list: self.selected_list,
            loading: self.loading,
            error: self.error,
            filter: self.filter@,
            filtering: self.filtering,
            filtered: self.filtered_indices@,
        }
    }
}

/// The screen after a new filtering of the chosen list's repositories (no
/// change when no list is chosen).
pub open spec fn refiltered(v: ListsViewView) -> ListsViewView {
    if v.selected_list < v.lists.len() {
        let f = repo_filter(v.lists[v.selected_list as int].repos@, v.filter);
        ListsViewView { filtered: f, repo_state: first_selection(f.len()), ..v }
    } else {
        v
    }
}

/// The number of entries shown.
pub open spec fn current_len(v: ListsViewView) -> nat {
    match v.mode {
        ListsMode::Names => v.lists.len(),
        ListsMode::Repos => v.filtered.len(),
    }
}

/// The selection of the entries shown.
pub open spec fn current_selection(v: ListsViewView) -> Option<usize> {
    match v.mode {
        ListsMode::Names => v.name_state,
        ListsMode::Repos => v.repo_state,
    }
}

/// The screen with the selection of the entries shown replaced by `sel`.
pub open spec fn with_selection(v: ListsViewView, sel: Option<usize>) -> ListsViewView {
    match v.mode {
        ListsMode::Names => ListsViewView { name_state: sel, ..v },
        ListsMode::Repos => ListsViewView { repo_state: sel, ..v },
    }
}

/// The selected repository of the chosen list, when its repositories are
/// shown.
pub open spec fn lists_selected_repo(v: ListsViewView) -> Option<Repo> {
    if v.mode == ListsMode::Repos && v.selected_list < v.lists.len() && v.repo_state is Some
        && v.repo_state->0 < v.filtered.len() && v.filtered[v.repo_state->0 as int] < v.lists[v.selected_list as int].repos@.len() {
        Some(v.lists[v.selected_list as int].repos@[v.filtered[v.repo_state->0 as int] as int])
    } else {
        None
    }
}

/// How a list is named in the names: its name and its number of
/// repositories.
pub open spec fn name_row_text(l: UserList) -> Seq<(Seq<char>, Tone)> {
    seq![(l.name@, Tone::Normal), (" ("@ + decimal(l.repos@.len()) + ")"@, Tone::Dim)]
}

/// What a new one holds.
pub open spec fn new_lists_view() -> ListsViewView {
    ListsViewView {
        lists: Seq::empty(),
        name_state: None,
        repo_state: None,
        mode: ListsMode::Names,
        selected_list: 0,
        loading: false,
        error: None,
        filter: Seq::empty(),
        filtering: false,
        filtered: Seq::empty(),
    }
}

impl ListsView {
    /// No lists yet, showing names.
    pub fn new() -> (l: Self)
        ensures
            l@ == new_lists_view(),
    {
        ListsView {
            lists: Vec::new(),
            name_state: None,
            repo_state: None,
            mode: ListsMode::Names,
            selected_list: 0,
            loading: false,
            error: None,
            filter: String::new(),
            filtering: false,
            filtered_indices: Vec::new(),
        }
    }

    /// Loads the lists when there are none, none are loading and no error
    /// came; then the answer is the `gh` arguments of the fetch.
    pub fn ensure_loaded(&mut self) -> (fetch: Option<Vec<String>>)
        ensures
            old(self).lists.len() > 0 || old(self).loading || old(self).error is Some ==> fetch is None
                && final(self)@ == old(self)@,
            !(old(self).lists.len() > 0 || old(self).loading || old(self).error is Some) ==> (
            fetch matches Some(args) && views(args@) == seq![
                "api"@,
                "graphql"@,
                "-f"@,
                "query="@ + gh::user_lists_query(),
            ]) && final(self)@ == (ListsViewView { loading: true, error: None, ..old(self)@ }),
    {
        if self.lists.len() > 0 || self.loading || self.error.is_some() {
            return None;
        }
        Some(self.load())
    }

    fn load(&mut self) -> (args: Vec<String>)
        ensures
            views(args@) == seq!["api"@, "graphql"@, "-f"@, "query="@ + gh::user_lists_query()],
            final(self)@ == (ListsViewView { loading: true, error: None, ..old(self)@ }),
    {
        self.loading = true;
        self.error = None;
        gh::list_user_lists()
    }

    /// Takes in the answer of the fetch: the lists, with the first name
    /// selected when there is one, or the error. Either way the loading ends.
    pub fn poll(&mut self, result: Result<Vec<UserList>, String>)
        ensures
            match result {
                Ok(l) => final(self)@ == (ListsViewView {
                    loading: false,
                    lists: l@,
                    name_state: if l@.len() > 0 {
                        Some(0)
                    } else {
                        old(self).name_state
                    },
                    ..old(self)@
                }),
                Err(e) => final(self)@ == (ListsViewView {
                    loading: false,
                    error: Some(e),
                    ..old(self)@
                }),
            },
    {
        self.loading = false;
        match result {
            Ok(lists) => {
                self.lists = lists;
                if self.lists.len() > 0 {
                    self.name_state = Some(0);
                }
            },
            Err(e) => self.error = Some(e),
        }
    }

    /// Whether the repositories of a list are shown.
    pub fn is_browsing_repos(&self) -> (r: bool)
        ensures
            r == (self.mode == ListsMode::Repos),
    {
        self.mode == ListsMode::Repos
    }

    /// The selected repository of the chosen list, when its repositories are
    /// shown.
    pub fn selected_repo(&self) -> (r: Option<&Repo>)
        ensures
            match lists_selected_repo(self@) {
                Some(x) => r matches Some(y) && *y == x,
                None => r is None,
            },
    {
        if self.mode != ListsMode::Repos || self.selected_list >= self.lists.len() {
            return None;
        }
        let list = &self.lists[self.selected_list];
        let idx = match self.repo_state {
            Some(i) => i,
            None => return None,
        };
        if idx >= self.filtered_indices.len() {
            return None;
        }
        let real_index = self.filtered_indices[idx];
        if real_index >= list.repos.len() {
            return None;
        }
        Some(&list.repos[real_index])
    }

    /// In the names, shows the repositories of the selected list, without a
    /// filter; nothing happens while repositories are shown or with no name
    /// selected.
    pub fn enter(&mut self)
        ensures
            old(self).mode == ListsMode::Names && old(self).name_state is Some ==> final(self)@
                == refiltered(
                ListsViewView {
                    selected_list: old(self).name_state->0,
                    mode: ListsMode::Repos,
                    filter: Seq::empty(),
                    filtering: false,
                    ..old(self)@
                },
            ),
            !(old(self).mode == ListsMode::Names && old(self).name_state is Some) ==> final(self)@
                == old(self)@,
    {
        match self.mode {
            ListsMode::Names => {
                if let Some(i) = self.name_state {
                    self.selected_list = i;
                    self.mode = ListsMode::Repos;
                    self.filter = String::new();
                    self.filtering = false;
                    self.refilter();
                }
            },
            ListsMode::Repos => {},
        }
    }

    /// From the repositories back to the names, dropping the filter; the
    /// answer tells whether it went back.
    pub fn go_back(&mut self) -> (went_back: bool)
        ensures
            went_back == (old(self).mode == ListsMode::Repos),
            went_back ==> final(self)@ == (ListsViewView {
                mode: ListsMode::Names,
                filter: Seq::empty(),
                filtering: false,
                ..old(self)@
            }),
            !went_back ==> final(self)@ == old(self)@,
    {
        match self.mode {
            ListsMode::Repos => {
                self.mode = ListsMode::Names;
                self.filter = String::new();
                self.filtering = false;
                true
            },
            ListsMode::Names => false,
        }
    }

    fn refilter(&mut self)
        ensures
            final(self)@ == refiltered(old(self)@),
    {
        if self.selected_list < self.lists.len() {
            self.filtered_indices = filter_repos(&self.lists[self.selected_list].repos, &self.filter);
            self.repo_state = if self.filtered_indices.len() == 0 {
                None
            } else {
                Some(0)
            };
        }
    }

    /// Adds `c` to the filter and filters anew.
    pub fn on_filter_key(&mut self, c: char)
        ensures
            final(self)@ == refiltered(
                ListsViewView { filter: old(self)@.filter.push(c), ..old(self)@ },
            ),
    {
        let mut v = chars_of(self.filter.as_str());
        v.push(c);
        self.filter = string_of(&v);
        self.refilter();
    }

    /// Removes the last character of the filter, if any, and filters anew.
    pub fn on_filter_backspace(&mut self)
        ensures
            final(self)@ == refiltered(
                ListsViewView {
                    filter: if old(self)@.filter.len() > 0 {
                        old(self)@.filter.drop_last()
                    } else {
                        old(self)@.filter
                    },
                    ..old(self)@
                },
            ),
    {
        let mut v = chars_of(self.filter.as_str());
        if v.len() > 0 {
            v.pop();
        }
        self.filter = string_of(&v);
        self.refilter();
    }

    /// Drops the filter, stops typing it, and filters anew.
    pub fn on_filter_clear(&mut self)
        ensures
            final(self)@ == refiltered(
                ListsViewView { filter: Seq::empty(), filtering: false, ..old(self)@ },
            ),
    {
        self.filter = String::new();
        self.filtering = false;
        self.refilter();
    }

    fn current_len(&self) -> (n: usize)
        ensures
            n == current_len(self@),
    {
        match self.mode {
            ListsMode::Names => self.lists.len(),
            ListsMode::Repos => self.filtered_indices.len(),
        }
    }

    fn current_state(&self) -> (s: Option<usize>)
        ensures
            s == current_selection(self@),
    {
        match self.mode {
            ListsMode::Names => self.name_state,
            ListsMode::Repos => self.repo_state,
        }
    }

    fn set_current_state(&mut self, sel: Option<usize>)
        ensures
            final(self)@ == with_selection(old(self)@, sel),
    {
        match self.mode {
            ListsMode::Names => self.name_state = sel,
            ListsMode::Repos => self.repo_state = sel,
        }
    }

    /// Selects the next entry shown, if there is one.
    pub fn move_down(&mut self)
        requires
            current_selection(old(self)@) matches Some(i) ==> i < usize::MAX,
        ensures
            final(self)@ == with_selection(
                old(self)@,
                moved_down(current_selection(old(self)@), current_len(old(self)@)),
            ),
    {
        let len = self.current_len();
        let sel = crate::ui::list::move_down(self.current_state(), len);
        self.set_current_state(sel);
    }

    /// Selects the previous entry shown, if there is one.
    pub fn move_up(&mut self)
        ensures
            final(self)@ == with_selection(old(self)@, moved_up(current_selection(old(self)@))),
    {
        let sel = crate::ui::list::move_up(self.current_state());
        self.set_current_state(sel);
    }

    /// Selects the first entry shown.
    pub fn move_to_first(&mut self)
        ensures
            final(self)@ == with_selection(
                old(self)@,
                moved_first(current_selection(old(self)@), current_len(old(self)@)),
            ),
    {
        let len = self.current_len();
        let sel = crate::ui::list::move_to_first(self.current_state(), len);
        self.set_current_state(sel);
    }

    /// Selects the last entry shown.
    pub fn move_to_last(&mut self)
        ensures
            final(self)@ == with_selection(
                old(self)@,
                moved_last(current_selection(old(self)@), current_len(old(self)@)),
            ),
    {
        let len = self.current_len();
        let sel = crate::ui::list::move_to_last(self.current_state(), len);
        self.set_current_state(sel);
    }

    /// Moves the selection `page_size` entries down, at most to the last.
    pub fn page_down(&mut self, page_size: usize)
        requires
            current_selection(old(self)@) matches Some(i) ==> i + page_size <= usize::MAX,
        ensures
            final(self)@ == with_selection(
                old(self)@,
                paged_down(current_selection(old(self)@), current_len(old(self)@), page_size as nat),
            ),
    {
        let len = self.current_len();
        let sel = crate::ui::list::page_down(self.current_state(), len, page_size);
        self.set_current_state(sel);
    }

    /// Moves the selection `page_size` entries up, at most to the first.
    pub fn page_up(&mut self, page_size: usize)
        ensures
            final(self)@ == with_selection(
                old(self)@,
                paged_up(current_selection(old(self)@), page_size as nat),
            ),
    {
        let sel = crate::ui::list::page_up(self.current_state(), page_size);
        self.set_current_state(sel);
    }

    /// What the lists area shows: the spinner while loading, the error, the
    /// names of the lists, or the kept repositories of the chosen list (none
    /// when no list is chosen; ages counted up to `now`).
    pub fn body(&self, tick: usize, now: u64) -> (b: Body)
        requires
            !self.loading && self.error is None && self.mode == ListsMode::Repos
                && self.selected_list < self.lists.len() ==> rows_ok(
                self.lists@[self.selected_list as int].repos@,
                self.filtered_indices@,
                Some(now),
            ),
        ensures
            if self.loading {
                b matches Body::Message(l) && pieces(l@) == spinner_text(tick, "Loading lists..."@)
            } else if self.error is Some {
                b matches Body::Message(l) && pieces(l@) == error_text(self.error->0@)
            } else if self.mode == ListsMode::Names {
                b matches Body::Rows(rs) && text_lines(rs@) == self.lists@.map_values(
                    |l: UserList| name_row_text(l),
                )
            } else if self.selected_list < self.lists.len() {
                b matches Body::Rows(rs) && text_lines(rs@) == listed_rows(
                    self.lists@[self.selected_list as int].repos@,
                    self.filtered_indices@,
                    " \u{229d}"@,
                    Some(now),
                )
            } else {
                b matches Body::Rows(rs) && rs@.len() == 0
            },
    {
        if self.loading {
            return Body::Message(spinner_line(tick, "Loading lists..."));
        }
        if let Some(e) = &self.error {
            return Body::Message(error_line(e.as_str()));
        }
        match self.mode {
            ListsMode::Names => {
                let mut rows: Vec<Vec<Piece>> = Vec::new();
                let n = self.lists.len();
                let mut k: usize = 0;
                while k < n
                    invariant
                        n == self.lists.len(),
                        k <= n,
                        text_lines(rows@) == self.lists@.take(k as int).map_values(
                            |l: UserList| name_row_text(l),
                        ),
                    decreases n - k,
                {
                    let list = &self.lists[k];
                    let mut row: Vec<Piece> = Vec::new();
                    push_piece(&mut row, list.name.clone(), Tone::Normal);
                    let mut v = chars_of(with_number(" (", list.repos.len() as u64).as_str());
                    crate::text::push_str(&mut v, ")");
                    push_piece(&mut row, string_of(&v), Tone::Dim);
                    assert(pieces(row@) =~= name_row_text(self.lists@[k as int]));
                    push_line(&mut rows, row);
                    assert(self.lists@.take(k as int + 1).map_values(|l: UserList| name_row_text(l))
                        =~= self.lists@.take(k as int).map_values(|l: UserList| name_row_text(l)).push(
                        name_row_text(self.lists@[k as int]),
                    ));
                    k += 1;
                }
                assert(self.lists@.take(n as int) =~= self.lists@);
                Body::Rows(rows)
            },
            ListsMode::Repos => {
                if self.selected_list < self.lists.len() {
                    Body::Rows(
                        repo_rows(
                            &self.lists[self.selected_list].repos,
                            &self.filtered_indices,
                            " \u{229d}",
                            Some(now),
                        ),
                    )
                } else {
                    Body::Rows(Vec::new())
                }
            },
        }
    }

    /// The line above the repositories of a list: the filter while it is
    /// typed, or the filter in use with how many repositories it keeps;
    /// none without a filter, on the names, or with no list chosen.
    pub fn filter_line(&self) -> (l: Option<Vec<Piece>>)
        ensures
            if self.mode == ListsMode::Repos && self.selected_list < self.lists.len() {
                if self.filtering {
                    l matches Some(x) && pieces(x@) == typing_text(self@.filter, Tone::Accent)
                } else if self@.filter.len() > 0 {
                    l matches Some(x) && pieces(x@) == filter_info_text(
                        self@.filter,
                        self.filtered_indices@.len(),
                        self.lists@[self.selected_list as int].repos@.len(),
                    )
                } else {
                    l is None
                }
            } else {
                l is None
            },
    {
        if self.mode != ListsMode::Repos || self.selected_list >= self.lists.len() {
            return None;
        }
        if self.filtering {
            Some(typing_line(self.filter.as_str(), Tone::Accent))
        } else if !self.filter.as_str().is_empty() {
            Some(
                filter_info_line(
                    self.filter.as_str(),
                    self.filtered_indices.len(),
                    self.lists[self.selected_list].repos.len(),
                ),
            )
        } else {
            None
        }
    }

    /// The name of the list whose repositories are shown.
    pub fn current_list_name(&self) -> (name: Option<&str>)
        ensures
            self.mode == ListsMode::Repos && self.selected_list < self@.lists.len() ==> (name matches Some(
                n,
            ) && n@ == self@.lists[self.selected_list as int].name@),
            !(self.mode == ListsMode::Repos && self.selected_list < self@.lists.len())
                ==> name is None,
    {
        if self.mode == ListsMode::Repos && self.selected_list < self.lists.len() {
            Some(self.lists[self.selected_list].name.as_str())
        } else {
            None
        }
    }
}

} // verus!
