//! The repository search: the query being typed and the results.
use crate::gh::{self, Repo};
use crate::text::{chars_of, trim, trimmed, views};
use crate::ui::display::{
    concat, dim_line, error_line, error_text, pieces, push_line, push_piece, push_text,
    spinner_line, spinner_text, text_lines, Body, Piece, Tone,
};
use crate::ui::list::{first_selection, moved_down, moved_up};
use crate::ui::repo_list::{repo_row, repo_row_text};
use vstd::prelude::*;

verus! {

/// The search screen.
pub struct SearchView {
    pub query: String,
    pub editing: bool,
    pub results: Vec<Repo>,
    pub state: Option<usize>,
    pub loading: bool,
    pub error: Option<String>,
    pub searched: bool,
}

/// What the search screen holds.
#[verifier::ext_equal]
pub struct SearchViewView {
    pub query: Seq<char>,
    pub editing: bool,
    pub results: Seq<Repo>,
    pub state: Option<usize>,
    pub loading: bool,
    pub error: Option<String>,
    pub searched: bool,
}

impl View for SearchView {
    type V = SearchViewView;

    open spec fn view(&self) -> SearchViewView {
        SearchViewView {
            query: self.query@,
            editing: self.editing,
            results: self.results@,
            state: self.state,
            loading: self.loading,
            error: self.error,
            searched: self.searched,
        }
    }
}

/// The selected result, if any.
pub open spec fn search_selected_repo(v: SearchViewView) -> Option<Repo> {
    match v.state {
        Some(i) => if i < v.results.len() {
            Some(v.results[i as int])
        } else {
            None
        },
        None => None,
    }
}

/// What a new one holds.
pub open spec fn new_search_view() -> SearchViewView {
    SearchViewView {
        query: Seq::empty(),
        editing: true,
        results: Seq::empty(),
        state: None,
        loading: false,
        error: None,
        searched: false,
    }
}

impl SearchView {
    /// An empty search, ready for typing.
    pub fn new() -> (s: Self)
        ensures
            s@ == new_search_view(),
    {
        SearchView {
            query: String::new(),
            editing: true,
            results: Vec::new(),
            state: None,
            loading: false,
            error: None,
            searched: false,
        }
    }

    /// Starts a search for the query unless it is blank; then the answer is
    /// the `gh` arguments of the search (thirty results at most).
    pub fn search(&mut self) -> (fetch: Option<Vec<String>>)
        ensures
            trim(old(self)@.query).len() == 0 ==> fetch is None && final(self)@ == old(self)@,
            trim(old(self)@.query).len() > 0 ==> (fetch matches Some(args) && views(args@)
                == gh::search_repos_args(old(self)@.query, 30)) && final(self)@ == (SearchViewView {
                loading: true,
                error: None,
                searched: true,
                ..old(self)@
            }),
    {
        let q = chars_of(self.query.as_str());
        if trimmed(&q).len() == 0 {
            return None;
        }
        self.loading = true;
        self.error = None;
        self.searched = true;
        Some(gh::search_repos(self.query.as_str(), 30))
    }

    /// Takes in the answer of the search: the results with the first
    /// selected, or the error. Either way the loading ends.
    pub fn poll(&mut self, result: Result<Vec<Repo>, String>)
        ensures
            match result {
                Ok(r) => final(self)@ == (SearchViewView {
                    loading: false,
                    results: r@,
                    state: first_selection(r@.len()),
                    ..old(self)@
                }),
                Err(e) => final(self)@ == (SearchViewView {
                    loading: false,
                    error: Some(e),
                    ..old(self)@
                }),
            },
    {
        self.loading = false;
        match result {
            Ok(repos) => {
                self.results = repos;
                self.state = if self.results.len() > 0 {
                    Some(0)
                } else {
                    None
                };
            },
            Err(e) => self.error = Some(e),
        }
    }

    /// Selects the next result, if there is one.
    pub fn move_down(&mut self)
        requires
            old(self).state matches Some(i) ==> i < usize::MAX,
        ensures
            final(self)@ == (SearchViewView {
                state: moved_down(old(self).state, old(self).results@.len()),
                ..old(self)@
            }),
    {
        self.state = crate::ui::list::move_down(self.state, self.results.len());
    }

    /// Selects the previous result, if there is one.
    pub fn move_up(&mut self)
        ensures
            final(self)@ == (SearchViewView { state: moved_up(old(self).state), ..old(self)@ }),
    {
        self.state = crate::ui::list::move_up(self.state);
    }

    /// The line of the query: the prompt, then the query, with a block cursor
    /// while it is typed.
    pub fn input_line(&self) -> (l: Vec<Piece>)
        ensures
            pieces(l@) == seq![
                (" / "@, Tone::Accent),
                (self@.query + if self.editing {
                    "\u{2588}"@
                } else {
                    Seq::empty()
                }, Tone::Normal),
            ],
    {
        let mut l: Vec<Piece> = Vec::new();
        push_text(&mut l, " / ", Tone::Accent);
        let text = if self.editing {
            concat(self.query.as_str(), "\u{2588}")
        } else {
            proof {
                reveal_strlit("");
            }
            concat(self.query.as_str(), "")
        };
        push_piece(&mut l, text, Tone::Normal);
        l
    }

    /// What the results area shows: the spinner while searching, the error,
    /// an invitation before the first search, that nothing was found, else
    /// the rows of the results.
    pub fn body(&self, tick: usize) -> (b: Body)
        ensures
            if self.loading {
                b matches Body::Message(l) && pieces(l@) == spinner_text(tick, "Searching..."@)
            } else if self.error is Some {
                b matches Body::Message(l) && pieces(l@) == error_text(self.error->0@)
            } else if !self.searched {
                b matches Body::Message(l) && pieces(l@) == seq![
                    (" Type a query and press Enter to search"@, Tone::Dim),
                ]
            } else if self.results.len() == 0 {
                b matches Body::Message(l) && pieces(l@) == seq![(" No results"@, Tone::Dim)]
            } else {
                b matches Body::Rows(rs) && text_lines(rs@) == self.results@.map_values(
                    |r: Repo| repo_row_text(r, " [private]"@, None),
                )
            },
    {
        if self.loading {
            return Body::Message(spinner_line(tick, "Searching..."));
        }
        if let Some(e) = &self.error {
            return Body::Message(error_line(e.as_str()));
        }
        if !self.searched {
            return Body::Message(dim_line(" Type a query and press Enter to search"));
        }
        if self.results.len() == 0 {
            return Body::Message(dim_line(" No results"));
        }
        let mut rows: Vec<Vec<Piece>> = Vec::new();
        let n = self.results.len();
        let mut k: usize = 0;
        while k < n
            invariant
                n == self.results.len(),
                k <= n,
                text_lines(rows@) == self.results@.take(k as int).map_values(
                    |r: Repo| repo_row_text(r, " [private]"@, None),
                ),
            decreases n - k,
        {
            let row = repo_row(&self.results[k], " [private]", None);
            push_line(&mut rows, row);
            assert(self.results@.take(k as int + 1).map_values(
                |r: Repo| repo_row_text(r, " [private]"@, None),
            ) =~= self.results@.take(k as int).map_values(
                |r: Repo| repo_row_text(r, " [private]"@, None),
            ).push(repo_row_text(self.results@[k as int], " [private]"@, None)));
            k += 1;
        }
        assert(self.results@.take(n as int) =~= self.results@);
        Body::Rows(rows)
    }

    /// The selected result, if any.
    pub fn selected_repo(&self) -> (r: Option<&Repo>)
        ensures
            match search_selected_repo(self@) {
                Some(x) => r matches Some(y) && *y == x,
                None => r is None,
            },
    {
        match self.state {
            Some(i) => if i < self.results.len() {
                Some(&self.results[i])
            } else {
                None
            },
            None => None,
        }
    }
}

} // verus!
