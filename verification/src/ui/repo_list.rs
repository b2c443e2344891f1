//! The list of repositories of one source (the user's own, the starred ones,
//! or an organization's), with a filter and a cache of what each source gave.
use crate::gh::{self, copy_repos, Repo};
use crate::text::{chars_of, contains, decimal, lower_contains, opt_chars, lowercase, string_of, lower, views};
use crate::ui::display::{
    concat, error_line, error_text, pieces, push_line, push_piece, push_text, spinner_line,
    spinner_text, text_lines, with_number, Body, Piece, Tone,
};
use crate::ui::time::{rfc3339_in_range, spec_timeago, timeago};
use crate::ui::list::{
    first_selection, indices_where, moved_down, moved_first, moved_last, moved_up, paged_down,
    paged_up,
};
use vstd::prelude::*;

verus! {

/// Where the listed repositories come from.
#[derive(Debug, Clone, Copy, PartialEq, Eq, Hash, Structural)]
pub enum RepoSource {
    Mine,
    Starred,
    Org(usize),
}

/// The fetch that loading a source needs: the `gh` arguments, by the shape of
/// the answer; or none for an organization that is not known, which gives an
/// empty list.
pub enum RepoFetch {
    Mine(Vec<String>),
    Starred(Vec<String>),
    Org(Vec<String>),
    NoSuchOrg,
}

/// The answer of a fetch for a source.
pub struct LoadResult {
    pub source: RepoSource,
    pub result: Result<Vec<Repo>, String>,
}

/// The repository list.
pub struct RepoList {
    pub repos: Vec<Repo>,
    pub orgs: Vec<String>,
    pub source: RepoSource,
    pub state: Option<usize>,
    pub loading: bool,
    pub error: Option<String>,
    pub filter: String,
    pub filtering: bool,
    pub filtered_indices: Vec<usize>,
    pub cache: Vec<(RepoSource, Vec<Repo>)>,
}

/// What a repository list holds.
#[verifier::ext_equal]
pub struct RepoListView {
    pub repos: Seq<Repo>,
    pub orgs: Seq<String>,
    pub source: RepoSource,
    pub state: Option<usize>,
    pub loading: bool,
    pub error: Option<String>,
    pub filter: Seq<char>,
    pub filtering: bool,
    pub filtered: Seq<usize>,
    pub cache: Seq<(RepoSource, Seq<Repo>)>,
}

impl View for RepoList {
    type V = RepoListView;

    open spec fn view(&self) -> RepoListView {
        RepoListView {
            repos: self.repos@,
            orgs: self.orgs@,
            source: self.source,
            state: self.state,
            loading: self.loading,
            error: self.error,
            filter: self.filter@,
            filtering: self.filtering,
            filtered: self.filtered_indices@,
            cache: self.cache@.map_values(|e: (RepoSource, Vec<Repo>)| (e.0, e.1@)),
        }
    }
}

/// The repositories that a source gave last, if it was fetched.
pub open spec fn cache_lookup(entries: Seq<(RepoSource, Seq<Repo>)>, s: RepoSource) -> Option<
    Seq<Repo>,
>
    decreases entries.len(),
{
    if entries.len() == 0 {
        None
    } else if entries[0].0 == s {
        Some(entries[0].1)
    } else {
        cache_lookup(entries.drop_first(), s)
    }
}

/// A repository matches a lower-case query when its lower-case name or
/// description contains it.
pub open spec fn repo_matches(r: Repo, query: Seq<char>) -> bool {
    contains(lowercase(r.full_name@), query) || contains(
        lowercase(opt_chars(r.description)),
        query,
    )
}

/// The positions of the repositories that the filter keeps: all of them
/// when it is empty, else those matching its lower-case form.
pub open spec fn repo_filter(repos: Seq<Repo>, filter: Seq<char>) -> Seq<usize> {
    indices_where(
        repos.len(),
        |i: int| filter.len() == 0 || repo_matches(repos[i], lowercase(filter)),
    )
}

/// The list after a new filtering of its repositories: the kept positions,
/// and the first of them selected.
pub open spec fn refiltered(v: RepoListView) -> RepoListView {
    let f = repo_filter(v.repos, v.filter);
    RepoListView { filtered: f, state: first_selection(f.len()), ..v }
}

/// The index of a source among all sources: 0 for the user's own, 1 for the
/// starred ones, then the organizations.
pub open spec fn source_index(s: RepoSource) -> int {
    match s {
        RepoSource::Mine => 0,
        RepoSource::Starred => 1,
        RepoSource::Org(i) => 2 + i,
    }
}

/// The source with index `idx`.
pub open spec fn source_at(idx: usize) -> RepoSource {
    if idx == 0 {
        RepoSource::Mine
    } else if idx == 1 {
        RepoSource::Starred
    } else {
        RepoSource::Org((idx - 2) as usize)
    }
}

/// The labels of all sources: `My Repos`, `Starred`, then the organizations.
pub open spec fn labels_of(orgs: Seq<String>) -> Seq<Seq<char>> {
    seq!["My Repos"@, "Starred"@] + views(orgs)
}

/// The fetch that loading `source` needs, fifty repositories at most.
pub open spec fn fetch_for(f: RepoFetch, source: RepoSource, orgs: Seq<String>) -> bool {
    match source {
        RepoSource::Mine => f matches RepoFetch::Mine(a) && views(a@) == gh::list_repos_args(50),
        RepoSource::Starred => f matches RepoFetch::Starred(a) && views(a@)
            == gh::list_starred_args(50),
        RepoSource::Org(i) => if i < orgs.len() {
            f matches RepoFetch::Org(a) && views(a@) == gh::list_org_repos_args(orgs[i as int]@, 50)
        } else {
            f is NoSuchOrg
        },
    }
}

/// The positions of the repositories that `filter` keeps.
pub fn filter_repos(repos: &Vec<Repo>, filter: &String) -> (r: Vec<usize>)
    ensures
        r@ == repo_filter(repos@, filter@),
{
    let n = repos.len();
    let empty = filter.as_str().is_empty();
    let lowered = lower(filter.as_str());
    let query = chars_of(lowered.as_str());
    let ghost pred = |i: int| filter@.len() == 0 || repo_matches(repos@[i], lowercase(filter@));
    let mut out: Vec<usize> = Vec::new();
    let mut i: usize = 0;
    while i < n
        invariant
            n == repos.len(),
            i <= n,
            empty == (filter@.len() == 0),
            query@ == lowercase(filter@),
            pred == (|i: int| filter@.len() == 0 || repo_matches(repos@[i], lowercase(filter@))),
            out@ == indices_where(i as nat, pred),
        decreases n - i,
    {
        let r = &repos[i];
        let keep = empty || lower_contains(r.full_name.as_str(), &query) || match &r.description {
            Some(d) => lower_contains(d.as_str(), &query),
            None => {
                proof {
                    reveal_strlit("");
                }
                assert(""@ =~= opt_chars(r.description));
                lower_contains("", &query)
            },
        };
        assert(keep == pred(i as int));
        if keep {
            out.push(i);
        }
        i += 1;
    }
    out
}

/// The age of an entry can be told from its timestamp (or it has none).
pub open spec fn age_ok(ts: Option<String>) -> bool {
    match ts {
        Some(t) => rfc3339_in_range(t@),
        None => true,
    }
}

/// How a repository is listed: its name; `private_mark` when it is private;
/// its stars when it has some; how long before `now` it changed, when `now`
/// is given and it has a timestamp; its description when that is not empty.
pub open spec fn repo_row_text(r: Repo, private_mark: Seq<char>, now: Option<u64>) -> Seq<
    (Seq<char>, Tone),
> {
    let a = seq![(r.full_name@, Tone::Normal)];
    let b = if r.is_private {
        a.push((private_mark, Tone::Purple))
    } else {
        a
    };
    let c = if r.star_count > 0 {
        b.push((" *"@ + decimal(r.star_count as nat), Tone::Dim))
    } else {
        b
    };
    let d = match (now, r.updated_at) {
        (Some(n), Some(ts)) => c.push((" \u{b7} "@ + spec_timeago(ts@, n as nat), Tone::Dim)),
        _ => c,
    };
    match r.description {
        Some(desc) => if desc@.len() > 0 {
            d.push((" \u{2014} "@ + desc@, Tone::Dim))
        } else {
            d
        },
        None => d,
    }
}

/// How a repository is listed.
pub fn repo_row(r: &Repo, private_mark: &str, now: Option<u64>) -> (l: Vec<Piece>)
    requires
        now is Some ==> age_ok(r.updated_at),
    ensures
        pieces(l@) == repo_row_text(*r, private_mark@, now),
{
    let mut l: Vec<Piece> = Vec::new();
    push_piece(&mut l, r.full_name.clone(), Tone::Normal);
    if r.is_private {
        push_text(&mut l, private_mark, Tone::Purple);
    }
    if r.star_count > 0 {
        push_piece(&mut l, with_number(" *", r.star_count as u64), Tone::Dim);
    }
    match (now, &r.updated_at) {
        (Some(n), Some(ts)) => {
            let ago = timeago(ts.as_str(), n);
            push_piece(&mut l, concat(" \u{b7} ", ago.as_str()), Tone::Dim);
        },
        _ => {},
    }
    match &r.description {
        Some(d) => if !d.as_str().is_empty() {
            push_piece(&mut l, concat(" \u{2014} ", d.as_str()), Tone::Dim);
        },
        None => {},
    }
    l
}

/// The rows of the repositories at positions `idx`, in that order.
pub open spec fn listed_rows(
    repos: Seq<Repo>,
    idx: Seq<usize>,
    private_mark: Seq<char>,
    now: Option<u64>,
) -> Seq<Seq<(Seq<char>, Tone)>> {
    idx.map_values(|i: usize| repo_row_text(repos[i as int], private_mark, now))
}

/// The positions are those of repositories, whose ages can be told when
/// `now` is given.
pub open spec fn rows_ok(repos: Seq<Repo>, idx: Seq<usize>, now: Option<u64>) -> bool {
    forall|k: int|
        0 <= k < idx.len() ==> #[trigger] idx[k] < repos.len() && (now is Some ==> age_ok(
            repos[idx[k] as int].updated_at,
        ))
}

/// The rows of the repositories at positions `idx`.
pub fn repo_rows(repos: &Vec<Repo>, idx: &Vec<usize>, private_mark: &str, now: Option<u64>) -> (rows:
    Vec<Vec<Piece>>)
    requires
        rows_ok(repos@, idx@, now),
    ensures
        text_lines(rows@) == listed_rows(repos@, idx@, private_mark@, now),
{
    let mut rows: Vec<Vec<Piece>> = Vec::new();
    let n = idx.len();
    let mut k: usize = 0;
    while k < n
        invariant
            n == idx.len(),
            k <= n,
            rows_ok(repos@, idx@, now),
            text_lines(rows@) == listed_rows(repos@, idx@.take(k as int), private_mark@, now),
        decreases n - k,
    {
        assert(idx@[k as int] < repos@.len());
        let row = repo_row(&repos[idx[k]], private_mark, now);
        push_line(&mut rows, row);
        assert(listed_rows(repos@, idx@.take(k as int + 1), private_mark@, now) =~= listed_rows(
            repos@,
            idx@.take(k as int),
            private_mark@,
            now,
        ).push(repo_row_text(repos@[idx@[k as int] as int], private_mark@, now)));
        k += 1;
    }
    assert(idx@.take(n as int) =~= idx@);
    rows
}

/// What a new one holds.
pub open spec fn new_list_view() -> RepoListView {
    RepoListView {
        repos: Seq::empty(),
        orgs: Seq::empty(),
        source: RepoSource::Mine,
        state: None,
        loading: true,
        error: None,
        filter: Seq::empty(),
        filtering: false,
        filtered: Seq::empty(),
        cache: Seq::empty(),
    }
}

/// The list after loading its current source: from the cache when the
/// source was fetched before (filtered anew); else empty and loading.
pub open spec fn after_load(v: RepoListView) -> RepoListView {
    match cache_lookup(v.cache, v.source) {
        Some(rs) => refiltered(RepoListView { repos: rs, loading: false, error: None, ..v }),
        None => RepoListView {
            loading: true,
            error: None,
            repos: Seq::empty(),
            filtered: Seq::empty(),
            ..v
        },
    }
}

/// The position in the repositories of the selected entry, if any.
pub open spec fn selected_index(v: RepoListView) -> Option<int> {
    match v.state {
        Some(i) => if i < v.filtered.len() && v.filtered[i as int] < v.repos.len() {
            Some(v.filtered[i as int] as int)
        } else {
            None
        },
        None => None,
    }
}

impl RepoList {
    /// An empty list of the user's own repositories, loading.
    pub fn new() -> (l: Self)
        ensures
            l@ == new_list_view(),
    {
        let l = RepoList {
            repos: Vec::new(),
            orgs: Vec::new(),
            source: RepoSource::Mine,
            state: None,
            loading: true,
            error: None,
            filter: String::new(),
            filtering: false,
            filtered_indices: Vec::new(),
            cache: Vec::new(),
        };
        assert(l@.cache =~= Seq::<(RepoSource, Seq<Repo>)>::empty());
        l
    }

    fn cached_repos(&self) -> (r: Option<Vec<Repo>>)
        ensures
            match cache_lookup(self@.cache, self.source) {
                Some(rs) => r matches Some(v) && v@ == rs,
                None => r is None,
            },
    {
        let ghost entries = self@.cache;
        let n = self.cache.len();
        let mut i: usize = 0;
        assert(entries.skip(0) =~= entries);
        while i < n
            invariant
                n == self.cache.len(),
                i <= n,
                entries == self@.cache,
                cache_lookup(entries, self.source) == cache_lookup(entries.skip(i as int), self.source),
            decreases n - i,
        {
            assert(entries.skip(i as int).drop_first() =~= entries.skip(i + 1));
            assert(entries.skip(i as int)[0] == entries[i as int]);
            if self.cache[i].0 == self.source {
                return Some(copy_repos(&self.cache[i].1));
            }
            i += 1;
        }
        assert(entries.skip(n as int) =~= Seq::<(RepoSource, Seq<Repo>)>::empty());
        None
    }

    fn cache_store(&mut self, s: RepoSource, repos: Vec<Repo>)
        ensures
            forall|t: RepoSource|
                cache_lookup(final(self)@.cache, t) == if t == s {
                    Some(repos@)
                } else {
                    cache_lookup(old(self)@.cache, t)
                },
            final(self)@ == (RepoListView { cache: final(self)@.cache, ..old(self)@ }),
    {
        let ghost entries = old(self)@.cache;
        let n = self.cache.len();
        let mut i: usize = 0;
        let mut found = false;
        while i < n && !found
            invariant
                n == self.cache.len(),
                i <= n,
                *self == *old(self),
                entries == self@.cache,
                found ==> i < n && entries[i as int].0 == s,
                forall|j: int| 0 <= j < i ==> entries[j].0 != s,
            decreases (n - i) as int + (if found {
                0int
            } else {
                1int
            }),
        {
            if self.cache[i].0 == s {
                found = true;
            } else {
                i += 1;
            }
        }
        let ghost rv = repos@;
        if found {
            proof {
                lemma_cache_replace(entries, i as int, s, rv);
            }
            self.cache.set(i, (s, repos));
            assert(self@.cache =~= entries.update(i as int, (s, rv)));
        } else {
            proof {
                lemma_cache_append(entries, s, rv);
            }
            self.cache.push((s, repos));
            assert(self@.cache =~= entries.push((s, rv)));
        }
    }

    /// Shows the current source: from the cache when it was fetched before
    /// (filtered anew, nothing to fetch); else empty and loading, and the
    /// answer holds the fetch to make.
    pub fn load(&mut self) -> (fetch: Option<RepoFetch>)
        ensures
            final(self)@ == after_load(old(self)@),
            match cache_lookup(old(self)@.cache, old(self).source) {
                Some(_) => fetch is None,
                None => fetch matches Some(f) && fetch_for(f, old(self).source, old(self)@.orgs),
            },
    {
        match self.cached_repos() {
            Some(repos) => {
                self.repos = repos;
                self.loading = false;
                self.error = None;
                self.refilter();
                None
            },
            None => {
                self.loading = true;
                self.error = None;
                self.repos.clear();
                self.filtered_indices.clear();
                let fetch = match self.source {
                    RepoSource::Mine => RepoFetch::Mine(gh::list_repos(50)),
                    RepoSource::Starred => RepoFetch::Starred(gh::list_starred(50)),
                    RepoSource::Org(idx) => if idx < self.orgs.len() {
                        RepoFetch::Org(gh::list_org_repos(self.orgs[idx].as_str(), 50))
                    } else {
                        RepoFetch::NoSuchOrg
                    },
                };
                Some(fetch)
            },
        }
    }

    /// Takes in the answer of a fetch: one for another source than the current
    /// one is dropped; repositories are cached for their source, shown and
    /// filtered anew; an error is kept. Either way the loading ends.
    pub fn poll(&mut self, msg: LoadResult)
        ensures
            msg.source != old(self).source ==> final(self)@ == old(self)@,
            msg.source == old(self).source ==> match msg.result {
                Ok(repos) => {
                    &&& forall|t: RepoSource|
                        cache_lookup(final(self)@.cache, t) == if t == msg.source {
                            Some(repos@)
                        } else {
                            cache_lookup(old(self)@.cache, t)
                        }
                    &&& final(self)@ == refiltered(
                        RepoListView {
                            repos: repos@,
                            error: None,
                            loading: false,
                            cache: final(self)@.cache,
                            ..old(self)@
                        },
                    )
                },
                Err(e) => final(self)@ == (RepoListView {
                    error: Some(e),
                    loading: false,
                    ..old(self)@
                }),
            },
    {
        if msg.source == self.source {
            match msg.result {
                Ok(repos) => {
                    let copy = copy_repos(&repos);
                    self.cache_store(msg.source, copy);
                    self.repos = repos;
                    self.refilter();
                    self.error = None;
                },
                Err(e) => self.error = Some(e),
            }
            self.loading = false;
        }
    }

    /// Takes in the organizations when listing them succeeded.
    pub fn load_orgs(&mut self, orgs: Option<Vec<String>>)
        ensures
            orgs matches Some(o) ==> final(self)@ == (RepoListView { orgs: o@, ..old(self)@ }),
            orgs is None ==> final(self)@ == old(self)@,
    {
        if let Some(o) = orgs {
            self.orgs = o;
        }
    }

    /// Chooses the repositories that the filter keeps, and selects the first.
    pub fn refilter(&mut self)
        ensures
            final(self)@ == refiltered(old(self)@),
    {
        self.filtered_indices = filter_repos(&self.repos, &self.filter);
        self.state = if self.filtered_indices.len() == 0 {
            None
        } else {
            Some(0)
        };
    }

    /// The selected repository, if any.
    pub fn selected_repo(&self) -> (r: Option<&Repo>)
        ensures
            match selected_index(self@) {
                Some(k) => r matches Some(x) && *x == self.repos@[k],
                None => r is None,
            },
    {
        match self.state {
            Some(i) => if i < self.filtered_indices.len() && self.filtered_indices[i]
                < self.repos.len() {
                Some(&self.repos[self.filtered_indices[i]])
            } else {
                None
            },
            None => None,
        }
    }

    /// Selects the next kept repository, if there is one.
    pub fn move_down(&mut self)
        requires
            old(self).state matches Some(i) ==> i < usize::MAX,
        ensures
            final(self)@ == (RepoListView {
                state: moved_down(old(self).state, old(self).filtered_indices@.len()),
                ..old(self)@
            }),
    {
        self.state = crate::ui::list::move_down(self.state, self.filtered_indices.len());
    }

    /// Selects the previous repository, if there is one.
    pub fn move_up(&mut self)
        ensures
            final(self)@ == (RepoListView { state: moved_up(old(self).state), ..old(self)@ }),
    {
        self.state = crate::ui::list::move_up(self.state);
    }

    /// Selects the first kept repository.
    pub fn move_to_first(&mut self)
        ensures
            final(self)@ == (RepoListView {
                state: moved_first(old(self).state, old(self).filtered_indices@.len()),
                ..old(self)@
            }),
    {
        self.state = crate::ui::list::move_to_first(self.state, self.filtered_indices.len());
    }

    /// Selects the last kept repository.
    pub fn move_to_last(&mut self)
        ensures
            final(self)@ == (RepoListView {
                state: moved_last(old(self).state, old(self).filtered_indices@.len()),
                ..old(self)@
            }),
    {
        self.state = crate::ui::list::move_to_last(self.state, self.filtered_indices.len());
    }

    /// Moves the selection `page_size` entries down, at most to the last.
    pub fn page_down(&mut self, page_size: usize)
        requires
            old(self).state matches Some(i) ==> i + page_size <= usize::MAX,
        ensures
            final(self)@ == (RepoListView {
                state: paged_down(
                    old(self).state,
                    old(self).filtered_indices@.len(),
                    page_size as nat,
                ),
                ..old(self)@
            }),
    {
        self.state = crate::ui::list::page_down(
            self.state,
            self.filtered_indices.len(),
            page_size,
        );
    }

    /// Moves the selection `page_size` entries up, at most to the first.
    pub fn page_up(&mut self, page_size: usize)
        ensures
            final(self)@ == (RepoListView {
                state: paged_up(old(self).state, page_size as nat),
                ..old(self)@
            }),
    {
        self.state = crate::ui::list::page_up(self.state, page_size);
    }

    /// The labels of all sources, in the order of their indices.
    pub fn source_labels(&self) -> (labels: Vec<String>)
        ensures
            views(labels@) == labels_of(self.orgs@),
    {
        let mut labels: Vec<String> = Vec::new();
        labels.push(string_of(&chars_of("My Repos")));
        labels.push(string_of(&chars_of("Starred")));
        let n = self.orgs.len();
        let mut i: usize = 0;
        while i < n
            invariant
                n == self.orgs.len(),
                i <= n,
                views(labels@) == seq!["My Repos"@, "Starred"@] + views(self.orgs@.take(i as int)),
            decreases n - i,
        {
            let ghost before = labels@;
            labels.push(self.orgs[i].clone());
            assert(views(labels@) =~= views(before).push(self.orgs@[i as int]@));
            assert(views(self.orgs@.take(i as int + 1)) =~= views(self.orgs@.take(i as int)).push(
                self.orgs@[i as int]@,
            ));
            i += 1;
        }
        assert(self.orgs@.take(n as int) =~= self.orgs@);
        labels
    }

    /// The index of the current source among all sources.
    pub fn active_source_index(&self) -> (idx: usize)
        requires
            self.source matches RepoSource::Org(i) ==> i <= usize::MAX - 2,
        ensures
            idx == source_index(self.source),
    {
        match self.source {
            RepoSource::Mine => 0,
            RepoSource::Starred => 1,
            RepoSource::Org(i) => 2 + i,
        }
    }

    /// The number of sources: the user's own, the starred ones, and one per
    /// organization.
    pub fn total_sources(&self) -> (n: usize)
        requires
            self.orgs.len() <= usize::MAX - 2,
        ensures
            n == 2 + self.orgs.len(),
    {
        2 + self.orgs.len()
    }

    /// What the list area shows: the spinner while loading, the error, else
    /// the rows of the kept repositories (ages counted up to `now`).
    pub fn body(&self, tick: usize, now: u64) -> (b: Body)
        requires
            !self.loading && self.error is None ==> rows_ok(
                self.repos@,
                self.filtered_indices@,
                Some(now),
            ),
        ensures
            if self.loading {
                b matches Body::Message(l) && pieces(l@) == spinner_text(
                    tick,
                    "Loading repositories..."@,
                )
            } else {
                match self.error {
                    Some(e) => b matches Body::Message(l) && pieces(l@) == error_text(e@),
                    None => b matches Body::Rows(rs) && text_lines(rs@) == listed_rows(
                        self.repos@,
                        self.filtered_indices@,
                        " [private]"@,
                        Some(now),
                    ),
                }
            },
    {
        if self.loading {
            return Body::Message(spinner_line(tick, "Loading repositories..."));
        }
        match &self.error {
            Some(e) => Body::Message(error_line(e.as_str())),
            None => Body::Rows(repo_rows(&self.repos, &self.filtered_indices, " [private]", Some(now))),
        }
    }

    /// Makes the source with index `idx` the current one.
    pub fn set_source_by_index(&mut self, idx: usize)
        ensures
            final(self)@ == (RepoListView { source: source_at(idx), ..old(self)@ }),
    {
        self.source = if idx == 0 {
            RepoSource::Mine
        } else if idx == 1 {
            RepoSource::Starred
        } else {
            RepoSource::Org(idx - 2)
        };
    }
}

proof fn lemma_cache_replace(
    entries: Seq<(RepoSource, Seq<Repo>)>,
    i: int,
    s: RepoSource,
    rv: Seq<Repo>,
)
    requires
        0 <= i < entries.len(),
        entries[i].0 == s,
        forall|j: int| 0 <= j < i ==> entries[j].0 != s,
    ensures
        forall|t: RepoSource|
            cache_lookup(entries.update(i, (s, rv)), t) == if t == s {
                Some(rv)
            } else {
                cache_lookup(entries, t)
            },
{
    assert forall|t: RepoSource|
        cache_lookup(entries.update(i, (s, rv)), t) == if t == s {
            Some(rv)
        } else {
            cache_lookup(entries, t)
        } by {
        lemma_cache_replace_at(entries, i, s, rv, t);
    }
}

proof fn lemma_cache_replace_at(
    entries: Seq<(RepoSource, Seq<Repo>)>,
    i: int,
    s: RepoSource,
    rv: Seq<Repo>,
    t: RepoSource,
)
    requires
        0 <= i < entries.len(),
        entries[i].0 == s,
        forall|j: int| 0 <= j < i ==> entries[j].0 != s,
    ensures
        cache_lookup(entries.update(i, (s, rv)), t) == if t == s {
            Some(rv)
        } else {
            cache_lookup(entries, t)
        },
    decreases i,
{
    let u = entries.update(i, (s, rv));
    assert(u.len() == entries.len());
    if i == 0 {
        assert(u[0] == (s, rv));
        assert(u.drop_first() =~= entries.drop_first());
        if t != s {
            assert(cache_lookup(u, t) == cache_lookup(u.drop_first(), t));
            assert(cache_lookup(entries, t) == cache_lookup(entries.drop_first(), t));
        }
    } else {
        assert(u[0] == entries[0]);
        assert(entries[0].0 != s);
        assert(entries.drop_first()[i - 1] == entries[i]);
        assert forall|j: int| 0 <= j < i - 1 implies entries.drop_first()[j].0 != s by {
            assert(entries.drop_first()[j] == entries[j + 1]);
        }
        lemma_cache_replace_at(entries.drop_first(), i - 1, s, rv, t);
        assert(u.drop_first() =~= entries.drop_first().update(i - 1, (s, rv)));
    }
}

proof fn lemma_cache_append(entries: Seq<(RepoSource, Seq<Repo>)>, s: RepoSource, rv: Seq<Repo>)
    requires
        forall|j: int| 0 <= j < entries.len() ==> entries[j].0 != s,
    ensures
        forall|t: RepoSource|
            cache_lookup(entries.push((s, rv)), t) == if t == s {
                Some(rv)
            } else {
                cache_lookup(entries, t)
            },
{
    assert forall|t: RepoSource|
        cache_lookup(entries.push((s, rv)), t) == if t == s {
            Some(rv)
        } else {
            cache_lookup(entries, t)
        } by {
        lemma_cache_append_at(entries, s, rv, t);
    }
}

proof fn lemma_cache_append_at(
    entries: Seq<(RepoSource, Seq<Repo>)>,
    s: RepoSource,
    rv: Seq<Repo>,
    t: RepoSource,
)
    requires
        forall|j: int| 0 <= j < entries.len() ==> entries[j].0 != s,
    ensures
        cache_lookup(entries.push((s, rv)), t) == if t == s {
            Some(rv)
        } else {
            cache_lookup(entries, t)
        },
    decreases entries.len(),
{
    let u = entries.push((s, rv));
    if entries.len() > 0 {
        assert(u[0] == entries[0]);
        assert(entries[0].0 != s);
        assert forall|j: int| 0 <= j < entries.drop_first().len() implies entries.drop_first()[j].0
            != s by {
            assert(entries.drop_first()[j] == entries[j + 1]);
        }
        lemma_cache_append_at(entries.drop_first(), s, rv, t);
        assert(u.drop_first() =~= entries.drop_first().push((s, rv)));
        if entries[0].0 != t {
            assert(cache_lookup(u, t) == cache_lookup(u.drop_first(), t));
            assert(cache_lookup(entries, t) == cache_lookup(entries.drop_first(), t));
        }
    } else {
        assert(u[0] == (s, rv));
        assert(u.drop_first() =~= Seq::<(RepoSource, Seq<Repo>)>::empty());
        if t != s {
            assert(cache_lookup(u, t) == cache_lookup(u.drop_first(), t));
        }
    }
}

} // verus!
