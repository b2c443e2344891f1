//! The screen of one repository: its overview, its issues and its pull
//! requests, the lists with a filter.
use crate::gh::{self, Author, CheckStatus, Issue, Label, RepoDetail, PR};
use crate::text::{
    chars_of, contains, decimal, lower_contains, push_str, lowercase,
    str_eq, string_of, lower, views,
};
use crate::ui::display::{
    concat, concat3, empty_list_line, empty_list_text, error_line, error_text, filter_info_line,
    filter_info_text, pieces, push_line, push_piece, push_text, spinner_line, spinner_text,
    text_lines, typing_line, typing_text, with_number, Body, Piece, Tone,
};
use crate::ui::repo_list::age_ok;
use crate::ui::time::{spec_timeago, timeago};
use crate::ui::list::{first_selection, indices_where, moved_down, moved_first, moved_last, moved_up, paged_down, paged_up};
use vstd::prelude::*;

verus! {

/// The tabs of a repository.
#[derive(Debug, Clone, Copy, PartialEq, Eq, Structural)]
pub enum RepoTab {
    Overview,
    Issues,
    PullRequests,
}

impl RepoTab {
    /// How the tab is named.
    pub fn label(self) -> (l: &'static str)
        ensures
            l@ == match self {
                RepoTab::Overview => "Overview"@,
                RepoTab::Issues => "Issues"@,
                RepoTab::PullRequests => "Pull Requests"@,
            },
    {
        match self {
            RepoTab::Overview => "Overview",
            RepoTab::Issues => "Issues",
            RepoTab::PullRequests => "Pull Requests",
        }
    }
}

/// The tab after `t`, the last one followed by the first.
pub open spec fn next_repo_tab(t: RepoTab) -> RepoTab {
    match t {
        RepoTab::Overview => RepoTab::Issues,
        RepoTab::Issues => RepoTab::PullRequests,
        RepoTab::PullRequests => RepoTab::Overview,
    }
}

/// The tab before `t`, the first one preceded by the last.
pub open spec fn prev_repo_tab(t: RepoTab) -> RepoTab {
    match t {
        RepoTab::Overview => RepoTab::PullRequests,
        RepoTab::Issues => RepoTab::Overview,
        RepoTab::PullRequests => RepoTab::Issues,
    }
}

/// What a fetch for the repository screen brought back.
pub enum LoadMsg {
    RepoDetail(Result<RepoDetail, String>),
    Readme(Result<String, String>),
    Issues(Result<Vec<Issue>, String>),
    Prs(Result<Vec<PR>, String>),
}

/// The fetches that fill the repository screen: the overview (whose README
/// part comes from a second command), the raw README, and fifty issues and
/// pull requests.
pub struct RepoFetches {
    pub detail: Vec<String>,
    pub detail_readme: Vec<String>,
    pub readme: Vec<String>,
    pub issues: Vec<String>,
    pub prs: Vec<String>,
}

/// The repository screen.
pub struct RepoDetailView {
    pub repo_name: String,
    pub detail: Option<RepoDetail>,
    pub tab: RepoTab,
    pub loading: bool,
    pub error: Option<String>,
    pub scroll: u16,
    pub lines_count: usize,
    pub readme_raw: Option<String>,
    pub issues: Vec<Issue>,
    pub prs: Vec<PR>,
    pub issues_loading: bool,
    pub prs_loading: bool,
    pub issues_error: Option<String>,
    pub prs_error: Option<String>,
    pub list_state: Option<usize>,
    pub filter: String,
    pub filtering: bool,
    pub filtered_indices: Vec<usize>,
}

/// What the repository screen holds.
#[verifier::ext_equal]
pub struct RepoDetailViewView {
    pub repo_name: Seq<char>,
    pub detail: Option<RepoDetail>,
    pub tab: RepoTab,
    pub loading: bool,
    pub error: Option<String>,
    pub scroll: u16,
    pub lines_count: usize,
    pub readme_raw: Option<String>,
    pub issues: Seq<Issue>,
    pub prs: Seq<PR>,
    pub issues_loading: bool,
    pub prs_loading: bool,
    pub issues_error: Option<String>,
    pub prs_error: Option<String>,
    pub list_state: Option<usize>,
    pub filter: Seq<char>,
    pub filtering: bool,
    pub filtered: Seq<usize>,
}

impl View for RepoDetailView {
    type V = RepoDetailViewView;

    open spec fn view(&self) -> RepoDetailViewView {
        RepoDetailViewView {
            repo_name: self.repo_name@,
            detail: self.detail,
            tab: self.tab,
            loading: self.loading,
            error: self.error,
            scroll: self.scroll,
            lines_count: self.lines_count,
            readme_raw: self.readme_raw,
            issues: self.issues@,
            prs: self.prs@,
            issues_loading: self.issues_loading,
            prs_loading: self.prs_loading,
            issues_error: self.issues_error,
            prs_error: self.prs_error,
            list_state: self.list_state,
            filter: self.filter@,
            filtering: self.filtering,
            filtered: self.filtered_indices@,
        }
    }
}

/// The author's lower-case login contains the query.
pub open spec fn author_matches(a: Option<Author>, query: Seq<char>) -> bool {
    match a {
        Some(a) => contains(lowercase(a.login@), query),
        None => false,
    }
}

/// An issue matches a lower-case query when its lower-case title, its number,
/// its author's lower-case login or one of its labels' lower-case names
/// contains it.
pub open spec fn issue_matches(i: Issue, query: Seq<char>) -> bool {
    ||| contains(lowercase(i.title@), query)
    ||| contains(decimal(i.number as nat), query)
    ||| author_matches(i.author, query)
    ||| exists|k: int|
        0 <= k < i.labels@.len() && contains(lowercase((#[trigger] i.labels@[k]).name@), query)
}

/// A pull request matches a lower-case query when its lower-case title, its
/// number or its author's lower-case login contains it.
pub open spec fn pr_matches(p: PR, query: Seq<char>) -> bool {
    ||| contains(lowercase(p.title@), query)
    ||| contains(decimal(p.number as nat), query)
    ||| author_matches(p.author, query)
}

/// The positions of the entries of the current tab that the filter keeps
/// (none on the overview).
pub open spec fn tab_filter(v: RepoDetailViewView) -> Seq<usize> {
    let q = lowercase(v.filter);
    match v.tab {
        RepoTab::Issues => indices_where(
            v.issues.len(),
            |i: int| q.len() == 0 || issue_matches(v.issues[i], q),
        ),
        RepoTab::PullRequests => indices_where(
            v.prs.len(),
            |i: int| q.len() == 0 || pr_matches(v.prs[i], q),
        ),
        RepoTab::Overview => Seq::empty(),
    }
}

/// The screen after a new filtering: the kept positions, the first selected.
pub open spec fn refiltered(v: RepoDetailViewView) -> RepoDetailViewView {
    let f = tab_filter(v);
    RepoDetailViewView { filtered: f, list_state: first_selection(f.len()), ..v }
}

/// The number of entries listed: the kept ones on the issue and pull request
/// tabs, none on the overview.
pub open spec fn list_len(v: RepoDetailViewView) -> nat {
    match v.tab {
        RepoTab::Overview => 0,
        _ => v.filtered.len(),
    }
}

/// The screen on tab `t`, from the top, without a filter.
pub open spec fn on_tab(v: RepoDetailViewView, t: RepoTab) -> RepoDetailViewView {
    refiltered(
        RepoDetailViewView { tab: t, scroll: 0, filter: Seq::empty(), filtering: false, ..v },
    )
}

/// What one fetch result changes.
pub open spec fn apply_load(v: RepoDetailViewView, m: LoadMsg) -> RepoDetailViewView {
    match m {
        LoadMsg::RepoDetail(Ok(d)) => RepoDetailViewView { loading: false, detail: Some(d), ..v },
        LoadMsg::RepoDetail(Err(e)) => RepoDetailViewView { loading: false, error: Some(e), ..v },
        LoadMsg::Readme(Ok(r)) => RepoDetailViewView { readme_raw: Some(r), ..v },
        LoadMsg::Readme(Err(_)) => v,
        LoadMsg::Issues(Ok(i)) => RepoDetailViewView { issues_loading: false, issues: i@, ..v },
        LoadMsg::Issues(Err(e)) => RepoDetailViewView {
            issues_loading: false,
            issues_error: Some(e),
            ..v
        },
        LoadMsg::Prs(Ok(p)) => RepoDetailViewView { prs_loading: false, prs: p@, ..v },
        LoadMsg::Prs(Err(e)) => RepoDetailViewView { prs_loading: false, prs_error: Some(e), ..v },
    }
}

/// What fetch results change, taken in order.
pub open spec fn apply_loads(v: RepoDetailViewView, ms: Seq<LoadMsg>) -> RepoDetailViewView
    decreases ms.len(),
{
    if ms.len() == 0 {
        v
    } else {
        apply_load(apply_loads(v, ms.drop_last()), ms.last())
    }
}

/// Some result changes a list.
pub open spec fn changes_a_list(ms: Seq<LoadMsg>) -> bool {
    exists|k: int| 0 <= k < ms.len() && (#[trigger] ms[k] is Issues || ms[k] is Prs)
}

/// The number of the issue at the selected position of the kept entries.
pub open spec fn selected_issue(v: RepoDetailViewView) -> Option<u32> {
    if v.list_state is Some && v.list_state->0 < v.filtered.len() && v.filtered[v.list_state->0 as int]
        < v.issues.len() {
        Some(v.issues[v.filtered[v.list_state->0 as int] as int].number)
    } else {
        None
    }
}

/// The number of the pull request at the selected position of the kept
/// entries.
pub open spec fn selected_pr(v: RepoDetailViewView) -> Option<u32> {
    if v.list_state is Some && v.list_state->0 < v.filtered.len() && v.filtered[v.list_state->0 as int]
        < v.prs.len() {
        Some(v.prs[v.filtered[v.list_state->0 as int] as int].number)
    } else {
        None
    }
}

/// The fetches that fill the screen of repository `name`: the overview (whose
/// README part comes from a second command), the raw README, and fifty issues
/// and pull requests.
pub open spec fn fetches_for(f: RepoFetches, name: Seq<char>) -> bool {
    &&& views(f.detail@) == seq!["repo"@, "view"@, name, "--json"@, gh::repo_view_fields()]
    &&& views(f.detail_readme@) == seq!["repo"@, "view"@, name]
    &&& views(f.readme@) == seq![
        "api"@,
        "repos/"@ + name + "/readme"@,
        "--header"@,
        "Accept: application/vnd.github.raw+json"@,
    ]
    &&& views(f.issues@) == seq![
        "issue"@,
        "list"@,
        "-R"@,
        name,
        "--json"@,
        "number,title,state,author,labels,updatedAt"@,
        "--limit"@,
        decimal(50),
    ]
    &&& views(f.prs@) == seq![
        "pr"@,
        "list"@,
        "-R"@,
        name,
        "--json"@,
        "number,title,state,author,isDraft,updatedAt,statusCheckRollup"@,
        "--limit"@,
        decimal(50),
    ]
}

/// The screen after scrolling down by `amount` lines, at most to the last
/// line.
pub open spec fn scrolled_down(v: RepoDetailViewView, amount: u16) -> RepoDetailViewView {
    let lines = v.lines_count as u16;
    let max = if lines >= 1 {
        (lines - 1) as u16
    } else {
        0
    };
    RepoDetailViewView {
        scroll: if v.scroll + amount <= max {
            (v.scroll + amount) as u16
        } else {
            max
        },
        ..v
    }
}

/// The screen after scrolling up by `amount` lines, at most to the top.
pub open spec fn scrolled_up(v: RepoDetailViewView, amount: u16) -> RepoDetailViewView {
    RepoDetailViewView {
        scroll: if v.scroll >= amount {
            (v.scroll - amount) as u16
        } else {
            0
        },
        ..v
    }
}

/// The texts `s` joined with `sep` between them.
pub open spec fn joined(s: Seq<Seq<char>>, sep: Seq<char>) -> Seq<char>
    decreases s.len(),
{
    if s.len() == 0 {
        Seq::empty()
    } else if s.len() == 1 {
        s[0]
    } else {
        joined(s.drop_last(), sep) + sep + s.last()
    }
}

/// The texts of `s` joined with `sep` between them.
pub fn join(s: &Vec<String>, sep: &str) -> (r: String)
    ensures
        r@ == joined(views(s@), sep@),
{
    let ghost all = views(s@);
    let mut v: Vec<char> = Vec::new();
    let n = s.len();
    let mut k: usize = 0;
    while k < n
        invariant
            n == s.len(),
            k <= n,
            all == views(s@),
            v@ == joined(all.take(k as int), sep@),
        decreases n - k,
    {
        assert(all.take(k as int + 1).drop_last() =~= all.take(k as int));
        assert(all.take(k as int + 1).last() == s@[k as int]@);
        if k > 0 {
            push_str(&mut v, sep);
        } else {
            assert(v@ =~= Seq::<char>::empty());
        }
        push_str(&mut v, s[k].as_str());
        k += 1;
    }
    assert(all.take(n as int) =~= all);
    string_of(&v)
}

/// The name of a repository, and its description when it has one, each
/// followed by an empty line.
pub open spec fn overview_head(d: RepoDetail) -> Seq<Seq<(Seq<char>, Tone)>> {
    let head = seq![seq![(" "@ + d.full_name@, Tone::HeadingBold)], Seq::empty()];
    match d.description {
        Some(desc) => if desc@.len() > 0 {
            head + seq![seq![(" "@ + desc@, Tone::Normal)], Seq::empty()]
        } else {
            head
        },
        None => head,
    }
}

/// The language, stars, forks, issues and pull requests of a repository.
pub open spec fn overview_stats(d: RepoDetail) -> Seq<(Seq<char>, Tone)> {
    let lang = match d.primary_language {
        Some(l) => seq![(" "@ + l.name@ + " "@, Tone::Key)],
        None => Seq::empty(),
    };
    lang + seq![
        ("\u{2605} "@ + decimal(d.star_count as nat) + " "@, Tone::Normal),
        ("\u{2442} "@ + decimal(d.fork_count as nat) + " "@, Tone::Normal),
        ("Issues: "@ + decimal(d.issues.total_count as nat) + " "@, Tone::Normal),
        ("PRs: "@ + decimal(d.pull_requests.total_count as nat), Tone::Normal),
    ]
}

/// The marks of a repository: private, fork, archived, its license, its
/// default branch.
pub open spec fn overview_badges(d: RepoDetail) -> Seq<(Seq<char>, Tone)> {
    let b1: Seq<(Seq<char>, Tone)> = if d.is_private {
        seq![(" \u{229d}"@, Tone::Dim)]
    } else {
        Seq::empty()
    };
    let b2 = if d.is_fork {
        b1.push((" [fork]"@, Tone::Dim))
    } else {
        b1
    };
    let b3 = if d.is_archived {
        b2.push((" [archived]"@, Tone::Dim))
    } else {
        b2
    };
    let b4 = match d.license_info {
        Some(l) => b3.push((" "@ + l.name@, Tone::Dim)),
        None => b3,
    };
    match d.default_branch_ref {
        Some(b) => b4.push((" branch:"@ + b.name@, Tone::Dim)),
        None => b4,
    }
}

/// The topics and the home page of a repository when it has them, then an
/// empty line.
pub open spec fn overview_tail(d: RepoDetail) -> Seq<Seq<(Seq<char>, Tone)>> {
    let topics: Seq<Seq<(Seq<char>, Tone)>> = if d.topics@.len() > 0 {
        seq![
            seq![
                (
                    " topics: "@ + joined(
                        d.topics@.map_values(|t: crate::gh::TopicWrapper| t.name@),
                        ", "@,
                    ),
                    Tone::Dim,
                ),
            ],
        ]
    } else {
        Seq::empty()
    };
    let home = match d.homepage_url {
        Some(u) => if u@.len() > 0 {
            topics.push(seq![(" homepage: "@ + u@, Tone::Dim)])
        } else {
            topics
        },
        None => topics,
    };
    home.push(Seq::empty())
}

/// The lines that open the overview of a repository: its head, its
/// statistics, its marks when it has some, and its tail. The README follows
/// them.
pub open spec fn overview_text(d: RepoDetail) -> Seq<Seq<(Seq<char>, Tone)>> {
    let with_stats = overview_head(d).push(overview_stats(d));
    let with_badges = if overview_badges(d).len() > 0 {
        with_stats.push(overview_badges(d))
    } else {
        with_stats
    };
    with_badges + overview_tail(d)
}

/// The mark of an issue's state.
pub open spec fn state_mark(state: Seq<char>) -> (Seq<char>, Tone) {
    if state == "OPEN"@ {
        ("\u{25cf} "@, Tone::Green)
    } else if state == "CLOSED"@ {
        ("\u{2713} "@, Tone::Red)
    } else {
        ("  "@, Tone::Dim)
    }
}

/// The piece of an author: ` @login`.
pub open spec fn author_piece(a: Option<Author>) -> Seq<(Seq<char>, Tone)> {
    match a {
        Some(a) => seq![(" @"@ + a.login@, Tone::Dim)],
        None => Seq::empty(),
    }
}

/// The piece of the age of an entry, counted up to `now`.
pub open spec fn age_piece(ts: Option<String>, now: u64) -> Seq<(Seq<char>, Tone)> {
    match ts {
        Some(t) => seq![(" \u{b7} "@ + spec_timeago(t@, now as nat), Tone::Dim)],
        None => Seq::empty(),
    }
}

/// How an issue is listed: the mark of its state, its number, its title, its
/// labels, its author and its age.
pub open spec fn issue_row_text(i: Issue, now: u64) -> Seq<(Seq<char>, Tone)> {
    let labels = if i.labels@.len() > 0 {
        seq![
            (
                " ["@ + joined(i.labels@.map_values(|l: Label| l.name@), ", "@) + "]"@,
                Tone::Purple,
            ),
        ]
    } else {
        Seq::empty()
    };
    seq![
        state_mark(i.state@),
        ("#"@ + decimal(i.number as nat) + " "@, Tone::Dim),
        (i.title@, Tone::Normal),
    ] + labels + author_piece(i.author) + age_piece(i.updated_at, now)
}

/// The mark of the combined state of a pull request's checks.
pub open spec fn check_mark(c: CheckStatus) -> (Seq<char>, Tone) {
    match c {
        CheckStatus::Pass => ("\u{2713} "@, Tone::Green),
        CheckStatus::Fail => ("\u{2717} "@, Tone::Red),
        CheckStatus::Pending => ("\u{25cf} "@, Tone::Yellow),
        CheckStatus::NoChecks => ("  "@, Tone::Plain),
    }
}

/// How a pull request is listed: the mark of its checks, its number, its
/// title, a draft mark, its author and its age.
pub open spec fn pr_row_text(p: PR, now: u64) -> Seq<(Seq<char>, Tone)> {
    let draft = if p.is_draft {
        seq![(" [draft]"@, Tone::Dim)]
    } else {
        Seq::empty()
    };
    seq![
        check_mark(gh::combined_check_status(p.status_check_rollup@)),
        ("#"@ + decimal(p.number as nat) + " "@, Tone::Dim),
        (p.title@, Tone::Normal),
    ] + draft + author_piece(p.author) + age_piece(p.updated_at, now)
}

/// The kept entries of the current list tab exist, and their ages can be told.
pub open spec fn detail_rows_ok(v: RepoDetailViewView) -> bool {
    forall|k: int|
        0 <= k < v.filtered.len() ==> match v.tab {
            RepoTab::Issues => #[trigger] v.filtered[k] < v.issues.len() && age_ok(
                v.issues[v.filtered[k] as int].updated_at,
            ),
            RepoTab::PullRequests => v.filtered[k] < v.prs.len() && age_ok(
                v.prs[v.filtered[k] as int].updated_at,
            ),
            RepoTab::Overview => true,
        }
}

fn push_author(l: &mut Vec<Piece>, a: &Option<Author>)
    ensures
        pieces(final(l)@) == pieces(old(l)@) + author_piece(*a),
{
    if let Some(a) = a {
        push_piece(l, concat(" @", a.login.as_str()), Tone::Dim);
    } else {
        assert(pieces(l@) =~= pieces(l@) + author_piece(None));
    }
}

fn push_age(l: &mut Vec<Piece>, ts: &Option<String>, now: u64)
    requires
        age_ok(*ts),
    ensures
        pieces(final(l)@) == pieces(old(l)@) + age_piece(*ts, now),
{
    if let Some(t) = ts {
        let ago = timeago(t.as_str(), now);
        push_piece(l, concat(" \u{b7} ", ago.as_str()), Tone::Dim);
    } else {
        assert(pieces(l@) =~= pieces(l@) + age_piece(None, now));
    }
}

/// How an issue is listed.
pub fn issue_row(i: &Issue, now: u64) -> (l: Vec<Piece>)
    requires
        age_ok(i.updated_at),
    ensures
        pieces(l@) == issue_row_text(*i, now),
{
    let mut l: Vec<Piece> = Vec::new();
    if str_eq(i.state.as_str(), "OPEN") {
        push_text(&mut l, "\u{25cf} ", Tone::Green);
    } else if str_eq(i.state.as_str(), "CLOSED") {
        push_text(&mut l, "\u{2713} ", Tone::Red);
    } else {
        push_text(&mut l, "  ", Tone::Dim);
    }
    let mut num = with_number("#", i.number as u64);
    num = concat(num.as_str(), " ");
    push_piece(&mut l, num, Tone::Dim);
    push_piece(&mut l, i.title.clone(), Tone::Normal);
    let ghost before = pieces(l@);
    if i.labels.len() > 0 {
        let mut names: Vec<String> = Vec::new();
        let n = i.labels.len();
        let mut k: usize = 0;
        while k < n
            invariant
                n == i.labels.len(),
                k <= n,
                views(names@) == i.labels@.take(k as int).map_values(|l: Label| l.name@),
            decreases n - k,
        {
            names.push(i.labels[k].name.clone());
            assert(i.labels@.take(k as int + 1).map_values(|l: Label| l.name@) =~= i.labels@.take(
                k as int,
            ).map_values(|l: Label| l.name@).push(i.labels@[k as int].name@));
            assert(views(names@) =~= i.labels@.take(k as int + 1).map_values(|l: Label| l.name@));
            k += 1;
        }
        assert(i.labels@.take(n as int) =~= i.labels@);
        let joined_names = join(&names, ", ");
        push_piece(&mut l, concat3(" [", joined_names.as_str(), "]"), Tone::Purple);
    }
    push_author(&mut l, &i.author);
    push_age(&mut l, &i.updated_at, now);
    assert(pieces(l@) =~= issue_row_text(*i, now));
    l
}

/// How a pull request is listed.
pub fn pr_row(p: &PR, now: u64) -> (l: Vec<Piece>)
    requires
        age_ok(p.updated_at),
    ensures
        pieces(l@) == pr_row_text(*p, now),
{
    let mut l: Vec<Piece> = Vec::new();
    match p.overall_check_status() {
        CheckStatus::Pass => push_text(&mut l, "\u{2713} ", Tone::Green),
        CheckStatus::Fail => push_text(&mut l, "\u{2717} ", Tone::Red),
        CheckStatus::Pending => push_text(&mut l, "\u{25cf} ", Tone::Yellow),
        CheckStatus::NoChecks => push_text(&mut l, "  ", Tone::Plain),
    }
    let mut num = with_number("#", p.number as u64);
    num = concat(num.as_str(), " ");
    push_piece(&mut l, num, Tone::Dim);
    push_piece(&mut l, p.title.clone(), Tone::Normal);
    if p.is_draft {
        push_text(&mut l, " [draft]", Tone::Dim);
    }
    push_author(&mut l, &p.author);
    push_age(&mut l, &p.updated_at, now);
    assert(pieces(l@) =~= pr_row_text(*p, now));
    l
}

/// A screen just opened for `name`: on the overview, everything loading.
pub open spec fn fresh_detail(name: Seq<char>) -> RepoDetailViewView {
    RepoDetailViewView {
        repo_name: name,
        detail: None,
        tab: RepoTab::Overview,
        loading: true,
        error: None,
        scroll: 0,
        lines_count: 0,
        readme_raw: None,
        issues: Seq::empty(),
        prs: Seq::empty(),
        issues_loading: true,
        prs_loading: true,
        issues_error: None,
        prs_error: None,
        list_state: None,
        filter: Seq::empty(),
        filtering: false,
        filtered: Seq::empty(),
    }
}

fn author_contains(a: &Option<Author>, query: &Vec<char>) -> (r: bool)
    ensures
        r == author_matches(*a, query@),
{
    match a {
        Some(a) => lower_contains(a.login.as_str(), query),
        None => false,
    }
}

fn number_contains(n: u32, query: &Vec<char>) -> (r: bool)
    ensures
        r == contains(decimal(n as nat), query@),
{
    let d = crate::text::decimal_chars(n as u64);
    crate::text::contains_chars(&d, query)
}

fn labels_contain(labels: &Vec<Label>, query: &Vec<char>) -> (r: bool)
    ensures
        r == exists|k: int|
            0 <= k < labels@.len() && contains(lowercase((#[trigger] labels@[k]).name@), query@),
{
    let n = labels.len();
    let mut i: usize = 0;
    while i < n
        invariant
            n == labels.len(),
            i <= n,
            forall|k: int| 0 <= k < i ==> !contains(lowercase((#[trigger] labels@[k]).name@), query@),
        decreases n - i,
    {
        if lower_contains(labels[i].name.as_str(), query) {
            return true;
        }
        i += 1;
    }
    false
}

fn push_empty(lines: &mut Vec<Vec<Piece>>)
    ensures
        text_lines(final(lines)@) == text_lines(old(lines)@).push(Seq::empty()),
{
    let l: Vec<Piece> = Vec::new();
    assert(pieces(l@) =~= Seq::<(Seq<char>, Tone)>::empty());
    push_line(lines, l);
}

/// The opening lines of the overview of a repository.
pub fn overview_lines(d: &RepoDetail) -> (lines: Vec<Vec<Piece>>)
    ensures
        text_lines(lines@) == overview_text(*d),
{
    let mut lines: Vec<Vec<Piece>> = Vec::new();
    let mut name: Vec<Piece> = Vec::new();
    push_piece(&mut name, concat(" ", d.full_name.as_str()), Tone::HeadingBold);
    assert(pieces(name@) =~= seq![(" "@ + d.full_name@, Tone::HeadingBold)]);
    push_line(&mut lines, name);
    push_empty(&mut lines);
    let ghost head = seq![seq![(" "@ + d.full_name@, Tone::HeadingBold)], Seq::<(Seq<char>, Tone)>::empty()];
    assert(text_lines(lines@) =~= head);
    if let Some(desc) = &d.description {
        if !desc.as_str().is_empty() {
            let mut l: Vec<Piece> = Vec::new();
            push_piece(&mut l, concat(" ", desc.as_str()), Tone::Normal);
            assert(pieces(l@) =~= seq![(" "@ + desc@, Tone::Normal)]);
            push_line(&mut lines, l);
            push_empty(&mut lines);
            assert(text_lines(lines@) =~= head + seq![seq![(" "@ + desc@, Tone::Normal)], Seq::empty()]);
        }
    }
    assert(text_lines(lines@) =~= overview_head(*d));
    let mut stats: Vec<Piece> = Vec::new();
    if let Some(lang) = &d.primary_language {
        push_piece(&mut stats, concat3(" ", lang.name.as_str(), " "), Tone::Key);
    }
    push_piece(&mut stats, concat(with_number("\u{2605} ", d.star_count as u64).as_str(), " "), Tone::Normal);
    push_piece(&mut stats, concat(with_number("\u{2442} ", d.fork_count as u64).as_str(), " "), Tone::Normal);
    push_piece(
        &mut stats,
        concat(with_number("Issues: ", d.issues.total_count as u64).as_str(), " "),
        Tone::Normal,
    );
    push_piece(&mut stats, with_number("PRs: ", d.pull_requests.total_count as u64), Tone::Normal);
    assert(pieces(stats@) =~= overview_stats(*d));
    push_line(&mut lines, stats);
    let mut badges: Vec<Piece> = Vec::new();
    if d.is_private {
        push_text(&mut badges, " \u{229d}", Tone::Dim);
    }
    if d.is_fork {
        push_text(&mut badges, " [fork]", Tone::Dim);
    }
    if d.is_archived {
        push_text(&mut badges, " [archived]", Tone::Dim);
    }
    if let Some(l) = &d.license_info {
        push_piece(&mut badges, concat(" ", l.name.as_str()), Tone::Dim);
    }
    if let Some(b) = &d.default_branch_ref {
        push_piece(&mut badges, concat(" branch:", b.name.as_str()), Tone::Dim);
    }
    assert(pieces(badges@) =~= overview_badges(*d));
    if badges.len() > 0 {
        push_line(&mut lines, badges);
    }
    let ghost upper = text_lines(lines@);
    let ghost start = lines@.len();
    if d.topics.len() > 0 {
        let mut names: Vec<String> = Vec::new();
        let n = d.topics.len();
        let mut k: usize = 0;
        while k < n
            invariant
                n == d.topics.len(),
                k <= n,
                text_lines(lines@) == upper,
                views(names@) == d.topics@.take(k as int).map_values(
                    |t: crate::gh::TopicWrapper| t.name@,
                ),
            decreases n - k,
        {
            names.push(d.topics[k].name.clone());
            assert(d.topics@.take(k as int + 1).map_values(|t: crate::gh::TopicWrapper| t.name@)
                =~= d.topics@.take(k as int).map_values(|t: crate::gh::TopicWrapper| t.name@).push(
                d.topics@[k as int].name@,
            ));
            assert(views(names@) =~= d.topics@.take(k as int + 1).map_values(
                |t: crate::gh::TopicWrapper| t.name@,
            ));
            k += 1;
        }
        assert(d.topics@.take(n as int) =~= d.topics@);
        let mut l: Vec<Piece> = Vec::new();
        push_piece(&mut l, concat(" topics: ", join(&names, ", ").as_str()), Tone::Dim);
        assert(pieces(l@) =~= seq![
            (
                " topics: "@ + joined(
                    d.topics@.map_values(|t: crate::gh::TopicWrapper| t.name@),
                    ", "@,
                ),
                Tone::Dim,
            ),
        ]);
        push_line(&mut lines, l);
    }
    let ghost topics: Seq<Seq<(Seq<char>, Tone)>> = if d.topics@.len() > 0 {
        seq![
            seq![
                (
                    " topics: "@ + joined(
                        d.topics@.map_values(|t: crate::gh::TopicWrapper| t.name@),
                        ", "@,
                    ),
                    Tone::Dim,
                ),
            ],
        ]
    } else {
        Seq::empty()
    };
    assert(text_lines(lines@) =~= upper + topics);
    if let Some(u) = &d.homepage_url {
        if !u.as_str().is_empty() {
            let mut l: Vec<Piece> = Vec::new();
            push_piece(&mut l, concat(" homepage: ", u.as_str()), Tone::Dim);
            assert(pieces(l@) =~= seq![(" homepage: "@ + u@, Tone::Dim)]);
            push_line(&mut lines, l);
            assert(text_lines(lines@) =~= upper + topics.push(seq![(" homepage: "@ + u@, Tone::Dim)]));
        }
    }
    push_empty(&mut lines);
    assert(text_lines(lines@) =~= upper + overview_tail(*d));
    lines
}

impl RepoDetailView {
    /// The screen of `repo_name`, on the overview, with everything loading;
    /// the caller makes the fetches of `load_all`.
    pub fn new(repo_name: String) -> (v: Self)
        ensures
            v@ == fresh_detail(repo_name@),
    {
        RepoDetailView {
            repo_name,
            detail: None,
            tab: RepoTab::Overview,
            loading: true,
            error: None,
            scroll: 0,
            lines_count: 0,
            readme_raw: None,
            issues: Vec::new(),
            prs: Vec::new(),
            issues_loading: true,
            prs_loading: true,
            issues_error: None,
            prs_error: None,
            list_state: None,
            filter: String::new(),
            filtering: false,
            filtered_indices: Vec::new(),
        }
    }

    /// Starts loading everything: the answer is the fetches to make.
    pub fn load_all(&mut self) -> (f: RepoFetches)
        ensures
            final(self)@ == (RepoDetailViewView {
                loading: true,
                issues_loading: true,
                prs_loading: true,
                error: None,
                ..old(self)@
            }),
            fetches_for(f, old(self)@.repo_name),
    {
        self.loading = true;
        self.issues_loading = true;
        self.prs_loading = true;
        self.error = None;
        let repo = self.repo_name.as_str();
        RepoFetches {
            detail: gh::view_repo(repo),
            detail_readme: gh::view_repo_readme(repo),
            readme: gh::fetch_readme(repo),
            issues: gh::list_issues(repo, 50),
            prs: gh::list_prs(repo, 50),
        }
    }

    /// Moves to the next tab, from the top and without a filter.
    pub fn next_tab(&mut self)
        ensures
            final(self)@ == on_tab(old(self)@, next_repo_tab(old(self).tab)),
    {
        self.tab = match self.tab {
            RepoTab::Overview => RepoTab::Issues,
            RepoTab::Issues => RepoTab::PullRequests,
            RepoTab::PullRequests => RepoTab::Overview,
        };
        self.scroll = 0;
        self.filter = String::new();
        self.filtering = false;
        self.refilter();
        self.list_state = if self.current_list_len() > 0 {
            Some(0)
        } else {
            None
        };
    }

    /// Moves to the previous tab, from the top and without a filter.
    pub fn prev_tab(&mut self)
        ensures
            final(self)@ == on_tab(old(self)@, prev_repo_tab(old(self).tab)),
    {
        self.tab = match self.tab {
            RepoTab::Overview => RepoTab::PullRequests,
            RepoTab::Issues => RepoTab::Overview,
            RepoTab::PullRequests => RepoTab::Issues,
        };
        self.scroll = 0;
        self.filter = String::new();
        self.filtering = false;
        self.refilter();
        self.list_state = if self.current_list_len() > 0 {
            Some(0)
        } else {
            None
        };
    }

    /// The number of entries listed.
    pub fn current_list_len(&self) -> (n: usize)
        ensures
            n == list_len(self@),
    {
        match self.tab {
            RepoTab::Issues | RepoTab::PullRequests => self.filtered_indices.len(),
            RepoTab::Overview => 0,
        }
    }

    /// Selects the next listed entry, if there is one.
    pub fn move_down(&mut self)
        requires
            old(self).list_state matches Some(i) ==> i < usize::MAX,
        ensures
            final(self)@ == (RepoDetailViewView {
                list_state: moved_down(old(self).list_state, list_len(old(self)@)),
                ..old(self)@
            }),
    {
        let len = self.current_list_len();
        if len == 0 {
            return;
        }
        self.list_state = crate::ui::list::move_down(self.list_state, len);
    }

    /// Selects the previous listed entry, if there is one.
    pub fn move_up(&mut self)
        ensures
            final(self)@ == (RepoDetailViewView {
                list_state: moved_up(old(self).list_state),
                ..old(self)@
            }),
    {
        self.list_state = crate::ui::list::move_up(self.list_state);
    }

    /// Selects the first listed entry.
    pub fn move_to_first(&mut self)
        ensures
            final(self)@ == (RepoDetailViewView {
                list_state: moved_first(old(self).list_state, list_len(old(self)@)),
                ..old(self)@
            }),
    {
        let len = self.current_list_len();
        self.list_state = crate::ui::list::move_to_first(self.list_state, len);
    }

    /// Selects the last listed entry.
    pub fn move_to_last(&mut self)
        ensures
            final(self)@ == (RepoDetailViewView {
                list_state: moved_last(old(self).list_state, list_len(old(self)@)),
                ..old(self)@
            }),
    {
        let len = self.current_list_len();
        self.list_state = crate::ui::list::move_to_last(self.list_state, len);
    }

    /// Moves the selection `page_size` entries down, at most to the last.
    pub fn page_down_list(&mut self, page_size: usize)
        requires
            old(self).list_state matches Some(i) ==> i + page_size <= usize::MAX,
        ensures
            final(self)@ == (RepoDetailViewView {
                list_state: paged_down(old(self).list_state, list_len(old(self)@), page_size as nat),
                ..old(self)@
            }),
    {
        let len = self.current_list_len();
        self.list_state = crate::ui::list::page_down(self.list_state, len, page_size);
    }

    /// Moves the selection `page_size` entries up, at most to the first.
    pub fn page_up_list(&mut self, page_size: usize)
        ensures
            final(self)@ == (RepoDetailViewView {
                list_state: paged_up(old(self).list_state, page_size as nat),
                ..old(self)@
            }),
    {
        self.list_state = crate::ui::list::page_up(self.list_state, page_size);
    }

    /// The number of the issue at the selected position of the kept entries.
    pub fn selected_issue_number(&self) -> (n: Option<u32>)
        ensures
            n == selected_issue(self@),
    {
        let i = match self.list_state {
            Some(i) => i,
            None => return None,
        };
        if i >= self.filtered_indices.len() {
            return None;
        }
        let k = self.filtered_indices[i];
        if k >= self.issues.len() {
            return None;
        }
        Some(self.issues[k].number)
    }

    /// The number of the pull request at the selected position of the kept
    /// entries.
    pub fn selected_pr_number(&self) -> (n: Option<u32>)
        ensures
            n == selected_pr(self@),
    {
        let i = match self.list_state {
            Some(i) => i,
            None => return None,
        };
        if i >= self.filtered_indices.len() {
            return None;
        }
        let k = self.filtered_indices[i];
        if k >= self.prs.len() {
            return None;
        }
        Some(self.prs[k].number)
    }

    /// Chooses the entries of the current tab that the filter keeps, and
    /// selects the first.
    pub fn refilter(&mut self)
        ensures
            final(self)@ == refiltered(old(self)@),
    {
        let lowered = lower(self.filter.as_str());
        let query = chars_of(lowered.as_str());
        let ghost q = lowercase(self.filter@);
        let mut out: Vec<usize> = Vec::new();
        match self.tab {
            RepoTab::Issues => {
                let ghost pred = |i: int| q.len() == 0 || issue_matches(self.issues@[i], q);
                let n = self.issues.len();
                let mut i: usize = 0;
                while i < n
                    invariant
                        n == self.issues.len(),
                        i <= n,
                        *self == *old(self),
                        query@ == q,
                        q == lowercase(self.filter@),
                        pred == (|i: int| q.len() == 0 || issue_matches(self.issues@[i], q)),
                        out@ == indices_where(i as nat, pred),
                    decreases n - i,
                {
                    let it = &self.issues[i];
                    let keep = query.len() == 0 || lower_contains(it.title.as_str(), &query)
                        || number_contains(it.number, &query) || author_contains(&it.author, &query)
                        || labels_contain(&it.labels, &query);
                    assert(keep == pred(i as int));
                    if keep {
                        out.push(i);
                    }
                    i += 1;
                }
            },
            RepoTab::PullRequests => {
                let ghost pred = |i: int| q.len() == 0 || pr_matches(self.prs@[i], q);
                let n = self.prs.len();
                let mut i: usize = 0;
                while i < n
                    invariant
                        n == self.prs.len(),
                        i <= n,
                        *self == *old(self),
                        query@ == q,
                        q == lowercase(self.filter@),
                        pred == (|i: int| q.len() == 0 || pr_matches(self.prs@[i], q)),
                        out@ == indices_where(i as nat, pred),
                    decreases n - i,
                {
                    let it = &self.prs[i];
                    let keep = query.len() == 0 || lower_contains(it.title.as_str(), &query)
                        || number_contains(it.number, &query) || author_contains(&it.author, &query);
                    assert(keep == pred(i as int));
                    if keep {
                        out.push(i);
                    }
                    i += 1;
                }
            },
            RepoTab::Overview => {},
        }
        self.filtered_indices = out;
        self.list_state = if self.filtered_indices.len() == 0 {
            None
        } else {
            Some(0)
        };
    }

    /// Adds `key` to the filter and filters anew.
    pub fn on_filter_key(&mut self, key: char)
        ensures
            final(self)@ == refiltered(
                RepoDetailViewView { filter: old(self)@.filter.push(key), ..old(self)@ },
            ),
    {
        let mut v = chars_of(self.filter.as_str());
        v.push(key);
        self.filter = string_of(&v);
        self.refilter();
    }

    /// Removes the last character of the filter, if any, and filters anew.
    pub fn on_filter_backspace(&mut self)
        ensures
            final(self)@ == refiltered(
                RepoDetailViewView {
                    filter: if old(self)@.filter.len() > 0 {
                        old(self)@.filter.drop_last()
                    } else {
                        old(self)@.filter
                    },
                    ..old(self)@
                },
            ),
    {
        let mut v = chars_of(self.filter.as_str());
        if v.len() > 0 {
            v.pop();
        }
        self.filter = string_of(&v);
        self.refilter();
    }

    /// Drops the filter, stops typing it, and filters anew.
    pub fn clear_filter(&mut self)
        ensures
            final(self)@ == refiltered(
                RepoDetailViewView { filter: Seq::empty(), filtering: false, ..old(self)@ },
            ),
    {
        self.filter = String::new();
        self.filtering = false;
        self.refilter();
    }

    /// Takes in the fetches that came back, in order; when an issue or pull
    /// request list came, the lists are filtered anew.
    pub fn poll(&mut self, messages: Vec<LoadMsg>)
        ensures
            ({
                let after = apply_loads(old(self)@, messages@);
                final(self)@ == if changes_a_list(messages@) {
                    refiltered(after)
                } else {
                    after
                }
            }),
    {
        let ghost start = self@;
        let ghost ms = messages@;
        let mut list_changed = false;
        for m in it: messages
            invariant
                it.seq() == ms,
                self@ == apply_loads(start, it.seq().take(it.index() as int)),
                list_changed == changes_a_list(it.seq().take(it.index() as int)),
        {
            let ghost taken = ms.take(it.index() as int);
            proof {
                assert(ms.take(it.index() + 1).drop_last() =~= taken);
            }
            let ghost before = self@;
            let ghost gm = m;
            let mut this_list = false;
            match m {
                LoadMsg::RepoDetail(result) => {
                    self.loading = false;
                    match result {
                        Ok(detail) => self.detail = Some(detail),
                        Err(e) => self.error = Some(e),
                    }
                },
                LoadMsg::Readme(result) => {
                    if let Ok(readme) = result {
                        self.readme_raw = Some(readme);
                    }
                },
                LoadMsg::Issues(result) => {
                    self.issues_loading = false;
                    match result {
                        Ok(issues) => self.issues = issues,
                        Err(e) => self.issues_error = Some(e),
                    }
                    this_list = true;
                },
                LoadMsg::Prs(result) => {
                    self.prs_loading = false;
                    match result {
                        Ok(prs) => self.prs = prs,
                        Err(e) => self.prs_error = Some(e),
                    }
                    this_list = true;
                },
            }
            assert(self@ == apply_load(before, gm));
            proof {
                let next = ms.take(it.index() + 1);
                assert(next.last() == gm);
                assert(next =~= taken.push(gm));
                if changes_a_list(taken) {
                    let k = choose|k: int| 0 <= k < taken.len() && (#[trigger] taken[k] is Issues || taken[k] is Prs);
                    assert(next[k] == taken[k]);
                }
                if this_list {
                    assert(next[taken.len() as int] == gm);
                }
                if changes_a_list(next) {
                    let k = choose|k: int| 0 <= k < next.len() && (#[trigger] next[k] is Issues || next[k] is Prs);
                    if k < taken.len() {
                        assert(next[k] == taken[k]);
                    }
                }
            }
            list_changed = list_changed || this_list;
        }
        assert(ms.take(ms.len() as int) =~= ms);
        if list_changed {
            self.refilter();
        }
    }

    /// The line above the issues or pull requests: the filter while it is
    /// typed, or the filter in use with how many of the tab's entries it
    /// keeps; none on the overview or without a filter.
    pub fn filter_line(&self) -> (l: Option<Vec<Piece>>)
        ensures
            if self.tab != RepoTab::Overview && (self.filtering || self@.filter.len() > 0) {
                if self.filtering {
                    l matches Some(x) && pieces(x@) == typing_text(self@.filter, Tone::Key)
                } else {
                    l matches Some(x) && pieces(x@) == filter_info_text(
                        self@.filter,
                        self.filtered_indices@.len(),
                        if self.tab == RepoTab::Issues {
                            self.issues@.len()
                        } else {
                            self.prs@.len()
                        },
                    )
                }
            } else {
                l is None
            },
    {
        if self.tab == RepoTab::Overview {
            return None;
        }
        if self.filtering {
            Some(typing_line(self.filter.as_str(), Tone::Key))
        } else if !self.filter.as_str().is_empty() {
            let total = if self.tab == RepoTab::Issues {
                self.issues.len()
            } else {
                self.prs.len()
            };
            Some(filter_info_line(self.filter.as_str(), self.filtered_indices.len(), total))
        } else {
            None
        }
    }

    /// What the overview shows: the spinner while loading, the error, else
    /// the opening lines of the overview (none before the overview came).
    pub fn overview_body(&self, tick: usize) -> (b: Body)
        ensures
            if self.loading {
                b matches Body::Message(l) && pieces(l@) == spinner_text(
                    tick,
                    "Loading repo details..."@,
                )
            } else if self.error is Some {
                b matches Body::Message(l) && pieces(l@) == error_text(self.error->0@)
            } else {
                match self.detail {
                    Some(d) => b matches Body::Rows(rs) && text_lines(rs@) == overview_text(d),
                    None => b matches Body::Rows(rs) && rs@.len() == 0,
                }
            },
    {
        if self.loading {
            return Body::Message(spinner_line(tick, "Loading repo details..."));
        }
        if let Some(e) = &self.error {
            return Body::Message(error_line(e.as_str()));
        }
        match &self.detail {
            Some(d) => Body::Rows(overview_lines(d)),
            None => Body::Rows(Vec::new()),
        }
    }

    /// What an issue or pull request tab shows: the spinner while its list
    /// loads, its error, that none are kept, else the rows of the kept
    /// entries (ages counted up to `now`); nothing on the overview.
    pub fn list_body(&self, tick: usize, now: u64) -> (b: Body)
        requires
            detail_rows_ok(self@),
        ensures
            match self.tab {
                RepoTab::Issues => if self.issues_loading {
                    b matches Body::Message(l) && pieces(l@) == spinner_text(
                        tick,
                        "Loading issues..."@,
                    )
                } else if self.issues_error is Some {
                    b matches Body::Message(l) && pieces(l@) == error_text(self.issues_error->0@)
                } else if self.filtered_indices@.len() == 0 {
                    b matches Body::Message(l) && pieces(l@) == empty_list_text(
                        " No open issues"@,
                        "issues"@,
                        self@.filter,
                    )
                } else {
                    b matches Body::Rows(rs) && text_lines(rs@) == self@.filtered.map_values(
                        |i: usize| issue_row_text(self@.issues[i as int], now),
                    )
                },
                RepoTab::PullRequests => if self.prs_loading {
                    b matches Body::Message(l) && pieces(l@) == spinner_text(
                        tick,
                        "Loading pull requests..."@,
                    )
                } else if self.prs_error is Some {
                    b matches Body::Message(l) && pieces(l@) == error_text(self.prs_error->0@)
                } else if self.filtered_indices@.len() == 0 {
                    b matches Body::Message(l) && pieces(l@) == empty_list_text(
                        " No open pull requests"@,
                        "pull requests"@,
                        self@.filter,
                    )
                } else {
                    b matches Body::Rows(rs) && text_lines(rs@) == self@.filtered.map_values(
                        |i: usize| pr_row_text(self@.prs[i as int], now),
                    )
                },
                RepoTab::Overview => b matches Body::Rows(rs) && rs@.len() == 0,
            },
    {
        match self.tab {
            RepoTab::Issues => {
                if self.issues_loading {
                    return Body::Message(spinner_line(tick, "Loading issues..."));
                }
                if let Some(e) = &self.issues_error {
                    return Body::Message(error_line(e.as_str()));
                }
                if self.filtered_indices.len() == 0 {
                    return Body::Message(
                        empty_list_line(" No open issues", "issues", self.filter.as_str()),
                    );
                }
                let ghost v = self@;
                let mut rows: Vec<Vec<Piece>> = Vec::new();
                let n = self.filtered_indices.len();
                let mut k: usize = 0;
                while k < n
                    invariant
                        n == self.filtered_indices.len(),
                        k <= n,
                        v == self@,
                        v.tab == RepoTab::Issues,
                        detail_rows_ok(v),
                        text_lines(rows@) == v.filtered.take(k as int).map_values(
                            |i: usize| issue_row_text(v.issues[i as int], now),
                        ),
                    decreases n - k,
                {
                    let i = self.filtered_indices[k];
                    assert(v.filtered[k as int] < v.issues.len());
                    let row = issue_row(&self.issues[i], now);
                    push_line(&mut rows, row);
                    assert(v.filtered.take(k as int + 1).map_values(
                        |i: usize| issue_row_text(v.issues[i as int], now),
                    ) =~= v.filtered.take(k as int).map_values(
                        |i: usize| issue_row_text(v.issues[i as int], now),
                    ).push(issue_row_text(v.issues[i as int], now)));
                    k += 1;
                }
                assert(v.filtered.take(n as int) =~= v.filtered);
                Body::Rows(rows)
            },
            RepoTab::PullRequests => {
                if self.prs_loading {
                    return Body::Message(spinner_line(tick, "Loading pull requests..."));
                }
                if let Some(e) = &self.prs_error {
                    return Body::Message(error_line(e.as_str()));
                }
                if self.filtered_indices.len() == 0 {
                    return Body::Message(
                        empty_list_line(
                            " No open pull requests",
                            "pull requests",
                            self.filter.as_str(),
                        ),
                    );
                }
                let ghost v = self@;
                let mut rows: Vec<Vec<Piece>> = Vec::new();
                let n = self.filtered_indices.len();
                let mut k: usize = 0;
                while k < n
                    invariant
                        n == self.filtered_indices.len(),
                        k <= n,
                        v == self@,
                        v.tab == RepoTab::PullRequests,
                        detail_rows_ok(v),
                        text_lines(rows@) == v.filtered.take(k as int).map_values(
                            |i: usize| pr_row_text(v.prs[i as int], now),
                        ),
                    decreases n - k,
                {
                    let i = self.filtered_indices[k];
                    assert(v.filtered[k as int] < v.prs.len());
                    let row = pr_row(&self.prs[i], now);
                    push_line(&mut rows, row);
                    assert(v.filtered.take(k as int + 1).map_values(
                        |i: usize| pr_row_text(v.prs[i as int], now),
                    ) =~= v.filtered.take(k as int).map_values(
                        |i: usize| pr_row_text(v.prs[i as int], now),
                    ).push(pr_row_text(v.prs[i as int], now)));
                    k += 1;
                }
                assert(v.filtered.take(n as int) =~= v.filtered);
                Body::Rows(rows)
            },
            RepoTab::Overview => Body::Rows(Vec::new()),
        }
    }

    /// Scrolls down by `amount` lines, at most to the last line.
    pub fn scroll_down(&mut self, amount: u16)
        requires
            old(self).scroll + amount <= u16::MAX,
        ensures
            final(self)@ == scrolled_down(old(self)@, amount),
    {
        #[verifier::truncate]
        let lines = self.lines_count as u16;
        let max = lines.saturating_sub(1);
        let s = self.scroll + amount;
        self.scroll = if s <= max {
            s
        } else {
            max
        };
    }

    /// Scrolls up by `amount` lines, at most to the top.
    pub fn scroll_up(&mut self, amount: u16)
        ensures
            final(self)@ == scrolled_up(old(self)@, amount),
    {
        self.scroll = self.scroll.saturating_sub(amount);
    }
}

} // verus!
