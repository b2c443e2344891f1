//! GitHub data as the `gh` command line tool reports it, the `gh`
//! invocations that fetch it, and what is computed from its output.
use crate::text::{
    char_views, chars_of, copy_opt_string, decimal, decimal_chars, decimal_string, lines,
    opt_chars, push_chars, push_str, slice_chars, split_lines, str_eq, string_of, trim, trimmed,
    views,
};
use vstd::prelude::*;

verus! {

// ---------------------------------------------------------------------------
// Data
// ---------------------------------------------------------------------------

/// A repository in a listing.
#[derive(Debug, Clone)]
pub struct Repo {
    pub full_name: String,
    pub description: Option<String>,
    pub updated_at: Option<String>,
    pub is_private: bool,
    pub star_count: u32,
}

/// An issue in a listing.
#[derive(Debug, Clone)]
pub struct Issue {
    pub number: u32,
    pub title: String,
    pub state: String,
    pub author: Option<Author>,
    pub labels: Vec<Label>,
    pub updated_at: Option<String>,
}

/// A pull request in a listing.
#[derive(Debug, Clone)]
pub struct PR {
    pub number: u32,
    pub title: String,
    pub state: String,
    pub author: Option<Author>,
    pub is_draft: bool,
    pub updated_at: Option<String>,
    pub status_check_rollup: Vec<CheckRun>,
}

/// One status check of a pull request.
#[derive(Debug, Clone)]
pub struct CheckRun {
    pub name: Option<String>,
    pub status: Option<String>,
    pub conclusion: Option<String>,
}

/// The combined state of the status checks of a pull request.
#[derive(Debug, Clone, Copy, PartialEq, Eq, Structural)]
pub enum CheckStatus {
    NoChecks,
    Pending,
    Pass,
    Fail,
}

/// An issue or pull request with its body and comments.
#[derive(Debug, Clone)]
pub struct IssueDetail {
    pub number: u32,
    pub title: String,
    pub state: String,
    pub body: Option<String>,
    pub author: Option<Author>,
    pub labels: Vec<Label>,
    pub comments: Vec<Comment>,
}

/// A comment of an issue or pull request.
#[derive(Debug, Clone)]
pub struct Comment {
    pub author: Option<Author>,
    pub body: String,
}

/// The author of an issue, pull request or comment.
#[derive(Debug, Clone)]
pub struct Author {
    pub login: String,
}

/// A label of an issue.
#[derive(Debug, Clone)]
pub struct Label {
    pub name: String,
}

/// A notification thread.
#[derive(Debug, Clone)]
pub struct Notification {
    pub id: String,
    pub reason: String,
    pub subject: NotifSubject,
    pub repository: NotifRepo,
    pub unread: bool,
    pub updated_at: Option<String>,
}

/// What a notification is about.
#[derive(Debug, Clone)]
pub struct NotifSubject {
    pub title: String,
    pub kind: String,
    pub url: Option<String>,
}

/// The repository of a notification.
#[derive(Debug, Clone)]
pub struct NotifRepo {
    pub full_name: String,
}

/// The overview of a repository.
#[derive(Debug, Clone)]
pub struct RepoDetail {
    pub full_name: String,
    pub description: Option<String>,
    pub is_private: bool,
    pub is_fork: bool,
    pub is_archived: bool,
    pub star_count: u32,
    pub fork_count: u32,
    pub issues: CountWrapper,
    pub pull_requests: CountWrapper,
    pub primary_language: Option<LangWrapper>,
    pub license_info: Option<LicenseWrapper>,
    pub default_branch_ref: Option<BranchWrapper>,
    pub topics: Vec<TopicWrapper>,
    pub created_at: Option<String>,
    pub updated_at: Option<String>,
    pub homepage_url: Option<String>,
    pub readme: Option<String>,
}

/// A total count.
#[derive(Debug, Clone)]
pub struct CountWrapper {
    pub total_count: u32,
}

/// A named programming language.
#[derive(Debug, Clone)]
pub struct LangWrapper {
    pub name: String,
}

/// A named license.
#[derive(Debug, Clone)]
pub struct LicenseWrapper {
    pub name: String,
}

/// A named branch.
#[derive(Debug, Clone)]
pub struct BranchWrapper {
    pub name: String,
}

/// A named topic.
#[derive(Debug, Clone)]
pub struct TopicWrapper {
    pub name: String,
}

/// A GitHub list of the user, with its repositories.
pub struct UserList {
    pub name: String,
    pub repos: Vec<Repo>,
}

/// A repository entry of a GitHub list, as the GraphQL answer gives it: an
/// entry that is not a repository has no name.
#[derive(Debug, Clone)]
pub struct ListRepoNode {
    pub name_with_owner: Option<String>,
    pub description: Option<String>,
    pub stargazer_count: u32,
    pub is_private: bool,
    pub updated_at: Option<String>,
}

/// Whether an item is an issue or a pull request.
#[derive(Debug, Clone, Copy, PartialEq, Eq, Structural)]
pub enum ItemKind {
    Issue,
    PullRequest,
}

/// An account that the `gh` tool is authenticated with.
#[derive(Debug, Clone)]
pub struct GitHubAccount {
    pub host: String,
    pub login: String,
    pub active: bool,
    pub state: String,
    pub token_source: String,
}

/// An exact copy of a repository entry.
pub fn copy_repo(r: &Repo) -> (c: Repo)
    ensures
        c == *r,
{
    Repo {
        full_name: r.full_name.clone(),
        description: copy_opt_string(&r.description),
        updated_at: copy_opt_string(&r.updated_at),
        is_private: r.is_private,
        star_count: r.star_count,
    }
}

/// An exact copy of a list of repository entries.
pub fn copy_repos(v: &Vec<Repo>) -> (c: Vec<Repo>)
    ensures
        c@ == v@,
{
    let mut c: Vec<Repo> = Vec::new();
    let n = v.len();
    let mut i: usize = 0;
    while i < n
        invariant
            n == v.len(),
            i <= n,
            c@ == v@.take(i as int),
        decreases n - i,
    {
        c.push(copy_repo(&v[i]));
        assert(v@.take(i as int + 1) =~= v@.take(i as int).push(v@[i as int]));
        i += 1;
    }
    assert(v@.take(n as int) =~= v@);
    c
}

// ---------------------------------------------------------------------------
// Status checks
// ---------------------------------------------------------------------------

/// The check has finished.
pub open spec fn check_completed(c: CheckRun) -> bool {
    opt_chars(c.status) == "COMPLETED"@
}

/// The check has finished with a failure, a time-out or a cancellation.
pub open spec fn check_failed(c: CheckRun) -> bool {
    &&& check_completed(c)
    &&& {
        let k = opt_chars(c.conclusion);
        k == "FAILURE"@ || k == "TIMED_OUT"@ || k == "CANCELLED"@
    }
}

/// The combined state of a list of checks: `NoChecks` without checks, `Fail` when
/// some finished check failed, else `Pending` when some check has not
/// finished, else `Pass`.
pub open spec fn combined_check_status(checks: Seq<CheckRun>) -> CheckStatus {
    if checks.len() == 0 {
        CheckStatus::NoChecks
    } else if exists|i: int| 0 <= i < checks.len() && check_failed(#[trigger] checks[i]) {
        CheckStatus::Fail
    } else if exists|i: int| 0 <= i < checks.len() && !check_completed(#[trigger] checks[i]) {
        CheckStatus::Pending
    } else {
        CheckStatus::Pass
    }
}

fn opt_str_eq(s: &Option<String>, lit: &str) -> (r: bool)
    ensures
        r == (opt_chars(*s) == lit@),
{
    match s {
        Some(t) => {
            let ts: &str = t.as_str();
            let r = str_eq(ts, lit);
            assert(opt_chars(*s) == t@);
            r
        },
        None => {
            let r = str_eq("", lit);
            assert(""@.len() == 0) by {
                reveal_strlit("");
            }
            assert(""@ =~= opt_chars(*s));
            r
        },
    }
}

impl PR {
    /// The combined state of this pull request's status checks.
    pub fn overall_check_status(&self) -> (r: CheckStatus)
        ensures
            r == combined_check_status(self.status_check_rollup@),
    {
        let checks = &self.status_check_rollup;
        if checks.len() == 0 {
            return CheckStatus::NoChecks;
        }
        let mut has_pending = false;
        let n = checks.len();
        let mut i: usize = 0;
        while i < n
            invariant
                n == checks.len(),
                checks@ == self.status_check_rollup@,
                i <= n,
                forall|j: int| 0 <= j < i ==> !check_failed(#[trigger] checks@[j]),
                has_pending == exists|j: int| 0 <= j < i && !check_completed(#[trigger] checks@[j]),
            decreases n - i,
        {
            let c = &checks[i];
            if !opt_str_eq(&c.status, "COMPLETED") {
                has_pending = true;
                i += 1;
                continue;
            }
            if opt_str_eq(&c.conclusion, "FAILURE") || opt_str_eq(&c.conclusion, "TIMED_OUT")
                || opt_str_eq(&c.conclusion, "CANCELLED") {
                assert(check_failed(self.status_check_rollup@[i as int]));
                assert(exists|j: int|
                    0 <= j < self.status_check_rollup@.len() && check_failed(
                        #[trigger] self.status_check_rollup@[j],
                    ));
                return CheckStatus::Fail;
            }
            i += 1;
        }
        if has_pending {
            CheckStatus::Pending
        } else {
            CheckStatus::Pass
        }
    }
}

// ---------------------------------------------------------------------------
// Invocations of `gh`
// ---------------------------------------------------------------------------

/// The fields that a repository listing asks for.
pub open spec fn repo_list_fields() -> Seq<char> {
    "name,nameWithOwner,description,updatedAt,isPrivate,stargazerCount"@
}

fn owned(s: &str) -> (r: String)
    ensures
        r@ == s@,
{
    s.to_owned()
}

fn push_arg(args: &mut Vec<String>, a: &str)
    ensures
        views(final(args)@) == views(old(args)@).push(a@),
{
    let ghost before = args@;
    args.push(owned(a));
    assert(views(args@) =~= views(before).push(a@));
}

fn push_owned_arg(args: &mut Vec<String>, a: String)
    ensures
        views(final(args)@) == views(old(args)@).push(a@),
{
    let ghost before = args@;
    args.push(a);
    assert(views(args@) =~= views(before).push(a@));
}

/// The characters of `a` followed by those of `b`, as a string.
fn joined(a: &str, b: &str) -> (r: String)
    ensures
        r@ == a@ + b@,
{
    let mut v = chars_of(a);
    push_str(&mut v, b);
    string_of(&v)
}

/// The arguments that list the user's repositories.
pub open spec fn list_repos_args(limit: u32) -> Seq<Seq<char>> {
    seq!["repo"@, "list"@, "--json"@, repo_list_fields(), "--limit"@, decimal(limit as nat)]
}

/// The arguments that list the repositories the user starred.
pub open spec fn list_starred_args(limit: u32) -> Seq<Seq<char>> {
    seq!["api"@, "user/starred?per_page="@ + decimal(limit as nat)]
}

/// The arguments that list the repositories of organization `org`.
pub open spec fn list_org_repos_args(org: Seq<char>, limit: u32) -> Seq<Seq<char>> {
    seq!["repo"@, "list"@, org, "--json"@, repo_list_fields(), "--limit"@, decimal(limit as nat)]
}

/// The arguments that search repositories matching `query`.
pub open spec fn search_repos_args(query: Seq<char>, limit: u32) -> Seq<Seq<char>> {
    seq![
        "search"@,
        "repos"@,
        query,
        "--json"@,
        "fullName,description,isPrivate,stargazersCount,updatedAt"@,
        "--limit"@,
        decimal(limit as nat),
    ]
}

/// The arguments that list the user's repositories.
pub fn list_repos(limit: u32) -> (args: Vec<String>)
    ensures
        views(args@) == list_repos_args(limit),
{
    let mut args: Vec<String> = Vec::new();
    push_arg(&mut args, "repo");
    push_arg(&mut args, "list");
    push_arg(&mut args, "--json");
    push_arg(&mut args, "name,nameWithOwner,description,updatedAt,isPrivate,stargazerCount");
    push_arg(&mut args, "--limit");
    push_owned_arg(&mut args, decimal_string(limit as u64));
    assert(views(args@) =~= seq![
        "repo"@,
        "list"@,
        "--json"@,
        repo_list_fields(),
        "--limit"@,
        decimal(limit as nat),
    ]);
    args
}

/// The arguments that list the repositories the user starred; the answer is the
/// REST form of a repository.
pub fn list_starred(limit: u32) -> (args: Vec<String>)
    ensures
        views(args@) == list_starred_args(limit),
{
    let mut args: Vec<String> = Vec::new();
    push_arg(&mut args, "api");
    let mut path = chars_of("user/starred?per_page=");
    let digits = decimal_chars(limit as u64);
    push_chars(&mut path, &digits);
    push_owned_arg(&mut args, string_of(&path));
    assert(views(args@) =~= seq!["api"@, "user/starred?per_page="@ + decimal(limit as nat)]);
    args
}

/// The arguments that print the logins of the user's organizations, one per line.
pub fn list_orgs_args() -> (args: Vec<String>)
    ensures
        views(args@) == seq!["api"@, "user/orgs"@, "--jq"@, ".[].login"@],
{
    let mut args: Vec<String> = Vec::new();
    push_arg(&mut args, "api");
    push_arg(&mut args, "user/orgs");
    push_arg(&mut args, "--jq");
    push_arg(&mut args, ".[].login");
    assert(views(args@) =~= seq!["api"@, "user/orgs"@, "--jq"@, ".[].login"@]);
    args
}

/// The non-empty lines of `s`, in order.
pub open spec fn non_empty_lines(s: Seq<char>) -> Seq<Seq<char>> {
    lines(s).filter(|l: Seq<char>| l.len() > 0)
}

/// The organization logins in the output of the command of `list_orgs_args`:
/// its non-empty lines.
pub fn list_orgs(output: &str) -> (orgs: Vec<String>)
    ensures
        views(orgs@) == non_empty_lines(output@),
{
    let v = chars_of(output);
    let ls = split_lines(&v);
    let ghost all = char_views(ls@);
    let mut orgs: Vec<String> = Vec::new();
    let n = ls.len();
    let mut i: usize = 0;
    while i < n
        invariant
            n == ls.len(),
            i <= n,
            all == char_views(ls@),
            all == lines(v@),
            views(orgs@) == all.take(i as int).filter(|l: Seq<char>| l.len() > 0),
        decreases n - i,
    {
        let ghost before = orgs@;
        assert(all.take(i as int + 1).drop_last() =~= all.take(i as int));
        reveal_with_fuel(Seq::<Seq<char>>::filter, 1);
        assert(all[i as int] == ls@[i as int]@);
        if ls[i].len() > 0 {
            orgs.push(string_of(&ls[i]));
            assert(views(orgs@) =~= views(before).push(ls@[i as int]@));
        }
        i += 1;
    }
    assert(all.take(n as int) =~= all);
    orgs
}

/// The arguments that list the repositories of the organization `org`.
pub fn list_org_repos(org: &str, limit: u32) -> (args: Vec<String>)
    ensures
        views(args@) == list_org_repos_args(org@, limit),
{
    let mut args: Vec<String> = Vec::new();
    push_arg(&mut args, "repo");
    push_arg(&mut args, "list");
    push_arg(&mut args, org);
    push_arg(&mut args, "--json");
    push_arg(&mut args, "name,nameWithOwner,description,updatedAt,isPrivate,stargazerCount");
    push_arg(&mut args, "--limit");
    push_owned_arg(&mut args, decimal_string(limit as u64));
    assert(views(args@) =~= seq![
        "repo"@,
        "list"@,
        org@,
        "--json"@,
        repo_list_fields(),
        "--limit"@,
        decimal(limit as nat),
    ]);
    args
}

/// The arguments that list the issues of `repo`.
pub fn list_issues(repo: &str, limit: u32) -> (args: Vec<String>)
    ensures
        views(args@) == seq![
            "issue"@,
            "list"@,
            "-R"@,
            repo@,
            "--json"@,
            "number,title,state,author,labels,updatedAt"@,
            "--limit"@,
            decimal(limit as nat),
        ],
{
    let mut args: Vec<String> = Vec::new();
    push_arg(&mut args, "issue");
    push_arg(&mut args, "list");
    push_arg(&mut args, "-R");
    push_arg(&mut args, repo);
    push_arg(&mut args, "--json");
    push_arg(&mut args, "number,title,state,author,labels,updatedAt");
    push_arg(&mut args, "--limit");
    push_owned_arg(&mut args, decimal_string(limit as u64));
    assert(views(args@) =~= seq![
        "issue"@,
        "list"@,
        "-R"@,
        repo@,
        "--json"@,
        "number,title,state,author,labels,updatedAt"@,
        "--limit"@,
        decimal(limit as nat),
    ]);
    args
}

/// The arguments that list the pull requests of `repo`.
pub fn list_prs(repo: &str, limit: u32) -> (args: Vec<String>)
    ensures
        views(args@) == seq![
            "pr"@,
            "list"@,
            "-R"@,
            repo@,
            "--json"@,
            "number,title,state,author,isDraft,updatedAt,statusCheckRollup"@,
            "--limit"@,
            decimal(limit as nat),
        ],
{
    let mut args: Vec<String> = Vec::new();
    push_arg(&mut args, "pr");
    push_arg(&mut args, "list");
    push_arg(&mut args, "-R");
    push_arg(&mut args, repo);
    push_arg(&mut args, "--json");
    push_arg(&mut args, "number,title,state,author,isDraft,updatedAt,statusCheckRollup");
    push_arg(&mut args, "--limit");
    push_owned_arg(&mut args, decimal_string(limit as u64));
    assert(views(args@) =~= seq![
        "pr"@,
        "list"@,
        "-R"@,
        repo@,
        "--json"@,
        "number,title,state,author,isDraft,updatedAt,statusCheckRollup"@,
        "--limit"@,
        decimal(limit as nat),
    ]);
    args
}

/// The fields that the view of an issue or pull request asks for.
pub open spec fn item_view_fields() -> Seq<char> {
    "number,title,state,body,author,labels,comments"@
}

/// The arguments that show issue `number` of `repo` with its comments.
pub fn view_issue(repo: &str, number: u32) -> (args: Vec<String>)
    ensures
        views(args@) == seq![
            "issue"@,
            "view"@,
            decimal(number as nat),
            "-R"@,
            repo@,
            "--json"@,
            item_view_fields(),
        ],
{
    let mut args: Vec<String> = Vec::new();
    push_arg(&mut args, "issue");
    push_arg(&mut args, "view");
    push_owned_arg(&mut args, decimal_string(number as u64));
    push_arg(&mut args, "-R");
    push_arg(&mut args, repo);
    push_arg(&mut args, "--json");
    push_arg(&mut args, "number,title,state,body,author,labels,comments");
    assert(views(args@) =~= seq![
        "issue"@,
        "view"@,
        decimal(number as nat),
        "-R"@,
        repo@,
        "--json"@,
        item_view_fields(),
    ]);
    args
}

/// The arguments that show pull request `number` of `repo` with its comments.
pub fn view_pr(repo: &str, number: u32) -> (args: Vec<String>)
    ensures
        views(args@) == seq![
            "pr"@,
            "view"@,
            decimal(number as nat),
            "-R"@,
            repo@,
            "--json"@,
            item_view_fields(),
        ],
{
    let mut args: Vec<String> = Vec::new();
    push_arg(&mut args, "pr");
    push_arg(&mut args, "view");
    push_owned_arg(&mut args, decimal_string(number as u64));
    push_arg(&mut args, "-R");
    push_arg(&mut args, repo);
    push_arg(&mut args, "--json");
    push_arg(&mut args, "number,title,state,body,author,labels,comments");
    assert(views(args@) =~= seq![
        "pr"@,
        "view"@,
        decimal(number as nat),
        "-R"@,
        repo@,
        "--json"@,
        item_view_fields(),
    ]);
    args
}

/// The arguments that print the diff of pull request `number` of `repo`.
pub fn pr_diff(repo: &str, number: u32) -> (args: Vec<String>)
    ensures
        views(args@) == seq!["pr"@, "diff"@, decimal(number as nat), "-R"@, repo@],
{
    let mut args: Vec<String> = Vec::new();
    push_arg(&mut args, "pr");
    push_arg(&mut args, "diff");
    push_owned_arg(&mut args, decimal_string(number as u64));
    push_arg(&mut args, "-R");
    push_arg(&mut args, repo);
    assert(views(args@) =~= seq!["pr"@, "diff"@, decimal(number as nat), "-R"@, repo@]);
    args
}

/// The fields that the overview of a repository asks for.
pub open spec fn repo_view_fields() -> Seq<char> {
    "name,nameWithOwner,description,homepageUrl,isPrivate,isFork,isArchived,stargazerCount,forkCount,issues,pullRequests,primaryLanguage,licenseInfo,defaultBranchRef,repositoryTopics,createdAt,updatedAt"@
}

/// The arguments that show the overview of `repo`.
pub fn view_repo(repo: &str) -> (args: Vec<String>)
    ensures
        views(args@) == seq!["repo"@, "view"@, repo@, "--json"@, repo_view_fields()],
{
    let mut args: Vec<String> = Vec::new();
    push_arg(&mut args, "repo");
    push_arg(&mut args, "view");
    push_arg(&mut args, repo);
    push_arg(&mut args, "--json");
    push_arg(
        &mut args,
        "name,nameWithOwner,description,homepageUrl,isPrivate,isFork,isArchived,stargazerCount,forkCount,issues,pullRequests,primaryLanguage,licenseInfo,defaultBranchRef,repositoryTopics,createdAt,updatedAt",
    );
    assert(views(args@) =~= seq!["repo"@, "view"@, repo@, "--json"@, repo_view_fields()]);
    args
}

/// The arguments that print `repo` with its README, whose output becomes the
/// `readme` of the overview when the command succeeds.
pub fn view_repo_readme(repo: &str) -> (args: Vec<String>)
    ensures
        views(args@) == seq!["repo"@, "view"@, repo@],
{
    let mut args: Vec<String> = Vec::new();
    push_arg(&mut args, "repo");
    push_arg(&mut args, "view");
    push_arg(&mut args, repo);
    assert(views(args@) =~= seq!["repo"@, "view"@, repo@]);
    args
}

/// The arguments that fetch the raw README of `repo`.
pub fn fetch_readme(repo: &str) -> (args: Vec<String>)
    ensures
        views(args@) == seq![
            "api"@,
            "repos/"@ + repo@ + "/readme"@,
            "--header"@,
            "Accept: application/vnd.github.raw+json"@,
        ],
{
    let mut args: Vec<String> = Vec::new();
    push_arg(&mut args, "api");
    let mut path = chars_of("repos/");
    push_str(&mut path, repo);
    push_str(&mut path, "/readme");
    push_owned_arg(&mut args, string_of(&path));
    push_arg(&mut args, "--header");
    push_arg(&mut args, "Accept: application/vnd.github.raw+json");
    assert(views(args@) =~= seq![
        "api"@,
        "repos/"@ + repo@ + "/readme"@,
        "--header"@,
        "Accept: application/vnd.github.raw+json"@,
    ]);
    args
}

/// The arguments that list the notifications, cached for thirty seconds.
pub fn list_notifications() -> (args: Vec<String>)
    ensures
        views(args@) == seq!["api"@, "notifications"@, "--cache"@, "30s"@],
{
    let mut args: Vec<String> = Vec::new();
    push_arg(&mut args, "api");
    push_arg(&mut args, "notifications");
    push_arg(&mut args, "--cache");
    push_arg(&mut args, "30s");
    assert(views(args@) =~= seq!["api"@, "notifications"@, "--cache"@, "30s"@]);
    args
}

/// The arguments that mark the notification thread `thread_id` as read.
pub fn mark_notification_read(thread_id: &str) -> (args: Vec<String>)
    ensures
        views(args@) == seq![
            "api"@,
            "--method"@,
            "PATCH"@,
            "notifications/threads/"@ + thread_id@,
        ],
{
    let mut args: Vec<String> = Vec::new();
    push_arg(&mut args, "api");
    push_arg(&mut args, "--method");
    push_arg(&mut args, "PATCH");
    push_owned_arg(&mut args, joined("notifications/threads/", thread_id));
    assert(views(args@) =~= seq![
        "api"@,
        "--method"@,
        "PATCH"@,
        "notifications/threads/"@ + thread_id@,
    ]);
    args
}

/// The arguments that search repositories matching `query`.
pub fn search_repos(query: &str, limit: u32) -> (args: Vec<String>)
    ensures
        views(args@) == search_repos_args(query@, limit),
{
    let mut args: Vec<String> = Vec::new();
    push_arg(&mut args, "search");
    push_arg(&mut args, "repos");
    push_arg(&mut args, query);
    push_arg(&mut args, "--json");
    push_arg(&mut args, "fullName,description,isPrivate,stargazersCount,updatedAt");
    push_arg(&mut args, "--limit");
    push_owned_arg(&mut args, decimal_string(limit as u64));
    assert(views(args@) =~= seq![
        "search"@,
        "repos"@,
        query@,
        "--json"@,
        "fullName,description,isPrivate,stargazersCount,updatedAt"@,
        "--limit"@,
        decimal(limit as nat),
    ]);
    args
}

/// What cloning a repository does: where it goes, and the `gh` arguments.
pub struct CloneRequest {
    pub dest: String,
    pub args: Vec<String>,
}

/// The last `/`-separated part of `s`.
pub open spec fn last_segment(s: Seq<char>) -> Seq<char>
    decreases s.len(),
{
    if s.len() == 0 {
        s
    } else if s.last() == '/' {
        Seq::empty()
    } else {
        last_segment(s.drop_last()).push(s.last())
    }
}

/// The characters of `s` after its last `/`.
pub fn last_part(s: &str) -> (name: Vec<char>)
    ensures
        name@ == last_segment(s@),
{
    let r = chars_of(s);
    let n = r.len();
    let mut k: usize = n;
    assert(r@.take(n as int) =~= r@);
    assert(last_segment(r@.take(n as int)) + r@.subrange(n as int, n as int) =~= last_segment(r@));
    while k > 0 && r[k - 1] != '/'
        invariant
            k <= n,
            n == r.len(),
            last_segment(r@) == last_segment(r@.take(k as int)) + r@.subrange(k as int, n as int),
        decreases k,
    {
        proof {
            let t = r@.take(k as int);
            assert(t.drop_last() =~= r@.take(k - 1));
            assert(r@.subrange(k - 1, n as int) =~= seq![t.last()] + r@.subrange(
                k as int,
                n as int,
            ));
            assert(last_segment(t) == last_segment(t.drop_last()).push(t.last()));
            assert(last_segment(t.drop_last()).push(t.last()) + r@.subrange(k as int, n as int)
                =~= last_segment(t.drop_last()) + r@.subrange(k - 1, n as int));
        }
        k -= 1;
    }
    proof {
        assert(r@.take(k as int).len() == 0 || r@.take(k as int).last() == '/');
        assert(last_segment(r@.take(k as int)) =~= Seq::<char>::empty());
    }
    slice_chars(&r, k, n)
}

/// The clone of `repo` goes to `target_dir/<name>`, where the name is the part
/// of `repo` after its last `/`; the caller refuses when that place exists
/// and creates `target_dir` first.
pub fn clone_repo(repo: &str, target_dir: &str) -> (req: CloneRequest)
    ensures
        req.dest@ == target_dir@ + "/"@ + last_segment(repo@),
        views(req.args@) == seq!["repo"@, "clone"@, repo@, req.dest@],
{
    let name = last_part(repo);
    let mut dest = chars_of(target_dir);
    push_str(&mut dest, "/");
    push_chars(&mut dest, &name);
    let dest = string_of(&dest);
    let mut args: Vec<String> = Vec::new();
    push_arg(&mut args, "repo");
    push_arg(&mut args, "clone");
    push_arg(&mut args, repo);
    push_arg(&mut args, dest.as_str());
    assert(views(args@) =~= seq!["repo"@, "clone"@, repo@, dest@]);
    CloneRequest { dest, args }
}

/// Cloning `repo` into `target_dir`, given whether its destination (the
/// `dest` of `clone_repo`) already exists: refused with an error naming the
/// destination when it does, and then nothing is created or run; else the
/// destination and the `gh` arguments, which the caller runs after creating
/// `target_dir` with its parents (the clone succeeds when both do).
pub fn clone_plan(repo: &str, target_dir: &str, dest_exists: bool) -> (r: Result<CloneRequest, String>)
    ensures
        dest_exists ==> (r matches Err(m) && m@ == target_dir@ + "/"@ + last_segment(repo@)
            + " already exists"@),
        !dest_exists ==> (r matches Ok(req) && req.dest@ == target_dir@ + "/"@ + last_segment(
            repo@,
        ) && views(req.args@) == seq!["repo"@, "clone"@, repo@, req.dest@]),
{
    let req = clone_repo(repo, target_dir);
    if dest_exists {
        let mut m = chars_of(req.dest.as_str());
        push_str(&mut m, " already exists");
        Err(string_of(&m))
    } else {
        Ok(req)
    }
}

/// The arguments that print the accounts of the `gh` tool, as JSON.
pub fn list_accounts_args() -> (args: Vec<String>)
    ensures
        views(args@) == seq!["auth"@, "status"@, "--json"@, "hosts"@],
{
    let mut args: Vec<String> = Vec::new();
    push_arg(&mut args, "auth");
    push_arg(&mut args, "status");
    push_arg(&mut args, "--json");
    push_arg(&mut args, "hosts");
    assert(views(args@) =~= seq!["auth"@, "status"@, "--json"@, "hosts"@]);
    args
}

/// How the state of an account is shown: `gh` reports a working login as
/// `success`, which is shown as `Logged in`; any other state is shown as it
/// is.
pub fn account_state_label(state: &str) -> (r: String)
    ensures
        r@ == if state@ == "success"@ {
            "Logged in"@
        } else {
            state@
        },
{
    if str_eq(state, "success") {
        owned("Logged in")
    } else {
        owned(state)
    }
}

/// The arguments that make `login` on `host` the active account.
pub fn switch_account_args(host: &str, login: &str) -> (args: Vec<String>)
    ensures
        views(args@) == seq!["auth"@, "switch"@, "--hostname"@, host@, "--user"@, login@],
{
    let mut args: Vec<String> = Vec::new();
    push_arg(&mut args, "auth");
    push_arg(&mut args, "switch");
    push_arg(&mut args, "--hostname");
    push_arg(&mut args, host);
    push_arg(&mut args, "--user");
    push_arg(&mut args, login);
    assert(views(args@) =~= seq!["auth"@, "switch"@, "--hostname"@, host@, "--user"@, login@]);
    args
}

/// The arguments that print the name of the repository of the working directory.
pub fn current_repo_args() -> (args: Vec<String>)
    ensures
        views(args@) == seq!["repo"@, "view"@, "--json"@, "nameWithOwner"@, "-q"@, ".nameWithOwner"@],
{
    let mut args: Vec<String> = Vec::new();
    push_arg(&mut args, "repo");
    push_arg(&mut args, "view");
    push_arg(&mut args, "--json");
    push_arg(&mut args, "nameWithOwner");
    push_arg(&mut args, "-q");
    push_arg(&mut args, ".nameWithOwner");
    assert(views(args@) =~= seq![
        "repo"@,
        "view"@,
        "--json"@,
        "nameWithOwner"@,
        "-q"@,
        ".nameWithOwner"@,
    ]);
    args
}

/// The repository of the working directory, from the output of the command of
/// `current_repo_args` (`None` when it failed): the trimmed output, or `None`
/// when that is empty.
pub fn current_repo(output: Option<&str>) -> (r: Option<String>)
    ensures
        output is None ==> r is None,
        output matches Some(o) ==> (if trim(o@).len() == 0 {
            r is None
        } else {
            r matches Some(s) && s@ == trim(o@)
        }),
{
    match output {
        None => None,
        Some(o) => {
            let v = chars_of(o);
            let t = trimmed(&v);
            if t.len() == 0 {
                None
            } else {
                Some(string_of(&t))
            }
        },
    }
}

/// The GraphQL query for the user's lists and their repositories.
pub open spec fn user_lists_query() -> Seq<char> {
    "{ viewer { lists(first: 20) { nodes { name items(first: 50) { nodes { ... on Repository { nameWithOwner description stargazerCount isPrivate updatedAt } } } } } } }"@
}

/// The arguments that ask for the user's lists.
pub fn list_user_lists() -> (args: Vec<String>)
    ensures
        views(args@) == seq!["api"@, "graphql"@, "-f"@, "query="@ + user_lists_query()],
{
    let mut args: Vec<String> = Vec::new();
    push_arg(&mut args, "api");
    push_arg(&mut args, "graphql");
    push_arg(&mut args, "-f");
    push_owned_arg(
        &mut args,
        joined(
            "query=",
            "{ viewer { lists(first: 20) { nodes { name items(first: 50) { nodes { ... on Repository { nameWithOwner description stargazerCount isPrivate updatedAt } } } } } } }",
        ),
    );
    assert(views(args@) =~= seq!["api"@, "graphql"@, "-f"@, "query="@ + user_lists_query()]);
    args
}

/// The repository that a list entry stands for, if it names one.
pub open spec fn node_repo(n: ListRepoNode) -> Option<Repo> {
    match n.name_with_owner {
        Some(name) => Some(
            Repo {
                full_name: name,
                description: n.description,
                is_private: n.is_private,
                star_count: n.stargazer_count,
                updated_at: n.updated_at,
            },
        ),
        None => None,
    }
}

/// The repositories of the entries that name one, in order.
pub open spec fn node_repos(nodes: Seq<ListRepoNode>) -> Seq<Repo>
    decreases nodes.len(),
{
    if nodes.len() == 0 {
        Seq::empty()
    } else {
        match node_repo(nodes.last()) {
            Some(r) => node_repos(nodes.drop_last()).push(r),
            None => node_repos(nodes.drop_last()),
        }
    }
}

/// A list of the user, made of its name and of the entries of the answer that
/// name a repository.
pub fn user_list(name: String, nodes: Vec<ListRepoNode>) -> (l: UserList)
    ensures
        l.name == name,
        l.repos@ == node_repos(nodes@),
{
    let mut repos: Vec<Repo> = Vec::new();
    let n = nodes.len();
    let mut i: usize = 0;
    while i < n
        invariant
            n == nodes.len(),
            i <= n,
            repos@ == node_repos(nodes@.take(i as int)),
        decreases n - i,
    {
        let node = &nodes[i];
        assert(nodes@.take(i as int + 1).drop_last() =~= nodes@.take(i as int));
        match &node.name_with_owner {
            Some(full) => {
                repos.push(
                    Repo {
                        full_name: full.clone(),
                        description: copy_opt_string(&node.description),
                        is_private: node.is_private,
                        star_count: node.stargazer_count,
                        updated_at: copy_opt_string(&node.updated_at),
                    },
                );
            },
            None => {},
        }
        i += 1;
    }
    assert(nodes@.take(n as int) =~= nodes@);
    UserList { name, repos }
}

// ---------------------------------------------------------------------------
// Web pages
// ---------------------------------------------------------------------------

/// The web page of `repo`, which the caller opens in the browser.
pub fn open_repo(repo: &str) -> (url: String)
    ensures
        url@ == "https://github.com/"@ + repo@,
{
    joined("https://github.com/", repo)
}

/// The web page of issue `number` of `repo`.
pub fn open_issue(repo: &str, number: u32) -> (url: String)
    ensures
        url@ == "https://github.com/"@ + repo@ + "/issues/"@ + decimal(number as nat),
{
    let mut v = chars_of("https://github.com/");
    push_str(&mut v, repo);
    push_str(&mut v, "/issues/");
    let d = decimal_chars(number as u64);
    push_chars(&mut v, &d);
    string_of(&v)
}

/// The web page of pull request `number` of `repo`.
pub fn open_pr(repo: &str, number: u32) -> (url: String)
    ensures
        url@ == "https://github.com/"@ + repo@ + "/pull/"@ + decimal(number as nat),
{
    let mut v = chars_of("https://github.com/");
    push_str(&mut v, repo);
    push_str(&mut v, "/pull/");
    let d = decimal_chars(number as u64);
    push_chars(&mut v, &d);
    string_of(&v)
}

} // verus!
