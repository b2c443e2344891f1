use ghx::gh::{
    clone_repo, current_repo, current_repo_args, fetch_readme, list_issues, list_notifications,
    list_org_repos, list_orgs, list_orgs_args, list_prs, list_repos, list_starred,
    list_user_lists, mark_notification_read, open_issue, open_pr, open_repo, pr_diff,
    search_repos, user_list, view_issue, view_pr, view_repo, view_repo_readme, CheckRun,
    CheckStatus, ListRepoNode, PR,
};

fn check(status: Option<&str>, conclusion: Option<&str>) -> CheckRun {
    CheckRun {
        name: Some("ci".into()),
        status: status.map(String::from),
        conclusion: conclusion.map(String::from),
    }
}

fn pr(checks: Vec<CheckRun>) -> PR {
    PR {
        number: 1,
        title: "t".into(),
        state: "OPEN".into(),
        author: None,
        is_draft: false,
        updated_at: None,
        status_check_rollup: checks,
    }
}

#[test]
fn listing_arguments_match_the_gh_commands() {
    assert_eq!(
        list_repos(50),
        vec!["repo", "list", "--json", "name,nameWithOwner,description,updatedAt,isPrivate,stargazerCount", "--limit", "50"]
    );
    assert_eq!(list_starred(30), vec!["api", "user/starred?per_page=30"]);
    assert_eq!(list_orgs_args(), vec!["api", "user/orgs", "--jq", ".[].login"]);
    assert_eq!(
        list_org_repos("example-org", 7),
        vec!["repo", "list", "example-org", "--json", "name,nameWithOwner,description,updatedAt,isPrivate,stargazerCount", "--limit", "7"]
    );
    assert_eq!(
        list_issues("example/repo", 50),
        vec!["issue", "list", "-R", "example/repo", "--json", "number,title,state,author,labels,updatedAt", "--limit", "50"]
    );
    assert_eq!(
        list_prs("example/repo", 50),
        vec!["pr", "list", "-R", "example/repo", "--json", "number,title,state,author,isDraft,updatedAt,statusCheckRollup", "--limit", "50"]
    );
    assert_eq!(list_notifications(), vec!["api", "notifications", "--cache", "30s"]);
    assert_eq!(
        search_repos("tui", 30),
        vec!["search", "repos", "tui", "--json", "fullName,description,isPrivate,stargazersCount,updatedAt", "--limit", "30"]
    );
}

#[test]
fn item_arguments_carry_the_number_and_repository() {
    assert_eq!(
        view_issue("example/repo", 12),
        vec!["issue", "view", "12", "-R", "example/repo", "--json", "number,title,state,body,author,labels,comments"]
    );
    assert_eq!(
        view_pr("example/repo", 3),
        vec!["pr", "view", "3", "-R", "example/repo", "--json", "number,title,state,body,author,labels,comments"]
    );
    assert_eq!(pr_diff("example/repo", 3), vec!["pr", "diff", "3", "-R", "example/repo"]);
    assert_eq!(view_repo_readme("example/repo"), vec!["repo", "view", "example/repo"]);
    assert_eq!(view_repo("example/repo")[..3], ["repo", "view", "example/repo"]);
    assert_eq!(
        fetch_readme("example/repo"),
        vec!["api", "repos/example/repo/readme", "--header", "Accept: application/vnd.github.raw+json"]
    );
    assert_eq!(
        mark_notification_read("123"),
        vec!["api", "--method", "PATCH", "notifications/threads/123"]
    );
    assert_eq!(
        current_repo_args(),
        vec!["repo", "view", "--json", "nameWithOwner", "-q", ".nameWithOwner"]
    );
    assert_eq!(list_user_lists()[..3], ["api", "graphql", "-f"]);
    assert!(list_user_lists()[3].starts_with("query={ viewer { lists(first: 20)"));
}

#[test]
fn web_pages_of_repositories_and_items() {
    assert_eq!(open_repo("example/repo"), "https://github.com/example/repo");
    assert_eq!(open_issue("example/repo", 5), "https://github.com/example/repo/issues/5");
    assert_eq!(open_pr("example/repo", 0), "https://github.com/example/repo/pull/0");
}

#[test]
fn organizations_are_the_non_empty_lines() {
    assert_eq!(list_orgs("alpha\n\nbeta\r\n"), vec!["alpha".to_string(), "beta".to_string()]);
    assert!(list_orgs("").is_empty());
}

#[test]
fn working_directory_repository_is_the_trimmed_output() {
    assert_eq!(current_repo(Some("  example/repo\n")), Some("example/repo".to_string()));
    assert_eq!(current_repo(Some("\n")), None);
    assert_eq!(current_repo(None), None);
}

#[test]
fn clone_goes_under_the_repository_name() {
    let req = clone_repo("example/repo", "/tmp/clones");
    assert_eq!(req.dest, "/tmp/clones/repo");
    assert_eq!(req.args, vec!["repo", "clone", "example/repo", "/tmp/clones/repo"]);
}

#[test]
fn list_entries_without_a_name_are_skipped() {
    let nodes = vec![
        ListRepoNode {
            name_with_owner: Some("example/one".into()),
            description: Some("first".into()),
            stargazer_count: 4,
            is_private: true,
            updated_at: None,
        },
        ListRepoNode {
            name_with_owner: None,
            description: None,
            stargazer_count: 0,
            is_private: false,
            updated_at: None,
        },
    ];
    let list = user_list("Favorites".into(), nodes);
    assert_eq!(list.name, "Favorites");
    assert_eq!(list.repos.len(), 1);
    assert_eq!(list.repos[0].full_name, "example/one");
    assert_eq!(list.repos[0].star_count, 4);
    assert!(list.repos[0].is_private);
}

#[test]
fn check_status_combines_the_checks() {
    assert_eq!(pr(vec![]).overall_check_status(), CheckStatus::NoChecks);
    assert_eq!(
        pr(vec![check(Some("COMPLETED"), Some("SUCCESS"))]).overall_check_status(),
        CheckStatus::Pass
    );
    assert_eq!(
        pr(vec![check(Some("IN_PROGRESS"), None), check(Some("COMPLETED"), Some("SUCCESS"))])
            .overall_check_status(),
        CheckStatus::Pending
    );
    assert_eq!(
        pr(vec![check(Some("IN_PROGRESS"), None), check(Some("COMPLETED"), Some("TIMED_OUT"))])
            .overall_check_status(),
        CheckStatus::Fail
    );
    assert_eq!(
        pr(vec![check(Some("COMPLETED"), Some("CANCELLED"))]).overall_check_status(),
        CheckStatus::Fail
    );
}
