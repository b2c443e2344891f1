use ghx::app::{App, Screen, Tab};
use ghx::gh::{
    clone_plan, Author, GitHubAccount, Issue, IssueDetail, ItemKind, NotifRepo, NotifSubject,
    Notification, PR,
};
use ghx::keys::{Effect, KeyCode, KeyPress};
use ghx::screen::{breadcrumb, tabs_line};
use ghx::theme::load_all_themes;
use ghx::ui::account_picker::PickerMsg;
use ghx::ui::item_detail::{ItemTab, LoadMsg as ItemMsg};
use ghx::ui::repo_detail::{LoadMsg, RepoTab};
use ghx::ui::repo_list::{LoadResult, RepoFetch, RepoSource};

fn key(code: KeyCode) -> KeyPress {
    KeyPress { code, ctrl: false }
}

fn ch(c: char) -> KeyPress {
    key(KeyCode::Char(c))
}

fn press(app: &mut App, k: KeyPress) -> Effect {
    assert!(app.key_fits(k, 20));
    app.handle_key(k, 20)
}

fn app_with_orgs(orgs: &[&str]) -> App {
    let mut app = App::new(None, load_all_themes(Vec::new()), "tokyo night moon".into());
    app.init(Some(orgs.iter().map(|o| o.to_string()).collect()));
    app.repo_list.poll(LoadResult {
        source: RepoSource::Mine,
        result: Ok(vec![ghx::gh::Repo {
            full_name: "example/one".into(),
            description: None,
            updated_at: None,
            is_private: false,
            star_count: 0,
        }]),
    });
    app
}

fn account(login: &str, active: bool) -> GitHubAccount {
    GitHubAccount {
        host: "github.com".into(),
        login: login.into(),
        active,
        state: "Logged in".into(),
        token_source: "keyring".into(),
    }
}

fn detail() -> IssueDetail {
    IssueDetail {
        number: 7,
        title: "Synthetic".into(),
        state: "OPEN".into(),
        body: Some("Body.".into()),
        author: Some(Author { login: "example-user".into() }),
        labels: vec![],
        comments: vec![],
    }
}

#[test]
fn s_opens_the_source_picker_and_enter_shows_the_chosen_source() {
    let mut app = app_with_orgs(&["Synthetic Alpha", "Synthetic Beta"]);
    app.tab = Tab::Lists;
    press(&mut app, ch('s'));
    assert!(app.source_picker.visible);
    assert_eq!(app.source_picker.filtered_indices, vec![0, 1, 2, 3]);
    assert_eq!(app.source_picker.selected, 0);
    press(&mut app, ch('j'));
    match press(&mut app, key(KeyCode::Enter)) {
        Effect::FetchRepos(RepoFetch::Starred(_)) => {},
        _ => panic!("expected the fetch of the starred repositories"),
    }
    assert!(!app.source_picker.visible);
    assert_eq!(app.tab, Tab::Repos);
    assert_eq!(app.repo_list.source, RepoSource::Starred);
}

#[test]
fn the_source_picker_filters_and_closes() {
    let mut app = app_with_orgs(&["Synthetic Alpha", "Synthetic Beta"]);
    press(&mut app, ch('s'));
    press(&mut app, ch('/'));
    for c in "beta".chars() {
        press(&mut app, ch(c));
    }
    assert_eq!(app.source_picker.filtered_indices, vec![3]);
    match press(&mut app, key(KeyCode::Enter)) {
        Effect::FetchRepos(RepoFetch::Org(args)) => assert!(args.iter().any(|a| a == "Synthetic Beta")),
        _ => panic!("expected the fetch of the organization"),
    }
    assert_eq!(app.repo_list.source, RepoSource::Org(1));
    press(&mut app, ch('s'));
    assert_eq!(app.source_picker.selected, 3);
    press(&mut app, ch('q'));
    assert!(!app.source_picker.visible);
    assert!(!app.should_quit);
}

#[test]
fn brackets_cycle_the_sources_both_ways() {
    let mut app = app_with_orgs(&["Synthetic Alpha"]);
    press(&mut app, ch(']'));
    assert_eq!(app.repo_list.source, RepoSource::Starred);
    press(&mut app, ch(']'));
    assert_eq!(app.repo_list.source, RepoSource::Org(0));
    press(&mut app, ch(']'));
    assert_eq!(app.repo_list.source, RepoSource::Mine);
    press(&mut app, ch('['));
    assert_eq!(app.repo_list.source, RepoSource::Org(0));
    assert_eq!(app.tab, Tab::Repos);
}

#[test]
fn capital_a_lists_accounts_and_enter_switches() {
    let mut app = app_with_orgs(&[]);
    match press(&mut app, ch('A')) {
        Effect::ListAccounts(g) => assert_eq!(g, 1),
        _ => panic!("expected the listing of the accounts"),
    }
    assert!(app.account_picker.visible);
    assert!(app.account_picker.loading);
    let switched = app.account_picker.poll(vec![PickerMsg::Accounts {
        generation: 1,
        result: Ok(vec![account("first-user", true), account("second-user", false)]),
    }]);
    assert!(!switched);
    assert_eq!(app.account_picker.selected, 0);
    press(&mut app, ch('j'));
    match press(&mut app, key(KeyCode::Enter)) {
        Effect::SwitchAccount(r) => {
            assert_eq!(r.login, "second-user");
            assert_eq!(r.host, "github.com");
            assert_eq!(r.generation, 1);
        },
        _ => panic!("expected a switch"),
    }
    press(&mut app, key(KeyCode::Esc));
    assert!(app.account_picker.visible, "the picker stays while switching");
    let switched = app.account_picker.poll(vec![PickerMsg::Switched { generation: 1, result: Ok(()) }]);
    assert!(switched);
    assert!(!app.account_picker.visible);
    app.tab = Tab::Search;
    let fetch = app.reload_after_account_switch(Some(vec!["Other Org".into()]));
    assert!(matches!(fetch, Some(RepoFetch::Mine(_))));
    assert_eq!(app.tab, Tab::Repos);
    assert_eq!(app.repo_list.orgs, vec!["Other Org".to_string()]);
    assert!(app.repo_list.repos.is_empty());
}

#[test]
fn enter_on_an_issue_opens_its_screen_and_q_goes_back() {
    let mut app = app_with_orgs(&[]);
    press(&mut app, key(KeyCode::Enter));
    press(&mut app, key(KeyCode::Tab));
    if let Some(d) = app.repo_detail.as_mut() {
        d.poll(vec![LoadMsg::Issues(Ok(vec![Issue {
            number: 7,
            title: "Synthetic".into(),
            state: "OPEN".into(),
            author: None,
            labels: vec![],
            updated_at: None,
        }]))]);
    }
    match press(&mut app, key(KeyCode::Enter)) {
        Effect::FetchItem(args) => assert_eq!(
            args,
            vec!["issue", "view", "7", "-R", "example/one", "--json", "number,title,state,body,author,labels,comments"]
        ),
        _ => panic!("expected the fetch of the issue"),
    }
    assert_eq!(app.screen, Screen::ItemDetail);
    let crumbs: Vec<String> = breadcrumb(&app).into_iter().map(|p| p.text).collect();
    assert_eq!(crumbs.last().unwrap(), "Issue #7");
    let tabs: Vec<String> = tabs_line(&app).into_iter().map(|p| p.text).collect();
    assert_eq!(tabs, vec![" ", "[Conversation]"]);
    app.item_detail.as_mut().unwrap().poll(vec![ItemMsg::Detail(Ok(detail()))]);
    press(&mut app, ch('r'));
    assert!(app.item_detail.as_ref().unwrap().body_only);
    match press(&mut app, ch('o')) {
        Effect::OpenUrl(url) => assert_eq!(url, "https://github.com/example/one/issues/7"),
        _ => panic!("expected the issue's page"),
    }
    press(&mut app, ch('q'));
    assert_eq!(app.screen, Screen::RepoDetail);
    assert!(app.item_detail.is_none());
    assert_eq!(app.repo_detail.as_ref().unwrap().tab, RepoTab::Issues);
}

#[test]
fn tab_on_a_pull_request_fetches_its_diff_and_the_keys_scroll() {
    let mut app = app_with_orgs(&[]);
    press(&mut app, key(KeyCode::Enter));
    press(&mut app, key(KeyCode::BackTab));
    assert_eq!(app.repo_detail.as_ref().unwrap().tab, RepoTab::PullRequests);
    if let Some(d) = app.repo_detail.as_mut() {
        d.poll(vec![LoadMsg::Prs(Ok(vec![PR {
            number: 9,
            title: "Synthetic".into(),
            state: "OPEN".into(),
            author: None,
            is_draft: false,
            updated_at: None,
            status_check_rollup: vec![],
        }]))]);
    }
    press(&mut app, key(KeyCode::Enter));
    let item = app.item_detail.as_ref().unwrap();
    assert_eq!(item.kind, ItemKind::PullRequest);
    assert_eq!(item.number, 9);
    match press(&mut app, key(KeyCode::Tab)) {
        Effect::FetchDiff(args) => assert_eq!(args, vec!["pr", "diff", "9", "-R", "example/one"]),
        _ => panic!("expected the fetch of the diff"),
    }
    assert_eq!(app.item_detail.as_ref().unwrap().tab, ItemTab::Diff);
    if let Some(i) = app.item_detail.as_mut() {
        i.lines_count = 50;
        i.visible_height = 10;
    }
    press(&mut app, ch('d'));
    assert_eq!(app.item_detail.as_ref().unwrap().scroll, 10);
    press(&mut app, ch('G'));
    assert_eq!(app.item_detail.as_ref().unwrap().scroll, 40);
    press(&mut app, ch('u'));
    assert_eq!(app.item_detail.as_ref().unwrap().scroll, 30);
    press(&mut app, ch('g'));
    assert_eq!(app.item_detail.as_ref().unwrap().scroll, 0);
}

#[test]
fn enter_on_a_notification_opens_its_pull_request() {
    let mut app = app_with_orgs(&[]);
    app.tab = Tab::Notifications;
    app.notif_list.poll(Ok(vec![Notification {
        id: "1".into(),
        reason: "mention".into(),
        subject: NotifSubject {
            title: "Synthetic".into(),
            kind: "PullRequest".into(),
            url: Some("https://api.github.com/repos/example/two/pulls/12".into()),
        },
        repository: NotifRepo { full_name: "example/two".into() },
        unread: true,
        updated_at: None,
    }]));
    match press(&mut app, key(KeyCode::Enter)) {
        Effect::FetchItem(args) => assert_eq!(args[0..3], ["pr", "view", "12"]),
        _ => panic!("expected the fetch of the pull request"),
    }
    assert_eq!(app.screen, Screen::ItemDetail);
    press(&mut app, key(KeyCode::Esc));
    assert_eq!(app.screen, Screen::Home);
}

#[test]
fn a_notification_without_a_number_opens_nothing() {
    let n = Notification {
        id: "1".into(),
        reason: "mention".into(),
        subject: NotifSubject {
            title: "Release".into(),
            kind: "Release".into(),
            url: Some("https://api.github.com/repos/example/two/releases/1".into()),
        },
        repository: NotifRepo { full_name: "example/two".into() },
        unread: true,
        updated_at: None,
    };
    assert!(App::notification_item(&n).is_none());
    let n2 = Notification {
        subject: NotifSubject {
            title: "Big".into(),
            kind: "Issue".into(),
            url: Some("https://api.github.com/repos/example/two/issues/99999999999".into()),
        },
        ..n
    };
    assert!(App::notification_item(&n2).is_none());
}

#[test]
fn clone_is_refused_when_the_destination_exists() {
    match clone_plan("example/repo", "/tmp/clones", true) {
        Err(m) => assert_eq!(m, "/tmp/clones/repo already exists"),
        Ok(_) => panic!("expected a refusal"),
    }
    match clone_plan("example/repo", "/tmp/clones", false) {
        Ok(req) => {
            assert_eq!(req.dest, "/tmp/clones/repo");
            assert_eq!(req.args, vec!["repo", "clone", "example/repo", "/tmp/clones/repo"]);
        },
        Err(_) => panic!("expected a plan"),
    }
}

#[test]
fn cancelling_the_theme_picker_undoes_every_preview() {
    let mut app = app_with_orgs(&[]);
    let before = app.theme_index;
    app.open_theme_picker();
    app.theme_picker_select(3);
    app.theme_picker_select(1);
    app.theme_picker_select(1000);
    let shown = app.theme_picker_cancel();
    assert_eq!(app.theme_index, before);
    assert!(!app.show_theme_picker);
    assert!(shown == app.themes[before].1);
}
