use ghx::app::{App, Screen, Tab};
use ghx::gh::{ItemKind, Repo};
use ghx::keys::{KeyCode, KeyPress};
use ghx::theme::load_all_themes;
use ghx::ui::item_detail::{ItemDetailView, ItemTab};
use ghx::ui::list::{move_down, move_to_last, move_up, page_down, page_up};
use ghx::ui::repo_detail::{RepoDetailView, RepoTab};
use ghx::ui::repo_list::{LoadResult, RepoFetch, RepoList, RepoSource};

fn repo(name: &str) -> Repo {
    Repo { full_name: name.into(), description: None, updated_at: None, is_private: false, star_count: 0 }
}

#[test]
fn fetched_source_comes_back_from_the_cache() {
    let mut list = RepoList::new();
    list.orgs = vec!["example-org".into()];
    assert!(matches!(list.load(), Some(RepoFetch::Mine(_))));
    list.poll(LoadResult { source: RepoSource::Mine, result: Ok(vec![repo("example/one")]) });
    list.set_source_by_index(2);
    match list.load() {
        Some(RepoFetch::Org(args)) => assert_eq!(args[2], "example-org"),
        _ => panic!("expected a fetch of the organization"),
    }
    assert!(list.loading);
    assert!(list.repos.is_empty());
    list.set_source_by_index(0);
    assert!(list.load().is_none());
    assert!(!list.loading);
    assert_eq!(list.repos.len(), 1);
    assert_eq!(list.repos[0].full_name, "example/one");
    assert_eq!(list.state, Some(0));
}

#[test]
fn answers_for_another_source_are_dropped() {
    let mut list = RepoList::new();
    list.load();
    list.poll(LoadResult { source: RepoSource::Starred, result: Ok(vec![repo("example/one")]) });
    assert!(list.repos.is_empty());
    assert!(list.loading);
    list.poll(LoadResult { source: RepoSource::Mine, result: Err("offline".into()) });
    assert_eq!(list.error, Some("offline".to_string()));
    assert!(!list.loading);
}

#[test]
fn unknown_organization_needs_no_fetch() {
    let mut list = RepoList::new();
    list.set_source_by_index(5);
    assert_eq!(list.source, RepoSource::Org(3));
    assert_eq!(list.active_source_index(), 5);
    assert!(matches!(list.load(), Some(RepoFetch::NoSuchOrg)));
}

#[test]
fn moves_keep_the_selection_within_the_list() {
    assert_eq!(move_down(Some(2), 3), Some(2));
    assert_eq!(move_down(Some(0), 3), Some(1));
    assert_eq!(move_up(Some(0)), Some(0));
    assert_eq!(move_to_last(Some(0), 3), Some(2));
    assert_eq!(page_down(Some(1), 3, 20), Some(2));
    assert_eq!(page_up(Some(2), 20), Some(0));
    assert_eq!(move_down(None, 3), None);
}

#[test]
fn shift_tab_after_tab_returns_to_the_same_section() {
    let mut app = App::new(None, load_all_themes(Vec::new()), String::new());
    app.init(Some(vec!["example-org".into()]));
    app.tab = Tab::Search;
    app.search.editing = false;
    let key = |code| KeyPress { code, ctrl: false };
    app.handle_key(key(KeyCode::Tab), 10);
    assert_eq!(app.tab, Tab::Notifications);
    app.handle_key(key(KeyCode::BackTab), 10);
    assert_eq!(app.tab, Tab::Search);
    app.tab = Tab::Repos;
    app.handle_key(key(KeyCode::Tab), 10);
    assert_eq!(app.repo_list.source, RepoSource::Starred);
    app.handle_key(key(KeyCode::BackTab), 10);
    assert_eq!(app.repo_list.source, RepoSource::Mine);
    assert_eq!(app.tab, Tab::Repos);
}

#[test]
fn going_back_returns_to_the_home_screen_as_it_was() {
    let mut app = App::new(None, load_all_themes(Vec::new()), String::new());
    app.init(Some(Vec::new()));
    app.repo_list.poll(LoadResult { source: RepoSource::Mine, result: Ok(vec![repo("example/one")]) });
    assert!(app.on_enter().is_some());
    assert_eq!(app.screen, Screen::RepoDetail);
    assert_eq!(app.selected_repo, Some("example/one".to_string()));
    app.go_back();
    assert_eq!(app.screen, Screen::Home);
    assert!(app.repo_detail.is_none());
    assert!(app.selected_repo.is_none());
    assert_eq!(app.repo_list.state, Some(0));
}

#[test]
fn repository_tabs_cycle_through_three() {
    let mut detail = RepoDetailView::new("example/repo".into());
    detail.next_tab();
    assert_eq!(detail.tab, RepoTab::Issues);
    detail.next_tab();
    assert_eq!(detail.tab, RepoTab::PullRequests);
    detail.next_tab();
    assert_eq!(detail.tab, RepoTab::Overview);
    detail.prev_tab();
    assert_eq!(detail.tab, RepoTab::PullRequests);
    detail.next_tab();
    assert_eq!(detail.tab, RepoTab::Overview);
    assert_eq!(RepoTab::PullRequests.label(), "Pull Requests");
}

#[test]
fn item_tabs_alternate() {
    let mut view = ItemDetailView::new("example/repo".into(), 1, ItemKind::PullRequest);
    view.next_tab();
    view.next_tab();
    assert_eq!(view.tab, ItemTab::Conversation);
}
