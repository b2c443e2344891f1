use ghx::actions::{actions_menu, contextual_actions, footer_actions, is_filtering, navigation_help};
use ghx::screen::actions_menu_lines;
use ghx::ui::display::Tone;
use ghx::app::{App, Screen, Tab};
use ghx::gh::Repo;
use ghx::keys::{Effect, KeyCode, KeyPress};
use ghx::theme::{fallback, hex, load_all_themes, Theme};
use ghx::ui::repo_detail::{LoadMsg, RepoTab};
use ghx::ui::repo_list::{LoadResult, RepoFetch, RepoSource};

fn new_app() -> App {
    App::new(None, load_all_themes(Vec::new()), "tokyo night moon".into())
}

fn key(code: KeyCode) -> KeyPress {
    KeyPress { code, ctrl: false }
}

fn ch(c: char) -> KeyPress {
    key(KeyCode::Char(c))
}

fn press(app: &mut App, k: KeyPress) -> Effect {
    assert!(app.key_fits(k, 20));
    app.handle_key(k, 20)
}

fn repo(name: &str) -> Repo {
    Repo {
        full_name: name.into(),
        description: None,
        updated_at: None,
        is_private: false,
        star_count: 1,
    }
}

fn loaded_app(names: &[&str]) -> App {
    let mut app = new_app();
    let (fetch, detail) = app.init(Some(Vec::new()));
    assert!(matches!(fetch, Some(RepoFetch::Mine(_))));
    assert!(detail.is_none());
    app.repo_list.poll(LoadResult {
        source: RepoSource::Mine,
        result: Ok(names.iter().map(|n| repo(n)).collect()),
    });
    app
}

#[test]
fn default_footer_keeps_account_more_and_quit_visible_at_eighty_columns() {
    let app = new_app();
    let actions = footer_actions(&app);
    let keys: Vec<_> = actions.iter().map(|(key, _)| *key).collect();
    let rendered_width = 1
        + actions
            .iter()
            .map(|(key, label)| key.len() + label.len() + 1)
            .sum::<usize>()
        + actions.len().saturating_sub(1) * 2;

    assert!(keys.contains(&"A"));
    assert!(keys.contains(&"a"));
    assert!(keys.contains(&"q"));
    assert!(!keys.contains(&"?"));
    assert!(rendered_width <= 78);
}

#[test]
fn footer_of_the_repositories_is_exact() {
    let app = new_app();
    assert_eq!(
        footer_actions(&app),
        vec![
            ("Enter", "Details"),
            ("/", "Filter"),
            ("s", "Sources"),
            ("[/]", "Cycle"),
            ("A", "Account"),
            ("a", "More"),
            ("q", "Quit"),
        ]
    );
    assert_eq!(contextual_actions(&app).len(), 10);
    assert_eq!(navigation_help(&app)[0], ("j/k, \u{2191}/\u{2193}", "Move selection"));
}

#[test]
fn typing_a_filter_shows_the_filter_keys() {
    let mut app = loaded_app(&["example/one"]);
    press(&mut app, ch('/'));
    assert!(is_filtering(&app));
    assert_eq!(
        footer_actions(&app),
        vec![("Type", "Filter"), ("Enter", "Apply"), ("Backspace", "Delete"), ("Esc", "Clear")]
    );
}

#[test]
fn configured_theme_is_selected_at_start() {
    let other: Theme = Theme { accent: hex(1, 2, 3), ..fallback() };
    let themes = vec![("first".to_string(), fallback()), ("second one".to_string(), other)];
    let app = App::new(Some("example/repo".into()), themes, "second one".into());
    assert_eq!(app.theme_index, 1);
    assert_eq!(app.screen, Screen::Home);
    assert_eq!(app.tab, Tab::Repos);
    let unknown = App::new(None, load_all_themes(Vec::new()), "missing".into());
    assert_eq!(unknown.theme_index, 0);
}

#[test]
fn repository_working_directory_opens_its_screen() {
    let mut app = App::new(Some("example/repo".into()), load_all_themes(Vec::new()), String::new());
    let (_, detail) = app.init(None);
    let fetches = detail.unwrap();
    assert_eq!(app.screen, Screen::RepoDetail);
    assert_eq!(app.selected_repo, Some("example/repo".to_string()));
    assert_eq!(app.repo_detail.as_ref().unwrap().tab, RepoTab::Issues);
    assert_eq!(fetches.issues[..4], ["issue", "list", "-R", "example/repo"]);
    assert_eq!(fetches.readme[1], "repos/example/repo/readme");
}

#[test]
fn q_quits_from_home_and_goes_back_elsewhere() {
    let mut app = loaded_app(&["example/one"]);
    let effect = press(&mut app, key(KeyCode::Enter));
    match effect {
        Effect::FetchRepoScreen(f) => assert_eq!(f.detail_readme, vec!["repo", "view", "example/one"]),
        _ => panic!("expected the fetches of the repository screen"),
    }
    assert_eq!(app.screen, Screen::RepoDetail);
    press(&mut app, ch('q'));
    assert_eq!(app.screen, Screen::Home);
    assert!(app.repo_detail.is_none());
    assert!(!app.should_quit);
    press(&mut app, ch('q'));
    assert!(app.should_quit);
}

#[test]
fn control_c_quits_everywhere() {
    let mut app = loaded_app(&[]);
    press(&mut app, KeyPress { code: KeyCode::Char('c'), ctrl: true });
    assert!(app.should_quit);
}

#[test]
fn any_key_dismisses_the_help() {
    let mut app = loaded_app(&["example/one", "example/two"]);
    press(&mut app, ch('?'));
    assert!(app.show_help);
    press(&mut app, ch('j'));
    assert!(!app.show_help);
    assert_eq!(app.repo_list.state, Some(0));
}

#[test]
fn typed_filter_narrows_the_repositories() {
    let mut app = loaded_app(&["example/alpha", "example/beta", "other/alphabet"]);
    press(&mut app, ch('/'));
    for c in "ALPHA".chars() {
        press(&mut app, ch(c));
    }
    assert_eq!(app.repo_list.filtered_indices, vec![0, 2]);
    press(&mut app, key(KeyCode::Backspace));
    assert_eq!(app.repo_list.filter, "ALPH");
    press(&mut app, key(KeyCode::Enter));
    assert!(!app.repo_list.filtering);
    press(&mut app, ch('G'));
    assert_eq!(app.repo_list.selected_repo().unwrap().full_name, "other/alphabet");
    press(&mut app, key(KeyCode::Esc));
    assert_eq!(app.repo_list.filter, "");
    assert_eq!(app.repo_list.filtered_indices, vec![0, 1, 2]);
}

#[test]
fn tab_walks_the_sources_then_the_sections() {
    let mut app = loaded_app(&["example/one"]);
    match press(&mut app, key(KeyCode::Tab)) {
        Effect::FetchRepos(RepoFetch::Starred(args)) => {
            assert_eq!(args, vec!["api", "user/starred?per_page=50"])
        },
        _ => panic!("expected a fetch of the starred repositories"),
    }
    assert_eq!(app.repo_list.source, RepoSource::Starred);
    assert!(matches!(press(&mut app, key(KeyCode::Tab)), Effect::Nothing));
    assert_eq!(app.tab, Tab::Lists);
    press(&mut app, key(KeyCode::Tab));
    assert_eq!(app.tab, Tab::Search);
    assert!(app.search.editing);
    press(&mut app, key(KeyCode::Tab));
    assert_eq!(app.tab, Tab::Notifications);
    let effect = press(&mut app, key(KeyCode::Tab));
    assert!(matches!(effect, Effect::Nothing));
    assert_eq!(app.tab, Tab::Repos);
    assert_eq!(app.repo_list.source, RepoSource::Mine);
    assert_eq!(app.repo_list.repos.len(), 1);
}

#[test]
fn shift_tab_undoes_tab() {
    let mut app = loaded_app(&["example/one"]);
    press(&mut app, key(KeyCode::Tab));
    press(&mut app, key(KeyCode::Tab));
    assert_eq!(app.tab, Tab::Lists);
    press(&mut app, key(KeyCode::Tab));
    press(&mut app, key(KeyCode::Esc));
    assert_eq!(app.tab, Tab::Search);
    press(&mut app, key(KeyCode::BackTab));
    assert_eq!(app.tab, Tab::Lists);
    press(&mut app, key(KeyCode::BackTab));
    assert_eq!(app.tab, Tab::Repos);
    assert_eq!(app.repo_list.source, RepoSource::Starred);
}

#[test]
fn search_runs_only_for_a_query() {
    let mut app = loaded_app(&[]);
    press(&mut app, key(KeyCode::Tab));
    press(&mut app, key(KeyCode::Tab));
    press(&mut app, key(KeyCode::Tab));
    assert_eq!(app.tab, Tab::Search);
    assert!(matches!(press(&mut app, key(KeyCode::Enter)), Effect::Nothing));
    press(&mut app, ch('/'));
    for c in "rust tui".chars() {
        press(&mut app, ch(c));
    }
    match press(&mut app, key(KeyCode::Enter)) {
        Effect::Search(args) => assert_eq!(args[..3], ["search", "repos", "rust tui"]),
        _ => panic!("expected a search"),
    }
    assert!(app.search.loading);
    assert!(!app.search.editing);
}

#[test]
fn theme_picker_previews_and_cancels() {
    let other: Theme = Theme { accent: hex(1, 2, 3), ..fallback() };
    let themes = vec![("first".to_string(), fallback()), ("second".to_string(), other)];
    let mut app = App::new(None, themes, "first".into());
    press(&mut app, ch('t'));
    assert!(app.show_theme_picker);
    match press(&mut app, ch('j')) {
        Effect::ShowTheme(t) => assert_eq!(t.accent, hex(1, 2, 3)),
        _ => panic!("expected a theme to show"),
    }
    assert!(matches!(press(&mut app, ch('j')), Effect::ShowTheme(_)));
    assert_eq!(app.theme_index, 1);
    match press(&mut app, key(KeyCode::Esc)) {
        Effect::ShowTheme(t) => assert_eq!(t, fallback()),
        _ => panic!("expected the earlier theme"),
    }
    assert_eq!(app.theme_index, 0);
    assert!(!app.show_theme_picker);
    press(&mut app, ch('t'));
    press(&mut app, ch('G'));
    match press(&mut app, key(KeyCode::Enter)) {
        Effect::SaveTheme(name) => assert_eq!(name, "second"),
        _ => panic!("expected the theme to save"),
    }
    assert_eq!(app.theme_index, 1);
}

#[test]
fn open_gives_the_web_page_of_the_selection() {
    let mut app = loaded_app(&["example/one"]);
    match press(&mut app, ch('o')) {
        Effect::OpenUrl(url) => assert_eq!(url, "https://github.com/example/one"),
        _ => panic!("expected a web page"),
    }
    press(&mut app, key(KeyCode::Enter));
    press(&mut app, key(KeyCode::Tab));
    assert_eq!(app.repo_detail.as_ref().unwrap().tab, RepoTab::Issues);
    if let Some(d) = app.repo_detail.as_mut() {
        d.poll(vec![LoadMsg::Issues(Ok(vec![ghx::gh::Issue {
            number: 42,
            title: "Synthetic".into(),
            state: "OPEN".into(),
            author: None,
            labels: vec![],
            updated_at: None,
        }]))]);
    }
    match press(&mut app, ch('o')) {
        Effect::OpenUrl(url) => assert_eq!(url, "https://github.com/example/one/issues/42"),
        _ => panic!("expected the issue's page"),
    }
}

#[test]
fn overview_scrolls_and_lists_move() {
    let mut app = loaded_app(&["example/one"]);
    press(&mut app, key(KeyCode::Enter));
    if let Some(d) = app.repo_detail.as_mut() {
        d.lines_count = 30;
    }
    press(&mut app, ch('d'));
    assert_eq!(app.repo_detail.as_ref().unwrap().scroll, 10);
    press(&mut app, ch('G'));
    assert_eq!(app.repo_detail.as_ref().unwrap().scroll, 29);
    press(&mut app, ch('u'));
    assert_eq!(app.repo_detail.as_ref().unwrap().scroll, 19);
    press(&mut app, ch('g'));
    assert_eq!(app.repo_detail.as_ref().unwrap().scroll, 0);
    press(&mut app, key(KeyCode::BackTab));
    assert_eq!(app.repo_detail.as_ref().unwrap().tab, RepoTab::PullRequests);
    press(&mut app, ch('/'));
    assert!(app.repo_detail.as_ref().unwrap().filtering);
    press(&mut app, ch('x'));
    assert_eq!(app.repo_detail.as_ref().unwrap().filter, "x");
    press(&mut app, key(KeyCode::Esc));
    assert!(!app.repo_detail.as_ref().unwrap().filtering);
    assert_eq!(app.screen, Screen::RepoDetail);
    press(&mut app, key(KeyCode::Esc));
    assert_eq!(app.screen, Screen::Home);
}

#[test]
fn a_opens_the_actions_menu_and_a_or_esc_only_close_it() {
    let mut app = loaded_app(&["example/one", "example/two"]);
    press(&mut app, ch('a'));
    assert!(app.show_actions);
    press(&mut app, ch('a'));
    assert!(!app.show_actions);
    assert_eq!(app.repo_list.state, Some(0));
    press(&mut app, ch('a'));
    press(&mut app, key(KeyCode::Esc));
    assert!(!app.show_actions);
    assert!(!app.should_quit);
}

#[test]
fn a_shortcut_in_the_actions_menu_closes_it_and_runs() {
    let mut app = loaded_app(&["example/one", "example/two"]);
    press(&mut app, ch('a'));
    press(&mut app, ch('j'));
    assert!(!app.show_actions);
    assert_eq!(app.repo_list.state, Some(1));
    press(&mut app, ch('a'));
    press(&mut app, ch('t'));
    assert!(!app.show_actions);
    assert!(app.show_theme_picker);
}

#[test]
fn actions_menu_puts_the_theme_before_the_last_four_and_closes_on_a() {
    let app = loaded_app(&["example/one"]);
    let menu = actions_menu(&app);
    let here = contextual_actions(&app);
    assert_eq!(menu.len(), here.len() + 1);
    let n = menu.len();
    assert_eq!(menu[n - 5], ("t", "Switch theme"));
    assert_eq!(menu[n - 4], ("A", "Account"));
    assert_eq!(menu[n - 3], ("a", "Close menu"));
    assert_eq!(menu[n - 2], ("?", "Help"));
    assert_eq!(menu[n - 1], ("q", "Quit"));
    assert_eq!(&menu[..n - 5], &here[..n - 5]);
}

#[test]
fn actions_menu_lines_pad_the_keys_and_end_with_the_hint() {
    let app = loaded_app(&["example/one"]);
    let lines = actions_menu_lines(&app);
    let menu = actions_menu(&app);
    assert_eq!(lines.len(), menu.len() + 1);
    let first = &lines[0];
    assert_eq!(first[0].text, format!(" {:<12}", menu[0].0));
    assert_eq!(first[0].tone, Tone::Key);
    assert_eq!(first[1].text, menu[0].1);
    let last = lines.last().unwrap();
    assert_eq!(last.len(), 1);
    assert_eq!(last[0].text, " Press a shortcut to run it");
    assert_eq!(last[0].tone, Tone::Dim);
}
