use ghx::app::App;
use ghx::gh::{
    Author, BranchWrapper, CheckRun, CountWrapper, GitHubAccount, Issue, Label, LangWrapper,
    NotifRepo, NotifSubject, Notification, Repo, RepoDetail, TopicWrapper, PR,
};
use ghx::screen::{breadcrumb, footer_line, help_lines, home_filter_line, tabs_line, theme_picker_lines, theme_status_line};
use ghx::theme::{fallback, load_all_themes};
use ghx::ui::account_picker::{AccountPicker, PickerMsg};
use ghx::ui::display::{spinner_frame, spinner_line, tone_style, Body, Piece, Tone};
use ghx::ui::item_detail::{diff_lines, ItemDetailView, LoadMsg as ItemMsg};
use ghx::gh::ItemKind;
use ghx::ui::notif_list::{notif_row, NotifList};
use ghx::ui::repo_detail::{issue_row, overview_lines, pr_row, RepoDetailView};
use ghx::ui::repo_list::{repo_row, LoadResult, RepoList, RepoSource};
use ghx::ui::search::SearchView;
use ghx::ui::source_picker::SourcePicker;

const DAY: u64 = 86400;
const EPOCH: &str = "1970-01-01T00:00:00Z";

fn text(line: &[Piece]) -> String {
    line.iter().map(|p| p.text.as_str()).collect()
}

fn tones(line: &[Piece]) -> Vec<Tone> {
    line.iter().map(|p| p.tone).collect()
}

fn repo(name: &str, private: bool, stars: u32, updated: Option<&str>, desc: Option<&str>) -> Repo {
    Repo {
        full_name: name.into(),
        description: desc.map(String::from),
        updated_at: updated.map(String::from),
        is_private: private,
        star_count: stars,
    }
}

#[test]
fn spinner_cycles_every_two_ticks() {
    assert_eq!(spinner_frame(0), "\u{280b}");
    assert_eq!(spinner_frame(1), "\u{280b}");
    assert_eq!(spinner_frame(2), "\u{2819}");
    assert_eq!(spinner_frame(19), "\u{280f}");
    assert_eq!(spinner_frame(20), "\u{280b}");
    let line = spinner_line(4, "Loading...");
    assert_eq!(text(&line), " \u{2839} Loading...");
    assert_eq!(tones(&line), vec![Tone::Accent, Tone::Dim]);
}

#[test]
fn repository_rows_show_marks_stars_age_and_description() {
    let r = repo("example/one", true, 3, Some(EPOCH), Some("A tool"));
    let line = repo_row(&r, " [private]", Some(2 * DAY));
    assert_eq!(text(&line), "example/one [private] *3 · 2d ago — A tool");
    assert_eq!(tones(&line), vec![Tone::Normal, Tone::Purple, Tone::Dim, Tone::Dim, Tone::Dim]);
    let plain = repo("example/two", false, 0, Some(EPOCH), Some(""));
    assert_eq!(text(&repo_row(&plain, " [private]", None)), "example/two");
}

#[test]
fn repository_list_shows_its_state() {
    let mut list = RepoList::new();
    match list.body(0, 0) {
        Body::Message(l) => assert_eq!(text(&l), " \u{280b} Loading repositories..."),
        Body::Rows(_) => panic!("expected the spinner"),
    }
    list.poll(LoadResult { source: RepoSource::Mine, result: Err("offline".into()) });
    match list.body(0, 0) {
        Body::Message(l) => assert_eq!(text(&l), " Error: offline"),
        Body::Rows(_) => panic!("expected the error"),
    }
    list.poll(LoadResult {
        source: RepoSource::Mine,
        result: Ok(vec![repo("example/one", false, 0, None, None)]),
    });
    match list.body(0, 0) {
        Body::Rows(rows) => {
            assert_eq!(rows.len(), 1);
            assert_eq!(text(&rows[0]), "example/one");
        },
        Body::Message(_) => panic!("expected rows"),
    }
}

#[test]
fn search_shows_an_invitation_then_results() {
    let mut search = SearchView::new();
    assert_eq!(text(&search.input_line()), " / \u{2588}");
    match search.body(0) {
        Body::Message(l) => assert_eq!(text(&l), " Type a query and press Enter to search"),
        Body::Rows(_) => panic!("expected the invitation"),
    }
    search.searched = true;
    search.poll(Ok(vec![]));
    match search.body(0) {
        Body::Message(l) => assert_eq!(text(&l), " No results"),
        Body::Rows(_) => panic!("expected no results"),
    }
    search.poll(Ok(vec![repo("example/one", true, 2, Some(EPOCH), Some("d"))]));
    search.editing = false;
    assert_eq!(text(&search.input_line()), " / ");
    match search.body(0) {
        Body::Rows(rows) => assert_eq!(text(&rows[0]), "example/one [private] *2 — d"),
        Body::Message(_) => panic!("expected rows"),
    }
}

#[test]
fn notification_rows_mark_their_kind() {
    let n = Notification {
        id: "1".into(),
        reason: "mention".into(),
        subject: NotifSubject { title: "Bug".into(), kind: "PullRequest".into(), url: None },
        repository: NotifRepo { full_name: "example/one".into() },
        unread: true,
        updated_at: Some(EPOCH.into()),
    };
    let line = notif_row(&n, 3 * 3600);
    assert_eq!(text(&line), "\u{2442} Bug  example/one · 3h ago");
    assert_eq!(tones(&line)[0], Tone::Purple);
    let mut list = NotifList::new();
    list.poll(Ok(vec![]));
    list.filter = "zz".into();
    match list.body(0, 0) {
        Body::Message(l) => assert_eq!(text(&l), " No notifications match \u{2018}zz\u{2019}"),
        Body::Rows(_) => panic!("expected the message"),
    }
}

#[test]
fn issue_and_pull_request_rows() {
    let issue = Issue {
        number: 7,
        title: "Crash".into(),
        state: "OPEN".into(),
        author: Some(Author { login: "example-user".into() }),
        labels: vec![Label { name: "bug".into() }, Label { name: "ui".into() }],
        updated_at: Some(EPOCH.into()),
    };
    let line = issue_row(&issue, 30);
    assert_eq!(text(&line), "\u{25cf} #7 Crash [bug, ui] @example-user · 30s ago");
    assert_eq!(tones(&line)[0], Tone::Green);
    let pr = PR {
        number: 9,
        title: "Fix".into(),
        state: "OPEN".into(),
        author: None,
        is_draft: true,
        updated_at: None,
        status_check_rollup: vec![CheckRun {
            name: None,
            status: Some("COMPLETED".into()),
            conclusion: Some("FAILURE".into()),
        }],
    };
    let line = pr_row(&pr, 0);
    assert_eq!(text(&line), "\u{2717} #9 Fix [draft]");
    assert_eq!(tones(&line)[0], Tone::Red);
}

#[test]
fn overview_opens_with_the_repository_facts() {
    let d = RepoDetail {
        full_name: "example/one".into(),
        description: Some("A tool".into()),
        is_private: true,
        is_fork: false,
        is_archived: true,
        star_count: 5,
        fork_count: 2,
        issues: CountWrapper { total_count: 4 },
        pull_requests: CountWrapper { total_count: 1 },
        primary_language: Some(LangWrapper { name: "Rust".into() }),
        license_info: None,
        default_branch_ref: Some(BranchWrapper { name: "main".into() }),
        topics: vec![TopicWrapper { name: "cli".into() }, TopicWrapper { name: "tui".into() }],
        created_at: None,
        updated_at: None,
        homepage_url: Some(String::new()),
        readme: None,
    };
    let lines = overview_lines(&d);
    let texts: Vec<String> = lines.iter().map(|l| text(l)).collect();
    assert_eq!(
        texts,
        vec![
            " example/one",
            "",
            " A tool",
            "",
            " Rust \u{2605} 5 \u{2442} 2 Issues: 4 PRs: 1",
            " \u{229d} [archived] branch:main",
            " topics: cli, tui",
            "",
        ]
    );
    let mut view = RepoDetailView::new("example/one".into());
    match view.overview_body(0) {
        Body::Message(l) => assert_eq!(text(&l), " \u{280b} Loading repo details..."),
        Body::Rows(_) => panic!("expected the spinner"),
    }
    view.loading = false;
    view.detail = Some(d);
    match view.overview_body(0) {
        Body::Rows(rows) => assert_eq!(rows.len(), 8),
        Body::Message(_) => panic!("expected the overview"),
    }
}

#[test]
fn diff_lines_have_their_tones() {
    let lines = diff_lines("diff --git a/x b/x\n--- a/x\n+++ b/x\n@@ -1 +1 @@\n-old\n+new\n same");
    assert_eq!(
        lines.iter().map(|l| l[0].tone).collect::<Vec<_>>(),
        vec![Tone::PurpleBold, Tone::Yellow, Tone::Yellow, Tone::Key, Tone::Red, Tone::Green, Tone::Normal]
    );
    assert_eq!(text(&lines[6]), " same");
    let mut view = ItemDetailView::new("example/one".into(), 1, ItemKind::PullRequest);
    view.next_tab();
    view.poll(vec![ItemMsg::Diff(Ok("+a\n".into()))]);
    match view.diff_body(0) {
        Body::Rows(rows) => assert_eq!(text(&rows[0]), "+a"),
        Body::Message(_) => panic!("expected the diff"),
    }
}

#[test]
fn source_rows_mark_the_current_source() {
    let mut repos = RepoList::new();
    repos.orgs = vec!["Synthetic Organization".into()];
    repos.set_source_by_index(2);
    let mut picker = SourcePicker::new();
    picker.open(&repos);
    assert_eq!(text(&picker.header_line(&repos)), " Select My Repos, Starred, or an organization");
    match picker.body(&repos) {
        Body::Rows(rows) => {
            assert_eq!(text(&rows[0]), "  My Repos  personal");
            assert_eq!(text(&rows[1]), "  Starred  starred");
            assert_eq!(text(&rows[2]), "\u{25cf} Synthetic Organization  organization  active");
        },
        Body::Message(_) => panic!("expected rows"),
    }
    assert_eq!(text(&picker.status_line()), " Enter select    / filter    Esc close");
    picker.on_filter_key('x', &repos);
    match picker.body(&repos) {
        Body::Message(l) => assert_eq!(text(&l), " No sources match \u{2018}x\u{2019}"),
        Body::Rows(_) => panic!("expected the message"),
    }
    assert_eq!(text(&picker.header_line(&repos)), " filter: x (0/3)");
}

#[test]
fn account_rows_mark_the_active_account() {
    let mut picker = AccountPicker::new();
    let generation = picker.open();
    picker.poll(vec![PickerMsg::Accounts {
        generation,
        result: Ok(vec![
            GitHubAccount {
                host: "github.com".into(),
                login: "active-example".into(),
                active: true,
                state: "Logged in".into(),
                token_source: "keyring".into(),
            },
            GitHubAccount {
                host: "github.com".into(),
                login: "other-example".into(),
                active: false,
                state: "Timed out".into(),
                token_source: "keyring".into(),
            },
        ]),
    }]);
    match picker.body(0) {
        Body::Rows(rows) => {
            assert_eq!(text(&rows[0]), "\u{25cf} active-example @ github.com  active");
            assert_eq!(text(&rows[1]), "  other-example @ github.com  Timed out");
        },
        Body::Message(_) => panic!("expected rows"),
    }
    assert_eq!(text(&picker.status_line(0)), " Enter switch    Esc close");
    assert_eq!(text(&AccountPicker::header_line()), " Select the account ghx should use");
}

#[test]
fn repository_source_stays_in_breadcrumb_not_primary_tabs() {
    let mut app = App::new(None, load_all_themes(Vec::new()), String::new());
    app.repo_list.orgs = vec!["Synthetic Organization".into()];
    app.repo_list.set_source_by_index(2);
    let crumb = text(&breadcrumb(&app));
    let tabs = text(&tabs_line(&app));
    assert!(crumb.contains("Repositories › Synthetic Organization"));
    assert!(tabs.contains("[Repositories]    Lists    Search    Notifications"));
    assert!(!tabs.contains("Synthetic Organization"));
    assert_eq!(breadcrumb(&app)[4].tone, Tone::HeadingBold);
    assert_eq!(tabs_line(&app)[1].tone, Tone::Selected);
    assert_eq!(footer_line(&app)[1].tone, Tone::Key);
    let theme = fallback();
    assert_eq!(tone_style(&theme, breadcrumb(&app)[4].tone).fg, Some(theme.heading));
    assert_eq!(tone_style(&theme, tabs_line(&app)[1].tone).fg, Some(theme.selection));
    assert_eq!(tone_style(&theme, footer_line(&app)[1].tone).fg, Some(theme.key));
}

#[test]
fn tones_take_their_roles_colors() {
    let theme = fallback();
    let bar = tone_style(&theme, Tone::SelectedBar);
    assert_eq!(bar.fg, Some(theme.selection));
    assert_eq!(bar.bg, Some(theme.border));
    assert!(bar.bold);
    assert_eq!(tone_style(&theme, Tone::Plain).fg, None);
    assert!(!tone_style(&theme, Tone::Dim).bold);
    assert_eq!(tone_style(&theme, Tone::Dim).fg, Some(theme.dim));
    assert!(tone_style(&theme, Tone::PurpleBold).bold);
}

#[test]
fn help_lists_navigation_actions_and_global_keys() {
    let app = App::new(None, load_all_themes(Vec::new()), String::new());
    let lines = help_lines(&app);
    assert_eq!(text(&lines[0]), " Navigation");
    assert_eq!(text(&lines[1]), "  j/k, \u{2191}/\u{2193}      Move selection");
    assert_eq!(text(lines.last().unwrap()), " Press any key to close");
    assert_eq!(lines.len(), 1 + 6 + 1 + 1 + 10 + 1 + 1 + 3 + 1 + 1);
    assert!(home_filter_line(&app).is_none());
}

#[test]
fn theme_picker_keeps_the_selection_in_view() {
    let themes: Vec<(String, ghx::theme::Theme)> =
        (0..5).map(|i| (format!("theme-{i}"), fallback())).collect();
    let mut app = App::new(None, themes, "theme-4".into());
    assert_eq!(app.theme_index, 4);
    let lines = theme_picker_lines(&app, 3, 15);
    assert_eq!(lines.len(), 3);
    assert_eq!(text(&lines[0]), "    theme 2");
    assert_eq!(text(&lines[2]), "  \u{203a} theme 4   ");
    app.theme_index = 0;
    let lines = theme_picker_lines(&app, 3, 15);
    assert_eq!(text(&lines[0]), "  \u{203a} theme 0   ");
    assert_eq!(text(&theme_status_line()), " j/k:select  enter:ok  esc:cancel");
}
