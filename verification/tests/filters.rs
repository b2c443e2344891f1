use ghx::gh::{NotifRepo, NotifSubject, Notification, Repo};
use ghx::ui::notif_list::NotifList;
use ghx::ui::repo_list::{filter_repos, RepoList};
use ghx::ui::source_picker::SourcePicker;

fn notification(title: &str, repo: &str, reason: &str) -> Notification {
    Notification {
        id: format!("{repo}-{title}"),
        reason: reason.into(),
        subject: NotifSubject { title: title.into(), kind: "Issue".into(), url: None },
        repository: NotifRepo { full_name: repo.into() },
        unread: true,
        updated_at: None,
    }
}

fn repo(name: &str, description: Option<&str>) -> Repo {
    Repo {
        full_name: name.into(),
        description: description.map(String::from),
        updated_at: None,
        is_private: false,
        star_count: 0,
    }
}

#[test]
fn filters_notifications_by_title_repository_and_reason() {
    let mut list = NotifList::new();
    list.notifs = vec![
        notification("Synthetic bug", "example/one", "mention"),
        notification("Documentation", "example/two", "review_requested"),
    ];

    list.filter = "review".into();
    list.refilter();
    assert_eq!(list.filtered_indices, vec![1]);
    assert_eq!(list.selected().unwrap().subject.title, "Documentation");

    list.filter = "one".into();
    list.refilter();
    assert_eq!(list.filtered_indices, vec![0]);
}

#[test]
fn filters_sources_and_preserves_underlying_index() {
    let mut repos = RepoList::new();
    repos.orgs = vec!["Synthetic Alpha".into(), "Synthetic Beta".into()];
    let mut picker = SourcePicker::new();
    picker.open(&repos);

    picker.on_filter_key('b', &repos);
    picker.on_filter_key('e', &repos);
    picker.on_filter_key('t', &repos);
    picker.on_filter_key('a', &repos);

    assert_eq!(picker.filtered_indices, vec![3]);
    assert_eq!(picker.selected_source_index(), Some(3));
}

#[test]
fn repository_filter_ignores_case_and_reads_descriptions() {
    let repos = vec![
        repo("example/Alpha", None),
        repo("example/beta", Some("Terminal BROWSER")),
        repo("example/gamma", Some("nothing here")),
    ];
    assert_eq!(filter_repos(&repos, &"ALPHA".to_string()), vec![0]);
    assert_eq!(filter_repos(&repos, &"browser".to_string()), vec![1]);
    assert_eq!(filter_repos(&repos, &"example".to_string()), vec![0, 1, 2]);
    assert_eq!(filter_repos(&repos, &String::new()), vec![0, 1, 2]);
    assert!(filter_repos(&repos, &"zzz".to_string()).is_empty());
}

#[test]
fn notification_filter_reads_upper_case_queries() {
    let mut list = NotifList::new();
    list.notifs = vec![
        notification("Synthetic bug", "example/one", "mention"),
        notification("Documentation", "example/two", "review_requested"),
    ];
    list.filter = "MENTION".into();
    list.refilter();
    assert_eq!(list.filtered_indices, vec![0]);
    list.filter = "nothing".into();
    list.refilter();
    assert!(list.filtered_indices.is_empty());
    assert!(list.selected().is_none());
}

#[test]
fn marking_read_removes_the_selected_notification() {
    let mut list = NotifList::new();
    list.poll(Ok(vec![
        notification("First", "example/one", "mention"),
        notification("Second", "example/two", "mention"),
    ]));
    list.move_down();
    let id = list.mark_selected_read();
    assert_eq!(id, Some("example/two-Second".to_string()));
    assert_eq!(list.notifs.len(), 1);
    assert_eq!(list.state, Some(0));
    assert_eq!(list.selected().unwrap().subject.title, "First");
}

#[test]
fn source_picker_starts_on_the_current_source() {
    let mut repos = RepoList::new();
    repos.orgs = vec!["Synthetic Alpha".into()];
    repos.set_source_by_index(2);
    let mut picker = SourcePicker::new();
    picker.open(&repos);
    assert!(picker.visible);
    assert_eq!(picker.filtered_indices, vec![0, 1, 2]);
    assert_eq!(picker.selected_source_index(), Some(2));
    assert_eq!(
        repos.source_labels(),
        vec!["My Repos".to_string(), "Starred".to_string(), "Synthetic Alpha".to_string()]
    );
}

#[test]
fn source_picker_start_filtering_only_starts_typing() {
    let mut repos = RepoList::new();
    repos.orgs = vec!["Synthetic Alpha".into()];
    let mut picker = SourcePicker::new();
    picker.open(&repos);
    let before = picker.filtered_indices.clone();
    picker.start_filtering();
    assert!(picker.filtering);
    assert_eq!(picker.filter, "");
    assert_eq!(picker.filtered_indices, before);
}

#[test]
fn lower_case_folds_ascii_and_unicode() {
    assert_eq!(ghx::text::lower("My Repos-1"), "my repos-1");
    assert_eq!(ghx::text::lower(""), "");
    assert_eq!(ghx::text::lower("ÄBC"), "äbc");
}

#[test]
fn typing_narrows_the_listed_sources() {
    let mut repos = RepoList::new();
    repos.orgs = vec!["Synthetic Alpha".into(), "Synthetic Beta".into(), "Other".into()];
    let mut picker = SourcePicker::new();
    picker.open(&repos);
    assert_eq!(picker.filtered_indices, vec![0, 1, 2, 3, 4]);
    let mut before = picker.filtered_indices.clone();
    for c in "SYNTH".chars() {
        picker.on_filter_key(c, &repos);
        assert!(picker.filtered_indices.iter().all(|i| before.contains(i)));
        before = picker.filtered_indices.clone();
    }
    assert_eq!(picker.filtered_indices, vec![2, 3]);
}

#[test]
fn an_empty_filter_keeps_every_notification() {
    let mut list = NotifList::new();
    list.notifs = vec![
        notification("One", "example/a", "mention"),
        notification("Two", "example/b", "review_requested"),
    ];
    list.refilter();
    assert_eq!(list.filtered_indices, vec![0, 1]);
}

#[test]
fn refreshed_picker_lists_sources_that_arrived() {
    let mut repos = RepoList::new();
    let mut picker = SourcePicker::new();
    picker.open(&repos);
    assert_eq!(picker.filtered_indices, vec![0, 1]);
    repos.orgs = vec!["Synthetic Alpha".into()];
    let (header, body, keys) = picker.refreshed(&repos);
    assert_eq!(picker.filtered_indices, vec![0, 1, 2]);
    assert_eq!(header[0].text, " Select My Repos, Starred, or an organization");
    match body {
        ghx::ui::display::Body::Rows(rows) => assert_eq!(rows.len(), 3),
        ghx::ui::display::Body::Message(_) => panic!("expected rows"),
    }
    assert_eq!(keys[0].text, " Enter");
}

#[test]
fn a_working_login_is_shown_as_logged_in() {
    assert_eq!(ghx::gh::account_state_label("success"), "Logged in");
    assert_eq!(ghx::gh::account_state_label("Timed out"), "Timed out");
}
