use ghx::gh::{Author, Comment, IssueDetail, ItemKind, Label};
use ghx::ui::display::Tone;
use ghx::ui::item_detail::{build_conversation_markdown, ItemDetailView, ItemTab, LoadMsg};

fn synthetic_detail() -> IssueDetail {
    IssueDetail {
        number: 12,
        title: "Synthetic issue".into(),
        state: "OPEN".into(),
        body: Some("A synthetic body.".into()),
        author: Some(Author { login: "example-user".into() }),
        labels: vec![Label { name: "test-only".into() }],
        comments: vec![Comment {
            author: Some(Author { login: "second-user".into() }),
            body: "A synthetic comment.".into(),
        }],
    }
}

#[test]
fn conversation_includes_metadata_and_comments() {
    let markdown = build_conversation_markdown(&synthetic_detail(), false);

    assert!(markdown.contains("**OPEN** · @example-user · `test-only`"));
    assert!(markdown.contains("## Comments (1)"));
    assert!(markdown.contains("### @second-user"));
}

#[test]
fn reader_mode_contains_only_title_and_body() {
    let markdown = build_conversation_markdown(&synthetic_detail(), true);

    assert!(markdown.contains("# Synthetic issue"));
    assert!(markdown.contains("A synthetic body."));
    assert!(!markdown.contains("Comments"));
    assert!(!markdown.contains("@example-user"));
}

#[test]
fn conversation_markdown_is_exact() {
    let markdown = build_conversation_markdown(&synthetic_detail(), false);
    assert_eq!(
        markdown,
        "# Synthetic issue\n\n**OPEN** · @example-user · `test-only`\n\nA synthetic body.\n\n---\n\n## Comments (1)\n\n### @second-user\n\nA synthetic comment.\n"
    );
    let reader = build_conversation_markdown(&synthetic_detail(), true);
    assert_eq!(reader, "# Synthetic issue\n\nA synthetic body.");
}

#[test]
fn blank_bodies_and_missing_authors_have_placeholders() {
    let detail = IssueDetail {
        number: 1,
        title: "Empty".into(),
        state: "CLOSED".into(),
        body: Some("   ".into()),
        author: None,
        labels: vec![Label { name: "a".into() }, Label { name: "b".into() }],
        comments: vec![],
    };
    assert_eq!(
        build_conversation_markdown(&detail, false),
        "# Empty\n\n**CLOSED** · unknown author · `a` `b`\n\n_No description provided._\n\n---\n\n## Comments (0)\n\n_No comments yet._\n"
    );
}

#[test]
fn pull_request_tabs_alternate_and_load_the_diff_once() {
    let mut view = ItemDetailView::new("example/repo".into(), 7, ItemKind::PullRequest);
    assert_eq!(view.kind_label(), "Pull Request");
    assert!(view.has_diff());
    let fetch = view.next_tab().unwrap();
    assert_eq!(fetch, vec!["pr", "diff", "7", "-R", "example/repo"]);
    assert_eq!(view.tab, ItemTab::Diff);
    assert!(view.diff_loading);
    assert!(view.prev_tab().is_none());
    assert_eq!(view.tab, ItemTab::Conversation);
    assert!(view.next_tab().is_none());
    assert_eq!(view.tab, ItemTab::Diff);
}

#[test]
fn issues_have_a_single_tab() {
    let mut view = ItemDetailView::new("example/repo".into(), 3, ItemKind::Issue);
    assert_eq!(view.kind_label(), "Issue");
    assert!(!view.has_diff());
    assert!(view.next_tab().is_none());
    assert_eq!(view.tab, ItemTab::Conversation);
    assert_eq!(view.load_detail(), vec!["issue", "view", "3", "-R", "example/repo", "--json", "number,title,state,body,author,labels,comments"]);
}

#[test]
fn reader_toggles_back_to_the_full_conversation() {
    let mut view = ItemDetailView::new("example/repo".into(), 12, ItemKind::Issue);
    view.poll(vec![LoadMsg::Detail(Ok(synthetic_detail()))]);
    assert!(!view.loading);
    view.scroll = 4;
    view.toggle_reader();
    assert!(view.body_only);
    assert_eq!(view.scroll, 0);
    view.toggle_reader();
    assert!(!view.body_only);
}

#[test]
fn scrolling_stops_at_the_last_screen() {
    let mut view = ItemDetailView::new("example/repo".into(), 12, ItemKind::Issue);
    view.lines_count = 30;
    view.visible_height = 10;
    view.scroll_down(50);
    assert_eq!(view.scroll, 20);
    view.scroll_up(5);
    assert_eq!(view.scroll, 15);
    view.scroll_to_top();
    assert_eq!(view.scroll, 0);
    view.scroll_to_bottom();
    assert_eq!(view.scroll, 20);
}

#[test]
fn conversation_tab_is_named_reader_in_reader_mode() {
    let mut view = ItemDetailView::new("example/one".into(), 3, ItemKind::Issue);
    assert_eq!(view.conversation_label(), "Conversation");
    view.toggle_reader();
    assert_eq!(view.conversation_label(), "Conversation");
    view.detail = Some(synthetic_detail());
    view.toggle_reader();
    assert_eq!(view.conversation_label(), "Reader");
}

#[test]
fn conversation_status_shows_loading_then_error_then_nothing() {
    let mut view = ItemDetailView::new("example/one".into(), 3, ItemKind::Issue);
    let loading = view.conversation_status(4).expect("a spinner while loading");
    assert_eq!(loading.len(), 2);
    assert_eq!(loading[0].text, " \u{2839} ");
    assert_eq!(loading[0].tone, Tone::Accent);
    assert_eq!(loading[1].text, "Loading conversation...");
    view.loading = false;
    view.error = Some("boom".into());
    let error = view.conversation_status(0).expect("the error");
    assert_eq!(error.len(), 1);
    assert_eq!(error[0].text, " Error: boom");
    assert_eq!(error[0].tone, Tone::Red);
    view.error = None;
    assert!(view.conversation_status(0).is_none());
}
