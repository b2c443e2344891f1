//! The screen of one issue or pull request: its conversation, read in full or
//! as the body alone, and for a pull request its diff.
use crate::gh::{self, Author, Comment, IssueDetail, ItemKind, Label};
use crate::text::{
    char_views, chars_of, decimal, decimal_chars, lines, push_chars, push_str, split_lines,
    starts_with, starts_with_chars, string_of, trim, trimmed, views,
};
use crate::ui::display::{
    error_line, error_text, pieces, push_line, push_piece, spinner_line, spinner_text, text_lines,
    Body, Piece, Tone,
};
use vstd::prelude::*;

verus! {

/// The tabs of an item.
#[derive(Debug, Clone, Copy, PartialEq, Eq, Structural)]
pub enum ItemTab {
    Conversation,
    Diff,
}

/// What a fetch for the item screen brought back.
pub enum LoadMsg {
    Detail(Result<IssueDetail, String>),
    Diff(Result<String, String>),
}

/// The state of the screen of one issue or pull request.
pub struct ItemDetailView {
    pub repo_name: String,
    pub number: u32,
    pub kind: ItemKind,
    pub tab: ItemTab,
    pub body_only: bool,
    pub loading: bool,
    pub error: Option<String>,
    pub detail: Option<IssueDetail>,
    pub diff_loading: bool,
    pub diff_error: Option<String>,
    pub diff: Option<String>,
    pub scroll: u16,
    pub lines_count: usize,
    /// The height of the area the screen was last drawn in.
    pub visible_height: u16,
}

/// The other tab of an item.
pub open spec fn other_tab(t: ItemTab) -> ItemTab {
    match t {
        ItemTab::Conversation => ItemTab::Diff,
        ItemTab::Diff => ItemTab::Conversation,
    }
}

/// The furthest the text can scroll: the number of lines (as a `u16`) less the
/// visible height, or zero.
pub open spec fn max_scroll(lines_count: usize, visible_height: u16) -> u16 {
    let lines = lines_count as u16;
    if lines >= visible_height {
        (lines - visible_height) as u16
    } else {
        0
    }
}

/// A sum capped at the largest `u16`.
pub open spec fn saturating_add_u16(a: u16, b: u16) -> u16 {
    if a + b > u16::MAX {
        u16::MAX
    } else {
        (a + b) as u16
    }
}

/// A difference with zero as its floor.
pub open spec fn saturating_sub_u16(a: u16, b: u16) -> u16 {
    if a >= b {
        (a - b) as u16
    } else {
        0
    }
}

/// How an item kind is named.
pub open spec fn item_kind_label(k: ItemKind) -> Seq<char> {
    match k {
        ItemKind::Issue => "Issue"@,
        ItemKind::PullRequest => "Pull Request"@,
    }
}

/// How the conversation tab is named: `Reader` when it shows the body alone.
pub open spec fn conversation_title(d: ItemDetailView) -> Seq<char> {
    if d.body_only {
        "Reader"@
    } else {
        "Conversation"@
    }
}

impl ItemDetailView {
    /// A screen for item `number` of `repo_name`, loading its conversation,
    /// on the conversation tab; the caller fetches with `load_detail`.
    pub fn new(repo_name: String, number: u32, kind: ItemKind) -> (v: Self)
        ensures
            v.repo_name == repo_name,
            v.number == number,
            v.kind == kind,
            v.tab == ItemTab::Conversation,
            !v.body_only,
            v.loading,
            v.error is None,
            v.detail is None,
            !v.diff_loading,
            v.diff_error is None,
            v.diff is None,
            v.scroll == 0,
            v.lines_count == 0,
            v.visible_height == 0,
    {
        ItemDetailView {
            repo_name,
            number,
            kind,
            tab: ItemTab::Conversation,
            body_only: false,
            loading: true,
            error: None,
            detail: None,
            diff_loading: false,
            diff_error: None,
            diff: None,
            scroll: 0,
            lines_count: 0,
            visible_height: 0,
        }
    }

    /// The `gh` arguments that fetch the item with its comments.
    pub fn load_detail(&self) -> (args: Vec<String>)
        ensures
            views(args@) == match self.kind {
                ItemKind::Issue => seq![
                    "issue"@,
                    "view"@,
                    decimal(self.number as nat),
                    "-R"@,
                    self.repo_name@,
                    "--json"@,
                    gh::item_view_fields(),
                ],
                ItemKind::PullRequest => seq![
                    "pr"@,
                    "view"@,
                    decimal(self.number as nat),
                    "-R"@,
                    self.repo_name@,
                    "--json"@,
                    gh::item_view_fields(),
                ],
            },
    {
        match self.kind {
            ItemKind::Issue => gh::view_issue(self.repo_name.as_str(), self.number),
            ItemKind::PullRequest => gh::view_pr(self.repo_name.as_str(), self.number),
        }
    }

    /// How the item kind is named.
    pub fn kind_label(&self) -> (l: &'static str)
        ensures
            l@ == match self.kind {
                ItemKind::Issue => "Issue"@,
                ItemKind::PullRequest => "Pull Request"@,
            },
    {
        match self.kind {
            ItemKind::Issue => "Issue",
            ItemKind::PullRequest => "Pull Request",
        }
    }

    /// How the conversation tab is named: `Reader` when it shows the body alone.
    pub fn conversation_label(&self) -> (l: &'static str)
        ensures
            l@ == if self.body_only {
                "Reader"@
            } else {
                "Conversation"@
            },
    {
        if self.body_only {
            "Reader"
        } else {
            "Conversation"
        }
    }

    /// Whether the item has a diff: pull requests do.
    pub fn has_diff(&self) -> (r: bool)
        ensures
            r == (self.kind == ItemKind::PullRequest),
    {
        self.kind == ItemKind::PullRequest
    }

    /// Starts fetching the diff when the item has one that is neither here,
    /// nor being fetched, nor failed; then the answer holds the `gh`
    /// arguments for it.
    pub fn ensure_diff_loaded(&mut self) -> (fetch: Option<Vec<String>>)
        ensures
            ({
                let wanted = old(self).kind == ItemKind::PullRequest && old(self).diff is None
                    && !old(self).diff_loading && old(self).diff_error is None;
                &&& wanted ==> (fetch matches Some(args) && views(args@) == seq![
                    "pr"@,
                    "diff"@,
                    decimal(old(self).number as nat),
                    "-R"@,
                    old(self).repo_name@,
                ])
                &&& wanted ==> *final(self) == (ItemDetailView { diff_loading: true, ..*old(self) })
                &&& !wanted ==> fetch is None && *final(self) == *old(self)
            }),
    {
        if !self.has_diff() || self.diff.is_some() || self.diff_loading || self.diff_error.is_some() {
            return None;
        }
        self.diff_loading = true;
        Some(gh::pr_diff(self.repo_name.as_str(), self.number))
    }

    /// Switches between conversation and diff, for an item that has a diff:
    /// back to the full conversation, scrolled to the top; entering the diff
    /// may start its fetch (see `ensure_diff_loaded`).
    pub fn next_tab(&mut self) -> (fetch: Option<Vec<String>>)
        ensures
            old(self).kind != ItemKind::PullRequest ==> *final(self) == *old(self) && fetch is None,
            old(self).kind == ItemKind::PullRequest ==> {
                &&& final(self).tab == other_tab(old(self).tab)
                &&& !final(self).body_only
                &&& final(self).scroll == 0
                &&& final(self).repo_name == old(self).repo_name
                &&& final(self).number == old(self).number
                &&& final(self).kind == old(self).kind
                &&& final(self).detail == old(self).detail
                &&& final(self).diff == old(self).diff
                &&& final(self).diff_error == old(self).diff_error
                &&& final(self).loading == old(self).loading
                &&& final(self).error == old(self).error
                &&& final(self).lines_count == old(self).lines_count
                &&& final(self).visible_height == old(self).visible_height
                &&& (if final(self).tab == ItemTab::Diff && old(self).diff is None
                    && !old(self).diff_loading && old(self).diff_error is None {
                    &&& final(self).diff_loading
                    &&& (fetch matches Some(args) && views(args@) == seq![
                        "pr"@,
                        "diff"@,
                        decimal(old(self).number as nat),
                        "-R"@,
                        old(self).repo_name@,
                    ])
                } else {
                    final(self).diff_loading == old(self).diff_loading && fetch is None
                })
            },
    {
        if !self.has_diff() {
            return None;
        }
        self.tab = match self.tab {
            ItemTab::Conversation => ItemTab::Diff,
            ItemTab::Diff => ItemTab::Conversation,
        };
        self.body_only = false;
        self.scroll = 0;
        if self.tab == ItemTab::Diff {
            self.ensure_diff_loaded()
        } else {
            None
        }
    }

    /// The same as `next_tab`: there are two tabs.
    pub fn prev_tab(&mut self) -> (fetch: Option<Vec<String>>)
        ensures
            old(self).kind != ItemKind::PullRequest ==> *final(self) == *old(self) && fetch is None,
            old(self).kind == ItemKind::PullRequest ==> {
                &&& final(self).tab == other_tab(old(self).tab)
                &&& !final(self).body_only
                &&& final(self).scroll == 0
                &&& final(self).repo_name == old(self).repo_name
                &&& final(self).number == old(self).number
                &&& final(self).kind == old(self).kind
                &&& final(self).detail == old(self).detail
                &&& final(self).diff == old(self).diff
                &&& final(self).diff_error == old(self).diff_error
                &&& final(self).loading == old(self).loading
                &&& final(self).error == old(self).error
                &&& final(self).lines_count == old(self).lines_count
                &&& final(self).visible_height == old(self).visible_height
                &&& (if final(self).tab == ItemTab::Diff && old(self).diff is None
                    && !old(self).diff_loading && old(self).diff_error is None {
                    &&& final(self).diff_loading
                    &&& (fetch matches Some(args) && views(args@) == seq![
                        "pr"@,
                        "diff"@,
                        decimal(old(self).number as nat),
                        "-R"@,
                        old(self).repo_name@,
                    ])
                } else {
                    final(self).diff_loading == old(self).diff_loading && fetch is None
                })
            },
    {
        self.next_tab()
    }

    /// Switches between the full conversation and the body alone, from the top,
    /// when the conversation tab shows a loaded item.
    pub fn toggle_reader(&mut self)
        ensures
            old(self).tab == ItemTab::Conversation && old(self).detail is Some ==> *final(self) == (
            ItemDetailView { body_only: !old(self).body_only, scroll: 0, ..*old(self) }),
            !(old(self).tab == ItemTab::Conversation && old(self).detail is Some) ==> *final(self)
                == *old(self),
    {
        if self.tab == ItemTab::Conversation && self.detail.is_some() {
            self.body_only = !self.body_only;
            self.scroll = 0;
        }
    }

    /// Scrolls down by `amount` lines, no further than `max_scroll`.
    pub fn scroll_down(&mut self, amount: u16)
        ensures
            *final(self) == (ItemDetailView {
                scroll: ({
                    let s = saturating_add_u16(old(self).scroll, amount);
                    let m = max_scroll(old(self).lines_count, old(self).visible_height);
                    if s <= m {
                        s
                    } else {
                        m
                    }
                }),
                ..*old(self)
            }),
    {
        #[verifier::truncate]
        let lines = self.lines_count as u16;
        let max = lines.saturating_sub(self.visible_height);
        let s = self.scroll.saturating_add(amount);
        self.scroll = if s <= max {
            s
        } else {
            max
        };
    }

    /// Scrolls up by `amount` lines, no further than the top.
    pub fn scroll_up(&mut self, amount: u16)
        ensures
            *final(self) == (ItemDetailView {
                scroll: saturating_sub_u16(old(self).scroll, amount),
                ..*old(self)
            }),
    {
        self.scroll = self.scroll.saturating_sub(amount);
    }

    /// Scrolls to the top.
    pub fn scroll_to_top(&mut self)
        ensures
            *final(self) == (ItemDetailView { scroll: 0, ..*old(self) }),
    {
        self.scroll = 0;
    }

    /// Scrolls to the bottom: to `max_scroll`.
    pub fn scroll_to_bottom(&mut self)
        ensures
            *final(self) == (ItemDetailView {
                scroll: max_scroll(old(self).lines_count, old(self).visible_height),
                ..*old(self)
            }),
    {
        #[verifier::truncate]
        let lines = self.lines_count as u16;
        self.scroll = lines.saturating_sub(self.visible_height);
    }

    /// What the conversation tab shows before its text: the spinner while
    /// loading, or the error; none once the item is here (its Markdown is
    /// `build_conversation_markdown`).
    pub fn conversation_status(&self, tick: usize) -> (l: Option<Vec<Piece>>)
        ensures
            if self.loading {
                l matches Some(x) && pieces(x@) == spinner_text(tick, "Loading conversation..."@)
            } else if self.error is Some {
                l matches Some(x) && pieces(x@) == error_text(self.error->0@)
            } else {
                l is None
            },
    {
        if self.loading {
            Some(spinner_line(tick, "Loading conversation..."))
        } else if let Some(e) = &self.error {
            Some(error_line(e.as_str()))
        } else {
            None
        }
    }

    /// What the diff tab shows: the spinner while loading, the error, else
    /// the lines of the diff (none before it came; `ensure_diff_loaded` then
    /// says what to fetch).
    pub fn diff_body(&self, tick: usize) -> (b: Body)
        ensures
            if self.diff_loading {
                b matches Body::Message(l) && pieces(l@) == spinner_text(
                    tick,
                    "Loading pull request diff..."@,
                )
            } else if self.diff_error is Some {
                b matches Body::Message(l) && pieces(l@) == error_text(self.diff_error->0@)
            } else {
                match self.diff {
                    Some(d) => b matches Body::Rows(rs) && text_lines(rs@) == diff_text(d@),
                    None => b matches Body::Rows(rs) && rs@.len() == 0,
                }
            },
    {
        if self.diff_loading {
            return Body::Message(spinner_line(tick, "Loading pull request diff..."));
        }
        if let Some(e) = &self.diff_error {
            return Body::Message(error_line(e.as_str()));
        }
        match &self.diff {
            Some(d) => Body::Rows(diff_lines(d.as_str())),
            None => Body::Rows(Vec::new()),
        }
    }

    /// Takes in the fetches that came back, in order: a conversation ends the
    /// loading and becomes the detail or the error; a diff ends the diff's
    /// loading and becomes the diff or its error.
    pub fn poll(&mut self, messages: Vec<LoadMsg>)
        ensures
            *final(self) == apply_messages(*old(self), messages@),
    {
        let ghost start = *self;
        let ghost ms = messages@;
        for m in it: messages
            invariant
                it.seq() == ms,
                *self == apply_messages(start, it.seq().take(it.index() as int)),
        {
            proof {
                assert(it.seq().take(it.index() + 1).drop_last() =~= it.seq().take(it.index() as int));
            }
            let ghost before = *self;
            let ghost gm = m;
            match m {
                LoadMsg::Detail(result) => {
                    self.loading = false;
                    match result {
                        Ok(detail) => self.detail = Some(detail),
                        Err(error) => self.error = Some(error),
                    }
                },
                LoadMsg::Diff(result) => {
                    self.diff_loading = false;
                    match result {
                        Ok(diff) => self.diff = Some(diff),
                        Err(error) => self.diff_error = Some(error),
                    }
                },
            }
            assert(*self == apply_message(before, gm));
        }
        assert(ms.take(ms.len() as int) =~= ms);
    }
}

/// What one fetch result changes.
pub open spec fn apply_message(v: ItemDetailView, m: LoadMsg) -> ItemDetailView {
    match m {
        LoadMsg::Detail(Ok(d)) => ItemDetailView { loading: false, detail: Some(d), ..v },
        LoadMsg::Detail(Err(e)) => ItemDetailView { loading: false, error: Some(e), ..v },
        LoadMsg::Diff(Ok(d)) => ItemDetailView { diff_loading: false, diff: Some(d), ..v },
        LoadMsg::Diff(Err(e)) => ItemDetailView { diff_loading: false, diff_error: Some(e), ..v },
    }
}

/// What fetch results change, taken in order.
pub open spec fn apply_messages(v: ItemDetailView, ms: Seq<LoadMsg>) -> ItemDetailView
    decreases ms.len(),
{
    if ms.len() == 0 {
        v
    } else {
        apply_message(apply_messages(v, ms.drop_last()), ms.last())
    }
}

// ---------------------------------------------------------------------------
// The conversation as Markdown
// ---------------------------------------------------------------------------

/// The tone of a line of a diff: file headers, added lines, removed lines,
/// hunk headers and the lines that start a file's diff each have their own.
pub open spec fn diff_tone(l: Seq<char>) -> Tone {
    if starts_with(l, "+++"@) || starts_with(l, "---"@) {
        Tone::Yellow
    } else if starts_with(l, "+"@) {
        Tone::Green
    } else if starts_with(l, "-"@) {
        Tone::Red
    } else if starts_with(l, "@@"@) {
        Tone::Key
    } else if starts_with(l, "diff --git"@) {
        Tone::PurpleBold
    } else {
        Tone::Normal
    }
}

/// The lines of a diff, each in its tone.
pub open spec fn diff_text(diff: Seq<char>) -> Seq<Seq<(Seq<char>, Tone)>> {
    lines(diff).map_values(|l: Seq<char>| seq![(l, diff_tone(l))])
}

fn tone_of_diff_line(l: &Vec<char>) -> (t: Tone)
    ensures
        t == diff_tone(l@),
{
    if starts_with_chars(l, "+++") || starts_with_chars(l, "---") {
        Tone::Yellow
    } else if starts_with_chars(l, "+") {
        Tone::Green
    } else if starts_with_chars(l, "-") {
        Tone::Red
    } else if starts_with_chars(l, "@@") {
        Tone::Key
    } else if starts_with_chars(l, "diff --git") {
        Tone::PurpleBold
    } else {
        Tone::Normal
    }
}

/// The lines of a diff, each in its tone.
pub fn diff_lines(diff: &str) -> (out: Vec<Vec<Piece>>)
    ensures
        text_lines(out@) == diff_text(diff@),
{
    let ls = split_lines(&chars_of(diff));
    let ghost all = char_views(ls@);
    let mut out: Vec<Vec<Piece>> = Vec::new();
    let n = ls.len();
    let mut k: usize = 0;
    while k < n
        invariant
            n == ls.len(),
            k <= n,
            all == char_views(ls@),
            all == lines(diff@),
            text_lines(out@) == all.take(k as int).map_values(
                |l: Seq<char>| seq![(l, diff_tone(l))],
            ),
        decreases n - k,
    {
        let tone = tone_of_diff_line(&ls[k]);
        let mut line: Vec<Piece> = Vec::new();
        push_piece(&mut line, string_of(&ls[k]), tone);
        assert(all[k as int] == ls@[k as int]@);
        assert(pieces(line@) =~= seq![(all[k as int], diff_tone(all[k as int]))]);
        push_line(&mut out, line);
        assert(all.take(k as int + 1).map_values(|l: Seq<char>| seq![(l, diff_tone(l))])
            =~= all.take(k as int).map_values(|l: Seq<char>| seq![(l, diff_tone(l))]).push(
            seq![(all[k as int], diff_tone(all[k as int]))],
        ));
        k += 1;
    }
    assert(all.take(n as int) =~= all);
    out
}

/// How an author is shown: `@login`, or `unknown author`.
pub open spec fn author_text(a: Option<Author>) -> Seq<char> {
    match a {
        Some(a) => "@"@ + a.login@,
        None => "unknown author"@,
    }
}

/// The labels as code spans separated by spaces.
pub open spec fn labels_text(ls: Seq<Label>) -> Seq<char>
    decreases ls.len(),
{
    if ls.len() == 0 {
        Seq::empty()
    } else if ls.len() == 1 {
        "`"@ + ls[0].name@ + "`"@
    } else {
        labels_text(ls.drop_last()) + " "@ + "`"@ + ls.last().name@ + "`"@
    }
}

/// The comments, each under a third-level heading with its author.
pub open spec fn comments_text(cs: Seq<Comment>) -> Seq<char>
    decreases cs.len(),
{
    if cs.len() == 0 {
        Seq::empty()
    } else {
        comments_text(cs.drop_last()) + "\n### "@ + author_text(cs.last().author) + "\n\n"@
            + cs.last().body@ + "\n"@
    }
}

/// The body, or a note that there is none when it is missing or blank.
pub open spec fn body_text(body: Option<String>) -> Seq<char> {
    match body {
        Some(b) => if trim(b@).len() > 0 {
            b@
        } else {
            "_No description provided._"@
        },
        None => "_No description provided._"@,
    }
}

/// The conversation of an item as Markdown: the title as a heading; unless
/// `body_only`, the state, the author and the labels; the body; unless
/// `body_only`, the comments under a heading that counts them.
pub open spec fn conversation_markdown(d: IssueDetail, body_only: bool) -> Seq<char> {
    let head = "# "@ + d.title@ + "\n\n"@;
    let meta = if body_only {
        Seq::empty()
    } else {
        "**"@ + d.state@ + "** \u{b7} "@ + author_text(d.author) + (if d.labels.len() > 0 {
            " \u{b7} "@ + labels_text(d.labels@)
        } else {
            Seq::empty()
        }) + "\n\n"@
    };
    let tail = if body_only {
        Seq::empty()
    } else {
        "\n\n---\n\n## Comments ("@ + decimal(d.comments.len() as nat) + ")\n"@ + (
        if d.comments.len() == 0 {
            "\n_No comments yet._\n"@
        } else {
            comments_text(d.comments@)
        })
    };
    head + meta + body_text(d.body) + tail
}

fn push_author(v: &mut Vec<char>, a: &Option<Author>)
    ensures
        final(v)@ == old(v)@ + author_text(*a),
{
    match a {
        Some(a) => {
            push_str(v, "@");
            push_str(v, a.login.as_str());
        },
        None => push_str(v, "unknown author"),
    }
}

/// The conversation of an item as Markdown.
pub fn build_conversation_markdown(detail: &IssueDetail, body_only: bool) -> (md: String)
    ensures
        md@ == conversation_markdown(*detail, body_only),
{
    let mut v: Vec<char> = Vec::new();
    push_str(&mut v, "# ");
    push_str(&mut v, detail.title.as_str());
    push_str(&mut v, "\n\n");
    let ghost after_head = v@;
    if !body_only {
        push_str(&mut v, "**");
        push_str(&mut v, detail.state.as_str());
        push_str(&mut v, "** \u{b7} ");
        push_author(&mut v, &detail.author);
        if detail.labels.len() > 0 {
            push_str(&mut v, " \u{b7} ");
            let n = detail.labels.len();
            let ghost before = v@;
            let mut i: usize = 0;
            while i < n
                invariant
                    n == detail.labels.len(),
                    n > 0,
                    i <= n,
                    v@ == before + labels_text(detail.labels@.take(i as int)),
                decreases n - i,
            {
                assert(detail.labels@.take(i as int + 1).drop_last() =~= detail.labels@.take(
                    i as int,
                ));
                if i > 0 {
                    push_str(&mut v, " ");
                } else {
                    assert(detail.labels@.take(0) =~= Seq::<Label>::empty());
                }
                push_str(&mut v, "`");
                push_str(&mut v, detail.labels[i].name.as_str());
                push_str(&mut v, "`");
                i += 1;
            }
            assert(detail.labels@.take(n as int) =~= detail.labels@);
        }
        push_str(&mut v, "\n\n");
    }
    let ghost after_meta = v@;
    let has_body = match &detail.body {
        Some(b) => {
            let bc = chars_of(b.as_str());
            trimmed(&bc).len() > 0
        },
        None => false,
    };
    if has_body {
        match &detail.body {
            Some(b) => push_str(&mut v, b.as_str()),
            None => {},
        }
    } else {
        push_str(&mut v, "_No description provided._");
    }
    let ghost after_body = v@;
    if !body_only {
        push_str(&mut v, "\n\n---\n\n## Comments (");
        let count = decimal_chars(detail.comments.len() as u64);
        push_chars(&mut v, &count);
        push_str(&mut v, ")\n");
        if detail.comments.len() == 0 {
            push_str(&mut v, "\n_No comments yet._\n");
        } else {
            let n = detail.comments.len();
            let ghost before = v@;
            let mut i: usize = 0;
            assert(detail.comments@.take(0) =~= Seq::<Comment>::empty());
            while i < n
                invariant
                    n == detail.comments.len(),
                    i <= n,
                    v@ == before + comments_text(detail.comments@.take(i as int)),
                decreases n - i,
            {
                assert(detail.comments@.take(i as int + 1).drop_last() =~= detail.comments@.take(
                    i as int,
                ));
                push_str(&mut v, "\n### ");
                push_author(&mut v, &detail.comments[i].author);
                push_str(&mut v, "\n\n");
                push_str(&mut v, detail.comments[i].body.as_str());
                push_str(&mut v, "\n");
                i += 1;
            }
            assert(detail.comments@.take(n as int) =~= detail.comments@);
        }
    }
    let ghost d = *detail;
    assert(v@ =~= conversation_markdown(d, body_only));
    string_of(&v)
}

} // verus!
