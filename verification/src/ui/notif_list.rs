//! The list of notifications, with a filter over title, repository and
//! reason, and marking the selected one as read.
use crate::gh::{self, Notification};
use crate::text::{
    chars_of, contains, lower_contains, lowercase, str_eq, string_of, lower, views,
};
use crate::ui::display::{
    concat, empty_list_line, empty_list_text, error_line, error_text, pieces, push_line, push_piece,
    push_text, spinner_line, spinner_text, text_lines, Body, Piece, Tone,
};
use crate::ui::repo_list::age_ok;
use crate::ui::time::{spec_timeago, timeago};
use crate::ui::list::{
    first_selection, indices_where, moved_down, moved_first, moved_last, moved_up, paged_down,
    paged_up,
};
use vstd::prelude::*;

verus! {

/// The notification list.
pub struct NotifList {
    pub notifs: Vec<Notification>,
    pub state: Option<usize>,
    pub loading: bool,
    pub error: Option<String>,
    pub filter: String,
    pub filtering: bool,
    pub filtered_indices: Vec<usize>,
    pub loaded: bool,
}

/// What the notification list holds.
#[verifier::ext_equal]
pub struct NotifListView {
    pub notifs: Seq<Notification>,
    pub state: Option<usize>,
    pub loading: bool,
    pub error: Option<String>,
    pub filter: Seq<char>,
    pub filtering: bool,
    pub filtered: Seq<usize>,
    pub loaded: bool,
}

impl View for NotifList {
    type V = NotifListView;

    open spec fn view(&self) -> NotifListView {
        NotifListView {
            notifs: self.notifs@,
            state: self.state,
            loading: self.loading,
            error: self.error,
            filter: self.filter@,
            filtering: self.filtering,
            filtered: self.filtered_indices@,
            loaded: self.loaded,
        }
    }
}

/// A notification matches a lower-case query when the lower-case form of its
/// title, its repository's name or its reason contains it.
pub open spec fn notif_matches(n: Notification, query: Seq<char>) -> bool {
    ||| contains(lowercase(n.subject.title@), query)
    ||| contains(lowercase(n.repository.full_name@), query)
    ||| contains(lowercase(n.reason@), query)
}

/// The positions of the notifications that the filter keeps.
pub open spec fn notif_filter(notifs: Seq<Notification>, filter: Seq<char>) -> Seq<usize> {
    indices_where(
        notifs.len(),
        |i: int|
            lowercase(filter).len() == 0 || notif_matches(notifs[i], lowercase(filter)),
    )
}

/// The list after a new filtering: the kept positions, the first selected.
pub open spec fn refiltered(v: NotifListView) -> NotifListView {
    let f = notif_filter(v.notifs, v.filter);
    NotifListView { filtered: f, state: first_selection(f.len()), ..v }
}

/// The position in the notifications of the selected entry, if any.
pub open spec fn selected_position(v: NotifListView) -> Option<int> {
    match v.state {
        Some(i) => if i < v.filtered.len() && v.filtered[i as int] < v.notifs.len() {
            Some(v.filtered[i as int] as int)
        } else {
            None
        },
        None => None,
    }
}

/// The list after the notification at position `k` was marked as read: it is
/// removed and the rest filtered anew, with the selection kept at the same
/// place, or on the last entry when the list got shorter.
pub open spec fn marked_read(v: NotifListView, k: int) -> NotifListView {
    let rest = refiltered(NotifListView { notifs: v.notifs.remove(k), ..v });
    if rest.filtered.len() == 0 {
        rest
    } else {
        NotifListView {
            state: Some(
                ({
                    let i = v.state->0;
                    if i <= rest.filtered.len() - 1 {
                        i
                    } else {
                        (rest.filtered.len() - 1) as usize
                    }
                }),
            ),
            ..rest
        }
    }
}

/// The mark of a notification's kind: an issue, a pull request, a release,
/// or something else.
pub open spec fn kind_mark(kind: Seq<char>) -> (Seq<char>, Tone) {
    if kind == "Issue"@ {
        ("\u{25cf} "@, Tone::Green)
    } else if kind == "PullRequest"@ {
        ("\u{2442} "@, Tone::Purple)
    } else if kind == "Release"@ {
        ("\u{25b2} "@, Tone::Dim)
    } else {
        ("\u{2022} "@, Tone::Dim)
    }
}

/// How a notification is listed: the mark of its kind, its title, its
/// repository, and how long before `now` it changed when it has a timestamp.
pub open spec fn notif_row_text(n: Notification, now: u64) -> Seq<(Seq<char>, Tone)> {
    let a = seq![
        kind_mark(n.subject.kind@),
        (n.subject.title@, Tone::Normal),
        ("  "@ + n.repository.full_name@, Tone::Dim),
    ];
    match n.updated_at {
        Some(ts) => a.push((" \u{b7} "@ + spec_timeago(ts@, now as nat), Tone::Dim)),
        None => a,
    }
}

/// The kept notifications exist, and their ages can be told.
pub open spec fn notif_rows_ok(v: NotifListView) -> bool {
    forall|k: int|
        0 <= k < v.filtered.len() ==> #[trigger] v.filtered[k] < v.notifs.len() && age_ok(
            v.notifs[v.filtered[k] as int].updated_at,
        )
}

fn kind_mark_of(kind: &str) -> (r: (&'static str, Tone))
    ensures
        (r.0@, r.1) == kind_mark(kind@),
{
    if str_eq(kind, "Issue") {
        ("\u{25cf} ", Tone::Green)
    } else if str_eq(kind, "PullRequest") {
        ("\u{2442} ", Tone::Purple)
    } else if str_eq(kind, "Release") {
        ("\u{25b2} ", Tone::Dim)
    } else {
        ("\u{2022} ", Tone::Dim)
    }
}

/// How a notification is listed.
pub fn notif_row(n: &Notification, now: u64) -> (l: Vec<Piece>)
    requires
        age_ok(n.updated_at),
    ensures
        pieces(l@) == notif_row_text(*n, now),
{
    let (mark, tone) = kind_mark_of(n.subject.kind.as_str());
    let mut l: Vec<Piece> = Vec::new();
    push_text(&mut l, mark, tone);
    push_piece(&mut l, n.subject.title.clone(), Tone::Normal);
    push_piece(&mut l, concat("  ", n.repository.full_name.as_str()), Tone::Dim);
    if let Some(ts) = &n.updated_at {
        let ago = timeago(ts.as_str(), now);
        push_piece(&mut l, concat(" \u{b7} ", ago.as_str()), Tone::Dim);
    }
    l
}

/// What a new one holds.
pub open spec fn new_notif_view() -> NotifListView {
    NotifListView {
        notifs: Seq::empty(),
        state: None,
        loading: false,
        error: None,
        filter: Seq::empty(),
        filtering: false,
        filtered: Seq::empty(),
        loaded: false,
    }
}

impl NotifList {
    /// An empty list, not loaded.
    pub fn new() -> (l: Self)
        ensures
            l@ == new_notif_view(),
    {
        NotifList {
            notifs: Vec::new(),
            state: None,
            loading: false,
            error: None,
            filter: String::new(),
            filtering: false,
            filtered_indices: Vec::new(),
            loaded: false,
        }
    }

    /// Starts loading: the answer is the `gh` arguments of the fetch.
    pub fn load(&mut self) -> (args: Vec<String>)
        ensures
            views(args@) == seq!["api"@, "notifications"@, "--cache"@, "30s"@],
            final(self)@ == (NotifListView { loading: true, error: None, ..old(self)@ }),
    {
        self.loading = true;
        self.error = None;
        gh::list_notifications()
    }

    /// Loads the first time the list is shown.
    pub fn ensure_loaded(&mut self) -> (fetch: Option<Vec<String>>)
        ensures
            !old(self).loaded && !old(self).loading ==> (fetch matches Some(args) && views(args@)
                == seq!["api"@, "notifications"@, "--cache"@, "30s"@]) && final(self)@ == (
            NotifListView { loaded: true, loading: true, error: None, ..old(self)@ }),
            !(!old(self).loaded && !old(self).loading) ==> fetch is None && final(self)@ == old(
                self,
            )@,
    {
        if !self.loaded && !self.loading {
            self.loaded = true;
            Some(self.load())
        } else {
            None
        }
    }

    /// Takes in the answer of the fetch: the notifications, filtered anew, or
    /// the error. Either way the loading ends.
    pub fn poll(&mut self, result: Result<Vec<Notification>, String>)
        ensures
            match result {
                Ok(n) => final(self)@ == refiltered(
                    NotifListView { loading: false, notifs: n@, ..old(self)@ },
                ),
                Err(e) => final(self)@ == (NotifListView {
                    loading: false,
                    error: Some(e),
                    ..old(self)@
                }),
            },
    {
        self.loading = false;
        match result {
            Ok(notifs) => {
                self.notifs = notifs;
                self.refilter();
            },
            Err(e) => self.error = Some(e),
        }
    }

    /// Selects the next kept notification, if there is one.
    pub fn move_down(&mut self)
        requires
            old(self).state matches Some(i) ==> i < usize::MAX,
        ensures
            final(self)@ == (NotifListView {
                state: moved_down(old(self).state, old(self).filtered_indices@.len()),
                ..old(self)@
            }),
    {
        self.state = crate::ui::list::move_down(self.state, self.filtered_indices.len());
    }

    /// Selects the previous notification, if there is one.
    pub fn move_up(&mut self)
        ensures
            final(self)@ == (NotifListView { state: moved_up(old(self).state), ..old(self)@ }),
    {
        self.state = crate::ui::list::move_up(self.state);
    }

    /// Selects the first kept notification.
    pub fn move_to_first(&mut self)
        ensures
            final(self)@ == (NotifListView {
                state: moved_first(old(self).state, old(self).filtered_indices@.len()),
                ..old(self)@
            }),
    {
        self.state = crate::ui::list::move_to_first(self.state, self.filtered_indices.len());
    }

    /// Selects the last kept notification.
    pub fn move_to_last(&mut self)
        ensures
            final(self)@ == (NotifListView {
                state: moved_last(old(self).state, old(self).filtered_indices@.len()),
                ..old(self)@
            }),
    {
        self.state = crate::ui::list::move_to_last(self.state, self.filtered_indices.len());
    }

    /// Moves the selection `page_size` entries down, at most to the last.
    pub fn page_down(&mut self, page_size: usize)
        requires
            old(self).state matches Some(i) ==> i + page_size <= usize::MAX,
        ensures
            final(self)@ == (NotifListView {
                state: paged_down(
                    old(self).state,
                    old(self).filtered_indices@.len(),
                    page_size as nat,
                ),
                ..old(self)@
            }),
    {
        self.state = crate::ui::list::page_down(
            self.state,
            self.filtered_indices.len(),
            page_size,
        );
    }

    /// Moves the selection `page_size` entries up, at most to the first.
    pub fn page_up(&mut self, page_size: usize)
        ensures
            final(self)@ == (NotifListView {
                state: paged_up(old(self).state, page_size as nat),
                ..old(self)@
            }),
    {
        self.state = crate::ui::list::page_up(self.state, page_size);
    }

    /// What the notifications area shows: the spinner while loading, the
    /// error, that none are kept, else the rows of the kept notifications
    /// (ages counted up to `now`).
    pub fn body(&self, tick: usize, now: u64) -> (b: Body)
        requires
            !self.loading && self.error is None ==> notif_rows_ok(self@),
        ensures
            if self.loading {
                b matches Body::Message(l) && pieces(l@) == spinner_text(
                    tick,
                    "Loading notifications..."@,
                )
            } else if self.error is Some {
                b matches Body::Message(l) && pieces(l@) == error_text(self.error->0@)
            } else if self.filtered_indices@.len() == 0 {
                b matches Body::Message(l) && pieces(l@) == empty_list_text(
                    " No notifications"@,
                    "notifications"@,
                    self@.filter,
                )
            } else {
                b matches Body::Rows(rs) && text_lines(rs@) == self@.filtered.map_values(
                    |i: usize| notif_row_text(self@.notifs[i as int], now),
                )
            },
    {
        if self.loading {
            return Body::Message(spinner_line(tick, "Loading notifications..."));
        }
        if let Some(e) = &self.error {
            return Body::Message(error_line(e.as_str()));
        }
        if self.filtered_indices.len() == 0 {
            return Body::Message(
                empty_list_line(" No notifications", "notifications", self.filter.as_str()),
            );
        }
        let ghost v = self@;
        let mut rows: Vec<Vec<Piece>> = Vec::new();
        let n = self.filtered_indices.len();
        let mut k: usize = 0;
        while k < n
            invariant
                n == self.filtered_indices.len(),
                k <= n,
                v == self@,
                notif_rows_ok(v),
                text_lines(rows@) == v.filtered.take(k as int).map_values(
                    |i: usize| notif_row_text(v.notifs[i as int], now),
                ),
            decreases n - k,
        {
            let i = self.filtered_indices[k];
            assert(v.filtered[k as int] < v.notifs.len());
            let row = notif_row(&self.notifs[i], now);
            push_line(&mut rows, row);
            assert(v.filtered.take(k as int + 1).map_values(
                |i: usize| notif_row_text(v.notifs[i as int], now),
            ) =~= v.filtered.take(k as int).map_values(
                |i: usize| notif_row_text(v.notifs[i as int], now),
            ).push(notif_row_text(v.notifs[i as int], now)));
            k += 1;
        }
        assert(v.filtered.take(n as int) =~= v.filtered);
        Body::Rows(rows)
    }

    /// The selected notification, if any.
    pub fn selected(&self) -> (r: Option<&Notification>)
        ensures
            match selected_position(self@) {
                Some(k) => r matches Some(n) && *n == self@.notifs[k],
                None => r is None,
            },
    {
        match self.state {
            Some(i) => if i < self.filtered_indices.len() && self.filtered_indices[i]
                < self.notifs.len() {
                Some(&self.notifs[self.filtered_indices[i]])
            } else {
                None
            },
            None => None,
        }
    }

    /// Chooses the notifications that the filter keeps, and selects the first.
    pub fn refilter(&mut self)
        ensures
            final(self)@ == refiltered(old(self)@),
    {
        let lowered = lower(self.filter.as_str());
        let query = chars_of(lowered.as_str());
        let ghost pred = |i: int|
            lowercase(self.filter@).len() == 0 || notif_matches(
                self.notifs@[i],
                lowercase(self.filter@),
            );
        let n = self.notifs.len();
        let mut out: Vec<usize> = Vec::new();
        let mut i: usize = 0;
        while i < n
            invariant
                n == self.notifs.len(),
                i <= n,
                *self == *old(self),
                query@ == lowercase(self.filter@),
                pred == (|i: int|
                    lowercase(self.filter@).len() == 0 || notif_matches(
                        self.notifs@[i],
                        lowercase(self.filter@),
                    )),
                out@ == indices_where(i as nat, pred),
            decreases n - i,
        {
            let nt = &self.notifs[i];
            let keep = query.len() == 0 || lower_contains(nt.subject.title.as_str(), &query)
                || lower_contains(nt.repository.full_name.as_str(), &query) || lower_contains(
                nt.reason.as_str(),
                &query,
            );
            assert(keep == pred(i as int));
            if keep {
                out.push(i);
            }
            i += 1;
        }
        self.filtered_indices = out;
        self.state = if self.filtered_indices.len() == 0 {
            None
        } else {
            Some(0)
        };
    }

    /// Adds `key` to the filter and filters anew.
    pub fn on_filter_key(&mut self, key: char)
        ensures
            final(self)@ == refiltered(
                NotifListView { filter: old(self)@.filter.push(key), ..old(self)@ },
            ),
    {
        let mut v = chars_of(self.filter.as_str());
        v.push(key);
        self.filter = string_of(&v);
        self.refilter();
    }

    /// Removes the last character of the filter, if any, and filters anew.
    pub fn on_filter_backspace(&mut self)
        ensures
            final(self)@ == refiltered(
                NotifListView {
                    filter: if old(self)@.filter.len() > 0 {
                        old(self)@.filter.drop_last()
                    } else {
                        old(self)@.filter
                    },
                    ..old(self)@
                },
            ),
    {
        let mut v = chars_of(self.filter.as_str());
        if v.len() > 0 {
            v.pop();
        }
        self.filter = string_of(&v);
        self.refilter();
    }

    /// Drops the filter, stops typing it, and filters anew.
    pub fn clear_filter(&mut self)
        ensures
            final(self)@ == refiltered(
                NotifListView { filter: Seq::empty(), filtering: false, ..old(self)@ },
            ),
    {
        self.filter = String::new();
        self.filtering = false;
        self.refilter();
    }

    /// Removes the selected notification and answers its thread id, which the
    /// caller marks as read. The list is filtered anew and the selection kept
    /// at the same place, or on the last entry when the list got shorter.
    pub fn mark_selected_read(&mut self) -> (thread_id: Option<String>)
        ensures
            match selected_position(old(self)@) {
                None => thread_id is None && final(self)@ == old(self)@,
                Some(k) => thread_id == Some(old(self)@.notifs[k].id) && final(self)@
                    == marked_read(old(self)@, k),
            },
    {
        let (i, real_index) = match self.state {
            Some(i) => if i < self.filtered_indices.len() && self.filtered_indices[i]
                < self.notifs.len() {
                (i, self.filtered_indices[i])
            } else {
                return None;
            },
            None => return None,
        };
        let id = self.notifs[real_index].id.clone();
        self.notifs.remove(real_index);
        self.refilter();
        if self.filtered_indices.len() > 0 {
            let last = self.filtered_indices.len() - 1;
            self.state = Some(
                if i <= last {
                    i
                } else {
                    last
                },
            );
        }
        Some(id)
    }
}

} // verus!
