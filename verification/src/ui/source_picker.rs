//! The picker of the repository source, with a filter over the source labels
//! that keeps each label's own index.
use crate::text::{chars_of, contains, lower_contains, lowercase, string_of, lower, views};
use crate::ui::display::{
    concat, concat3, dim_line, filter_info_line, filter_info_text, pieces, push_line, push_piece,
    push_text, text_lines, typing_line, typing_text, Body, Piece, Tone,
};
use crate::ui::repo_list::{labels_of, source_index, RepoList, RepoSource};
use crate::ui::list::indices_where;
use vstd::prelude::*;

verus! {

/// The state of the source picker.
pub struct SourcePicker {
    pub visible: bool,
    pub filtering: bool,
    pub filter: String,
    pub filtered_indices: Vec<usize>,
    pub selected: usize,
}

/// What the source picker holds.
#[verifier::ext_equal]
pub struct SourcePickerView {
    pub visible: bool,
    pub filtering: bool,
    pub filter: Seq<char>,
    pub filtered: Seq<usize>,
    pub selected: usize,
}

impl View for SourcePicker {
    type V = SourcePickerView;

    open spec fn view(&self) -> SourcePickerView {
        SourcePickerView {
            visible: self.visible,
            filtering: self.filtering,
            filter: self.filter@,
            filtered: self.filtered_indices@,
            selected: self.selected,
        }
    }
}

/// The indices of the labels that the filter keeps: those whose lower-case
/// form contains the filter's lower-case form (all when that is empty).
pub open spec fn label_filter(labels: Seq<Seq<char>>, filter: Seq<char>) -> Seq<usize> {
    indices_where(
        labels.len(),
        |i: int|
            lowercase(filter).len() == 0 || contains(
                lowercase(labels[i]),
                lowercase(filter),
            ),
    )
}

/// The picker after a new filtering of the labels: the selection kept, or
/// moved to the last kept label, or 0 when none is kept.
pub open spec fn refiltered(p: SourcePickerView, labels: Seq<Seq<char>>) -> SourcePickerView {
    let f = label_filter(labels, p.filter);
    SourcePickerView {
        filtered: f,
        selected: if f.len() == 0 {
            0
        } else if p.selected <= f.len() - 1 {
            p.selected
        } else {
            (f.len() - 1) as usize
        },
        ..p
    }
}

/// What kind of source index `index` is.
pub open spec fn source_kind(index: usize) -> Seq<char> {
    if index == 0 {
        "personal"@
    } else if index == 1 {
        "starred"@
    } else {
        "organization"@
    }
}

/// How a source is listed: a mark when it is the current one, its label, its
/// kind, and `active` when it is the current one.
pub open spec fn source_row_text(label: Seq<char>, index: usize, active: bool) -> Seq<
    (Seq<char>, Tone),
> {
    let row = seq![
        if active {
            ("\u{25cf} "@, Tone::Green)
        } else {
            ("  "@, Tone::Dim)
        },
        (label, Tone::Normal),
        ("  "@ + source_kind(index), Tone::Dim),
    ];
    if active {
        row.push(("  active"@, Tone::Green))
    } else {
        row
    }
}

/// The keys shown under the sources: while typing, select and clear; else
/// select, filter and close.
pub open spec fn source_status_text(filtering: bool) -> Seq<(Seq<char>, Tone)> {
    if filtering {
        seq![
            (" Enter"@, Tone::Key),
            (" select    "@, Tone::Dim),
            ("Esc"@, Tone::Key),
            (" clear"@, Tone::Dim),
        ]
    } else {
        seq![
            (" Enter"@, Tone::Key),
            (" select    "@, Tone::Dim),
            ("/"@, Tone::Key),
            (" filter    "@, Tone::Dim),
            ("Esc"@, Tone::Key),
            (" close"@, Tone::Dim),
        ]
    }
}

/// The position of the first `x` in `s`, if any.
pub open spec fn first_position(s: Seq<usize>, x: int) -> Option<int>
    decreases s.len(),
{
    if s.len() == 0 {
        None
    } else if s[0] == x {
        Some(0)
    } else {
        match first_position(s.drop_first(), x) {
            Some(k) => Some(k + 1),
            None => None,
        }
    }
}

proof fn lemma_first_position(s: Seq<usize>, x: int, i: int)
    requires
        0 <= i <= s.len(),
        forall|j: int| 0 <= j < i ==> s[j] != x,
        i < s.len() ==> s[i] == x,
    ensures
        first_position(s, x) == if i < s.len() {
            Some(i)
        } else {
            None::<int>
        },
    decreases i,
{
    if i > 0 {
        assert forall|j: int| 0 <= j < i - 1 implies s.drop_first()[j] != x by {
            assert(s.drop_first()[j] == s[j + 1]);
        }
        if i < s.len() {
            assert(s.drop_first()[i - 1] == s[i]);
        }
        lemma_first_position(s.drop_first(), x, i - 1);
    }
}

/// A hidden picker, with no filter and nothing listed.
pub open spec fn new_source_picker() -> SourcePickerView {
    SourcePickerView {
        visible: false,
        filtering: false,
        filter: Seq::empty(),
        filtered: Seq::empty(),
        selected: 0,
    }
}

/// The line above the sources, of `count` sources in all: the filter while
/// it is typed, an invitation without a filter, else the filter in use with
/// how many sources it keeps.
pub open spec fn source_header_text(p: SourcePickerView, count: nat) -> Seq<(Seq<char>, Tone)> {
    if p.filtering {
        typing_text(p.filter, Tone::Key)
    } else if p.filter.len() == 0 {
        seq![(" Select My Repos, Starred, or an organization"@, Tone::Dim)]
    } else {
        filter_info_text(p.filter, p.filtered.len(), count)
    }
}

/// Whether `b` shows the sources of the picker: that none matches the
/// filter, else a row for each kept label, the one at index `active`
/// marked.
pub open spec fn shows_sources(b: Body, p: SourcePickerView, labels: Seq<Seq<char>>, active: int) -> bool {
    if p.filtered.len() == 0 {
        b matches Body::Message(l) && pieces(l@) == seq![
            (" No sources match \u{2018}"@ + p.filter + "\u{2019}"@, Tone::Dim),
        ]
    } else {
        b matches Body::Rows(rs) && text_lines(rs@) == source_rows(p, labels, active)
    }
}

/// The rows of the kept labels, the one at index `active` marked.
pub open spec fn source_rows(p: SourcePickerView, labels: Seq<Seq<char>>, active: int) -> Seq<
    Seq<(Seq<char>, Tone)>,
> {
    p.filtered.map_values(|i: usize| source_row_text(labels[i as int], i, i == active))
}

impl SourcePicker {
    /// A hidden picker.
    pub fn new() -> (p: Self)
        ensures
            p@ == new_source_picker(),
    {
        SourcePicker {
            visible: false,
            filtering: false,
            filter: String::new(),
            filtered_indices: Vec::new(),
            selected: 0,
        }
    }

    /// Filters the sources of `repos` anew (organizations can arrive while the
    /// picker is shown), keeping the selection where it can stay.
    pub fn refilter(&mut self, repos: &RepoList)
        ensures
            final(self)@ == refiltered(old(self)@, labels_of(repos.orgs@)),
    {
        let labels = repos.source_labels();
        let lowered = lower(self.filter.as_str());
        let query = chars_of(lowered.as_str());
        let ghost ls = labels_of(repos.orgs@);
        let ghost pred = |i: int|
            lowercase(self.filter@).len() == 0 || contains(
                lowercase(ls[i]),
                lowercase(self.filter@),
            );
        let mut out: Vec<usize> = Vec::new();
        let n = labels.len();
        let mut i: usize = 0;
        while i < n
            invariant
                n == labels.len(),
                i <= n,
                *self == *old(self),
                views(labels@) == ls,
                query@ == lowercase(self.filter@),
                pred == (|i: int|
                    lowercase(self.filter@).len() == 0 || contains(
                        lowercase(ls[i]),
                        lowercase(self.filter@),
                    )),
                out@ == indices_where(i as nat, pred),
            decreases n - i,
        {
            let keep = query.len() == 0 || lower_contains(labels[i].as_str(), &query);
            assert(ls[i as int] == labels@[i as int]@);
            assert(keep == pred(i as int));
            if keep {
                out.push(i);
            }
            i += 1;
        }
        self.filtered_indices = out;
        self.selected = if self.filtered_indices.len() == 0 {
            0
        } else if self.selected <= self.filtered_indices.len() - 1 {
            self.selected
        } else {
            self.filtered_indices.len() - 1
        };
    }

    /// Shows the picker with no filter, all sources listed, and the current
    /// source selected (the first when it is not listed).
    pub fn open(&mut self, repos: &RepoList)
        requires
            repos.source matches RepoSource::Org(i) ==> i <= usize::MAX - 2,
        ensures
            ({
                let f = label_filter(labels_of(repos.orgs@), Seq::empty());
                final(self)@ == (SourcePickerView {
                    visible: true,
                    filtering: false,
                    filter: Seq::empty(),
                    filtered: f,
                    selected: match first_position(f, source_index(repos.source)) {
                        Some(k) => k as usize,
                        None => 0,
                    },
                })
            }),
    {
        self.visible = true;
        self.filtering = false;
        self.filter = String::new();
        self.refilter(repos);
        let active = repos.active_source_index();
        let ghost f = self.filtered_indices@;
        let n = self.filtered_indices.len();
        let mut i: usize = 0;
        while i < n && self.filtered_indices[i] != active
            invariant
                i <= n,
                n == f.len(),
                f == self.filtered_indices@,
                forall|j: int| 0 <= j < i ==> f[j] != active,
            decreases n - i,
        {
            i += 1;
        }
        proof {
            lemma_first_position(f, active as int, i as int);
        }
        let pos = if i < n {
            i
        } else {
            0
        };
        self.selected = pos;
    }

    /// The line above the sources: the filter while it is typed, an
    /// invitation without a filter, else the filter in use with how many of
    /// the sources of `repos` it keeps.
    pub fn header_line(&self, repos: &RepoList) -> (l: Vec<Piece>)
        requires
            repos.orgs.len() <= usize::MAX - 2,
        ensures
            pieces(l@) == source_header_text(self@, labels_of(repos.orgs@).len()),
    {
        if self.filtering {
            typing_line(self.filter.as_str(), Tone::Key)
        } else if self.filter.as_str().is_empty() {
            dim_line(" Select My Repos, Starred, or an organization")
        } else {
            filter_info_line(self.filter.as_str(), self.filtered_indices.len(), 2 + repos.orgs.len())
        }
    }

    /// What the list of sources shows: that no source matches the filter,
    /// else the rows of the kept sources of `repos`, the current one marked.
    pub fn body(&self, repos: &RepoList) -> (b: Body)
        requires
            forall|k: int|
                0 <= k < self.filtered_indices@.len() ==> #[trigger] self.filtered_indices@[k]
                    < labels_of(repos.orgs@).len(),
            repos.source matches RepoSource::Org(i) ==> i <= usize::MAX - 2,
        ensures
            shows_sources(b, self@, labels_of(repos.orgs@), source_index(repos.source)),
    {
        if self.filtered_indices.len() == 0 {
            return Body::Message(
                dim_line(concat3(" No sources match \u{2018}", self.filter.as_str(), "\u{2019}").as_str()),
            );
        }
        let labels = repos.source_labels();
        let active = repos.active_source_index();
        let ghost f = self.filtered_indices@;
        let mut rows: Vec<Vec<Piece>> = Vec::new();
        let n = self.filtered_indices.len();
        let mut k: usize = 0;
        while k < n
            invariant
                n == self.filtered_indices.len(),
                k <= n,
                f == self.filtered_indices@,
                views(labels@) == labels_of(repos.orgs@),
                active == source_index(repos.source),
                forall|j: int| 0 <= j < f.len() ==> #[trigger] f[j] < labels_of(repos.orgs@).len(),
                text_lines(rows@) == f.take(k as int).map_values(
                    |i: usize|
                        source_row_text(
                            labels_of(repos.orgs@)[i as int],
                            i,
                            i == source_index(repos.source),
                        ),
                ),
            decreases n - k,
        {
            let index = self.filtered_indices[k];
            assert(f[k as int] < labels_of(repos.orgs@).len());
            let is_active = index == active;
            let mut row: Vec<Piece> = Vec::new();
            if is_active {
                push_text(&mut row, "\u{25cf} ", Tone::Green);
            } else {
                push_text(&mut row, "  ", Tone::Dim);
            }
            push_piece(&mut row, labels[index].clone(), Tone::Normal);
            let kind = if index == 0 {
                "personal"
            } else if index == 1 {
                "starred"
            } else {
                "organization"
            };
            push_piece(&mut row, concat("  ", kind), Tone::Dim);
            if is_active {
                push_text(&mut row, "  active", Tone::Green);
            }
            assert(labels@[index as int]@ == labels_of(repos.orgs@)[index as int]);
            assert(pieces(row@) =~= source_row_text(
                labels_of(repos.orgs@)[index as int],
                index,
                index == source_index(repos.source),
            ));
            push_line(&mut rows, row);
            assert(f.take(k as int + 1).map_values(
                |i: usize|
                    source_row_text(
                        labels_of(repos.orgs@)[i as int],
                        i,
                        i == source_index(repos.source),
                    ),
            ) =~= f.take(k as int).map_values(
                |i: usize|
                    source_row_text(
                        labels_of(repos.orgs@)[i as int],
                        i,
                        i == source_index(repos.source),
                    ),
            ).push(
                source_row_text(
                    labels_of(repos.orgs@)[index as int],
                    index,
                    index == source_index(repos.source),
                ),
            ));
            k += 1;
        }
        assert(f.take(n as int) =~= f);
        let ghost labels_v = labels_of(repos.orgs@);
        let ghost active_v = source_index(repos.source);
        assert(text_lines(rows@) =~= source_rows(self@, labels_v, active_v));
        Body::Rows(rows)
    }

    /// The keys shown under the sources.
    pub fn status_line(&self) -> (l: Vec<Piece>)
        ensures
            pieces(l@) == source_status_text(self.filtering),
    {
        let mut l: Vec<Piece> = Vec::new();
        push_text(&mut l, " Enter", Tone::Key);
        push_text(&mut l, " select    ", Tone::Dim);
        if self.filtering {
            push_text(&mut l, "Esc", Tone::Key);
            push_text(&mut l, " clear", Tone::Dim);
        } else {
            push_text(&mut l, "/", Tone::Key);
            push_text(&mut l, " filter    ", Tone::Dim);
            push_text(&mut l, "Esc", Tone::Key);
            push_text(&mut l, " close", Tone::Dim);
        }
        assert(pieces(l@) =~= source_status_text(self.filtering));
        l
    }

    /// Filters the sources of `repos` anew (organizations can arrive while the
    /// picker is shown), then gives what the picker shows: the line above,
    /// the list, and the keys below.
    pub fn refreshed(&mut self, repos: &RepoList) -> (r: (Vec<Piece>, Body, Vec<Piece>))
        requires
            repos.orgs.len() <= usize::MAX - 2,
            repos.source matches RepoSource::Org(i) ==> i <= usize::MAX - 2,
        ensures
            final(self)@ == refiltered(old(self)@, labels_of(repos.orgs@)),
            pieces(r.0@) == source_header_text(final(self)@, labels_of(repos.orgs@).len()),
            shows_sources(r.1, final(self)@, labels_of(repos.orgs@), source_index(repos.source)),
            pieces(r.2@) == source_status_text(final(self)@.filtering),
    {
        self.refilter(repos);
        proof {
            crate::laws::source_filter_keeps_label_indices(labels_of(repos.orgs@), self@.filter);
        }
        (self.header_line(repos), self.body(repos), self.status_line())
    }

    /// Hides the picker and drops the filter.
    pub fn close(&mut self)
        ensures
            final(self)@ == (SourcePickerView {
                visible: false,
                filtering: false,
                filter: Seq::empty(),
                ..old(self)@
            }),
    {
        self.visible = false;
        self.filtering = false;
        self.filter = String::new();
    }

    /// Starts typing a filter.
    pub fn start_filtering(&mut self)
        ensures
            final(self)@ == (SourcePickerView { filtering: true, ..old(self)@ }),
    {
        self.filtering = true;
    }

    /// Adds `key` to the filter and filters anew.
    pub fn on_filter_key(&mut self, key: char, repos: &RepoList)
        ensures
            final(self)@ == refiltered(
                SourcePickerView { filter: old(self)@.filter.push(key), ..old(self)@ },
                labels_of(repos.orgs@),
            ),
    {
        let mut v = chars_of(self.filter.as_str());
        v.push(key);
        self.filter = string_of(&v);
        self.refilter(repos);
    }

    /// Removes the last character of the filter, if any, and filters anew.
    pub fn on_filter_backspace(&mut self, repos: &RepoList)
        ensures
            final(self)@ == refiltered(
                SourcePickerView {
                    filter: if old(self)@.filter.len() > 0 {
                        old(self)@.filter.drop_last()
                    } else {
                        old(self)@.filter
                    },
                    ..old(self)@
                },
                labels_of(repos.orgs@),
            ),
    {
        let mut v = chars_of(self.filter.as_str());
        if v.len() > 0 {
            v.pop();
        }
        self.filter = string_of(&v);
        self.refilter(repos);
    }

    /// Drops the filter, stops typing it, and filters anew.
    pub fn clear_filter(&mut self, repos: &RepoList)
        ensures
            final(self)@ == refiltered(
                SourcePickerView { filter: Seq::empty(), filtering: false, ..old(self)@ },
                labels_of(repos.orgs@),
            ),
    {
        self.filter = String::new();
        self.filtering = false;
        self.refilter(repos);
    }

    /// Selects the next listed source, if there is one.
    pub fn move_down(&mut self)
        requires
            old(self).selected < usize::MAX,
        ensures
            final(self)@ == (SourcePickerView {
                selected: if old(self).selected + 1 < old(self)@.filtered.len() {
                    (old(self).selected + 1) as usize
                } else {
                    old(self).selected
                },
                ..old(self)@
            }),
    {
        if self.selected + 1 < self.filtered_indices.len() {
            self.selected += 1;
        }
    }

    /// Selects the previous listed source, if there is one.
    pub fn move_up(&mut self)
        ensures
            final(self)@ == (SourcePickerView {
                selected: if old(self).selected > 0 {
                    (old(self).selected - 1) as usize
                } else {
                    0
                },
                ..old(self)@
            }),
    {
        self.selected = self.selected.saturating_sub(1);
    }

    /// Selects the first listed source.
    pub fn move_to_first(&mut self)
        ensures
            final(self)@ == (SourcePickerView { selected: 0, ..old(self)@ }),
    {
        self.selected = 0;
    }

    /// Selects the last listed source, if any is listed.
    pub fn move_to_last(&mut self)
        ensures
            final(self)@ == (SourcePickerView {
                selected: if old(self)@.filtered.len() > 0 {
                    (old(self)@.filtered.len() - 1) as usize
                } else {
                    old(self).selected
                },
                ..old(self)@
            }),
    {
        if self.filtered_indices.len() > 0 {
            self.selected = self.filtered_indices.len() - 1;
        }
    }

    /// The index (among all sources) of the selected listed source.
    pub fn selected_source_index(&self) -> (r: Option<usize>)
        ensures
            self.selected < self@.filtered.len() ==> r == Some(self@.filtered[self.selected as int]),
            self.selected >= self@.filtered.len() ==> r is None,
    {
        if self.selected < self.filtered_indices.len() {
            Some(self.filtered_indices[self.selected])
        } else {
            None
        }
    }
}

} // verus!
