//! What holds of the browser across its operations: filters keep exactly the
//! matching entries, a fetched source comes back from the cache, the tab keys
//! undo one another, going back undoes entering a repository, the footer keeps
//! its main keys, no key loses the selected theme, cancelling the theme
//! picker undoes every preview, `[` and `]` undo one another, an empty filter
//! keeps everything, and typing an ASCII filter narrows what it keeps.
use crate::actions::{
    has_key, lists_error_hints, shortened, spec_contextual_actions, spec_footer_actions,
    spec_is_filtering,
};
use crate::app::{
    entered, next_tab_state, open_target, prev_tab_state, theme_cancelled, theme_opened, theme_selections,
    went_back, App, AppView, Screen, Tab,
};
use crate::gh::{
    check_completed, check_failed, combined_check_status, CheckRun, CheckStatus, Notification, Repo,
};
use crate::keys::{KeyCode, closes_actions, is_global, key_mode, key_step, mode_step, Effect, KeyMode, KeyPress};
use crate::modal::{item_key, next_source, prev_source, source_count, source_picker_key};
use crate::text::{
    ascii_lower, ascii_lower_char, contains, decimal, is_ascii, lines, lowercase, occurs_at, opt_chars,
};
use crate::theme::{Rgb, last_value, resolve_role, spec_parse_theme, theme_scan};
use crate::ui::item_detail::{other_tab, ItemTab};
use crate::ui::list::{first_selection, lemma_indices_where};
use crate::ui::notif_list::{notif_filter, notif_matches, NotifListView};
use crate::ui::repo_detail::{
    issue_matches, next_repo_tab, pr_matches, prev_repo_tab, RepoDetailViewView, RepoTab,
};
use crate::ui::repo_list::{
    after_load, cache_lookup, repo_filter, repo_matches, source_at, source_index, RepoListView,
    RepoSource,
};
use crate::ui::source_picker::{label_filter, refiltered, SourcePickerView};
use crate::ui::time::{ago_text, spec_parse_rfc3339, spec_timeago};
use vstd::prelude::*;

verus! {

/// The repository filter keeps, in their order, exactly the positions of the
/// repositories whose lower-case name or description contains the filter's
/// lower-case form; an empty filter keeps them all.
pub proof fn repo_filter_keeps_exactly_the_matches(repos: Seq<Repo>, filter: Seq<char>)
    requires
        repos.len() <= usize::MAX,
    ensures
        forall|k: int|
            0 <= k < repo_filter(repos, filter).len() ==> {
                let i = #[trigger] repo_filter(repos, filter)[k];
                &&& i < repos.len()
                &&& (filter.len() == 0 || repo_matches(repos[i as int], lowercase(filter)))
            },
        forall|k: int, l: int|
            0 <= k < l < repo_filter(repos, filter).len() ==> #[trigger] repo_filter(repos, filter)[k]
                < #[trigger] repo_filter(repos, filter)[l],
        forall|i: int|
            0 <= i < repos.len() && #[trigger] repo_matches(repos[i], lowercase(filter))
                ==> repo_filter(repos, filter).contains(i as usize),
        filter.len() == 0 ==> repo_filter(repos, filter) == Seq::new(
            repos.len(),
            |i: int| i as usize,
        ),
{
    let p = |i: int| filter.len() == 0 || repo_matches(repos[i], lowercase(filter));
    lemma_indices_where(repos.len(), p);
    assert forall|i: int|
        0 <= i < repos.len() && #[trigger] repo_matches(
            repos[i],
            lowercase(filter),
        ) implies repo_filter(repos, filter).contains(i as usize) by {
        assert(p(i));
    }
    if filter.len() == 0 {
        lemma_all_kept(repos.len(), p);
    }
}

/// When every position is kept, all of them are.
proof fn lemma_all_kept(n: nat, p: spec_fn(int) -> bool)
    requires
        n <= usize::MAX + 1,
        forall|i: int| 0 <= i < n ==> #[trigger] p(i),
    ensures
        crate::ui::list::indices_where(n, p) == Seq::new(n, |i: int| i as usize),
    decreases n,
{
    if n > 0 {
        assert(p(n - 1));
        lemma_all_kept((n - 1) as nat, p);
        assert(crate::ui::list::indices_where(n, p) =~= Seq::new(n, |i: int| i as usize));
    }
}

/// The notification filter keeps, in their order, exactly the positions of
/// the notifications whose lower-case title, repository or reason contains
/// the filter's lower-case form.
pub proof fn notif_filter_keeps_exactly_the_matches(notifs: Seq<Notification>, filter: Seq<char>)
    requires
        notifs.len() <= usize::MAX,
    ensures
        forall|k: int|
            0 <= k < notif_filter(notifs, filter).len() ==> {
                let i = #[trigger] notif_filter(notifs, filter)[k];
                &&& i < notifs.len()
                &&& (lowercase(filter).len() == 0 || notif_matches(
                    notifs[i as int],
                    lowercase(filter),
                ))
            },
        forall|k: int, l: int|
            0 <= k < l < notif_filter(notifs, filter).len() ==> #[trigger] notif_filter(
                notifs,
                filter,
            )[k] < #[trigger] notif_filter(notifs, filter)[l],
        forall|i: int|
            0 <= i < notifs.len() && #[trigger] notif_matches(notifs[i], lowercase(filter))
                ==> notif_filter(notifs, filter).contains(i as usize),
        filter.len() == 0 ==> notif_filter(notifs, filter) == Seq::new(
            notifs.len(),
            |i: int| i as usize,
        ),
{
    let p = |i: int|
        lowercase(filter).len() == 0 || notif_matches(notifs[i], lowercase(filter));
    lemma_indices_where(notifs.len(), p);
    assert forall|i: int|
        0 <= i < notifs.len() && #[trigger] notif_matches(
            notifs[i],
            lowercase(filter),
        ) implies notif_filter(notifs, filter).contains(i as usize) by {
        assert(p(i));
    }
    if filter.len() == 0 {
        assert(lowercase(filter) =~= Seq::<char>::empty());
        lemma_all_kept(notifs.len(), p);
    }
}

/// The source filter keeps the indices of the sources themselves, in order:
/// each kept index is that of a label containing the filter (both in lower
/// case), and each such label is kept.
pub proof fn source_filter_keeps_label_indices(labels: Seq<Seq<char>>, filter: Seq<char>)
    requires
        labels.len() <= usize::MAX,
    ensures
        forall|k: int|
            0 <= k < label_filter(labels, filter).len() ==> {
                let i = #[trigger] label_filter(labels, filter)[k];
                &&& i < labels.len()
                &&& (lowercase(filter).len() == 0 || contains(
                    lowercase(labels[i as int]),
                    lowercase(filter),
                ))
            },
        forall|k: int, l: int|
            0 <= k < l < label_filter(labels, filter).len() ==> #[trigger] label_filter(
                labels,
                filter,
            )[k] < #[trigger] label_filter(labels, filter)[l],
        forall|i: int|
            0 <= i < labels.len() && #[trigger] contains(
                lowercase(labels[i]),
                lowercase(filter),
            ) ==> label_filter(labels, filter).contains(i as usize),
        filter.len() == 0 ==> label_filter(labels, filter) == Seq::new(
            labels.len(),
            |i: int| i as usize,
        ),
{
    let p = |i: int|
        lowercase(filter).len() == 0 || contains(
            lowercase(labels[i]),
            lowercase(filter),
        );
    lemma_indices_where(labels.len(), p);
    assert forall|i: int|
        0 <= i < labels.len() && #[trigger] contains(
            lowercase(labels[i]),
            lowercase(filter),
        ) implies label_filter(labels, filter).contains(i as usize) by {
        assert(p(i));
    }
    if filter.len() == 0 {
        assert(lowercase(filter) =~= Seq::<char>::empty());
        lemma_all_kept(labels.len(), p);
    }
}

/// Adding an ASCII character to an ASCII text adds its lower-case form to the
/// text's lower-case form.
proof fn lemma_lowercase_push(f: Seq<char>, c: char)
    requires
        is_ascii(f.push(c)),
    ensures
        lowercase(f.push(c)) == lowercase(f).push(ascii_lower_char(c)),
{
    assert(is_ascii(f)) by {
        assert forall|i: int| 0 <= i < f.len() implies (#[trigger] f[i] as u32) < 128 by {
            assert(f.push(c)[i] == f[i]);
        }
    }
    assert(ascii_lower(f.push(c)) =~= ascii_lower(f).push(ascii_lower_char(c)));
}

/// A text that contains a longer needle contains the needle without its last
/// character.
proof fn lemma_contains_shorter(hay: Seq<char>, q: Seq<char>, x: char)
    requires
        contains(hay, q.push(x)),
    ensures
        contains(hay, q),
{
    let i = choose|i: int| occurs_at(hay, q.push(x), i);
    assert(hay.subrange(i, i + q.len() + 1) == q.push(x));
    assert(q.push(x).drop_last() =~= q);
    assert(hay.subrange(i, i + q.len()) =~= hay.subrange(i, i + q.len() + 1).drop_last());
    assert(occurs_at(hay, q, i));
}

/// Typing one more character of an ASCII filter narrows what the source
/// filter keeps: every source kept after it was kept before.
pub proof fn typing_narrows_the_source_filter(labels: Seq<Seq<char>>, f: Seq<char>, c: char)
    requires
        labels.len() <= usize::MAX,
        is_ascii(f.push(c)),
    ensures
        forall|k: int|
            0 <= k < label_filter(labels, f.push(c)).len() ==> label_filter(labels, f).contains(
                #[trigger] label_filter(labels, f.push(c))[k],
            ),
{
    lemma_lowercase_push(f, c);
    source_filter_keeps_label_indices(labels, f);
    source_filter_keeps_label_indices(labels, f.push(c));
    assert forall|k: int| 0 <= k < label_filter(labels, f.push(c)).len() implies label_filter(
        labels,
        f,
    ).contains(#[trigger] label_filter(labels, f.push(c))[k]) by {
        let i = label_filter(labels, f.push(c))[k] as int;
        assert(lowercase(f.push(c)).len() > 0);
        lemma_contains_shorter(lowercase(labels[i]), lowercase(f), ascii_lower_char(c));
        if lowercase(f).len() == 0 {
            assert(f.len() == 0);
            assert(label_filter(labels, f)[i] == i as usize);
        } else {
            assert(contains(lowercase(labels[i]), lowercase(f)));
        }
    }
}

/// Typing one more character of an ASCII filter narrows what the
/// notification filter keeps: every notification kept after it was kept
/// before.
pub proof fn typing_narrows_the_notification_filter(notifs: Seq<Notification>, f: Seq<char>, c: char)
    requires
        notifs.len() <= usize::MAX,
        is_ascii(f.push(c)),
    ensures
        forall|k: int|
            0 <= k < notif_filter(notifs, f.push(c)).len() ==> notif_filter(notifs, f).contains(
                #[trigger] notif_filter(notifs, f.push(c))[k],
            ),
{
    lemma_lowercase_push(f, c);
    notif_filter_keeps_exactly_the_matches(notifs, f);
    notif_filter_keeps_exactly_the_matches(notifs, f.push(c));
    assert forall|k: int| 0 <= k < notif_filter(notifs, f.push(c)).len() implies notif_filter(
        notifs,
        f,
    ).contains(#[trigger] notif_filter(notifs, f.push(c))[k]) by {
        let i = notif_filter(notifs, f.push(c))[k] as int;
        let n = notifs[i];
        let x = ascii_lower_char(c);
        assert(lowercase(f.push(c)).len() > 0);
        if contains(lowercase(n.subject.title@), lowercase(f).push(x)) {
            lemma_contains_shorter(lowercase(n.subject.title@), lowercase(f), x);
        } else if contains(lowercase(n.repository.full_name@), lowercase(f).push(x)) {
            lemma_contains_shorter(lowercase(n.repository.full_name@), lowercase(f), x);
        } else {
            lemma_contains_shorter(lowercase(n.reason@), lowercase(f), x);
        }
        if lowercase(f).len() == 0 {
            assert(f.len() == 0);
            assert(notif_filter(notifs, f)[i] == i as usize);
        } else {
            assert(notif_matches(n, lowercase(f)));
        }
    }
}

/// Typing one more character of an ASCII filter into the source picker keeps
/// a part of what it listed: after `on_filter_key` (see `refiltered`), every
/// listed source was listed before, when the sources did not change since
/// the picker last filtered them.
pub proof fn typing_narrows_the_source_picker(
    p: SourcePickerView,
    labels: Seq<Seq<char>>,
    c: char,
)
    requires
        labels.len() <= usize::MAX,
        p.filtered == label_filter(labels, p.filter),
        is_ascii(p.filter.push(c)),
    ensures
        ({
            let q = refiltered(SourcePickerView { filter: p.filter.push(c), ..p }, labels);
            &&& q.filter == p.filter.push(c)
            &&& forall|k: int| 0 <= k < q.filtered.len() ==> p.filtered.contains(#[trigger] q.filtered[k])
        }),
{
    typing_narrows_the_source_filter(labels, p.filter, c);
}

/// A source that was fetched once shows again from the cache: loading it
/// gives the repositories it gave, filtered anew, with nothing loading and no
/// error.
pub proof fn fetched_source_reloads_from_cache(v: RepoListView, s: RepoSource, repos: Seq<Repo>)
    requires
        cache_lookup(v.cache, s) == Some(repos),
    ensures
        ({
            let w = after_load(RepoListView { source: s, ..v });
            &&& w.repos == repos
            &&& !w.loading
            &&& w.error is None
            &&& w.source == s
            &&& w.filtered == repo_filter(repos, v.filter)
            &&& w.state == first_selection(repo_filter(repos, v.filter).len())
        }),
{
}

/// Numbering the sources and taking the source of a number undo one another.
pub proof fn source_numbering_round_trips(s: RepoSource, idx: usize)
    requires
        source_index(s) <= usize::MAX,
    ensures
        source_at(source_index(s) as usize) == s,
        source_index(source_at(idx)) == idx,
{
}

/// Shift+Tab after Tab comes back to the same section. From the lists or the
/// search nothing else changed; from the repositories the same source is
/// shown again (when the current source is one of the listed ones).
pub proof fn prev_tab_undoes_next_tab(v: AppView)
    requires
        v.repo_list.orgs.len() + 2 <= usize::MAX,
        v.repo_list.source matches RepoSource::Org(i) ==> i < v.repo_list.orgs.len(),
    ensures
        prev_tab_state(next_tab_state(v)).tab == v.tab,
        v.tab == Tab::Lists || v.tab == Tab::Search ==> prev_tab_state(next_tab_state(v)) == v,
        v.tab == Tab::Repos ==> prev_tab_state(next_tab_state(v)).repo_list.source
            == v.repo_list.source,
{
    let s = v.repo_list.source;
    let total = 2 + v.repo_list.orgs.len();
    assert(source_index(s) < total);
    assert(source_at(source_index(s) as usize) == s);
    if v.tab == Tab::Repos && source_index(s) + 1 < total {
        let n = next_tab_state(v);
        assert(source_index(n.repo_list.source) == source_index(s) + 1);
    }
}

/// Tab after Shift+Tab comes back to the same section. From the search or the
/// notifications nothing else changed; from the repositories the same source
/// is shown again (when the current source is one of the listed ones).
pub proof fn next_tab_undoes_prev_tab(v: AppView)
    requires
        v.repo_list.orgs.len() + 2 <= usize::MAX,
        v.repo_list.source matches RepoSource::Org(i) ==> i < v.repo_list.orgs.len(),
    ensures
        next_tab_state(prev_tab_state(v)).tab == v.tab,
        v.tab == Tab::Search || v.tab == Tab::Notifications ==> next_tab_state(prev_tab_state(v))
            == v,
        v.tab == Tab::Repos ==> next_tab_state(prev_tab_state(v)).repo_list.source
            == v.repo_list.source,
{
    let s = v.repo_list.source;
    let total = 2 + v.repo_list.orgs.len();
    assert(source_index(s) < total);
    assert(source_at(source_index(s) as usize) == s);
    if v.tab == Tab::Repos && source_index(s) > 0 {
        let p = prev_tab_state(v);
        assert(source_index(p.repo_list.source) == source_index(s) - 1);
    }
    if v.tab == Tab::Lists {
        let p = prev_tab_state(v);
        assert(source_index(p.repo_list.source) == total - 1);
    }
}

/// Going back from a repository opened on the home screen returns to the
/// home screen as it was.
pub proof fn going_back_undoes_entering(v: AppView, name: Seq<char>)
    requires
        v.screen == Screen::Home,
        v.repo_detail is None,
        v.selected_repo is None,
    ensures
        went_back(entered(v, name)) == v,
{
}

/// The repository tabs form a cycle of three: the previous tab undoes the next
/// one, and three steps come back to the start.
pub proof fn repo_tabs_cycle(t: RepoTab)
    ensures
        prev_repo_tab(next_repo_tab(t)) == t,
        next_repo_tab(prev_repo_tab(t)) == t,
        next_repo_tab(next_repo_tab(next_repo_tab(t))) == t,
{
}

/// The two tabs of a pull request alternate: switching twice comes back.
pub proof fn item_tabs_alternate(t: ItemTab)
    ensures
        other_tab(other_tab(t)) == t,
        other_tab(t) != t,
{
}

/// A theme that names no selection (nor heading) role shows selections in
/// its accent color, and one that names no key role (nor a `cyan` color)
/// shows keys in its accent color: older themes keep working.
pub proof fn older_themes_fall_back_to_accent(content: Seq<char>)
    ensures
        ({
            let st = theme_scan(lines(content));
            let t = spec_parse_theme(content);
            &&& resolve_role(st, "selection"@) is None && resolve_role(st, "heading"@) is None
                ==> t.selection == t.accent
            &&& resolve_role(st, "key"@) is None && last_value(st.colors, "cyan"@) is None
                ==> t.key == t.accent
        }),
{
}

/// A timestamp that is not before the present reads as `0s ago`.
pub proof fn future_timestamps_read_as_now(ts: Seq<char>, now: nat)
    requires
        spec_parse_rfc3339(ts) matches Ok(then) && then >= now,
    ensures
        spec_timeago(ts, now) == ago_text(0),
{
}

/// Shortening hints one part after the other is shortening them all.
proof fn lemma_shortened_concat(s1: Seq<(Seq<char>, Seq<char>)>, s2: Seq<(Seq<char>, Seq<char>)>)
    ensures
        shortened(s1 + s2) == shortened(s1) + shortened(s2),
    decreases s2.len(),
{
    if s2.len() == 0 {
        assert(s1 + s2 =~= s1);
        assert(shortened(s1) + shortened(s2) =~= shortened(s1));
    } else {
        lemma_shortened_concat(s1, s2.drop_last());
        assert((s1 + s2).drop_last() =~= s1 + s2.drop_last());
        assert((s1 + s2).last() == s2.last());
        let rest = shortened(s1 + s2.drop_last());
        let (k, d) = s2.last();
        if k == "o"@ || k == "?"@ || k == "Tab"@ {
        } else if k == "[ / ]"@ {
            assert(shortened(s1) + shortened(s2) =~= (shortened(s1) + shortened(s2.drop_last())).push(
                ("[/]"@, "Cycle"@),
            ));
        } else if k == "a"@ {
            assert(shortened(s1) + shortened(s2) =~= (shortened(s1) + shortened(s2.drop_last())).push(
                (k, "More"@),
            ));
        } else {
            assert(shortened(s1) + shortened(s2) =~= (shortened(s1) + shortened(s2.drop_last())).push(
                (k, d),
            ));
        }
    }
}

/// No shortened hint is for the help key.
proof fn lemma_shortened_without_help(s: Seq<(Seq<char>, Seq<char>)>)
    ensures
        forall|i: int| 0 <= i < shortened(s).len() ==> (#[trigger] shortened(s)[i]).0 != "?"@,
    decreases s.len(),
{
    reveal_strlit("?");
    reveal_strlit("[/]");
    reveal_strlit("a");
    if s.len() > 0 {
        lemma_shortened_without_help(s.drop_last());
        let rest = shortened(s.drop_last());
        let (k, d) = s.last();
        if k == "o"@ || k == "?"@ || k == "Tab"@ {
            assert(shortened(s) == rest);
        } else if k == "[ / ]"@ {
            assert(shortened(s) == rest.push(("[/]"@, "Cycle"@)));
            assert("[/]"@[0] != "?"@[0]);
        } else if k == "a"@ {
            assert(shortened(s) == rest.push((k, "More"@)));
            assert("a"@[0] != "?"@[0]);
        } else {
            assert(shortened(s) == rest.push((k, d)));
        }
    }
}

/// The footer shown while nothing is typed keeps the account key, the key of
/// the actions (as `More`) and the quit or back key visible, and leaves the
/// help key out.
pub proof fn footer_keeps_account_more_and_quit(a: App)
    requires
        !spec_is_filtering(a),
    ensures
        has_key(spec_footer_actions(a), "A"@),
        spec_footer_actions(a).contains(("a"@, "More"@)),
        has_key(spec_footer_actions(a), "q"@),
        !has_key(spec_footer_actions(a), "?"@),
{
    reveal_strlit("A");
    reveal_strlit("a");
    reveal_strlit("?");
    reveal_strlit("q");
    reveal_strlit("o");
    reveal_strlit("Tab");
    reveal_strlit("[ / ]");
    reveal_strlit("r");
    let all = spec_contextual_actions(a);
    let f = spec_footer_actions(a);
    let q = if a.screen == Screen::Home {
        "Quit"@
    } else {
        "Back"@
    };
    let tail = seq![("A"@, "Account"@), ("a"@, "Actions"@), ("?"@, "Help"@), ("q"@, q)];
    let t3 = seq![("A"@, "Account"@), ("a"@, "Actions"@), ("?"@, "Help"@)];
    let t2 = seq![("A"@, "Account"@), ("a"@, "Actions"@)];
    let t1 = seq![("A"@, "Account"@)];
    assert(tail.drop_last() =~= t3);
    assert(t3.drop_last() =~= t2);
    assert(t2.drop_last() =~= t1);
    assert(t1.drop_last() =~= Seq::<(Seq<char>, Seq<char>)>::empty());
    assert("A"@ != "o"@ && "A"@ != "?"@ && "A"@ != "Tab"@ && "A"@ != "[ / ]"@ && "A"@ != "a"@) by {
        assert("A"@[0] != "o"@[0] && "A"@[0] != "?"@[0] && "A"@[0] != "Tab"@[0]);
        assert("A"@[0] != "[ / ]"@[0] && "A"@[0] != "a"@[0]);
    }
    assert("a"@ != "o"@ && "a"@ != "?"@ && "a"@ != "Tab"@ && "a"@ != "[ / ]"@) by {
        assert("a"@[0] != "o"@[0] && "a"@[0] != "?"@[0] && "a"@[0] != "Tab"@[0]);
        assert("a"@[0] != "[ / ]"@[0]);
    }
    assert("q"@ != "o"@ && "q"@ != "?"@ && "q"@ != "Tab"@ && "q"@ != "[ / ]"@ && "q"@ != "a"@) by {
        assert("q"@[0] != "o"@[0] && "q"@[0] != "?"@[0] && "q"@[0] != "Tab"@[0]);
        assert("q"@[0] != "[ / ]"@[0] && "q"@[0] != "a"@[0]);
    }
    assert(shortened(Seq::<(Seq<char>, Seq<char>)>::empty()) =~= Seq::empty());
    assert(shortened(t1) =~= seq![("A"@, "Account"@)]);
    assert(shortened(t2) =~= seq![("A"@, "Account"@), ("a"@, "More"@)]);
    assert(shortened(t3) =~= seq![("A"@, "Account"@), ("a"@, "More"@)]);
    assert(shortened(tail) =~= seq![("A"@, "Account"@), ("a"@, "More"@), ("q"@, q)]);
    if a.screen == Screen::Home && a.tab == Tab::Lists && a.lists_view.error is Some {
        assert(all == lists_error_hints());
        let head = seq![("r"@, "Retry"@), ("Tab"@, "Next tab"@)];
        assert(lists_error_hints() =~= head + tail);
        lemma_shortened_concat(head, tail);
        assert(head.drop_last() =~= seq![("r"@, "Retry"@)]);
        assert(seq![("r"@, "Retry"@)].drop_last() =~= Seq::<(Seq<char>, Seq<char>)>::empty());
        assert("r"@ != "o"@ && "r"@ != "?"@ && "r"@ != "Tab"@ && "r"@ != "[ / ]"@ && "r"@ != "a"@) by {
            assert("r"@[0] != "o"@[0] && "r"@[0] != "?"@[0] && "r"@[0] != "Tab"@[0]);
            assert("r"@[0] != "[ / ]"@[0] && "r"@[0] != "a"@[0]);
        }
        assert(shortened(Seq::<(Seq<char>, Seq<char>)>::empty()) =~= Seq::empty());
        assert(shortened(seq![("r"@, "Retry"@)]) =~= seq![("r"@, "Retry"@)]);
        assert(shortened(head) =~= seq![("r"@, "Retry"@)]);
        assert(f =~= seq![("r"@, "Retry"@), ("A"@, "Account"@), ("a"@, "More"@), ("q"@, q)]);
        assert(f[1].0 == "A"@);
        assert(f[2] == ("a"@, "More"@));
        assert(f[3].0 == "q"@);
    } else {
        let own = crate::actions::screen_hints(a);
        let with_sources = if a.screen == Screen::Home && !has_key(own, "s"@) {
            own.push(("s"@, "Sources"@))
        } else {
            own
        };
        assert(all == with_sources + tail);
        lemma_shortened_concat(with_sources, tail);
        let n: int = shortened(with_sources).len() as int;
        assert(f =~= shortened(with_sources) + seq![
            ("A"@, "Account"@),
            ("a"@, "More"@),
            ("q"@, q),
        ]);
        assert(f[n].0 == "A"@);
        assert(f[n + 1] == ("a"@, "More"@));
        assert(f[n + 2].0 == "q"@);
    }
    lemma_shortened_without_help(all);
}

/// Whatever key is pressed, the themes stay the same, and the selected theme
/// and the one shown before the picker opened stay among them.
pub proof fn keys_keep_the_theme_selection(
    v: AppView,
    k: KeyPress,
    page: usize,
    w: AppView,
    e: Effect,
)
    requires
        key_step(v, k, page, w, e),
        v.theme_index < v.themes.len(),
        v.original_theme_index < v.themes.len(),
    ensures
        w.themes == v.themes,
        w.theme_index < w.themes.len(),
        w.original_theme_index < w.themes.len(),
{
    if v.source_picker.visible {
        lemma_source_picker_keeps_themes(v, k, w, e);
    } else if v.account_picker.visible {
    } else if v.show_help {
    } else if v.show_actions && closes_actions(k) {
    } else {
        lemma_mode_step_keeps_themes(AppView { show_actions: false, ..v }, k, page, w, e);
    }
}

proof fn lemma_source_picker_keeps_themes(v: AppView, k: KeyPress, w: AppView, e: Effect)
    requires
        source_picker_key(v, k, w, e),
    ensures
        w.themes == v.themes,
        w.theme_index == v.theme_index,
        w.original_theme_index == v.original_theme_index,
{
}

#[verifier::rlimit(40)]
proof fn lemma_mode_step_keeps_themes(v: AppView, k: KeyPress, page: usize, w: AppView, e: Effect)
    requires
        mode_step(v, k, page, w, e),
        v.theme_index < v.themes.len(),
        v.original_theme_index < v.themes.len(),
    ensures
        w.themes == v.themes,
        w.theme_index < w.themes.len(),
        w.original_theme_index < w.themes.len(),
{
    if key_mode(v) == KeyMode::Normal && !is_global(k) && v.screen == Screen::ItemDetail {
        assert(item_key(v, k, page, w, e));
    }
}

/// Selecting themes changes nothing but the selected theme.
proof fn lemma_selections_keep_the_rest(v: AppView, picks: Seq<usize>)
    ensures
        theme_selections(v, picks) == (AppView {
            theme_index: theme_selections(v, picks).theme_index,
            ..v
        }),
    decreases picks.len(),
{
    if picks.len() > 0 {
        lemma_selections_keep_the_rest(v, picks.drop_last());
    }
}

/// Cancelling the theme picker undoes every preview: after opening it, any
/// number of selections, then cancelling, the selected theme is the one
/// selected before it opened, the picker is hidden, and nothing else
/// changed but the remembered theme, which is that same one.
pub proof fn cancel_undoes_every_preview(v: AppView, picks: Seq<usize>)
    ensures
        theme_cancelled(theme_selections(theme_opened(v), picks)) == (AppView {
            original_theme_index: v.theme_index,
            show_theme_picker: false,
            ..v
        }),
{
    lemma_selections_keep_the_rest(theme_opened(v), picks);
}

/// `[` after `]` comes back to the source shown before, and so does `]`
/// after `[` (when the current source is one of the listed ones).
pub proof fn source_brackets_undo_each_other(l: RepoListView)
    requires
        source_index(l.source) < source_count(l),
        source_count(l) <= usize::MAX,
    ensures
        prev_source(RepoListView { source: source_at(next_source(l)), ..l }) == source_index(
            l.source,
        ),
        next_source(RepoListView { source: source_at(prev_source(l)), ..l }) == source_index(
            l.source,
        ),
{
}

// ---------------------------------------------------------------------------
// Status checks
// ---------------------------------------------------------------------------

/// The combined mark of a pull request's checks: none without checks; a fail
/// as soon as any check, wherever it stands, finished as a failure, a
/// time-out or a cancellation; else pending as soon as any check has not
/// finished; else a pass.
pub proof fn checks_combine_into_one_mark(checks: Seq<CheckRun>)
    ensures
        checks.len() == 0 ==> combined_check_status(checks) == CheckStatus::NoChecks,
        forall|i: int|
            0 <= i < checks.len() && opt_chars((#[trigger] checks[i]).status) == "COMPLETED"@ && (
            opt_chars(checks[i].conclusion) == "FAILURE"@ || opt_chars(checks[i].conclusion)
                == "TIMED_OUT"@ || opt_chars(checks[i].conclusion) == "CANCELLED"@) ==> combined_check_status(
                checks,
            ) == CheckStatus::Fail,
        combined_check_status(checks) == CheckStatus::Fail ==> exists|i: int|
            0 <= i < checks.len() && opt_chars((#[trigger] checks[i]).status) == "COMPLETED"@ && (
            opt_chars(checks[i].conclusion) == "FAILURE"@ || opt_chars(checks[i].conclusion)
                == "TIMED_OUT"@ || opt_chars(checks[i].conclusion) == "CANCELLED"@),
        combined_check_status(checks) == CheckStatus::Pending ==> exists|i: int|
            0 <= i < checks.len() && opt_chars((#[trigger] checks[i]).status) != "COMPLETED"@,
        combined_check_status(checks) == CheckStatus::Pass ==> checks.len() > 0 && forall|i: int|
            0 <= i < checks.len() ==> opt_chars((#[trigger] checks[i]).status) == "COMPLETED"@,
{
    assert forall|i: int|
        0 <= i < checks.len() && opt_chars((#[trigger] checks[i]).status) == "COMPLETED"@ && (
        opt_chars(checks[i].conclusion) == "FAILURE"@ || opt_chars(checks[i].conclusion)
            == "TIMED_OUT"@ || opt_chars(checks[i].conclusion) == "CANCELLED"@) implies combined_check_status(
        checks,
    ) == CheckStatus::Fail by {
        assert(check_failed(checks[i]));
    }
    if combined_check_status(checks) == CheckStatus::Pass {
        assert forall|i: int| 0 <= i < checks.len() implies opt_chars(
            (#[trigger] checks[i]).status,
        ) == "COMPLETED"@ by {
            assert(check_completed(checks[i]));
        }
    }
}

// ---------------------------------------------------------------------------
// Case-insensitive filters, stated over the entries' own text
// ---------------------------------------------------------------------------

/// On a repository's pull requests, the filter keeps exactly the pull
/// requests whose lower-case title, number or author's lower-case login
/// contains the filter's lower-case form (all of them without a filter).
pub proof fn pull_request_filter_is_case_insensitive(v: RepoDetailViewView)
    requires
        v.tab == RepoTab::PullRequests,
        v.prs.len() <= usize::MAX,
    ensures
        ({
            let q = lowercase(v.filter);
            let f = crate::ui::repo_detail::refiltered(v).filtered;
            &&& forall|i: int|
                0 <= i < v.prs.len() && (q.len() == 0 || contains(
                    lowercase((#[trigger] v.prs[i]).title@),
                    q,
                ) || contains(decimal(v.prs[i].number as nat), q) || (v.prs[i].author matches Some(
                    a,
                ) && contains(lowercase(a.login@), q))) ==> f.contains(i as usize)
            &&& forall|k: int|
                0 <= k < f.len() ==> {
                    let i = #[trigger] f[k] as int;
                    &&& 0 <= i < v.prs.len()
                    &&& (q.len() == 0 || contains(lowercase(v.prs[i].title@), q) || contains(
                        decimal(v.prs[i].number as nat),
                        q,
                    ) || (v.prs[i].author matches Some(a) && contains(lowercase(a.login@), q)))
                }
        }),
{
    let q = lowercase(v.filter);
    let p = |i: int| q.len() == 0 || pr_matches(v.prs[i], q);
    lemma_indices_where(v.prs.len(), p);
    assert forall|i: int|
        0 <= i < v.prs.len() && (q.len() == 0 || contains(lowercase((#[trigger] v.prs[i]).title@), q)
            || contains(decimal(v.prs[i].number as nat), q) || (v.prs[i].author matches Some(a)
            && contains(lowercase(a.login@), q))) implies crate::ui::repo_detail::refiltered(
        v,
    ).filtered.contains(i as usize) by {
        assert(p(i));
    }
}

/// On a repository's issues, the filter keeps exactly the issues whose
/// lower-case title, number, author's lower-case login or some label's
/// lower-case name contains the filter's lower-case form (all of them
/// without a filter).
pub proof fn issue_filter_is_case_insensitive(v: RepoDetailViewView)
    requires
        v.tab == RepoTab::Issues,
        v.issues.len() <= usize::MAX,
    ensures
        ({
            let q = lowercase(v.filter);
            let f = crate::ui::repo_detail::refiltered(v).filtered;
            &&& forall|i: int|
                0 <= i < v.issues.len() && (q.len() == 0 || contains(
                    lowercase((#[trigger] v.issues[i]).title@),
                    q,
                ) || contains(decimal(v.issues[i].number as nat), q) || (v.issues[i].author matches Some(
                    a,
                ) && contains(lowercase(a.login@), q)) || exists|l: int|
                    0 <= l < v.issues[i].labels@.len() && contains(
                        lowercase((#[trigger] v.issues[i].labels@[l]).name@),
                        q,
                    )) ==> f.contains(i as usize)
            &&& forall|k: int|
                0 <= k < f.len() ==> {
                    let i = #[trigger] f[k] as int;
                    &&& 0 <= i < v.issues.len()
                    &&& (q.len() == 0 || contains(lowercase(v.issues[i].title@), q) || contains(
                        decimal(v.issues[i].number as nat),
                        q,
                    ) || (v.issues[i].author matches Some(a) && contains(lowercase(a.login@), q))
                        || exists|l: int|
                        0 <= l < v.issues[i].labels@.len() && contains(
                            lowercase((#[trigger] v.issues[i].labels@[l]).name@),
                            q,
                        ))
                }
        }),
{
    let q = lowercase(v.filter);
    let p = |i: int| q.len() == 0 || issue_matches(v.issues[i], q);
    lemma_indices_where(v.issues.len(), p);
    assert forall|i: int|
        0 <= i < v.issues.len() && (q.len() == 0 || contains(
            lowercase((#[trigger] v.issues[i]).title@),
            q,
        ) || contains(decimal(v.issues[i].number as nat), q) || (v.issues[i].author matches Some(a)
            && contains(lowercase(a.login@), q)) || exists|l: int|
            0 <= l < v.issues[i].labels@.len() && contains(
                lowercase((#[trigger] v.issues[i].labels@[l]).name@),
                q,
            )) implies crate::ui::repo_detail::refiltered(v).filtered.contains(i as usize) by {
        assert(p(i));
    }
}

/// The repository filter keeps a repository whose lower-case name or
/// description contains the filter's lower-case form, and keeps nothing else
/// (all of them without a filter).
pub proof fn repository_filter_is_case_insensitive(v: RepoListView)
    requires
        v.repos.len() <= usize::MAX,
    ensures
        ({
            let q = lowercase(v.filter);
            let f = crate::ui::repo_list::refiltered(v).filtered;
            &&& forall|i: int|
                0 <= i < v.repos.len() && (v.filter.len() == 0 || contains(
                    lowercase((#[trigger] v.repos[i]).full_name@),
                    q,
                ) || contains(lowercase(opt_chars(v.repos[i].description)), q)) ==> f.contains(
                    i as usize,
                )
            &&& forall|k: int|
                0 <= k < f.len() ==> {
                    let i = #[trigger] f[k] as int;
                    &&& 0 <= i < v.repos.len()
                    &&& (v.filter.len() == 0 || contains(lowercase(v.repos[i].full_name@), q)
                        || contains(lowercase(opt_chars(v.repos[i].description)), q))
                }
        }),
{
    let q = lowercase(v.filter);
    let p = |i: int| v.filter.len() == 0 || repo_matches(v.repos[i], lowercase(v.filter));
    lemma_indices_where(v.repos.len(), p);
    assert forall|i: int|
        0 <= i < v.repos.len() && (v.filter.len() == 0 || contains(
            lowercase((#[trigger] v.repos[i]).full_name@),
            q,
        ) || contains(lowercase(opt_chars(v.repos[i].description)), q)) implies crate::ui::repo_list::refiltered(
        v,
    ).filtered.contains(i as usize) by {
        assert(p(i));
    }
}

/// The notification filter keeps a notification whose lower-case title,
/// repository name or reason contains the filter's lower-case form, and
/// keeps nothing else (all of them without a filter).
pub proof fn notification_filter_is_case_insensitive(v: NotifListView)
    requires
        v.notifs.len() <= usize::MAX,
    ensures
        ({
            let q = lowercase(v.filter);
            let f = crate::ui::notif_list::refiltered(v).filtered;
            &&& forall|i: int|
                0 <= i < v.notifs.len() && (q.len() == 0 || contains(
                    lowercase((#[trigger] v.notifs[i]).subject.title@),
                    q,
                ) || contains(lowercase(v.notifs[i].repository.full_name@), q) || contains(
                    lowercase(v.notifs[i].reason@),
                    q,
                )) ==> f.contains(i as usize)
            &&& forall|k: int|
                0 <= k < f.len() ==> {
                    let i = #[trigger] f[k] as int;
                    &&& 0 <= i < v.notifs.len()
                    &&& (q.len() == 0 || contains(lowercase(v.notifs[i].subject.title@), q)
                        || contains(lowercase(v.notifs[i].repository.full_name@), q) || contains(
                        lowercase(v.notifs[i].reason@),
                        q,
                    ))
                }
        }),
{
    let q = lowercase(v.filter);
    let p = |i: int| lowercase(v.filter).len() == 0 || notif_matches(v.notifs[i], lowercase(v.filter));
    lemma_indices_where(v.notifs.len(), p);
    assert forall|i: int|
        0 <= i < v.notifs.len() && (q.len() == 0 || contains(
            lowercase((#[trigger] v.notifs[i]).subject.title@),
            q,
        ) || contains(lowercase(v.notifs[i].repository.full_name@), q) || contains(
            lowercase(v.notifs[i].reason@),
            q,
        )) implies crate::ui::notif_list::refiltered(v).filtered.contains(i as usize) by {
        assert(p(i));
    }
}

// ---------------------------------------------------------------------------
// Moving the selection with keys
// ---------------------------------------------------------------------------

/// The browser shows a home section with nothing over it and nothing typed:
/// no picker, help, actions menu, filter or query being edited.
pub open spec fn plain_home(v: AppView) -> bool {
    &&& !v.source_picker.visible
    &&& !v.account_picker.visible
    &&& !v.show_help
    &&& !v.show_actions
    &&& !v.show_theme_picker
    &&& v.screen == Screen::Home
    &&& !v.repo_list.filtering
    &&& !v.notif_list.filtering
    &&& !v.search.editing
    &&& !v.lists_view.filtering
}

/// On a home section, `k` and the Up arrow move the selection one entry
/// back (not before the first), and `j` and the Down arrow one entry forward
/// (not past the last); they leave the work to the caller empty.
pub proof fn j_and_k_move_the_selection(
    v: AppView,
    k: KeyPress,
    page: usize,
    w: AppView,
    e: Effect,
    i: usize,
)
    requires
        plain_home(v),
        key_step(v, k, page, w, e),
        v.tab == Tab::Repos || v.tab == Tab::Search || v.tab == Tab::Notifications,
        v.tab == Tab::Repos ==> v.repo_list.state == Some(i),
        v.tab == Tab::Search ==> v.search.state == Some(i),
        v.tab == Tab::Notifications ==> v.notif_list.state == Some(i),
    ensures
        (k.code == KeyCode::Char('k') || k.code == KeyCode::Up || k.code == KeyCode::Char('j')
            || k.code == KeyCode::Down) ==> e is Nothing,
        (k.code == KeyCode::Char('k') || k.code == KeyCode::Up) ==> {
            let want = if i > 0 {
                Some((i - 1) as usize)
            } else {
                Some(i)
            };
            &&& v.tab == Tab::Repos ==> w.repo_list.state == want
            &&& v.tab == Tab::Search ==> w.search.state == want
            &&& v.tab == Tab::Notifications ==> w.notif_list.state == want
        },
        (k.code == KeyCode::Char('j') || k.code == KeyCode::Down) ==> {
            &&& v.tab == Tab::Repos ==> w.repo_list.state == if i + 1 < v.repo_list.filtered.len() {
                Some((i + 1) as usize)
            } else {
                Some(i)
            }
            &&& v.tab == Tab::Search ==> w.search.state == if i + 1 < v.search.results.len() {
                Some((i + 1) as usize)
            } else {
                Some(i)
            }
            &&& v.tab == Tab::Notifications ==> w.notif_list.state == if i + 1
                < v.notif_list.filtered.len() {
                Some((i + 1) as usize)
            } else {
                Some(i)
            }
        },
    {
    }

// ---------------------------------------------------------------------------
// Theme roles
// ---------------------------------------------------------------------------

/// A role of `[ui]` that names a color of `[colors]` takes that color, each
/// role its own: the accent, the selection, the key, the heading, the
/// border, the background, the text and the dimmed text.
pub proof fn theme_roles_take_the_colors_they_name(content: Seq<char>, name: Seq<char>, c: Rgb)
    ensures
        ({
            let st = theme_scan(lines(content));
            let t = spec_parse_theme(content);
            &&& last_value(st.colors, name) == Some(c) ==> {
                &&& last_value(st.ui, "accent"@) == Some(name) ==> t.accent == c
                &&& last_value(st.ui, "selection"@) == Some(name) ==> t.selection == c
                &&& last_value(st.ui, "key"@) == Some(name) ==> t.key == c
                &&& last_value(st.ui, "heading"@) == Some(name) ==> t.heading == c
                &&& last_value(st.ui, "border"@) == Some(name) ==> t.border == c
                &&& last_value(st.ui, "background"@) == Some(name) ==> t.bg == c
                &&& last_value(st.ui, "text"@) == Some(name) ==> t.fg == c
                &&& last_value(st.ui, "text_dim"@) == Some(name) ==> t.dim == c
            }
        }),
{
}

// ---------------------------------------------------------------------------
// Opening the selection in the browser
// ---------------------------------------------------------------------------

/// On a repository's issues or pull requests, `o` opens the page of the
/// selected entry: `https://github.com/<repo>/issues/<n>` or
/// `.../pull/<n>` with the number of the entry at the selected kept
/// position.
pub proof fn open_gives_the_selected_item(v: AppView, s: usize)
    requires
        v.screen == Screen::RepoDetail,
        v.repo_detail is Some,
        v.selected_repo is Some,
        v.repo_detail->0.list_state == Some(s),
        s < v.repo_detail->0.filtered.len(),
    ensures
        ({
            let d = v.repo_detail->0;
            let name = v.selected_repo->0;
            let k = d.filtered[s as int] as int;
            &&& d.tab == RepoTab::PullRequests && k < d.prs.len() ==> open_target(v) == Some(
                "https://github.com/"@ + name + "/pull/"@ + decimal(d.prs[k].number as nat),
            )
            &&& d.tab == RepoTab::Issues && k < d.issues.len() ==> open_target(v) == Some(
                "https://github.com/"@ + name + "/issues/"@ + decimal(d.issues[k].number as nat),
            )
        }),
{
}

/// On the home screen's repositories, `o` opens the page of the selected
/// repository, `https://github.com/` followed by its full name.
pub proof fn open_gives_the_selected_repository(v: AppView, s: usize)
    requires
        v.screen == Screen::Home,
        v.tab == Tab::Repos,
        v.repo_list.state == Some(s),
        s < v.repo_list.filtered.len(),
        v.repo_list.filtered[s as int] < v.repo_list.repos.len(),
    ensures
        open_target(v) == Some(
            "https://github.com/"@ + v.repo_list.repos[v.repo_list.filtered[s as int] as int].full_name@,
        ),
{
}

/// Tab walks the home sections in order: from the lists to the search, to
/// the notifications, then back to the repositories on the user's own; from
/// the last source of the repositories it goes to the lists.
pub proof fn tab_walks_the_sections_in_order(v: AppView)
    requires
        v.repo_list.source matches RepoSource::Org(i) ==> i + 2 <= usize::MAX,
    ensures
        v.tab == Tab::Lists ==> next_tab_state(v).tab == Tab::Search,
        v.tab == Tab::Search ==> next_tab_state(v).tab == Tab::Notifications,
        v.tab == Tab::Notifications ==> next_tab_state(v).tab == Tab::Repos
            && next_tab_state(v).repo_list.source == RepoSource::Mine,
        v.tab == Tab::Repos && source_index(v.repo_list.source) + 1 >= 2 + v.repo_list.orgs.len()
            ==> next_tab_state(v).tab == Tab::Lists,
{
}

} // verus!
