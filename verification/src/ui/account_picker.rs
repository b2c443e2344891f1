//! The picker of the GitHub account that `gh` works as. Listing the accounts
//! and switching between them are fetches that the caller makes; each is
//! tagged with the generation of the picker that asked for it, and answers of
//! an older generation are dropped.
use crate::gh::GitHubAccount;
use crate::text::str_eq;
use crate::ui::display::{
    concat, dim_line, error_line, error_text, pieces, push_line, push_piece, push_text,
    spinner_line, spinner_text, text_lines, Body, Piece, Tone,
};
use vstd::prelude::*;

verus! {

/// What a fetch for the picker brought back.
pub enum PickerMsg {
    Accounts { generation: u64, result: Result<Vec<GitHubAccount>, String> },
    Switched { generation: u64, result: Result<(), String> },
}

/// A switch of the active account to make.
pub struct SwitchRequest {
    pub generation: u64,
    pub host: String,
    pub login: String,
}

/// The state of the account picker.
pub struct AccountPicker {
    pub visible: bool,
    pub accounts: Vec<GitHubAccount>,
    pub selected: usize,
    pub loading: bool,
    pub switching: bool,
    pub error: Option<String>,
    pub generation: u64,
}

/// What the account picker holds.
#[verifier::ext_equal]
pub struct AccountPickerView {
    pub visible: bool,
    pub accounts: Seq<GitHubAccount>,
    pub selected: usize,
    pub loading: bool,
    pub switching: bool,
    pub error: Option<String>,
    pub generation: u64,
}

impl View for AccountPicker {
    type V = AccountPickerView;

    open spec fn view(&self) -> AccountPickerView {
        AccountPickerView {
            visible: self.visible,
            accounts: self.accounts@,
            selected: self.selected,
            loading: self.loading,
            switching: self.switching,
            error: self.error,
            generation: self.generation,
        }
    }
}

/// The selection stays within the accounts: on one of them, or at 0 when
/// there are none.
pub open spec fn selection_ok(p: AccountPickerView) -> bool {
    if p.accounts.len() == 0 {
        p.selected == 0
    } else {
        p.selected < p.accounts.len()
    }
}

/// The position of the first active account, if any.
pub open spec fn first_active(accounts: Seq<GitHubAccount>) -> Option<int>
    decreases accounts.len(),
{
    if accounts.len() == 0 {
        None
    } else if accounts[0].active {
        Some(0)
    } else {
        match first_active(accounts.drop_first()) {
            Some(k) => Some(k + 1),
            None => None,
        }
    }
}

/// The position of the first active account, else 0.
pub open spec fn active_position(accounts: Seq<GitHubAccount>) -> usize {
    match first_active(accounts) {
        Some(k) => k as usize,
        None => 0,
    }
}

/// What one answer changes, and whether it completed a switch.
pub open spec fn apply_picker_message(p: AccountPickerView, m: PickerMsg) -> (AccountPickerView, bool) {
    match m {
        PickerMsg::Accounts { generation, result } => if generation == p.generation {
            match result {
                Ok(accounts) => (
                    AccountPickerView {
                        loading: false,
                        accounts: accounts@,
                        selected: active_position(accounts@),
                        ..p
                    },
                    false,
                ),
                Err(e) => (AccountPickerView { loading: false, error: Some(e), ..p }, false),
            }
        } else {
            (p, false)
        },
        PickerMsg::Switched { generation, result } => if generation == p.generation {
            match result {
                Ok(()) => (AccountPickerView { switching: false, visible: false, ..p }, true),
                Err(e) => (AccountPickerView { switching: false, error: Some(e), ..p }, false),
            }
        } else {
            (p, false)
        },
    }
}

/// What answers change, taken in order, and whether one of them completed a
/// switch.
pub open spec fn apply_picker_messages(p: AccountPickerView, ms: Seq<PickerMsg>) -> (
    AccountPickerView,
    bool,
)
    decreases ms.len(),
{
    if ms.len() == 0 {
        (p, false)
    } else {
        let (q, sw) = apply_picker_messages(p, ms.drop_last());
        let (r, sw2) = apply_picker_message(q, ms.last());
        (r, sw || sw2)
    }
}

fn active_index(accounts: &Vec<GitHubAccount>) -> (r: usize)
    ensures
        r == active_position(accounts@),
        accounts.len() > 0 ==> r < accounts.len(),
{
    let n = accounts.len();
    let mut i: usize = 0;
    while i < n && !accounts[i].active
        invariant
            i <= n,
            n == accounts.len(),
            forall|j: int| 0 <= j < i ==> !accounts@[j].active,
        decreases n - i,
    {
        i += 1;
    }
    proof {
        lemma_active_position(accounts@, i as int);
    }
    if i < n {
        i
    } else {
        0
    }
}

proof fn lemma_active_position(s: Seq<GitHubAccount>, i: int)
    requires
        0 <= i <= s.len(),
        forall|j: int| 0 <= j < i ==> !s[j].active,
        i < s.len() ==> s[i].active,
    ensures
        first_active(s) == if i < s.len() {
            Some(i)
        } else {
            None::<int>
        },
    decreases i,
{
    if i > 0 {
        let t = s.drop_first();
        assert forall|j: int| 0 <= j < i - 1 implies !t[j].active by {
            assert(t[j] == s[j + 1]);
        }
        if i < s.len() {
            assert(t[i - 1] == s[i]);
        }
        lemma_active_position(t, i - 1);
    }
}

/// How an account is listed: a mark when it is active, its login, its host,
/// `active` when it is active, and its state when it is not logged in.
pub open spec fn account_row_text(a: GitHubAccount) -> Seq<(Seq<char>, Tone)> {
    let row = seq![
        if a.active {
            ("\u{25cf} "@, Tone::Green)
        } else {
            ("  "@, Tone::Dim)
        },
        (a.login@, Tone::Normal),
        (" @ "@ + a.host@, Tone::Dim),
    ];
    let with_active = if a.active {
        row.push(("  active"@, Tone::Green))
    } else {
        row
    };
    if a.state@ != "Logged in"@ {
        with_active.push(("  "@ + a.state@, Tone::Yellow))
    } else {
        with_active
    }
}

fn account_row(a: &GitHubAccount) -> (l: Vec<Piece>)
    ensures
        pieces(l@) == account_row_text(*a),
{
    let mut l: Vec<Piece> = Vec::new();
    if a.active {
        push_text(&mut l, "\u{25cf} ", Tone::Green);
    } else {
        push_text(&mut l, "  ", Tone::Dim);
    }
    push_piece(&mut l, a.login.clone(), Tone::Normal);
    push_piece(&mut l, concat(" @ ", a.host.as_str()), Tone::Dim);
    if a.active {
        push_text(&mut l, "  active", Tone::Green);
    }
    if !str_eq(a.state.as_str(), "Logged in") {
        push_piece(&mut l, concat("  ", a.state.as_str()), Tone::Yellow);
    }
    assert(pieces(l@) =~= account_row_text(*a));
    l
}

/// A hidden picker with no accounts, of generation 0.
pub open spec fn new_account_picker() -> AccountPickerView {
    AccountPickerView {
        visible: false,
        accounts: Seq::empty(),
        selected: 0,
        loading: false,
        switching: false,
        error: None,
        generation: 0,
    }
}

impl AccountPicker {
    /// A hidden picker with no accounts.
    pub fn new() -> (p: Self)
        ensures
            p@ == new_account_picker(),
    {
        AccountPicker {
            visible: false,
            accounts: Vec::new(),
            selected: 0,
            loading: false,
            switching: false,
            error: None,
            generation: 0,
        }
    }

    /// Shows the picker, empty and loading, as a new generation; the answer
    /// is that generation, with which the caller tags the listing of the
    /// accounts.
    pub fn open(&mut self) -> (generation: u64)
        ensures
            generation == (if old(self).generation == u64::MAX {
                0
            } else {
                old(self).generation + 1
            }),
            final(self)@ == (AccountPickerView {
                visible: true,
                accounts: Seq::empty(),
                selected: 0,
                loading: true,
                switching: false,
                error: None,
                generation,
            }),
    {
        self.generation = self.generation.wrapping_add(1);
        self.visible = true;
        self.accounts.clear();
        self.selected = 0;
        self.loading = true;
        self.switching = false;
        self.error = None;
        self.generation
    }

    /// The line above the accounts.
    pub fn header_line() -> (l: Vec<Piece>)
        ensures
            pieces(l@) == seq![(" Select the account ghx should use"@, Tone::Dim)],
    {
        dim_line(" Select the account ghx should use")
    }

    /// What the list of accounts shows: the spinner while loading; with no
    /// accounts, the error or how to log in; else the rows of the accounts.
    pub fn body(&self, tick: usize) -> (b: Body)
        ensures
            if self.loading {
                b matches Body::Message(l) && pieces(l@) == spinner_text(
                    tick,
                    "Loading gh accounts..."@,
                )
            } else if self.accounts@.len() == 0 {
                b matches Body::Message(l) && pieces(l@) == seq![
                    (
                        " "@ + match self.error {
                            Some(e) => e@,
                            None => "No authenticated accounts. Run `gh auth login` first."@,
                        },
                        Tone::Red,
                    ),
                ]
            } else {
                b matches Body::Rows(rs) && text_lines(rs@) == self.accounts@.map_values(
                    |a: GitHubAccount| account_row_text(a),
                )
            },
    {
        if self.loading {
            return Body::Message(spinner_line(tick, "Loading gh accounts..."));
        }
        if self.accounts.len() == 0 {
            let text = match &self.error {
                Some(e) => concat(" ", e.as_str()),
                None => concat(" ", "No authenticated accounts. Run `gh auth login` first."),
            };
            let mut l: Vec<Piece> = Vec::new();
            push_piece(&mut l, text, Tone::Red);
            return Body::Message(l);
        }
        let mut rows: Vec<Vec<Piece>> = Vec::new();
        let n = self.accounts.len();
        let mut k: usize = 0;
        while k < n
            invariant
                n == self.accounts.len(),
                k <= n,
                text_lines(rows@) == self.accounts@.take(k as int).map_values(
                    |a: GitHubAccount| account_row_text(a),
                ),
            decreases n - k,
        {
            let row = account_row(&self.accounts[k]);
            push_line(&mut rows, row);
            assert(self.accounts@.take(k as int + 1).map_values(
                |a: GitHubAccount| account_row_text(a),
            ) =~= self.accounts@.take(k as int).map_values(
                |a: GitHubAccount| account_row_text(a),
            ).push(account_row_text(self.accounts@[k as int])));
            k += 1;
        }
        assert(self.accounts@.take(n as int) =~= self.accounts@);
        Body::Rows(rows)
    }

    /// The line under the accounts: the spinner while switching, the error,
    /// else the keys to switch and to close.
    pub fn status_line(&self, tick: usize) -> (l: Vec<Piece>)
        ensures
            pieces(l@) == if self.switching {
                spinner_text(tick, "Switching account..."@)
            } else if self.error is Some {
                error_text(self.error->0@)
            } else {
                seq![
                    (" Enter"@, Tone::Accent),
                    (" switch    "@, Tone::Dim),
                    ("Esc"@, Tone::Accent),
                    (" close"@, Tone::Dim),
                ]
            },
    {
        if self.switching {
            return spinner_line(tick, "Switching account...");
        }
        if let Some(e) = &self.error {
            return error_line(e.as_str());
        }
        let mut l: Vec<Piece> = Vec::new();
        push_text(&mut l, " Enter", Tone::Accent);
        push_text(&mut l, " switch    ", Tone::Dim);
        push_text(&mut l, "Esc", Tone::Accent);
        push_text(&mut l, " close", Tone::Dim);
        assert(pieces(l@) =~= seq![
            (" Enter"@, Tone::Accent),
            (" switch    "@, Tone::Dim),
            ("Esc"@, Tone::Accent),
            (" close"@, Tone::Dim),
        ]);
        l
    }

    /// Hides the picker, unless a switch is under way.
    pub fn close(&mut self)
        ensures
            final(self)@ == (AccountPickerView {
                visible: old(self).visible && old(self).switching,
                ..old(self)@
            }),
    {
        if !self.switching {
            self.visible = false;
        }
    }

    /// Selects the next account, unless a switch is under way.
    pub fn move_down(&mut self)
        requires
            old(self).selected < usize::MAX,
        ensures
            final(self)@ == (AccountPickerView {
                selected: if !old(self).switching && old(self).selected + 1 < old(
                    self,
                ).accounts.len() {
                    (old(self).selected + 1) as usize
                } else {
                    old(self).selected
                },
                ..old(self)@
            }),
            selection_ok(old(self)@) ==> selection_ok(final(self)@),
    {
        if !self.switching && self.selected + 1 < self.accounts.len() {
            self.selected += 1;
        }
    }

    /// Selects the previous account, unless a switch is under way.
    pub fn move_up(&mut self)
        ensures
            final(self)@ == (AccountPickerView {
                selected: if !old(self).switching && old(self).selected > 0 {
                    (old(self).selected - 1) as usize
                } else {
                    old(self).selected
                },
                ..old(self)@
            }),
            selection_ok(old(self)@) ==> selection_ok(final(self)@),
    {
        if !self.switching {
            self.selected = self.selected.saturating_sub(1);
        }
    }

    /// Selects the first account, unless a switch is under way.
    pub fn move_to_first(&mut self)
        ensures
            final(self)@ == (AccountPickerView {
                selected: if !old(self).switching {
                    0
                } else {
                    old(self).selected
                },
                ..old(self)@
            }),
            selection_ok(old(self)@) ==> selection_ok(final(self)@),
    {
        if !self.switching {
            self.selected = 0;
        }
    }

    /// Selects the last account, unless a switch is under way or there is none.
    pub fn move_to_last(&mut self)
        ensures
            final(self)@ == (AccountPickerView {
                selected: if !old(self).switching && old(self).accounts.len() > 0 {
                    (old(self).accounts.len() - 1) as usize
                } else {
                    old(self).selected
                },
                ..old(self)@
            }),
            selection_ok(old(self)@) ==> selection_ok(final(self)@),
    {
        if !self.switching && self.accounts.len() > 0 {
            self.selected = self.accounts.len() - 1;
        }
    }

    /// Chooses the selected account. Nothing happens while loading or
    /// switching, or without a selected account; choosing the active account
    /// hides the picker; choosing another starts a switch, and the answer holds
    /// what to switch to.
    pub fn confirm(&mut self) -> (req: Option<SwitchRequest>)
        ensures
            ({
                let p = old(self)@;
                if p.loading || p.switching || p.selected >= p.accounts.len() {
                    req is None && final(self)@ == p
                } else if p.accounts[p.selected as int].active {
                    req is None && final(self)@ == (AccountPickerView { visible: false, ..p })
                } else {
                    &&& req matches Some(r) && r.generation == p.generation && r.host
                        == p.accounts[p.selected as int].host && r.login
                        == p.accounts[p.selected as int].login
                    &&& final(self)@ == (AccountPickerView { switching: true, error: None, ..p })
                }
            }),
    {
        if self.loading || self.switching {
            return None;
        }
        if self.selected >= self.accounts.len() {
            return None;
        }
        let account = &self.accounts[self.selected];
        if account.active {
            self.visible = false;
            return None;
        }
        let req = SwitchRequest {
            generation: self.generation,
            host: account.host.clone(),
            login: account.login.clone(),
        };
        self.switching = true;
        self.error = None;
        Some(req)
    }

    /// Takes in the answers that came back, in order; the result tells
    /// whether the active account changed.
    pub fn poll(&mut self, messages: Vec<PickerMsg>) -> (switched: bool)
        ensures
            (final(self)@, switched) == apply_picker_messages(old(self)@, messages@),
            selection_ok(old(self)@) ==> selection_ok(final(self)@),
    {
        let ghost start = self@;
        let ghost ms = messages@;
        let mut switched = false;
        for m in it: messages
            invariant
                it.seq() == ms,
                (self@, switched) == apply_picker_messages(start, it.seq().take(it.index() as int)),
                selection_ok(start) ==> selection_ok(self@),
        {
            proof {
                assert(it.seq().take(it.index() + 1).drop_last() =~= it.seq().take(
                    it.index() as int,
                ));
            }
            let ghost before = self@;
            let ghost gm = m;
            let mut this_switched = false;
            match m {
                PickerMsg::Accounts { generation, result } => {
                    if generation == self.generation {
                        self.loading = false;
                        match result {
                            Ok(accounts) => {
                                self.selected = active_index(&accounts);
                                self.accounts = accounts;
                            },
                            Err(error) => self.error = Some(error),
                        }
                    }
                },
                PickerMsg::Switched { generation, result } => {
                    if generation == self.generation {
                        self.switching = false;
                        match result {
                            Ok(()) => {
                                self.visible = false;
                                this_switched = true;
                            },
                            Err(error) => self.error = Some(error),
                        }
                    }
                },
            }
            assert((self@, this_switched) == apply_picker_message(before, gm));
            switched = switched || this_switched;
        }
        assert(ms.take(ms.len() as int) =~= ms);
        switched
    }
}

} // verus!
