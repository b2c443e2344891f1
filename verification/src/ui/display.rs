//! Text as the screens show it: lines made of pieces of text, each in a tone
//! of the theme; and the lines that several screens share (the spinner, an
//! error, the filter being typed).
use crate::text::{chars_of, decimal, decimal_chars, push_chars, push_str, string_of};
use crate::theme::{Rgb, Theme};
use vstd::prelude::*;

verus! {

/// The role of a piece of text, which the theme turns into a color.
#[derive(Debug, Clone, Copy, PartialEq, Eq, Structural)]
pub enum Tone {
    Plain,
    Normal,
    Dim,
    Accent,
    AccentBold,
    Key,
    HeadingBold,
    Selected,
    SelectedBar,
    Border,
    Green,
    Red,
    Yellow,
    Purple,
    PurpleBold,
}

/// How a tone is drawn: its text color and background color, if any, and
/// whether it is bold.
#[derive(Debug, Clone, Copy, PartialEq, Eq, Structural)]
pub struct ToneStyle {
    pub fg: Option<Rgb>,
    pub bg: Option<Rgb>,
    pub bold: bool,
}

/// How a tone is drawn in theme `t`: plain text takes the terminal's colors;
/// the selected bar is the selection color, bold, on the border color; each
/// other tone is its role's color, bold for the bold tones.
pub open spec fn spec_tone_style(t: Theme, tone: Tone) -> ToneStyle {
    let fg = |c: Rgb| ToneStyle { fg: Some(c), bg: None, bold: false };
    let bold = |c: Rgb| ToneStyle { fg: Some(c), bg: None, bold: true };
    match tone {
        Tone::Plain => ToneStyle { fg: None, bg: None, bold: false },
        Tone::Normal => fg(t.fg),
        Tone::Dim => fg(t.dim),
        Tone::Accent => fg(t.accent),
        Tone::AccentBold => bold(t.accent),
        Tone::Key => fg(t.key),
        Tone::HeadingBold => bold(t.heading),
        Tone::Selected => bold(t.selection),
        Tone::SelectedBar => ToneStyle { fg: Some(t.selection), bg: Some(t.border), bold: true },
        Tone::Border => fg(t.border),
        Tone::Green => fg(t.green),
        Tone::Red => fg(t.red),
        Tone::Yellow => fg(t.yellow),
        Tone::Purple => fg(t.purple),
        Tone::PurpleBold => bold(t.purple),
    }
}

/// How a tone is drawn in theme `t` (see `spec_tone_style`).
pub fn tone_style(t: &Theme, tone: Tone) -> (s: ToneStyle)
    ensures
        s == spec_tone_style(*t, tone),
{
    let (fg, bold) = match tone {
        Tone::Plain => return ToneStyle { fg: None, bg: None, bold: false },
        Tone::SelectedBar => return ToneStyle { fg: Some(t.selection), bg: Some(t.border), bold: true },
        Tone::Normal => (t.fg, false),
        Tone::Dim => (t.dim, false),
        Tone::Accent => (t.accent, false),
        Tone::AccentBold => (t.accent, true),
        Tone::Key => (t.key, false),
        Tone::HeadingBold => (t.heading, true),
        Tone::Selected => (t.selection, true),
        Tone::Border => (t.border, false),
        Tone::Green => (t.green, false),
        Tone::Red => (t.red, false),
        Tone::Yellow => (t.yellow, false),
        Tone::Purple => (t.purple, false),
        Tone::PurpleBold => (t.purple, true),
    };
    ToneStyle { fg: Some(fg), bg: None, bold }
}

/// A piece of text in one tone.
pub struct Piece {
    pub text: String,
    pub tone: Tone,
}

/// What a list area shows: one message line, or the rows of the list.
pub enum Body {
    Message(Vec<Piece>),
    Rows(Vec<Vec<Piece>>),
}

/// The view of a line: its pieces' texts and tones.
pub open spec fn pieces(v: Seq<Piece>) -> Seq<(Seq<char>, Tone)> {
    v.map_values(|p: Piece| (p.text@, p.tone))
}

/// The view of lines.
pub open spec fn text_lines(v: Seq<Vec<Piece>>) -> Seq<Seq<(Seq<char>, Tone)>> {
    v.map_values(|l: Vec<Piece>| pieces(l@))
}

/// Adds a piece to a line.
pub fn push_piece(line: &mut Vec<Piece>, text: String, tone: Tone)
    ensures
        pieces(final(line)@) == pieces(old(line)@).push((text@, tone)),
{
    let ghost before = line@;
    line.push(Piece { text, tone });
    assert(pieces(line@) =~= pieces(before).push((text@, tone)));
}

/// Adds a piece with the text `s` to a line.
pub fn push_text(line: &mut Vec<Piece>, s: &str, tone: Tone)
    ensures
        pieces(final(line)@) == pieces(old(line)@).push((s@, tone)),
{
    push_piece(line, string_of(&chars_of(s)), tone);
}

/// Adds a line to lines.
pub fn push_line(lines: &mut Vec<Vec<Piece>>, line: Vec<Piece>)
    ensures
        text_lines(final(lines)@) == text_lines(old(lines)@).push(pieces(line@)),
{
    let ghost before = lines@;
    let ghost l = pieces(line@);
    lines.push(line);
    assert(text_lines(lines@) =~= text_lines(before).push(l));
}

/// The text `a` followed by `b`.
pub fn concat(a: &str, b: &str) -> (r: String)
    ensures
        r@ == a@ + b@,
{
    let mut v = chars_of(a);
    push_str(&mut v, b);
    string_of(&v)
}

/// The text `a`, then `b`, then `c`.
pub fn concat3(a: &str, b: &str, c: &str) -> (r: String)
    ensures
        r@ == a@ + b@ + c@,
{
    let mut v = chars_of(a);
    push_str(&mut v, b);
    push_str(&mut v, c);
    string_of(&v)
}

/// The text `a` followed by the decimal notation of `n`.
pub fn with_number(a: &str, n: u64) -> (r: String)
    ensures
        r@ == a@ + decimal(n as nat),
{
    let mut v = chars_of(a);
    push_chars(&mut v, &decimal_chars(n));
    string_of(&v)
}

/// The frames of the spinner.
pub open spec fn spinner_frames() -> Seq<Seq<char>> {
    seq![
        "\u{280b}"@,
        "\u{2819}"@,
        "\u{2839}"@,
        "\u{2838}"@,
        "\u{283c}"@,
        "\u{2834}"@,
        "\u{2826}"@,
        "\u{2827}"@,
        "\u{2807}"@,
        "\u{280f}"@,
    ]
}

/// The spinner frame at tick `tick`: each frame lasts two ticks.
pub fn spinner_frame(tick: usize) -> (f: &'static str)
    ensures
        f@ == spinner_frames()[((tick / 2) % 10) as int],
{
    let k = tick / 2 % 10;
    if k == 0 {
        "\u{280b}"
    } else if k == 1 {
        "\u{2819}"
    } else if k == 2 {
        "\u{2839}"
    } else if k == 3 {
        "\u{2838}"
    } else if k == 4 {
        "\u{283c}"
    } else if k == 5 {
        "\u{2834}"
    } else if k == 6 {
        "\u{2826}"
    } else if k == 7 {
        "\u{2827}"
    } else if k == 8 {
        "\u{2807}"
    } else {
        "\u{280f}"
    }
}

/// The line of something being loaded: the spinner frame, then the message.
pub open spec fn spinner_text(tick: usize, msg: Seq<char>) -> Seq<(Seq<char>, Tone)> {
    seq![
        (" "@ + spinner_frames()[((tick / 2) % 10) as int] + " "@, Tone::Accent),
        (msg, Tone::Dim),
    ]
}

/// The line of something being loaded.
pub fn spinner_line(tick: usize, msg: &str) -> (l: Vec<Piece>)
    ensures
        pieces(l@) == spinner_text(tick, msg@),
{
    let mut l: Vec<Piece> = Vec::new();
    push_piece(&mut l, concat3(" ", spinner_frame(tick), " "), Tone::Accent);
    push_text(&mut l, msg, Tone::Dim);
    l
}

/// The line of an error.
pub open spec fn error_text(err: Seq<char>) -> Seq<(Seq<char>, Tone)> {
    seq![(" Error: "@ + err, Tone::Red)]
}

/// The line of an error.
pub fn error_line(err: &str) -> (l: Vec<Piece>)
    ensures
        pieces(l@) == error_text(err@),
{
    let mut l: Vec<Piece> = Vec::new();
    push_piece(&mut l, concat(" Error: ", err), Tone::Red);
    l
}

/// A line of one dim message.
pub fn dim_line(msg: &str) -> (l: Vec<Piece>)
    ensures
        pieces(l@) == seq![(msg@, Tone::Dim)],
{
    let mut l: Vec<Piece> = Vec::new();
    push_text(&mut l, msg, Tone::Dim);
    l
}

/// The line of a filter being typed: the prompt, then the filter and a block
/// cursor.
pub open spec fn typing_text(filter: Seq<char>, prompt: Tone) -> Seq<(Seq<char>, Tone)> {
    seq![(" / "@, prompt), (filter + "\u{2588}"@, Tone::Normal)]
}

/// The line of a filter being typed.
pub fn typing_line(filter: &str, prompt: Tone) -> (l: Vec<Piece>)
    ensures
        pieces(l@) == typing_text(filter@, prompt),
{
    let mut l: Vec<Piece> = Vec::new();
    push_text(&mut l, " / ", prompt);
    push_piece(&mut l, concat(filter, "\u{2588}"), Tone::Normal);
    l
}

/// The line of a filter in use: the filter, and how many of all entries it
/// keeps.
pub open spec fn filter_info_text(filter: Seq<char>, kept: nat, total: nat) -> Seq<
    (Seq<char>, Tone),
> {
    seq![
        (" filter: "@ + filter + " ("@ + decimal(kept) + "/"@ + decimal(total) + ")"@, Tone::Dim),
    ]
}

/// The line of a filter in use.
pub fn filter_info_line(filter: &str, kept: usize, total: usize) -> (l: Vec<Piece>)
    ensures
        pieces(l@) == filter_info_text(filter@, kept as nat, total as nat),
{
    let mut v = chars_of(" filter: ");
    push_str(&mut v, filter);
    push_str(&mut v, " (");
    push_chars(&mut v, &decimal_chars(kept as u64));
    push_str(&mut v, "/");
    push_chars(&mut v, &decimal_chars(total as u64));
    push_str(&mut v, ")");
    let mut l: Vec<Piece> = Vec::new();
    push_piece(&mut l, string_of(&v), Tone::Dim);
    l
}

/// The line of a message about an empty list: `none` without a filter, else
/// that nothing matches it.
pub open spec fn empty_list_text(none: Seq<char>, kind: Seq<char>, filter: Seq<char>) -> Seq<
    (Seq<char>, Tone),
> {
    if filter.len() == 0 {
        seq![(none, Tone::Dim)]
    } else {
        seq![(" No "@ + kind + " match \u{2018}"@ + filter + "\u{2019}"@, Tone::Dim)]
    }
}

/// The line of a message about an empty list.
pub fn empty_list_line(none: &str, kind: &str, filter: &str) -> (l: Vec<Piece>)
    ensures
        pieces(l@) == empty_list_text(none@, kind@, filter@),
{
    if filter.is_empty() {
        dim_line(none)
    } else {
        let mut v = chars_of(" No ");
        push_str(&mut v, kind);
        push_str(&mut v, " match \u{2018}");
        push_str(&mut v, filter);
        push_str(&mut v, "\u{2019}");
        let mut l: Vec<Piece> = Vec::new();
        push_piece(&mut l, string_of(&v), Tone::Dim);
        l
    }
}

} // verus!
