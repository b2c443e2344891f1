//! Color themes: the built-in one, theme files with `[colors]` and `[ui]`
//! sections, the configuration file, and the catalog of themes.
use crate::text::{
    char_views, chars_of, contains, contains_chars, find_char, find_char_in, lemma_find_char,
    lines, push_chars, push_str, slice_chars, split_lines, strip_char, stripped, string_of, trim,
    trimmed, views,
};
use vstd::prelude::*;

verus! {

/// A color given by its red, green and blue parts.
#[derive(Debug, Clone, Copy, PartialEq, Eq, Structural)]
pub struct Rgb {
    pub r: u8,
    pub g: u8,
    pub b: u8,
}

/// The colors of the interface.
#[derive(Debug, Clone, Copy, PartialEq, Eq, Structural)]
pub struct Theme {
    pub bg: Rgb,
    pub fg: Rgb,
    pub dim: Rgb,
    pub accent: Rgb,
    pub selection: Rgb,
    pub key: Rgb,
    pub border: Rgb,
    pub red: Rgb,
    pub green: Rgb,
    pub yellow: Rgb,
    pub purple: Rgb,
    pub heading: Rgb,
}

/// The color with parts `r`, `g`, `b`.
pub open spec fn rgb(r: u8, g: u8, b: u8) -> Rgb {
    Rgb { r, g, b }
}

/// The color with parts `r`, `g`, `b`.
pub fn hex(r: u8, g: u8, b: u8) -> (c: Rgb)
    ensures
        c == rgb(r, g, b),
{
    Rgb { r, g, b }
}

/// The built-in theme (Tokyo Night Moon).
pub open spec fn fallback_theme() -> Theme {
    Theme {
        bg: rgb(0x22, 0x24, 0x36),
        fg: rgb(0xc8, 0xd3, 0xf5),
        dim: rgb(0x63, 0x6d, 0xa6),
        accent: rgb(0xc0, 0x99, 0xff),
        selection: rgb(0x82, 0xaa, 0xff),
        key: rgb(0x86, 0xe1, 0xfc),
        border: rgb(0x3b, 0x42, 0x61),
        red: rgb(0xff, 0x75, 0x7f),
        green: rgb(0xc3, 0xe8, 0x8d),
        yellow: rgb(0xff, 0xc7, 0x77),
        purple: rgb(0xfc, 0xa7, 0xea),
        heading: rgb(0x82, 0xaa, 0xff),
    }
}

/// The built-in theme.
pub fn fallback() -> (t: Theme)
    ensures
        t == fallback_theme(),
{
    Theme {
        bg: hex(0x22, 0x24, 0x36),
        fg: hex(0xc8, 0xd3, 0xf5),
        dim: hex(0x63, 0x6d, 0xa6),
        accent: hex(0xc0, 0x99, 0xff),
        selection: hex(0x82, 0xaa, 0xff),
        key: hex(0x86, 0xe1, 0xfc),
        border: hex(0x3b, 0x42, 0x61),
        red: hex(0xff, 0x75, 0x7f),
        green: hex(0xc3, 0xe8, 0x8d),
        yellow: hex(0xff, 0xc7, 0x77),
        purple: hex(0xfc, 0xa7, 0xea),
        heading: hex(0x82, 0xaa, 0xff),
    }
}

/// The name under which the built-in theme is listed.
pub open spec fn fallback_theme_name() -> Seq<char> {
    "tokyo night moon"@
}

// ---------------------------------------------------------------------------
// `key = value` lines
// ---------------------------------------------------------------------------

/// A `key = value` line: the key is the trimmed text before the first `=`;
/// the value is the trimmed text after it, without surrounding `"` and then
/// without surrounding `'`.
pub open spec fn spec_parse_kv(line: Seq<char>) -> Option<(Seq<char>, Seq<char>)> {
    match find_char(line, '=') {
        Some(i) => Some(
            (
                trim(line.take(i)),
                strip_char(strip_char(trim(line.skip(i + 1)), '"'), '\''),
            ),
        ),
        None => None,
    }
}

fn parse_kv_chars(line: &Vec<char>) -> (r: Option<(Vec<char>, Vec<char>)>)
    ensures
        r matches Some(kv) ==> spec_parse_kv(line@) == Some((kv.0@, kv.1@)),
        r is None ==> spec_parse_kv(line@) is None,
{
    match find_char_in(line, '=') {
        Some(i) => {
            proof {
                lemma_find_char(line@, '=');
            }
            let key_part = slice_chars(line, 0, i);
            let rest = slice_chars(line, i + 1, line.len());
            assert(key_part@ =~= line@.take(i as int));
            assert(rest@ =~= line@.skip(i + 1));
            let key = trimmed(&key_part);
            let v1 = trimmed(&rest);
            let v2 = stripped(&v1, '"');
            let v3 = stripped(&v2, '\'');
            Some((key, v3))
        },
        None => None,
    }
}

/// Splits a `key = value` line.
pub fn parse_kv(line: &str) -> (r: Option<(String, String)>)
    ensures
        r matches Some(kv) ==> spec_parse_kv(line@) == Some((kv.0@, kv.1@)),
        r is None ==> spec_parse_kv(line@) is None,
{
    let v = chars_of(line);
    match parse_kv_chars(&v) {
        Some((k, val)) => Some((string_of(&k), string_of(&val))),
        None => None,
    }
}

// ---------------------------------------------------------------------------
// Colors
// ---------------------------------------------------------------------------

/// Every character of `s` is ASCII.
pub open spec fn all_ascii(s: Seq<char>) -> bool {
    forall|i: int| 0 <= i < s.len() ==> (#[trigger] s[i] as u32) < 128
}

/// A color written `#rrggbb`: `#` and six ASCII characters, each pair of them
/// read as `u8::from_str_radix(_, 16)` reads it. A value with a character
/// outside ASCII is no color.
pub open spec fn spec_parse_hex_color(s: Seq<char>) -> Option<Rgb> {
    if s.len() == 0 || s[0] != '#' {
        None
    } else {
        let body = s.drop_first();
        if !all_ascii(body) || body.len() != 6 {
            None
        } else {
            match (
                crate::text::parse_hex_byte(body.subrange(0, 2)),
                crate::text::parse_hex_byte(body.subrange(2, 4)),
                crate::text::parse_hex_byte(body.subrange(4, 6)),
            ) {
                (Some(r), Some(g), Some(b)) => Some(rgb(r, g, b)),
                _ => None,
            }
        }
    }
}

fn parse_hex_color_chars(s: &Vec<char>) -> (r: Option<Rgb>)
    ensures
        r == spec_parse_hex_color(s@),
{
    if s.len() == 0 || s[0] != '#' {
        return None;
    }
    let ghost body = s@.drop_first();
    let n = s.len();
    let mut i: usize = 1;
    while i < n
        invariant
            1 <= i <= n,
            n == s.len(),
            body == s@.drop_first(),
            forall|j: int| 0 <= j < i - 1 ==> (#[trigger] body[j] as u32) < 128,
        decreases n - i,
    {
        if s[i] as u32 >= 128 {
            assert(body[i - 1] == s@[i as int]);
            return None;
        }
        i += 1;
    }
    if n != 7 {
        return None;
    }
    assert(body.subrange(0, 2) =~= seq![s@[1], s@[2]]);
    assert(body.subrange(2, 4) =~= seq![s@[3], s@[4]]);
    assert(body.subrange(4, 6) =~= seq![s@[5], s@[6]]);
    let r = crate::text::hex_byte(s[1], s[2]);
    let g = crate::text::hex_byte(s[3], s[4]);
    let b = crate::text::hex_byte(s[5], s[6]);
    match (r, g, b) {
        (Some(r), Some(g), Some(b)) => Some(Rgb { r, g, b }),
        _ => None,
    }
}

/// Reads a color written `#rrggbb`.
pub fn parse_hex_color(s: &str) -> (r: Option<Rgb>)
    ensures
        r == spec_parse_hex_color(s@),
{
    let v = chars_of(s);
    parse_hex_color_chars(&v)
}

// ---------------------------------------------------------------------------
// Theme files
// ---------------------------------------------------------------------------

/// The section of a theme file that a line belongs to.
#[derive(Debug, Clone, Copy, PartialEq, Eq, Structural)]
pub enum Section {
    Other,
    Colors,
    Ui,
}

/// What reading a theme file has gathered: the current section, the named
/// colors of `[colors]` and the roles of `[ui]`, each in the order read.
pub struct ThemeScan {
    pub section: Section,
    pub colors: Seq<(Seq<char>, Rgb)>,
    pub ui: Seq<(Seq<char>, Seq<char>)>,
}

/// The value last given to key `k`.
pub open spec fn last_value<V>(entries: Seq<(Seq<char>, V)>, k: Seq<char>) -> Option<V>
    decreases entries.len(),
{
    if entries.len() == 0 {
        None
    } else if entries.last().0 == k {
        Some(entries.last().1)
    } else {
        last_value(entries.drop_last(), k)
    }
}

/// What one line of a theme file changes: blank lines and `#` comments
/// nothing; a `[...]` line selects the section (`colors` if it mentions
/// `colors`, else `ui` if it mentions `ui`); a `key = value` line adds a
/// named color in `[colors]` (when the value is a color) or a role in `[ui]`.
pub open spec fn theme_step(st: ThemeScan, line: Seq<char>) -> ThemeScan {
    let l = trim(line);
    if l.len() == 0 || l[0] == '#' {
        st
    } else if l[0] == '[' {
        ThemeScan {
            section: if contains(l, "colors"@) {
                Section::Colors
            } else if contains(l, "ui"@) {
                Section::Ui
            } else {
                Section::Other
            },
            ..st
        }
    } else {
        match spec_parse_kv(l) {
            Some(kv) => match st.section {
                Section::Colors => match spec_parse_hex_color(kv.1) {
                    Some(c) => ThemeScan { colors: st.colors.push((kv.0, c)), ..st },
                    None => st,
                },
                Section::Ui => ThemeScan { ui: st.ui.push((kv.0, kv.1)), ..st },
                Section::Other => st,
            },
            None => st,
        }
    }
}

/// What reading the lines `ls` gathers.
pub open spec fn theme_scan(ls: Seq<Seq<char>>) -> ThemeScan
    decreases ls.len(),
{
    if ls.len() == 0 {
        ThemeScan { section: Section::Other, colors: Seq::empty(), ui: Seq::empty() }
    } else {
        theme_step(theme_scan(ls.drop_last()), ls.last())
    }
}

/// The color that the role `role` of `[ui]` names.
pub open spec fn resolve_role(st: ThemeScan, role: Seq<char>) -> Option<Rgb> {
    match last_value(st.ui, role) {
        Some(name) => last_value(st.colors, name),
        None => None,
    }
}

/// The first color given, else `d`.
pub open spec fn or_else(a: Option<Rgb>, d: Rgb) -> Rgb {
    match a {
        Some(c) => c,
        None => d,
    }
}

/// The first color given among two.
pub open spec fn either(a: Option<Rgb>, b: Option<Rgb>) -> Option<Rgb> {
    match a {
        Some(c) => Some(c),
        None => b,
    }
}

/// The theme that a theme file describes: each role is taken from `[ui]`
/// through the color it names, else from a color of a conventional name, else
/// from the built-in theme (the selection and key roles fall back to the
/// accent color).
pub open spec fn theme_of(st: ThemeScan) -> Theme {
    let accent = or_else(resolve_role(st, "accent"@), rgb(0xc0, 0x99, 0xff));
    Theme {
        bg: or_else(
            either(resolve_role(st, "background"@), last_value(st.colors, "bg"@)),
            rgb(0x22, 0x24, 0x36),
        ),
        fg: or_else(
            either(resolve_role(st, "text"@), last_value(st.colors, "fg"@)),
            rgb(0xc8, 0xd3, 0xf5),
        ),
        dim: or_else(
            either(resolve_role(st, "text_dim"@), last_value(st.colors, "fg_dim"@)),
            rgb(0x63, 0x6d, 0xa6),
        ),
        accent,
        selection: or_else(either(resolve_role(st, "selection"@), resolve_role(st, "heading"@)), accent),
        key: or_else(either(resolve_role(st, "key"@), last_value(st.colors, "cyan"@)), accent),
        border: or_else(
            either(resolve_role(st, "border"@), last_value(st.colors, "fg_muted"@)),
            rgb(0x3b, 0x42, 0x61),
        ),
        red: or_else(last_value(st.colors, "red"@), rgb(0xff, 0x75, 0x7f)),
        green: or_else(last_value(st.colors, "green"@), rgb(0xc3, 0xe8, 0x8d)),
        yellow: or_else(last_value(st.colors, "yellow"@), rgb(0xff, 0xc7, 0x77)),
        purple: or_else(
            either(
                last_value(st.colors, "purple"@),
                either(last_value(st.colors, "magenta"@), last_value(st.colors, "mauve"@)),
            ),
            rgb(0xfc, 0xa7, 0xea),
        ),
        heading: or_else(resolve_role(st, "heading"@), rgb(0x82, 0xaa, 0xff)),
    }
}

/// The theme described by the text of a theme file.
pub open spec fn spec_parse_theme(content: Seq<char>) -> Theme {
    theme_of(theme_scan(lines(content)))
}

/// The view of the color entries gathered so far.
pub open spec fn color_entries(v: Seq<(Vec<char>, Rgb)>) -> Seq<(Seq<char>, Rgb)> {
    v.map_values(|e: (Vec<char>, Rgb)| (e.0@, e.1))
}

/// The view of the role entries gathered so far.
pub open spec fn role_entries(v: Seq<(Vec<char>, Vec<char>)>) -> Seq<(Seq<char>, Seq<char>)> {
    v.map_values(|e: (Vec<char>, Vec<char>)| (e.0@, e.1@))
}

fn lookup_color(entries: &Vec<(Vec<char>, Rgb)>, k: &Vec<char>) -> (r: Option<Rgb>)
    ensures
        r == last_value(color_entries(entries@), k@),
{
    let mut i = entries.len();
    assert(entries@.take(i as int) =~= entries@);
    while i > 0
        invariant
            i <= entries.len(),
            last_value(color_entries(entries@), k@) == last_value(
                color_entries(entries@.take(i as int)),
                k@,
            ),
        decreases i,
    {
        let ghost pre = color_entries(entries@.take(i as int));
        assert(pre.drop_last() =~= color_entries(entries@.take(i - 1)));
        assert(pre.last() == (entries@[i - 1].0@, entries@[i - 1].1));
        if crate::text::chars_eq(&entries[i - 1].0, k) {
            return Some(entries[i - 1].1);
        }
        i -= 1;
    }
    assert(color_entries(entries@.take(0)) =~= Seq::<(Seq<char>, Rgb)>::empty());
    None
}

fn lookup_role(entries: &Vec<(Vec<char>, Vec<char>)>, k: &Vec<char>) -> (r: Option<Vec<char>>)
    ensures
        r matches Some(v) ==> last_value(role_entries(entries@), k@) == Some(v@),
        r is None ==> last_value(role_entries(entries@), k@) is None,
{
    let mut i = entries.len();
    assert(entries@.take(i as int) =~= entries@);
    while i > 0
        invariant
            i <= entries.len(),
            last_value(role_entries(entries@), k@) == last_value(
                role_entries(entries@.take(i as int)),
                k@,
            ),
        decreases i,
    {
        let ghost pre = role_entries(entries@.take(i as int));
        assert(pre.drop_last() =~= role_entries(entries@.take(i - 1)));
        assert(pre.last() == (entries@[i - 1].0@, entries@[i - 1].1@));
        if crate::text::chars_eq(&entries[i - 1].0, k) {
            return Some(slice_chars(&entries[i - 1].1, 0, entries[i - 1].1.len()));
        }
        i -= 1;
    }
    assert(role_entries(entries@.take(0)) =~= Seq::<(Seq<char>, Seq<char>)>::empty());
    None
}

fn color_named(colors: &Vec<(Vec<char>, Rgb)>, name: &str) -> (r: Option<Rgb>)
    ensures
        r == last_value(color_entries(colors@), name@),
{
    let k = chars_of(name);
    lookup_color(colors, &k)
}

fn resolve(
    colors: &Vec<(Vec<char>, Rgb)>,
    ui: &Vec<(Vec<char>, Vec<char>)>,
    role: &str,
) -> (r: Option<Rgb>)
    ensures
        r == resolve_role(
            ThemeScan { section: Section::Other, colors: color_entries(colors@), ui: role_entries(ui@) },
            role@,
        ),
{
    let k = chars_of(role);
    match lookup_role(ui, &k) {
        Some(name) => lookup_color(colors, &name),
        None => None,
    }
}

fn first_color(a: Option<Rgb>, b: Option<Rgb>) -> (r: Option<Rgb>)
    ensures
        r == either(a, b),
{
    match a {
        Some(c) => Some(c),
        None => b,
    }
}

fn color_or(a: Option<Rgb>, d: Rgb) -> (r: Rgb)
    ensures
        r == or_else(a, d),
{
    match a {
        Some(c) => c,
        None => d,
    }
}

/// Reads a theme file. Every text describes a theme, so the answer is never
/// `None`.
pub fn parse_theme(content: &str) -> (t: Option<Theme>)
    ensures
        t == Some(spec_parse_theme(content@)),
{
    let v = chars_of(content);
    let ls = split_lines(&v);
    let ghost all = char_views(ls@);
    let mut section = Section::Other;
    let mut colors: Vec<(Vec<char>, Rgb)> = Vec::new();
    let mut ui: Vec<(Vec<char>, Vec<char>)> = Vec::new();
    let n = ls.len();
    let mut i: usize = 0;
    assert(all.take(0) =~= Seq::<Seq<char>>::empty());
    assert(color_entries(colors@) =~= Seq::<(Seq<char>, Rgb)>::empty());
    assert(role_entries(ui@) =~= Seq::<(Seq<char>, Seq<char>)>::empty());
    while i < n
        invariant
            n == ls.len(),
            i <= n,
            all == char_views(ls@),
            all == lines(v@),
            v@ == content@,
            theme_scan(all.take(i as int)) == (ThemeScan {
                section,
                colors: color_entries(colors@),
                ui: role_entries(ui@),
            }),
        decreases n - i,
    {
        let ghost st = theme_scan(all.take(i as int));
        assert(all.take(i as int + 1).drop_last() =~= all.take(i as int));
        assert(all.take(i as int + 1).last() == ls@[i as int]@);
        let line = trimmed(&ls[i]);
        if line.len() == 0 || line[0] == '#' {
        } else if line[0] == '[' {
            let colors_word = chars_of("colors");
            let ui_word = chars_of("ui");
            section = if contains_chars(&line, &colors_word) {
                Section::Colors
            } else if contains_chars(&line, &ui_word) {
                Section::Ui
            } else {
                Section::Other
            };
        } else {
            match parse_kv_chars(&line) {
                Some((key, val)) => {
                    match section {
                        Section::Colors => {
                            let c = parse_hex_color_chars(&val);
                            match c {
                                Some(c) => {
                                    let ghost before = colors@;
                                    colors.push((key, c));
                                    assert(color_entries(colors@) =~= color_entries(before).push(
                                        (key@, c),
                                    ));
                                },
                                None => {},
                            }
                        },
                        Section::Ui => {
                            let ghost before = ui@;
                            let ghost kv = (key@, val@);
                            ui.push((key, val));
                            assert(role_entries(ui@) =~= role_entries(before).push(kv));
                        },
                        Section::Other => {},
                    }
                },
                None => {},
            }
        }
        i += 1;
    }
    assert(all.take(n as int) =~= all);
    let ghost st = theme_scan(all);
    let accent = color_or(resolve(&colors, &ui, "accent"), hex(0xc0, 0x99, 0xff));
    let bg = color_or(
        first_color(resolve(&colors, &ui, "background"), color_named(&colors, "bg")),
        hex(0x22, 0x24, 0x36),
    );
    let fg = color_or(
        first_color(resolve(&colors, &ui, "text"), color_named(&colors, "fg")),
        hex(0xc8, 0xd3, 0xf5),
    );
    let dim = color_or(
        first_color(resolve(&colors, &ui, "text_dim"), color_named(&colors, "fg_dim")),
        hex(0x63, 0x6d, 0xa6),
    );
    let selection = color_or(
        first_color(resolve(&colors, &ui, "selection"), resolve(&colors, &ui, "heading")),
        accent,
    );
    let key = color_or(
        first_color(resolve(&colors, &ui, "key"), color_named(&colors, "cyan")),
        accent,
    );
    let border = color_or(
        first_color(resolve(&colors, &ui, "border"), color_named(&colors, "fg_muted")),
        hex(0x3b, 0x42, 0x61),
    );
    let red = color_or(color_named(&colors, "red"), hex(0xff, 0x75, 0x7f));
    let green = color_or(color_named(&colors, "green"), hex(0xc3, 0xe8, 0x8d));
    let yellow = color_or(color_named(&colors, "yellow"), hex(0xff, 0xc7, 0x77));
    let purple = color_or(
        first_color(
            color_named(&colors, "purple"),
            first_color(color_named(&colors, "magenta"), color_named(&colors, "mauve")),
        ),
        hex(0xfc, 0xa7, 0xea),
    );
    let heading = color_or(resolve(&colors, &ui, "heading"), hex(0x82, 0xaa, 0xff));
    Some(
        Theme {
            bg,
            fg,
            dim,
            accent,
            selection,
            key,
            border,
            red,
            green,
            yellow,
            purple,
            heading,
        },
    )
}


// ---------------------------------------------------------------------------
// Configuration
// ---------------------------------------------------------------------------

/// The value of `key` in the lines `ls` of the configuration: the first
/// non-empty value of a `key = value` line for it, `#` comment lines skipped.
pub open spec fn config_lookup(ls: Seq<Seq<char>>, key: Seq<char>) -> Option<Seq<char>>
    decreases ls.len(),
{
    if ls.len() == 0 {
        None
    } else {
        let l = trim(ls[0]);
        if l.len() > 0 && l[0] == '#' {
            config_lookup(ls.drop_first(), key)
        } else {
            match spec_parse_kv(l) {
                Some(kv) => if kv.0 == key && kv.1.len() > 0 {
                    Some(kv.1)
                } else {
                    config_lookup(ls.drop_first(), key)
                },
                None => config_lookup(ls.drop_first(), key),
            }
        }
    }
}

/// Where the configuration file of the user with home directory `home` is.
pub fn config_path(home: &str) -> (p: String)
    ensures
        p@ == home@ + "/.config/ghx/config.toml"@,
{
    let mut v = chars_of(home);
    push_str(&mut v, "/.config/ghx/config.toml");
    string_of(&v)
}

/// The value of `requested_key` in the configuration file whose text is
/// `content` (`None` when the file could not be read).
pub fn read_config_value(content: Option<&str>, requested_key: &str) -> (r: Option<String>)
    ensures
        content is None ==> r is None,
        content matches Some(c) ==> (match config_lookup(lines(c@), requested_key@) {
            Some(v) => r matches Some(s) && s@ == v,
            None => r is None,
        }),
{
    let c = match content {
        Some(c) => c,
        None => return None,
    };
    let v = chars_of(c);
    let ls = split_lines(&v);
    let key = chars_of(requested_key);
    let ghost all = char_views(ls@);
    let n = ls.len();
    let mut i: usize = 0;
    assert(all.skip(0) =~= all);
    while i < n
        invariant
            n == ls.len(),
            i <= n,
            all == char_views(ls@),
            all == lines(c@),
            content == Some(c),
            key@ == requested_key@,
            config_lookup(all, key@) == config_lookup(all.skip(i as int), key@),
        decreases n - i,
    {
        assert(all.skip(i as int)[0] == ls@[i as int]@);
        assert(all.skip(i as int).drop_first() =~= all.skip(i + 1));
        let line = trimmed(&ls[i]);
        if line.len() > 0 && line[0] == '#' {
            i += 1;
            continue;
        }
        match parse_kv_chars(&line) {
            Some((k, val)) => {
                if crate::text::chars_eq(&k, &key) && val.len() > 0 {
                    return Some(string_of(&val));
                }
            },
            None => {},
        }
        i += 1;
    }
    assert(all.skip(n as int) =~= Seq::<Seq<char>>::empty());
    None
}

// ---------------------------------------------------------------------------
// Paths
// ---------------------------------------------------------------------------

/// `p` appended to the path `base` as `PathBuf::push` does on Unix: an
/// absolute `p` replaces `base`; otherwise a `/` separates them unless `base`
/// is empty or already ends with one.
pub open spec fn path_join(base: Seq<char>, p: Seq<char>) -> Seq<char> {
    if p.len() > 0 && p[0] == '/' {
        p
    } else if base.len() == 0 || base.last() == '/' {
        base + p
    } else {
        base + "/"@ + p
    }
}

/// A configured path with a leading `~/` taken relative to `home`.
pub open spec fn spec_expand_home(home: Seq<char>, configured: Seq<char>) -> Seq<char> {
    if configured.len() >= 2 && configured[0] == '~' && configured[1] == '/' {
        path_join(home, configured.skip(2))
    } else {
        configured
    }
}

/// A configured path with a leading `~/` taken relative to `home`.
pub fn expand_home(home: &str, configured_path: &str) -> (p: String)
    ensures
        p@ == spec_expand_home(home@, configured_path@),
{
    let c = chars_of(configured_path);
    if c.len() >= 2 && c[0] == '~' && c[1] == '/' {
        let rest = slice_chars(&c, 2, c.len());
        assert(rest@ =~= c@.skip(2));
        let h = chars_of(home);
        if rest.len() > 0 && rest[0] == '/' {
            string_of(&rest)
        } else if h.len() == 0 || h[h.len() - 1] == '/' {
            let mut out = h;
            push_chars(&mut out, &rest);
            string_of(&out)
        } else {
            let mut out = h;
            push_str(&mut out, "/");
            push_chars(&mut out, &rest);
            string_of(&out)
        }
    } else {
        string_of(&c)
    }
}

/// The parts of `s` between `/` characters, given that `cur` holds the
/// characters already read of the current part.
pub open spec fn parts_from(cur: Seq<char>, s: Seq<char>) -> Seq<Seq<char>>
    decreases s.len(),
{
    if s.len() == 0 {
        seq![cur]
    } else if s[0] == '/' {
        seq![cur] + parts_from(Seq::empty(), s.drop_first())
    } else {
        parts_from(cur.push(s[0]), s.drop_first())
    }
}

/// The last part that names something: neither empty nor `.`.
pub open spec fn last_named_part(parts: Seq<Seq<char>>) -> Option<Seq<char>>
    decreases parts.len(),
{
    if parts.len() == 0 {
        None
    } else if parts.last().len() == 0 || parts.last() == "."@ {
        last_named_part(parts.drop_last())
    } else {
        Some(parts.last())
    }
}

/// The final component of a Unix path when it is a name (`Path::file_name`).
pub open spec fn file_name(path: Seq<char>) -> Option<Seq<char>> {
    match last_named_part(parts_from(Seq::empty(), path)) {
        Some(p) => if p == ".."@ {
            None
        } else {
            Some(p)
        },
        None => None,
    }
}

/// Position of the last `.` of `s`, if any.
pub open spec fn last_dot(s: Seq<char>) -> Option<int>
    decreases s.len(),
{
    if s.len() == 0 {
        None
    } else if s.last() == '.' {
        Some(s.len() - 1)
    } else {
        last_dot(s.drop_last())
    }
}

/// A file name without its extension (`Path::file_stem`): the text before the
/// last `.`, unless there is none or the name starts with it.
pub open spec fn stem_of(name: Seq<char>) -> Seq<char> {
    match last_dot(name) {
        Some(i) => if i == 0 {
            name
        } else {
            name.take(i)
        },
        None => name,
    }
}

/// `s` with every `-` replaced by a space.
pub open spec fn dashes_to_spaces(s: Seq<char>) -> Seq<char> {
    s.map_values(|c: char| if c == '-' { ' ' } else { c })
}

/// The name of the theme in file `path`: the file's stem (`theme` if the path
/// names no file) with dashes read as spaces.
pub open spec fn spec_theme_name(path: Seq<char>) -> Seq<char> {
    dashes_to_spaces(
        match file_name(path) {
            Some(n) => stem_of(n),
            None => "theme"@,
        },
    )
}

fn path_parts(v: &Vec<char>) -> (r: Vec<Vec<char>>)
    ensures
        char_views(r@) == parts_from(Seq::empty(), v@),
{
    let mut out: Vec<Vec<char>> = Vec::new();
    let mut cur: Vec<char> = Vec::new();
    let n = v.len();
    let mut i: usize = 0;
    assert(v@.subrange(0, n as int) =~= v@);
    assert(char_views(out@) =~= Seq::<Seq<char>>::empty());
    while i < n
        invariant
            n == v.len(),
            i <= n,
            parts_from(Seq::empty(), v@) == char_views(out@) + parts_from(
                cur@,
                v@.subrange(i as int, n as int),
            ),
        decreases n - i,
    {
        let ghost rest = v@.subrange(i as int, n as int);
        assert(rest[0] == v@[i as int]);
        assert(rest.drop_first() =~= v@.subrange(i as int + 1, n as int));
        if v[i] == '/' {
            let ghost old_out = out@;
            let ghost c = cur@;
            out.push(cur);
            assert(char_views(out@) =~= char_views(old_out) + seq![c]);
            cur = Vec::new();
        } else {
            cur.push(v[i]);
        }
        i += 1;
    }
    let ghost old_out = out@;
    let ghost c = cur@;
    out.push(cur);
    assert(char_views(out@) =~= char_views(old_out) + seq![c]);
    out
}

fn file_name_of(path: &Vec<char>) -> (r: Option<Vec<char>>)
    ensures
        r matches Some(n) ==> file_name(path@) == Some(n@),
        r is None ==> file_name(path@) is None,
{
    let parts = path_parts(path);
    let ghost all = char_views(parts@);
    let dot = chars_of(".");
    let dotdot = chars_of("..");
    let mut i = parts.len();
    assert(all.take(i as int) =~= all);
    while i > 0
        invariant
            i <= parts.len(),
            all == char_views(parts@),
            all == parts_from(Seq::empty(), path@),
            dot@ == "."@,
            dotdot@ == ".."@,
            last_named_part(all) == last_named_part(all.take(i as int)),
        decreases i,
    {
        let ghost pre = all.take(i as int);
        assert(pre.drop_last() =~= all.take(i - 1));
        assert(pre.last() == parts@[i - 1]@);
        if parts[i - 1].len() == 0 || crate::text::chars_eq(&parts[i - 1], &dot) {
            i -= 1;
        } else {
            if crate::text::chars_eq(&parts[i - 1], &dotdot) {
                return None;
            }
            return Some(slice_chars(&parts[i - 1], 0, parts[i - 1].len()));
        }
    }
    assert(all.take(0) =~= Seq::<Seq<char>>::empty());
    None
}

fn stem(name: &Vec<char>) -> (r: Vec<char>)
    ensures
        r@ == stem_of(name@),
{
    let mut i = name.len();
    assert(name@.take(i as int) =~= name@);
    while i > 0 && name[i - 1] != '.'
        invariant
            i <= name.len(),
            last_dot(name@) == last_dot(name@.take(i as int)),
        decreases i,
    {
        assert(name@.take(i as int).drop_last() =~= name@.take(i - 1));
        i -= 1;
    }
    if i == 0 {
        assert(name@.take(0) =~= Seq::<char>::empty());
        slice_chars(name, 0, name.len())
    } else {
        assert(last_dot(name@.take(i as int)) == Some(i - 1));
        if i - 1 == 0 {
            slice_chars(name, 0, name.len())
        } else {
            slice_chars(name, 0, i - 1)
        }
    }
}

/// The characters of `base` with every `-` replaced by a space.
pub fn spaced(base: &Vec<char>) -> (out: Vec<char>)
    ensures
        out@ == dashes_to_spaces(base@),
{
    let mut out: Vec<char> = Vec::new();
    let n = base.len();
    let mut i: usize = 0;
    while i < n
        invariant
            n == base.len(),
            i <= n,
            out@ == dashes_to_spaces(base@.take(i as int)),
        decreases n - i,
    {
        out.push(if base[i] == '-' {
            ' '
        } else {
            base[i]
        });
        assert(dashes_to_spaces(base@.take(i as int + 1)) =~= dashes_to_spaces(
            base@.take(i as int),
        ).push(if base@[i as int] == '-' {
            ' '
        } else {
            base@[i as int]
        }));
        i += 1;
    }
    assert(base@.take(n as int) =~= base@);
    out
}

/// The name of the theme in file `path`.
pub fn theme_name(path: &str) -> (name: String)
    ensures
        name@ == spec_theme_name(path@),
{
    let p = chars_of(path);
    let base = match file_name_of(&p) {
        Some(n) => stem(&n),
        None => chars_of("theme"),
    };
    let out = spaced(&base);
    string_of(&out)
}

/// The name of the configured theme: the name of the file that the `theme`
/// key of the configuration names, else the built-in theme's name. `config`
/// is the text of the configuration file (`None` when it could not be read).
pub fn configured_theme_name(config: Option<&str>, home: &str) -> (name: String)
    ensures
        name@ == match config {
            Some(c) => match config_lookup(lines(c@), "theme"@) {
                Some(p) => spec_theme_name(spec_expand_home(home@, p)),
                None => fallback_theme_name(),
            },
            None => fallback_theme_name(),
        },
{
    match read_config_value(config, "theme") {
        Some(p) => {
            let path = expand_home(home, p.as_str());
            theme_name(path.as_str())
        },
        None => {
            let v = chars_of("tokyo night moon");
            string_of(&v)
        },
    }
}

/// The theme to start with: the one of the configured theme file whose text
/// is `theme_file`, else (no file configured, or not readable) the built-in
/// theme.
pub fn init(theme_file: Option<&str>) -> (t: Theme)
    ensures
        theme_file matches Some(c) ==> t == spec_parse_theme(c@),
        theme_file is None ==> t == fallback_theme(),
{
    match theme_file {
        Some(c) => match parse_theme(c) {
            Some(t) => t,
            None => fallback(),
        },
        None => fallback(),
    }
}


// ---------------------------------------------------------------------------
// The catalog of themes
// ---------------------------------------------------------------------------

/// What the TOML document `content` holds under the top-level key `key` when
/// that is an array: each element as a string, or `None` for an element that
/// is not a string. `None` as a whole when the text is not TOML or the key
/// holds no array.
pub uninterp spec fn toml_string_array(content: Seq<char>, key: Seq<char>) -> Option<
    Seq<Option<Seq<char>>>,
>;

/// The view of each optional string of a sequence.
pub open spec fn opt_views(s: Seq<Option<String>>) -> Seq<Option<Seq<char>>> {
    s.map_values(|o: Option<String>| match o {
        Some(t) => Some(t@),
        None => None,
    })
}

/// `toml::Value` parsing (`str::parse`), then `Value::get`, `Value::as_array`
/// and `Value::as_str` on each element: the result is named
/// `toml_string_array` of the text and the key; nothing more is stated of it.
#[verifier::external_body]
fn toml_strings_under(content: &str, key: &str) -> (r: Option<Vec<Option<String>>>)
    ensures
        r is Some <==> toml_string_array(content@, key@) is Some,
        r matches Some(v) ==> toml_string_array(content@, key@) == Some(opt_views(v@)),
{
    let value: toml::Value = match content.parse() {
        Ok(value) => value,
        Err(_) => return None,
    };
    let items = value.get(key)?.as_array()?;
    Some(items.iter().map(|item| item.as_str().map(String::from)).collect())
}

/// The strings among optional strings, in order.
pub open spec fn somes(s: Seq<Option<Seq<char>>>) -> Seq<Seq<char>>
    decreases s.len(),
{
    if s.len() == 0 {
        Seq::empty()
    } else {
        match s.last() {
            Some(t) => somes(s.drop_last()).push(t),
            None => somes(s.drop_last()),
        }
    }
}

/// The theme files that a catalog lists: the strings of its `themes` array,
/// each with a leading `~/` taken relative to `home`.
pub open spec fn catalog_paths(catalog: Seq<char>, home: Seq<char>) -> Seq<Seq<char>> {
    let entries = match toml_string_array(catalog, "themes"@) {
        Some(e) => e,
        None => Seq::empty(),
    };
    somes(entries).map_values(|p: Seq<char>| spec_expand_home(home, p))
}

/// The theme files that the catalog with text `catalog` lists, in order.
pub fn catalog_theme_paths(catalog: &str, home: &str) -> (paths: Vec<String>)
    ensures
        views(paths@) == catalog_paths(catalog@, home@),
{
    let entries = match toml_strings_under(catalog, "themes") {
        Some(e) => e,
        None => Vec::new(),
    };
    let ghost all = opt_views(entries@);
    assert(all == match toml_string_array(catalog@, "themes"@) {
        Some(e) => e,
        None => Seq::empty(),
    }) by {
        if toml_string_array(catalog@, "themes"@) is None {
            assert(all =~= Seq::<Option<Seq<char>>>::empty());
        }
    }
    let mut paths: Vec<String> = Vec::new();
    let n = entries.len();
    let mut i: usize = 0;
    assert(all.take(0) =~= Seq::<Option<Seq<char>>>::empty());
    assert(views(paths@) =~= somes(all.take(0)).map_values(
        |p: Seq<char>| spec_expand_home(home@, p),
    ));
    while i < n
        invariant
            n == entries.len(),
            i <= n,
            all == opt_views(entries@),
            views(paths@) == somes(all.take(i as int)).map_values(
                |p: Seq<char>| spec_expand_home(home@, p),
            ),
        decreases n - i,
    {
        assert(all.take(i as int + 1).drop_last() =~= all.take(i as int));
        match &entries[i] {
            Some(p) => {
                let ghost before = paths@;
                paths.push(expand_home(home, p.as_str()));
                assert(views(paths@) =~= views(before).push(spec_expand_home(home@, p@)));
                assert(somes(all.take(i as int + 1)) == somes(all.take(i as int)).push(p@));
                assert(somes(all.take(i as int + 1)).map_values(
                    |q: Seq<char>| spec_expand_home(home@, q),
                ) =~= somes(all.take(i as int)).map_values(
                    |q: Seq<char>| spec_expand_home(home@, q),
                ).push(spec_expand_home(home@, p@)));
            },
            None => {},
        }
        i += 1;
    }
    assert(all.take(n as int) =~= all);
    paths
}

/// The themes of the listed files that could be read, in order: each named
/// after its file.
pub open spec fn catalog_themes(files: Seq<(Seq<char>, Option<Seq<char>>)>) -> Seq<(Seq<char>, Theme)>
    decreases files.len(),
{
    if files.len() == 0 {
        Seq::empty()
    } else {
        match files.last().1 {
            Some(content) => catalog_themes(files.drop_last()).push(
                (spec_theme_name(files.last().0), spec_parse_theme(content)),
            ),
            None => catalog_themes(files.drop_last()),
        }
    }
}

/// The view of listed theme files with their text.
pub open spec fn file_views(s: Seq<(String, Option<String>)>) -> Seq<(Seq<char>, Option<Seq<char>>)> {
    s.map_values(|f: (String, Option<String>)| (f.0@, match f.1 {
        Some(t) => Some(t@),
        None => None,
    }))
}

/// The view of named themes.
pub open spec fn theme_views(s: Seq<(String, Theme)>) -> Seq<(Seq<char>, Theme)> {
    s.map_values(|t: (String, Theme)| (t.0@, t.1))
}

/// The themes of a catalog, from each listed file's path and text (`None`
/// when the file could not be read), in the catalog's order.
pub fn load_theme_catalog(files: Vec<(String, Option<String>)>) -> (themes: Vec<(String, Theme)>)
    ensures
        theme_views(themes@) == catalog_themes(file_views(files@)),
{
    let ghost all = file_views(files@);
    let mut themes: Vec<(String, Theme)> = Vec::new();
    let n = files.len();
    let mut i: usize = 0;
    assert(all.take(0) =~= Seq::<(Seq<char>, Option<Seq<char>>)>::empty());
    assert(theme_views(themes@) =~= Seq::<(Seq<char>, Theme)>::empty());
    while i < n
        invariant
            n == files.len(),
            i <= n,
            all == file_views(files@),
            theme_views(themes@) == catalog_themes(all.take(i as int)),
        decreases n - i,
    {
        assert(all.take(i as int + 1).drop_last() =~= all.take(i as int));
        assert(all.take(i as int + 1).last() == all[i as int]);
        let (path, content) = &files[i];
        match content {
            Some(c) => match parse_theme(c.as_str()) {
                Some(t) => {
                    let ghost before = themes@;
                    let name = theme_name(path.as_str());
                    themes.push((name, t));
                    assert(theme_views(themes@) =~= theme_views(before).push(
                        (spec_theme_name(path@), spec_parse_theme(c@)),
                    ));
                },
                None => {},
            },
            None => {},
        }
        i += 1;
    }
    assert(all.take(n as int) =~= all);
    themes
}

/// The themes to choose from: the catalog's, or the built-in theme alone
/// when the catalog gave none.
pub fn load_all_themes(catalog: Vec<(String, Theme)>) -> (themes: Vec<(String, Theme)>)
    ensures
        catalog.len() > 0 ==> themes@ == catalog@,
        catalog.len() == 0 ==> theme_views(themes@) == seq![
            (fallback_theme_name(), fallback_theme()),
        ],
{
    let mut themes = catalog;
    if themes.len() == 0 {
        let name = string_of(&chars_of("tokyo night moon"));
        themes.push((name, fallback()));
        assert(theme_views(themes@) =~= seq![(fallback_theme_name(), fallback_theme())]);
    }
    themes
}

} // verus!
