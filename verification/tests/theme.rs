use ghx::theme::{
    catalog_theme_paths, config_path, configured_theme_name, expand_home, fallback, hex, init,
    load_all_themes, load_theme_catalog, parse_hex_color, parse_kv, parse_theme, read_config_value,
    theme_name,
};

const SHARED_THEME: &str = r##"
[colors]
bg = "#222436"
fg = "#c8d3f5"
fg_dim = "#636da6"
fg_muted = "#3b4261"
magenta = "#c099ff"
blue = "#82aaff"
cyan = "#86e1fc"
green = "#c3e88d"
yellow = "#ffc777"
purple = "#fca7ea"
red = "#ff757f"

[ui]
background = "bg"
text = "fg"
text_dim = "fg_dim"
accent = "magenta"
selection = "blue"
key = "cyan"
border = "fg_muted"
heading = "blue"
"##;

#[test]
fn tokyo_night_moon_assigns_distinct_semantic_colors() {
    let theme = parse_theme(SHARED_THEME).unwrap();

    assert_eq!(theme.accent, hex(0xc0, 0x99, 0xff));
    assert_eq!(theme.selection, hex(0x82, 0xaa, 0xff));
    assert_eq!(theme.key, hex(0x86, 0xe1, 0xfc));
    assert_eq!(theme.green, hex(0xc3, 0xe8, 0x8d));
    assert_eq!(theme.purple, hex(0xfc, 0xa7, 0xea));
    assert_ne!(theme.accent, theme.selection);
    assert_ne!(theme.selection, theme.key);
}

#[test]
fn catalog_loads_only_explicit_theme_paths() {
    let catalog = "themes = [\"~/themes/synthetic-theme.toml\"]\n";
    let paths = catalog_theme_paths(catalog, "/home/example");
    assert_eq!(paths, vec!["/home/example/themes/synthetic-theme.toml".to_string()]);

    let files: Vec<(String, Option<String>)> =
        paths.into_iter().map(|p| (p, Some(SHARED_THEME.to_string()))).collect();
    let themes = load_theme_catalog(files);
    assert_eq!(themes.len(), 1);
    assert_eq!(themes[0].0, "synthetic theme");
    assert_eq!(themes[0].1.accent, hex(0xc0, 0x99, 0xff));
}

#[test]
fn catalog_skips_unreadable_files_and_non_string_entries() {
    let paths = catalog_theme_paths("themes = [\"/a/one.toml\", 3, \"/a/two-dark.toml\"]", "/h");
    assert_eq!(paths, vec!["/a/one.toml".to_string(), "/a/two-dark.toml".to_string()]);
    let themes = load_theme_catalog(vec![
        (paths[0].clone(), None),
        (paths[1].clone(), Some(SHARED_THEME.to_string())),
    ]);
    assert_eq!(themes.len(), 1);
    assert_eq!(themes[0].0, "two dark");
}

#[test]
fn catalog_that_is_not_toml_lists_nothing() {
    assert!(catalog_theme_paths("themes = [", "/h").is_empty());
    assert!(catalog_theme_paths("other = [\"/a.toml\"]", "/h").is_empty());
    assert!(catalog_theme_paths("themes = \"/a.toml\"", "/h").is_empty());
}

#[test]
fn without_a_catalog_the_built_in_theme_is_offered() {
    let themes = load_all_themes(Vec::new());
    assert_eq!(themes.len(), 1);
    assert_eq!(themes[0].0, "tokyo night moon");
    assert_eq!(themes[0].1, fallback());
}

#[test]
fn older_theme_without_new_roles_uses_its_accent() {
    let content = "[colors]\nmagenta = \"#c099ff\"\n[ui]\naccent = \"magenta\"\n";
    let theme = parse_theme(content).unwrap();
    assert_eq!(theme.accent, hex(0xc0, 0x99, 0xff));
    assert_eq!(theme.selection, theme.accent);
    assert_eq!(theme.key, theme.accent);
    assert_eq!(theme.heading, hex(0x82, 0xaa, 0xff));
}

#[test]
fn empty_theme_file_gives_the_built_in_colors() {
    let theme = parse_theme("").unwrap();
    let built_in = fallback();
    assert_eq!(theme.bg, built_in.bg);
    assert_eq!(theme.fg, built_in.fg);
    assert_eq!(theme.accent, built_in.accent);
    assert_eq!(theme.selection, built_in.accent);
    assert_eq!(theme.purple, built_in.purple);
}

#[test]
fn hex_colors_need_a_hash_and_six_hex_digits() {
    assert_eq!(parse_hex_color("#c099ff"), Some(hex(0xc0, 0x99, 0xff)));
    assert_eq!(parse_hex_color("#C099FF"), Some(hex(0xc0, 0x99, 0xff)));
    assert_eq!(parse_hex_color("c099ff"), None);
    assert_eq!(parse_hex_color("#c099f"), None);
    assert_eq!(parse_hex_color("#zz99ff"), None);
    assert_eq!(parse_hex_color("#c099ff0"), None);
}

#[test]
fn key_value_lines_are_split_at_the_first_equals() {
    assert_eq!(parse_kv("key = \"value\""), Some(("key".to_string(), "value".to_string())));
    assert_eq!(parse_kv(" a='b=c' "), Some(("a".to_string(), "b=c".to_string())));
    assert_eq!(parse_kv("no equals sign"), None);
}

#[test]
fn configuration_values_skip_comments_and_empty_values() {
    let config = "# theme = \"commented\"\ntheme = \"\"\ntheme = \"~/t/night-owl.toml\"\n";
    assert_eq!(read_config_value(Some(config), "theme"), Some("~/t/night-owl.toml".to_string()));
    assert_eq!(read_config_value(Some(config), "theme_catalog"), None);
    assert_eq!(read_config_value(None, "theme"), None);
    assert_eq!(config_path("/home/example"), "/home/example/.config/ghx/config.toml");
}

#[test]
fn configured_theme_is_named_after_its_file() {
    let config = "theme = \"~/t/night-owl.toml\"\n";
    assert_eq!(configured_theme_name(Some(config), "/home/example"), "night owl");
    assert_eq!(configured_theme_name(None, "/home/example"), "tokyo night moon");
    assert_eq!(configured_theme_name(Some("other = 1"), "/home/example"), "tokyo night moon");
}

#[test]
fn home_is_expanded_only_for_a_leading_tilde() {
    assert_eq!(expand_home("/home/example", "~/themes/a.toml"), "/home/example/themes/a.toml");
    assert_eq!(expand_home("/home/example/", "~/a.toml"), "/home/example/a.toml");
    assert_eq!(expand_home("/home/example", "/etc/a.toml"), "/etc/a.toml");
    assert_eq!(expand_home("/home/example", "themes/~/a.toml"), "themes/~/a.toml");
}

#[test]
fn theme_names_come_from_the_file_stem() {
    assert_eq!(theme_name("/a/b/synthetic-theme.toml"), "synthetic theme");
    assert_eq!(theme_name("/a/b/plain"), "plain");
    assert_eq!(theme_name("/a/b/.hidden"), ".hidden");
    assert_eq!(theme_name("/a/b/archive.tar.toml"), "archive.tar");
}

#[test]
fn start_theme_is_the_configured_file_or_the_built_in_one() {
    assert_eq!(init(None), fallback());
    let theme = init(Some(SHARED_THEME));
    assert_eq!(theme.key, hex(0x86, 0xe1, 0xfc));
}
