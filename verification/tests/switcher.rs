use alacritty_theme_switcher::config::set_theme_file;
use alacritty_theme_switcher::error::SwitchError;
use alacritty_theme_switcher::paths::{
    config_file_candidates, default_theme_dir, expand_home, join_path, owned_by, path_is_absolute,
    resolve_config_home, theme_file_path,
};
use alacritty_theme_switcher::imports::update_imports;
use alacritty_theme_switcher::themes::theme_names;
use alacritty_theme_switcher::version::{parse_version_output, schema_for, Schema};

fn imports_of(text: &str, general: bool) -> Vec<String> {
    let doc: toml::map::Map<String, toml::Value> = toml::from_str(text).unwrap();
    let list = if general {
        doc.get("general").unwrap().as_table().unwrap().get("import").unwrap()
    } else {
        doc.get("import").unwrap()
    };
    list.as_array().unwrap().iter().map(|v| v.as_str().unwrap().to_string()).collect()
}

#[test]
fn expansion_replaces_tilde() {
    let home = String::from("/home/u");
    let r = expand_home("~/foo/bar.toml", Some(&home)).unwrap();
    assert_eq!(r, "/home/u/foo/bar.toml");
}

#[test]
fn expansion_leaves_plain_paths() {
    let home = String::from("/home/u");
    let r = expand_home("/etc/alacritty.toml", Some(&home)).unwrap();
    assert_eq!(r, "/etc/alacritty.toml");
    let r = expand_home("relative/x.toml", None).unwrap();
    assert_eq!(r, "relative/x.toml");
}

#[test]
fn expansion_without_home_fails() {
    assert_eq!(expand_home("~/foo/bar.toml", None), Err(SwitchError::EnvError));
}

#[test]
fn expansion_with_empty_home_keeps_rest_relative() {
    let home = String::from("");
    assert_eq!(expand_home("~/foo/bar.toml", Some(&home)).unwrap(), "foo/bar.toml");
    let slash_home = String::from("/home/u/");
    assert_eq!(expand_home("~/x.toml", Some(&slash_home)).unwrap(), "/home/u/x.toml");
}

#[test]
fn tilde_round_trip_ownership() {
    // An entry `~/foo/bar.toml` under HOME=/home/u belongs to /home/u/foo/
    // but not to /home/u/other/.
    let home = String::from("/home/u");
    let expanded = expand_home("~/foo/bar.toml", Some(&home)).unwrap();
    assert!(owned_by(&expanded, "/home/u/foo/theme.toml"));
    assert!(!owned_by(&expanded, "/home/u/other/theme.toml"));
}

#[test]
fn ownership_is_component_wise() {
    assert!(owned_by("/home/u/foo/bar.toml", "/home/u/foo/x.toml"));
    assert!(!owned_by("/home/u/foobar/baz.toml", "/home/u/foo/x.toml"));
    assert!(!owned_by("relative/foo/bar.toml", "/home/u/foo/x.toml"));
    assert!(owned_by("/home//u/foo/bar.toml", "/home/u/foo/x.toml"));
}

#[test]
fn update_keeps_outside_entries_in_order() {
    let home = String::from("/home/u");
    let entries = vec![
        String::from("~/.config/alacritty/themes/themes/old.toml"),
        String::from("~/.config/alacritty/keybinds.toml"),
        String::from("/etc/shared.toml"),
    ];
    let r = update_imports(
        &entries,
        "/home/u/.config/alacritty/themes/themes/dracula.toml",
        Some(&home),
    )
    .unwrap();
    assert_eq!(
        r,
        vec![
            String::from("~/.config/alacritty/keybinds.toml"),
            String::from("/etc/shared.toml"),
            String::from("/home/u/.config/alacritty/themes/themes/dracula.toml"),
        ]
    );
}

#[test]
fn update_twice_is_idempotent() {
    let home = String::from("/home/u");
    let theme = "/home/u/.config/alacritty/themes/themes/dracula.toml";
    let entries = vec![
        String::from("~/.config/alacritty/themes/themes/old.toml"),
        String::from("~/.config/alacritty/keybinds.toml"),
    ];
    let once = update_imports(&entries, theme, Some(&home)).unwrap();
    let twice = update_imports(&once, theme, Some(&home)).unwrap();
    assert_eq!(once, twice);
    assert_eq!(once.iter().filter(|e| e.as_str() == theme).count(), 1);
}

#[test]
fn update_without_home_fails_on_tilde_entry() {
    let entries = vec![String::from("~/.config/alacritty/keybinds.toml")];
    let r = update_imports(&entries, "/tmp/themes/dracula.toml", None);
    assert_eq!(r, Err(SwitchError::EnvError));
}

#[test]
fn update_empty_list_appends_theme() {
    let entries: Vec<String> = Vec::new();
    let r = update_imports(&entries, "/tmp/themes/dracula.toml", None).unwrap();
    assert_eq!(r, vec![String::from("/tmp/themes/dracula.toml")]);
}

#[test]
fn version_token_is_second_word() {
    let v = parse_version_output("alacritty 0.13.2 (5a9a59ee)").unwrap();
    assert_eq!((v.major, v.minor, v.patch), (0, 13, 2));
    assert_eq!(v.pre, "");
}

#[test]
fn version_single_token_is_parse_error() {
    // The version must stand in the second whitespace-delimited token; an
    // output with only one token carries none.
    assert_eq!(parse_version_output("0.12.0"), Err(SwitchError::ParseError));
}

#[test]
fn version_tokens_split_on_unicode_whitespace() {
    let v = parse_version_output("alacritty\u{a0}0.13.2").unwrap();
    assert_eq!((v.major, v.minor, v.patch), (0, 13, 2));
    let v = parse_version_output("alacritty\u{2003}1.2.3\ntrailing").unwrap();
    assert_eq!((v.major, v.minor, v.patch), (1, 2, 3));
}

#[test]
fn version_garbage_is_parse_error() {
    assert_eq!(parse_version_output(""), Err(SwitchError::ParseError));
    assert_eq!(
        parse_version_output("alacritty unknown"),
        Err(SwitchError::ParseError)
    );
}

#[test]
fn schema_threshold_is_0_14_0() {
    let probe = |line: &str| schema_for(&parse_version_output(line).unwrap());
    assert_eq!(probe("alacritty 0.13.9"), Schema::Legacy);
    assert_eq!(probe("alacritty 0.14.0"), Schema::General);
    assert_eq!(probe("alacritty 0.15.1"), Schema::General);
    assert_eq!(probe("alacritty 1.0.0"), Schema::General);
    assert_eq!(probe("alacritty 0.14.0-rc2"), Schema::Legacy);
}

#[test]
fn switch_legacy_schema_uses_top_level_import() {
    let home = String::from("/home/u");
    let config = "import = [\"/home/u/themes/old.toml\", \"~/keybinds.toml\"]\n";
    let out = set_theme_file(
        "/home/u/themes/nord.toml",
        config,
        "alacritty 0.13.9",
        Some(&home),
    )
    .unwrap();
    assert_eq!(
        imports_of(&out, false),
        vec!["~/keybinds.toml", "/home/u/themes/nord.toml"]
    );
}

#[test]
fn switch_new_schema_uses_general_table() {
    let home = String::from("/home/u");
    let config = "[general]\nimport = [\"/home/u/themes/old.toml\", \"~/keybinds.toml\"]\n";
    let out = set_theme_file(
        "/home/u/themes/nord.toml",
        config,
        "alacritty 0.14.0",
        Some(&home),
    )
    .unwrap();
    assert_eq!(
        imports_of(&out, true),
        vec!["~/keybinds.toml", "/home/u/themes/nord.toml"]
    );
}

#[test]
fn switch_end_to_end() {
    // General schema, tilde entries, one previous selection dropped, the
    // other import kept word for word.
    let home = String::from("/home/u");
    let theme_dir = "/home/u/.config/alacritty/themes/themes/";
    let theme_file = theme_file_path(theme_dir, "dracula");
    assert_eq!(theme_file, "/home/u/.config/alacritty/themes/themes/dracula.toml");
    let config = "[general]\nimport = [\"~/.config/alacritty/themes/themes/old.toml\", \"~/.config/alacritty/keybinds.toml\"]\n";
    let out = set_theme_file(&theme_file, config, "alacritty 0.15.0 (1a2b3c4d)", Some(&home))
        .unwrap();
    assert_eq!(
        imports_of(&out, true),
        vec![
            "~/.config/alacritty/keybinds.toml",
            "/home/u/.config/alacritty/themes/themes/dracula.toml",
        ]
    );
}

#[test]
fn switch_twice_through_config_is_stable() {
    let home = String::from("/home/u");
    let config = "[general]\nimport = [\"/t/old.toml\", \"~/keybinds.toml\"]\n";
    let theme = "/t/new.toml";
    let once = set_theme_file(theme, config, "alacritty 0.15.0", Some(&home)).unwrap();
    let twice = set_theme_file(theme, &once, "alacritty 0.15.0", Some(&home)).unwrap();
    assert_eq!(once, twice);
    assert_eq!(imports_of(&once, true), vec!["~/keybinds.toml", "/t/new.toml"]);
}

#[test]
fn switch_preserves_other_keys() {
    let home = String::from("/home/u");
    let config = "live_config_reload = true\n\n[general]\nimport = [\"/t/old.toml\"]\nworking_directory = \"/w\"\n\n[font]\nsize = 11.0\n";
    let out = set_theme_file("/t/new.toml", config, "alacritty 0.15.0", Some(&home)).unwrap();
    let doc: toml::map::Map<String, toml::Value> = toml::from_str(&out).unwrap();
    assert_eq!(doc.get("live_config_reload").unwrap().as_bool(), Some(true));
    assert_eq!(
        doc.get("font").unwrap().as_table().unwrap().get("size").unwrap().as_float(),
        Some(11.0)
    );
    let general = doc.get("general").unwrap().as_table().unwrap();
    assert_eq!(general.get("working_directory").unwrap().as_str(), Some("/w"));
    assert_eq!(imports_of(&out, true), vec!["/t/new.toml"]);
}

#[test]
fn switch_absent_import_list_is_empty() {
    let home = String::from("/home/u");
    let out = set_theme_file("/t/new.toml", "", "alacritty 0.15.0", Some(&home)).unwrap();
    assert_eq!(imports_of(&out, true), vec!["/t/new.toml"]);
    let out = set_theme_file("/t/new.toml", "", "alacritty 0.13.0", Some(&home)).unwrap();
    assert_eq!(imports_of(&out, false), vec!["/t/new.toml"]);
}

#[test]
fn switch_malformed_import_list_is_schema_error() {
    let home = String::from("/home/u");
    assert_eq!(
        set_theme_file("/t/new.toml", "import = 3\n", "alacritty 0.13.0", Some(&home)),
        Err(SwitchError::SchemaError)
    );
    assert_eq!(
        set_theme_file(
            "/t/new.toml",
            "[general]\nimport = [\"a.toml\", 7]\n",
            "alacritty 0.15.0",
            Some(&home)
        ),
        Err(SwitchError::SchemaError)
    );
    assert_eq!(
        set_theme_file("/t/new.toml", "general = \"x\"\n", "alacritty 0.15.0", Some(&home)),
        Err(SwitchError::SchemaError)
    );
}

#[test]
fn switch_bad_config_text_is_parse_error() {
    let home = String::from("/home/u");
    assert_eq!(
        set_theme_file("/t/new.toml", "not toml =", "alacritty 0.15.0", Some(&home)),
        Err(SwitchError::ParseError)
    );
    assert_eq!(
        set_theme_file("/t/new.toml", "", "alacritty vX.Y", Some(&home)),
        Err(SwitchError::ParseError)
    );
}

#[test]
fn switch_without_home_fails_before_any_result() {
    let config = "import = [\"~/keybinds.toml\"]\n";
    assert_eq!(
        set_theme_file("/t/new.toml", config, "alacritty 0.13.0", None),
        Err(SwitchError::EnvError)
    );
}

#[test]
fn listed_themes_are_toml_stems() {
    let files = vec![
        String::from("a.toml"),
        String::from("b.toml"),
        String::from("notes.txt"),
    ];
    assert_eq!(theme_names(&files), vec![String::from("a"), String::from("b")]);
}

#[test]
fn listed_themes_skip_bare_extension() {
    let files = vec![
        String::from(".toml"),
        String::from("x.y.toml"),
        String::from("toml"),
    ];
    assert_eq!(theme_names(&files), vec![String::from("x.y")]);
}

#[test]
fn config_home_prefers_xdg() {
    let home = String::from("/home/u");
    let xdg = String::from("/custom/config");
    assert_eq!(
        resolve_config_home(Some(&xdg), Some(&home)).unwrap(),
        "/custom/config"
    );
    let tilde_xdg = String::from("~/cfg");
    assert_eq!(
        resolve_config_home(Some(&tilde_xdg), Some(&home)).unwrap(),
        "/home/u/cfg"
    );
    let empty = String::from("");
    assert_eq!(
        resolve_config_home(Some(&empty), Some(&home)).unwrap(),
        "/home/u/.config/"
    );
    assert_eq!(resolve_config_home(None, Some(&home)).unwrap(), "/home/u/.config/");
    assert_eq!(resolve_config_home(None, None), Err(SwitchError::EnvError));
}

#[test]
fn candidate_paths_are_in_order() {
    let c = config_file_candidates("/home/u/.config/");
    assert_eq!(
        c,
        vec![
            String::from("/home/u/.config/alacritty.toml"),
            String::from("/home/u/.config/alacritty/alacritty.toml"),
        ]
    );
    assert_eq!(
        default_theme_dir("/home/u/.config"),
        "/home/u/.config/alacritty/themes/themes/"
    );
}

#[test]
fn join_inserts_single_slash() {
    assert_eq!(join_path("/a/b", "c.toml"), "/a/b/c.toml");
    assert_eq!(join_path("/a/b/", "c.toml"), "/a/b/c.toml");
    assert_eq!(join_path("", "c.toml"), "c.toml");
    assert!(path_is_absolute("/a"));
    assert!(!path_is_absolute("a"));
}

#[test]
fn error_descriptions_name_the_step() {
    assert!(SwitchError::EnvError.describe().contains("environment"));
    assert!(SwitchError::ParseError.describe().contains("parse"));
    assert!(SwitchError::SchemaError.describe().contains("import"));
}
