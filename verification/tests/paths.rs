use evo_control::paths::{config_dir, config_dir_in, path_join, preset_file, presets_dir, state_file};
use evo_control::presets::{lex_le, preset_name, preset_names, sort_names};

#[test]
fn joins_like_pathbuf() {
    for (base, p) in [
        ("/home/a", "x"),
        ("/home/a/", "x"),
        ("", "x"),
        ("/home/a", "/etc"),
        ("/home", ""),
        (".", "evo-control"),
    ] {
        let expected = std::path::Path::new(base).join(p);
        assert_eq!(path_join(base, p), expected.to_str().unwrap());
    }
}

#[test]
fn config_paths() {
    assert_eq!(config_dir_in(Some("/home/a/.config".into())), "/home/a/.config/evo-control");
    assert_eq!(config_dir_in(None), "./evo-control");
    let dir = config_dir();
    assert!(dir.ends_with("/evo-control"));
    assert_eq!(state_file(), format!("{dir}/state.toml"));
    assert_eq!(presets_dir(), format!("{dir}/presets"));
    assert_eq!(preset_file("live"), format!("{dir}/presets/live.toml"));
}

#[test]
fn preset_listing() {
    let files: Vec<String> =
        vec!["studio.toml".into(), "notes.txt".into(), "live.toml".into(), "toml".into()];
    assert_eq!(preset_names(&files), vec!["live", "studio"]);
    let files: Vec<String> = vec!["studio.toml".into()];
    assert_eq!(preset_names(&files), vec!["studio"]);
    assert!(preset_names(&Vec::new()).is_empty());
    assert_eq!(preset_name(".toml").as_deref(), Some(""));
    assert_eq!(preset_name("a.toml.bak"), None);
}

#[test]
fn names_sort_like_strings() {
    let list: Vec<String> = vec!["b", "a", "ab", "", "B", "é", "a", "zz", "z"]
        .into_iter()
        .map(String::from)
        .collect();
    let mut expected = list.clone();
    expected.sort();
    assert_eq!(sort_names(&list), expected);
    assert!(lex_le("a", "ab"));
    assert!(!lex_le("ab", "a"));
    assert!(lex_le("B", "a"));
    assert!(lex_le("", ""));
}
