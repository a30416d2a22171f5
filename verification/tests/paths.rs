use hipfire_arwaky::paths::{
    config_path, hipfire_arwaky_dir, home_or_default, join_path, models_dir,
    upstream_hipfire_bin, upstream_hipfire_bin_path,
};
use std::path::PathBuf;

#[test]
fn join_path_joins_as_pathbuf() {
    for (base, part) in [
        ("/home/a", ".x"),
        ("/home/a/", ".x"),
        ("", ".x"),
        ("/home/a", "/abs"),
        ("a", ""),
        ("/", "b"),
    ] {
        let expected = PathBuf::from(base).join(part).to_string_lossy().to_string();
        assert_eq!(join_path(base, part), expected, "{:?} {:?}", base, part);
    }
}

#[test]
fn home_defaults_to_root() {
    assert_eq!(home_or_default(None), "/root");
    assert_eq!(home_or_default(Some("/home/u")), "/home/u");
}

#[test]
fn arwaky_dir_is_under_home() {
    assert_eq!(hipfire_arwaky_dir(Some("/home/u")), "/home/u/.hipfire-arwaky");
    assert_eq!(hipfire_arwaky_dir(Some("/home/u/")), "/home/u/.hipfire-arwaky");
    assert_eq!(hipfire_arwaky_dir(None), "/root/.hipfire-arwaky");
}

#[test]
fn config_and_models_are_inside_arwaky_dir() {
    assert_eq!(config_path(Some("/home/u")), "/home/u/.hipfire-arwaky/config.json");
    assert_eq!(models_dir(Some("/home/u")), "/home/u/.hipfire-arwaky/models");
    assert_eq!(config_path(None), "/root/.hipfire-arwaky/config.json");
    assert_eq!(models_dir(Some("")), ".hipfire-arwaky/models");
}

#[test]
fn upstream_binary_path() {
    assert_eq!(upstream_hipfire_bin_path(Some("/home/u")), "/home/u/.hipfire/bin/hipfire");
    assert_eq!(upstream_hipfire_bin_path(None), "/root/.hipfire/bin/hipfire");
    assert_eq!(
        upstream_hipfire_bin(Some("/h"), true),
        Some("/h/.hipfire/bin/hipfire".to_string())
    );
    assert_eq!(upstream_hipfire_bin(Some("/h"), false), None);
}
