use channel_proxy::config::{get_nixexprs_url, Config};

#[test]
fn url_appends_archive_name() {
    let url = get_nixexprs_url("https://example.test/channel");
    assert_eq!(url, "https://example.test/channel/nixexprs.tar.xz");
}

#[test]
fn url_keeps_trailing_slash() {
    let url = get_nixexprs_url("https://example.test/channel/");
    assert_eq!(url, "https://example.test/channel/nixexprs.tar.xz");
}

#[test]
fn url_of_empty_channel() {
    let url = get_nixexprs_url("");
    assert_eq!(url, "/nixexprs.tar.xz");
}

#[test]
fn config_defaults() {
    let cfg = Config::from_settings(None, None, None);
    assert_eq!(cfg.upstream_channel_url, "https://nixos.org/channels/nixos-19.03");
    assert_eq!(cfg.persistent_artifact_path, "/tmp/nixexprs.tar.xz");
    assert!(cfg.build_expression.is_none());
}

#[test]
fn config_overrides() {
    let cfg = Config::from_settings(
        Some("https://example.test/channel".to_string()),
        Some("/var/lib/artifact.tar.xz".to_string()),
        Some("(import <nixpkgs> {}).hello".to_string()),
    );
    assert_eq!(cfg.upstream_channel_url, "https://example.test/channel");
    assert_eq!(cfg.persistent_artifact_path, "/var/lib/artifact.tar.xz");
    assert_eq!(cfg.build_expression.as_deref(), Some("(import <nixpkgs> {}).hello"));
}
