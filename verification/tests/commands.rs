use channel_proxy::commands::{build_command, download_command, extract_command};

#[test]
fn download_invocation() {
    let c = download_command(
        "https://example.test/channel/nixexprs.tar.xz",
        "/tmp/job/nixexprs.tar.xz",
    );
    assert_eq!(c.program, "curl");
    assert_eq!(
        c.args,
        vec![
            "--location".to_string(),
            "--silent".to_string(),
            "--show-error".to_string(),
            "--output".to_string(),
            "/tmp/job/nixexprs.tar.xz".to_string(),
            "https://example.test/channel/nixexprs.tar.xz".to_string(),
        ]
    );
}

#[test]
fn extract_invocation() {
    let c = extract_command("/tmp/job/nixexprs.tar.xz", "/tmp/job/unpack");
    assert_eq!(c.program, "tar");
    assert_eq!(
        c.args,
        vec![
            "--extract".to_string(),
            "--xz".to_string(),
            "--file".to_string(),
            "/tmp/job/nixexprs.tar.xz".to_string(),
            "--directory".to_string(),
            "/tmp/job/unpack".to_string(),
        ]
    );
}

#[test]
fn build_invocation() {
    let c = build_command("/tmp/job/unpack/nixos-19.03", "(import <nixpkgs> {}).hello");
    assert_eq!(c.program, "nix-build");
    assert_eq!(
        c.args,
        vec![
            "--no-out-link".to_string(),
            "-I".to_string(),
            "nixpkgs=/tmp/job/unpack/nixos-19.03".to_string(),
            "--expr".to_string(),
            "(import <nixpkgs> {}).hello".to_string(),
        ]
    );
}
