//! Process-wide immutable configuration, and the derivation of the
//! upstream archive URL from the configured channel URL.

use vstd::prelude::*;

verus! {

/// Immutable settings, established once at startup and shared read-only by
/// every component.
pub struct Config {
    /// Base URL of the upstream channel.
    pub upstream_channel_url: String,
    /// Path of the persistent artifact that the proxy serves.
    pub persistent_artifact_path: String,
    /// Optional build expression; absence disables the build stage entirely.
    pub build_expression: Option<String>,
}

impl Config {
    /// Whether the pipeline runs the unpack and build stages.
    pub open spec fn build_enabled(self) -> bool {
        self.build_expression is Some
    }

    /// Builds the configuration from optional overrides, filling in the
    /// defaults where an override is absent.
    pub fn from_settings(
        upstream_channel_url: Option<String>,
        persistent_artifact_path: Option<String>,
        build_expression: Option<String>,
    ) -> (cfg: Config)
        ensures
            cfg.upstream_channel_url@ == (match upstream_channel_url {
                Some(u) => u@,
                None => "https://nixos.org/channels/nixos-19.03"@,
            }),
            cfg.persistent_artifact_path@ == (match persistent_artifact_path {
                Some(p) => p@,
                None => "/tmp/nixexprs.tar.xz"@,
            }),
            cfg.build_expression == build_expression,
    {
        let upstream = match upstream_channel_url {
            Some(u) => u,
            None => "https://nixos.org/channels/nixos-19.03".to_owned(),
        };
        let path = match persistent_artifact_path {
            Some(p) => p,
            None => "/tmp/nixexprs.tar.xz".to_owned(),
        };
        Config {
            upstream_channel_url: upstream,
            persistent_artifact_path: path,
            build_expression,
        }
    }
}

/// The archive URL under a channel URL: the channel URL, a separating
/// slash where the channel URL does not already end in one, then the
/// archive's file name.
pub open spec fn nixexprs_url_spec(channel_url: Seq<char>) -> Seq<char> {
    if channel_url.len() > 0 && channel_url.last() == '/' {
        channel_url + "nixexprs.tar.xz"@
    } else {
        channel_url + "/"@ + "nixexprs.tar.xz"@
    }
}

/// Appends the archive file name to the channel URL, inserting a slash
/// unless the channel URL already ends in one.
pub fn get_nixexprs_url(channel_url: &str) -> (url: String)
    ensures
        url@ == nixexprs_url_spec(channel_url@),
{
    let n = channel_url.unicode_len();
    let mut url = channel_url.to_owned();
    if n == 0 || channel_url.get_char(n - 1) != '/' {
        url.append("/");
    }
    url.append("nixexprs.tar.xz");
    proof {
        assert(url@ =~= nixexprs_url_spec(channel_url@));
    }
    url
}

} // verus!
