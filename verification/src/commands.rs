//! The exact invocations of the three external tools the pipeline relies
//! on: the downloader, the archive extractor and the builder. Each is
//! described as a program name with its argument list; the unverified
//! shell runs them verbatim.

use vstd::prelude::*;
use vstd::string::*;

verus! {

/// One external command invocation: the program and its arguments, in order.
pub struct CommandLine {
    pub program: String,
    pub args: Vec<String>,
}

/// Arguments of the download tool: follow redirects, stay silent except
/// for errors, write to the destination path, fetch the URL.
pub open spec fn download_args_spec(url: Seq<char>, dest: Seq<char>) -> Seq<Seq<char>> {
    seq!["--location"@, "--silent"@, "--show-error"@, "--output"@, dest, url]
}

/// The downloader invocation for one fetch.
pub fn download_command(url: &str, dest: &str) -> (c: CommandLine)
    ensures
        c.program@ == "curl"@,
        c.args.deep_view() == download_args_spec(url@, dest@),
{
    let mut args: Vec<String> = Vec::new();
    args.push("--location".to_owned());
    args.push("--silent".to_owned());
    args.push("--show-error".to_owned());
    args.push("--output".to_owned());
    args.push(dest.to_owned());
    args.push(url.to_owned());
    proof {
        assert(args.deep_view() =~~= download_args_spec(url@, dest@));
    }
    CommandLine { program: "curl".to_owned(), args }
}

/// Arguments of the extractor: extract the xz-compressed archive file
/// into the destination directory.
pub open spec fn extract_args_spec(file: Seq<char>, dest_dir: Seq<char>) -> Seq<Seq<char>> {
    seq!["--extract"@, "--xz"@, "--file"@, file, "--directory"@, dest_dir]
}

/// The extractor invocation for one unpack.
pub fn extract_command(file: &str, dest_dir: &str) -> (c: CommandLine)
    ensures
        c.program@ == "tar"@,
        c.args.deep_view() == extract_args_spec(file@, dest_dir@),
{
    let mut args: Vec<String> = Vec::new();
    args.push("--extract".to_owned());
    args.push("--xz".to_owned());
    args.push("--file".to_owned());
    args.push(file.to_owned());
    args.push("--directory".to_owned());
    args.push(dest_dir.to_owned());
    proof {
        assert(args.deep_view() =~~= extract_args_spec(file@, dest_dir@));
    }
    CommandLine { program: "tar".to_owned(), args }
}

/// Arguments of the build tool: keep no output link, override the
/// standard source root with the unpacked tree, build the expression.
pub open spec fn build_args_spec(root: Seq<char>, expression: Seq<char>) -> Seq<Seq<char>> {
    seq!["--no-out-link"@, "-I"@, "nixpkgs="@ + root, "--expr"@, expression]
}

/// The build-tool invocation for one pre-build.
pub fn build_command(root: &str, expression: &str) -> (c: CommandLine)
    ensures
        c.program@ == "nix-build"@,
        c.args.deep_view() == build_args_spec(root@, expression@),
{
    let mut override_arg = "nixpkgs=".to_owned();
    override_arg.append(root);
    let mut args: Vec<String> = Vec::new();
    args.push("--no-out-link".to_owned());
    args.push("-I".to_owned());
    args.push(override_arg);
    args.push("--expr".to_owned());
    args.push(expression.to_owned());
    proof {
        assert(args.deep_view() =~~= build_args_spec(root@, expression@));
    }
    CommandLine { program: "nix-build".to_owned(), args }
}

} // verus!
