//! The closed set of pipeline and server errors, each carrying its
//! structured context, together with a verified rendering of every error
//! as a diagnostic line.

use vstd::prelude::*;
use vstd::string::*;

verus! {

/// Exit information of an external process: its exit code, or none where
/// the process was terminated without one (for instance by a signal).
#[derive(Clone, Copy, Debug)]
pub struct ExitStatus {
    pub code: Option<i32>,
}

impl ExitStatus {
    /// An external process succeeded exactly when it exited with code zero.
    pub open spec fn spec_success(self) -> bool {
        self.code == Some(0i32)
    }

    pub fn success(&self) -> (r: bool)
        ensures
            r == self.spec_success(),
    {
        match self.code {
            Some(c) => c == 0,
            None => false,
        }
    }
}

/// Everything that can go wrong in the pipeline or at server startup,
/// grouped by stage, with the context each failure is reported with.
pub enum AppError {
    CreateTempDir { cause: String },
    Download { url: String, dest: String, cause: String },
    DownloadStatus { url: String, dest: String, status: ExitStatus },
    CreateUnpackDir { dir: String, cause: String },
    Extract { file: String, dir: String, cause: String },
    ExtractStatus { file: String, dir: String, status: ExitStatus },
    ReadUnpackDir { dir: String, cause: String },
    TooFewEntries { dir: String },
    TooManyEntries { dir: String },
    Build { cause: String },
    BuildStatus { status: ExitStatus },
    Rename { src: String, dest: String, cause: String },
    StartServer { cause: String },
}

/// The decimal digit character for a value below ten.
pub open spec fn digit_char(d: nat) -> char {
    if d == 0 {
        '0'
    } else if d == 1 {
        '1'
    } else if d == 2 {
        '2'
    } else if d == 3 {
        '3'
    } else if d == 4 {
        '4'
    } else if d == 5 {
        '5'
    } else if d == 6 {
        '6'
    } else if d == 7 {
        '7'
    } else if d == 8 {
        '8'
    } else {
        '9'
    }
}

/// The decimal digits of a natural number, most significant first.
pub open spec fn dec_digits(n: nat) -> Seq<char>
    decreases n,
{
    if n < 10 {
        seq![digit_char(n)]
    } else {
        dec_digits(n / 10) + seq![digit_char(n % 10)]
    }
}

/// The decimal rendering of an integer: a minus sign before the digits of
/// its magnitude when negative, the bare digits otherwise.
pub open spec fn dec_str(n: int) -> Seq<char> {
    if n < 0 {
        "-"@ + dec_digits((-n) as nat)
    } else {
        dec_digits(n as nat)
    }
}

fn digit_str(d: u64) -> (r: &'static str)
    requires
        d < 10,
    ensures
        r@ == seq![digit_char(d as nat)],
{
    proof {
        reveal_strlit("0");
        reveal_strlit("1");
        reveal_strlit("2");
        reveal_strlit("3");
        reveal_strlit("4");
        reveal_strlit("5");
        reveal_strlit("6");
        reveal_strlit("7");
        reveal_strlit("8");
        reveal_strlit("9");
    }
    let r = if d == 0 {
        "0"
    } else if d == 1 {
        "1"
    } else if d == 2 {
        "2"
    } else if d == 3 {
        "3"
    } else if d == 4 {
        "4"
    } else if d == 5 {
        "5"
    } else if d == 6 {
        "6"
    } else if d == 7 {
        "7"
    } else if d == 8 {
        "8"
    } else {
        "9"
    };
    proof {
        assert(r@ =~= seq![digit_char(d as nat)]);
    }
    r
}

/// Renders a natural number in decimal.
pub fn u64_to_dec_string(n: u64) -> (s: String)
    ensures
        s@ == dec_digits(n as nat),
    decreases n,
{
    if n < 10 {
        digit_str(n).to_owned()
    } else {
        let mut s = u64_to_dec_string(n / 10);
        s.append(digit_str(n % 10));
        proof {
            assert(s@ =~= dec_digits(n as nat));
        }
        s
    }
}

/// Renders a signed integer in decimal.
pub fn i32_to_dec_string(n: i32) -> (s: String)
    ensures
        s@ == dec_str(n as int),
{
    if n < 0 {
        let m: u64 = (-(n as i64)) as u64;
        let mut s = "-".to_owned();
        s.append(u64_to_dec_string(m).as_str());
        proof {
            assert(s@ =~= dec_str(n as int));
        }
        s
    } else {
        u64_to_dec_string(n as u64)
    }
}

/// Rendering of an exit status: the code in decimal, or a fixed note
/// where the process left none.
pub open spec fn status_msg_spec(status: ExitStatus) -> Seq<char> {
    match status.code {
        Some(c) => "code "@ + dec_str(c as int),
        None => "no exit code"@,
    }
}

/// Renders an exit status for a diagnostic line.
pub fn status_message(status: &ExitStatus) -> (s: String)
    ensures
        s@ == status_msg_spec(*status),
{
    match status.code {
        Some(c) => {
            let mut s = "code ".to_owned();
            s.append(i32_to_dec_string(c).as_str());
            s
        },
        None => "no exit code".to_owned(),
    }
}

/// The diagnostic line for each error, over the context it carries.
pub open spec fn message_spec(e: AppError) -> Seq<char> {
    match e {
        AppError::CreateTempDir { cause } => "failed to create temporary directory: "@ + cause@,
        AppError::Download { url, dest, cause } => "failed to download "@ + url@ + " to "@
            + dest@ + ": "@ + cause@,
        AppError::DownloadStatus { url, dest, status } => "failed to download "@ + url@ + " to "@
            + dest@ + ": child process exited with "@ + status_msg_spec(status),
        AppError::CreateUnpackDir { dir, cause } => "failed to create "@ + dir@ + ": "@ + cause@,
        AppError::Extract { file, dir, cause } => "failed to unpack "@ + file@ + " into "@ + dir@
            + ": "@ + cause@,
        AppError::ExtractStatus { file, dir, status } => "failed to unpack "@ + file@ + " into "@
            + dir@ + ": child process exited with "@ + status_msg_spec(status),
        AppError::ReadUnpackDir { dir, cause } => "failed to read directory "@ + dir@ + ": "@
            + cause@,
        AppError::TooFewEntries { dir } => "unpack produced too few files in "@ + dir@,
        AppError::TooManyEntries { dir } => "unpack produced too many files in "@ + dir@,
        AppError::Build { cause } => "failed to pre-build targets: "@ + cause@,
        AppError::BuildStatus { status } => "failed to pre-build targets: child process exited with "@
            + status_msg_spec(status),
        AppError::Rename { src, dest, cause } => "failed to rename "@ + src@ + " to "@ + dest@
            + ": "@ + cause@,
        AppError::StartServer { cause } => "failed to start HTTP server: "@ + cause@,
    }
}

impl AppError {
    /// Renders the error as one diagnostic line.
    pub fn message(&self) -> (s: String)
        ensures
            s@ == message_spec(*self),
    {
        match self {
            AppError::CreateTempDir { cause } => {
                let mut s = "failed to create temporary directory: ".to_owned();
                s.append(cause.as_str());
                s
            },
            AppError::Download { url, dest, cause } => {
                let mut s = "failed to download ".to_owned();
                s.append(url.as_str());
                s.append(" to ");
                s.append(dest.as_str());
                s.append(": ");
                s.append(cause.as_str());
                s
            },
            AppError::DownloadStatus { url, dest, status } => {
                let mut s = "failed to download ".to_owned();
                s.append(url.as_str());
                s.append(" to ");
                s.append(dest.as_str());
                s.append(": child process exited with ");
                s.append(status_message(status).as_str());
                s
            },
            AppError::CreateUnpackDir { dir, cause } => {
                let mut s = "failed to create ".to_owned();
                s.append(dir.as_str());
                s.append(": ");
                s.append(cause.as_str());
                s
            },
            AppError::Extract { file, dir, cause } => {
                let mut s = "failed to unpack ".to_owned();
                s.append(file.as_str());
                s.append(" into ");
                s.append(dir.as_str());
                s.append(": ");
                s.append(cause.as_str());
                s
            },
            AppError::ExtractStatus { file, dir, status } => {
                let mut s = "failed to unpack ".to_owned();
                s.append(file.as_str());
                s.append(" into ");
                s.append(dir.as_str());
                s.append(": child process exited with ");
                s.append(status_message(status).as_str());
                s
            },
            AppError::ReadUnpackDir { dir, cause } => {
                let mut s = "failed to read directory ".to_owned();
                s.append(dir.as_str());
                s.append(": ");
                s.append(cause.as_str());
                s
            },
            AppError::TooFewEntries { dir } => {
                let mut s = "unpack produced too few files in ".to_owned();
                s.append(dir.as_str());
                s
            },
            AppError::TooManyEntries { dir } => {
                let mut s = "unpack produced too many files in ".to_owned();
                s.append(dir.as_str());
                s
            },
            AppError::Build { cause } => {
                let mut s = "failed to pre-build targets: ".to_owned();
                s.append(cause.as_str());
                s
            },
            AppError::BuildStatus { status } => {
                let mut s = "failed to pre-build targets: child process exited with ".to_owned();
                s.append(status_message(status).as_str());
                s
            },
            AppError::Rename { src, dest, cause } => {
                let mut s = "failed to rename ".to_owned();
                s.append(src.as_str());
                s.append(" to ");
                s.append(dest.as_str());
                s.append(": ");
                s.append(cause.as_str());
                s
            },
            AppError::StartServer { cause } => {
                let mut s = "failed to start HTTP server: ".to_owned();
                s.append(cause.as_str());
                s
            },
        }
    }
}

} // verus!
