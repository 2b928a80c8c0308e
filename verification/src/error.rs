//! Errors with semantic exit codes.
//!
//! Every error maps to an exit code (1-4), a machine-readable code, and a
//! recovery suggestion that agents can follow literally. Errors that wrap
//! an operating-system or HTTP failure carry that failure's message.

use vstd::prelude::*;
use crate::text::push_str;

verus! {

/// An application error.
#[derive(Debug)]
pub enum AppError {
    InvalidInput(String),
    Config(String),
    Transient(String),
    RateLimited(String),
    Io(String),
    Http(String),
    Audio(String),
    Update(String),
}

/// The process exit code of an error: 3 bad input, 2 configuration,
/// 4 rate limited, 1 everything transient.
pub open spec fn exit_code_of(e: AppError) -> i32 {
    match e {
        AppError::InvalidInput(_) => 3,
        AppError::Config(_) => 2,
        AppError::RateLimited(_) => 4,
        _ => 1,
    }
}

/// The machine-readable code of an error.
pub open spec fn error_code_of(e: AppError) -> Seq<char> {
    match e {
        AppError::InvalidInput(_) => "invalid_input"@,
        AppError::Config(_) => "config_error"@,
        AppError::Transient(_) => "transient_error"@,
        AppError::RateLimited(_) => "rate_limited"@,
        AppError::Io(_) => "io_error"@,
        AppError::Http(_) => "http_error"@,
        AppError::Audio(_) => "audio_error"@,
        AppError::Update(_) => "update_error"@,
    }
}

/// The recovery suggestion of an error.
pub open spec fn suggestion_of(e: AppError) -> Seq<char> {
    match e {
        AppError::InvalidInput(_) => "Check arguments with: gemtts --help"@,
        AppError::Config(_) => "Run: gemtts doctor --live, or set the key with gemtts auth import-env"@,
        AppError::Transient(_) | AppError::Io(_) | AppError::Http(_) => "Retry the command"@,
        AppError::Audio(_) => "Run doctor --require-ffmpeg, or use --format wav"@,
        AppError::RateLimited(_) => "Wait a moment and retry"@,
        AppError::Update(_) => "Retry later, or install manually via cargo install gemtts"@,
    }
}

/// The human-readable rendering of an error.
pub open spec fn message_of(e: AppError) -> Seq<char> {
    match e {
        AppError::InvalidInput(m) => "Invalid input: "@ + m@,
        AppError::Config(m) => "Configuration error: "@ + m@,
        AppError::Transient(m) => m@,
        AppError::RateLimited(m) => "Rate limited: "@ + m@,
        AppError::Io(m) => "IO error: "@ + m@,
        AppError::Http(m) => "HTTP error: "@ + m@,
        AppError::Audio(m) => "Audio error: "@ + m@,
        AppError::Update(m) => "Update failed: "@ + m@,
    }
}

impl AppError {
    /// The process exit code for this error.
    pub fn exit_code(&self) -> (r: i32)
        ensures
            r == exit_code_of(*self),
    {
        match self {
            AppError::InvalidInput(_) => 3,
            AppError::Config(_) => 2,
            AppError::RateLimited(_) => 4,
            AppError::Transient(_) | AppError::Io(_) | AppError::Http(_) | AppError::Audio(_)
            | AppError::Update(_) => 1,
        }
    }

    /// The machine-readable code for this error.
    pub fn error_code(&self) -> (r: &'static str)
        ensures
            r@ == error_code_of(*self),
    {
        match self {
            AppError::InvalidInput(_) => "invalid_input",
            AppError::Config(_) => "config_error",
            AppError::Transient(_) => "transient_error",
            AppError::RateLimited(_) => "rate_limited",
            AppError::Io(_) => "io_error",
            AppError::Http(_) => "http_error",
            AppError::Audio(_) => "audio_error",
            AppError::Update(_) => "update_error",
        }
    }

    /// The recovery suggestion for this error.
    pub fn suggestion(&self) -> (r: &'static str)
        ensures
            r@ == suggestion_of(*self),
    {
        match self {
            AppError::InvalidInput(_) => "Check arguments with: gemtts --help",
            AppError::Config(_) => "Run: gemtts doctor --live, or set the key with gemtts auth import-env",
            AppError::Transient(_) | AppError::Io(_) | AppError::Http(_) => "Retry the command",
            AppError::Audio(_) => "Run doctor --require-ffmpeg, or use --format wav",
            AppError::RateLimited(_) => "Wait a moment and retry",
            AppError::Update(_) => "Retry later, or install manually via cargo install gemtts",
        }
    }

    /// The human-readable rendering of this error.
    pub fn message(&self) -> (r: String)
        ensures
            r@ == message_of(*self),
    {
        let mut r = String::new();
        match self {
            AppError::InvalidInput(m) => {
                push_str(&mut r, "Invalid input: ");
                push_str(&mut r, m.as_str());
            },
            AppError::Config(m) => {
                push_str(&mut r, "Configuration error: ");
                push_str(&mut r, m.as_str());
            },
            AppError::Transient(m) => {
                push_str(&mut r, m.as_str());
            },
            AppError::RateLimited(m) => {
                push_str(&mut r, "Rate limited: ");
                push_str(&mut r, m.as_str());
            },
            AppError::Io(m) => {
                push_str(&mut r, "IO error: ");
                push_str(&mut r, m.as_str());
            },
            AppError::Http(m) => {
                push_str(&mut r, "HTTP error: ");
                push_str(&mut r, m.as_str());
            },
            AppError::Audio(m) => {
                push_str(&mut r, "Audio error: ");
                push_str(&mut r, m.as_str());
            },
            AppError::Update(m) => {
                push_str(&mut r, "Update failed: ");
                push_str(&mut r, m.as_str());
            },
        }
        r
    }
}

/// The error that the hidden `contract` command raises so that the process
/// exits with `code`: none for 0, an error of the kind with that exit code
/// for 1 to 4, and invalid input for any other code.
pub fn contract_error(code: i32) -> (r: Option<AppError>)
    ensures
        code == 0 ==> r is None,
        code != 0 ==> (r matches Some(e) && exit_code_of(e) == (if 1 <= code <= 4 {
            code
        } else {
            3
        })),
        code == 1 ==> (r matches Some(AppError::Transient(m)) && m@ == "contract exit code trigger"@),
        code == 2 ==> (r matches Some(AppError::Config(m)) && m@ == "contract exit code trigger"@),
        code == 3 ==> (r matches Some(AppError::InvalidInput(m)) && m@ == "contract exit code trigger"@),
        code == 4 ==> (r matches Some(AppError::RateLimited(m)) && m@ == "contract exit code trigger"@),
        (code < 0 || code > 4) ==> (r matches Some(AppError::InvalidInput(m)) && m@
            == "contract code must be between 0 and 4"@),
{
    let mut m = String::new();
    if code == 0 {
        return None;
    }
    if code < 0 || code > 4 {
        push_str(&mut m, "contract code must be between 0 and 4");
        return Some(AppError::InvalidInput(m));
    }
    push_str(&mut m, "contract exit code trigger");
    if code == 1 {
        Some(AppError::Transient(m))
    } else if code == 2 {
        Some(AppError::Config(m))
    } else if code == 3 {
        Some(AppError::InvalidInput(m))
    } else {
        Some(AppError::RateLimited(m))
    }
}

/// Every error exits with one of the documented failure codes 1-4, and the
/// code is 1 exactly for the transient kinds.
pub proof fn exit_codes_are_documented(e: AppError)
    ensures
        1 <= exit_code_of(e) <= 4,
        (exit_code_of(e) == 1) <==> (e is Transient || e is Io || e is Http || e is Audio
            || e is Update),
{
}

} // verus!
