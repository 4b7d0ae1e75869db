//! The tool's error type: four kinds, each with its exit code and advice.

use vstd::prelude::*;

verus! {

/// The kind of a [`GenaiError`], without its message.
#[derive(PartialEq, Eq, Structural, Clone, Copy, Debug)]
pub enum ErrorKind {
    Transient,
    Config,
    BadInput,
    RateLimited,
}

/// An error of the tool; each variant carries the message shown to the user.
#[derive(Debug)]
pub enum GenaiError {
    /// A failure that a retry may cure (network, provider error).
    Transient(String),
    /// Missing or wrong configuration (no API key).
    Config(String),
    /// An input that cannot be served (empty prompt, bad size, unknown model).
    BadInput(String),
    /// The provider refused the request for its rate limit.
    RateLimited(String),
}

impl View for GenaiError {
    type V = (ErrorKind, Seq<char>);

    open spec fn view(&self) -> (ErrorKind, Seq<char>) {
        match self {
            GenaiError::Transient(m) => (ErrorKind::Transient, m@),
            GenaiError::Config(m) => (ErrorKind::Config, m@),
            GenaiError::BadInput(m) => (ErrorKind::BadInput, m@),
            GenaiError::RateLimited(m) => (ErrorKind::RateLimited, m@),
        }
    }
}

/// The process exit code for an error of kind `k`.
pub open spec fn spec_exit_code(k: ErrorKind) -> i32 {
    match k {
        ErrorKind::Transient => 1,
        ErrorKind::Config => 2,
        ErrorKind::BadInput => 3,
        ErrorKind::RateLimited => 4,
    }
}

/// The advice shown with an error of kind `k`.
pub open spec fn spec_suggestion(k: ErrorKind) -> Seq<char> {
    match k {
        ErrorKind::Transient => "Retry the request — this may be a temporary issue"@,
        ErrorKind::Config => "Set FAL_KEY or OPENAI_API_KEY. Get a fal.ai key at https://fal.ai/dashboard/keys"@,
        ErrorKind::BadInput => "Check your prompt and options"@,
        ErrorKind::RateLimited => "Wait 60 seconds or switch provider with --provider openai"@,
    }
}

impl GenaiError {
    /// The kind of this error.
    pub fn kind(&self) -> (k: ErrorKind)
        ensures
            k == self@.0,
    {
        match self {
            GenaiError::Transient(_) => ErrorKind::Transient,
            GenaiError::Config(_) => ErrorKind::Config,
            GenaiError::BadInput(_) => ErrorKind::BadInput,
            GenaiError::RateLimited(_) => ErrorKind::RateLimited,
        }
    }

    /// The exit code of the process that ends with this error.
    pub fn exit_code(&self) -> (code: i32)
        ensures
            code == spec_exit_code(self@.0),
    {
        match self {
            GenaiError::Transient(_) => 1,
            GenaiError::Config(_) => 2,
            GenaiError::BadInput(_) => 3,
            GenaiError::RateLimited(_) => 4,
        }
    }

    /// What the user can do about this error.
    pub fn suggestion(&self) -> (s: &str)
        ensures
            s@ == spec_suggestion(self@.0),
    {
        match self {
            GenaiError::Transient(_) => "Retry the request — this may be a temporary issue",
            GenaiError::Config(_) => "Set FAL_KEY or OPENAI_API_KEY. Get a fal.ai key at https://fal.ai/dashboard/keys",
            GenaiError::BadInput(_) => "Check your prompt and options",
            GenaiError::RateLimited(_) => "Wait 60 seconds or switch provider with --provider openai",
        }
    }

    /// The message of this error, as it is displayed.
    pub fn message(&self) -> (m: String)
        ensures
            m@ == self@.1,
    {
        match self {
            GenaiError::Transient(m) => m.clone(),
            GenaiError::Config(m) => m.clone(),
            GenaiError::BadInput(m) => m.clone(),
            GenaiError::RateLimited(m) => m.clone(),
        }
    }
}

/// Every error ends the process with a code from 1 to 4, and errors of
/// different kinds end it with different codes: the code tells the kind.
pub proof fn lemma_exit_code_identifies_kind(a: ErrorKind, b: ErrorKind)
    ensures
        1 <= spec_exit_code(a) <= 4,
        spec_exit_code(a) == spec_exit_code(b) <==> a == b,
{
}

} // verus!
