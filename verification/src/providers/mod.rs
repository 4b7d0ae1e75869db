//! Requests, results and provider selection shared by both providers.

pub mod fal;
pub mod openai;

use vstd::prelude::*;
use crate::error::{ErrorKind, GenaiError};
use crate::text::{decimal, decimal_string, str_eq};

verus! {

/// What a model generates.
#[derive(PartialEq, Eq, Structural, Clone, Copy, Debug)]
pub enum MediaType {
    Image,
    Video,
}

impl MediaType {
    /// The name of this media type as the command line and JSON show it.
    pub open spec fn spec_name(self) -> Seq<char> {
        match self {
            MediaType::Image => "image"@,
            MediaType::Video => "video"@,
        }
    }

    /// The name of this media type: `image` or `video`.
    pub fn name(&self) -> (s: &str)
        ensures
            s@ == self.spec_name(),
    {
        match self {
            MediaType::Image => "image",
            MediaType::Video => "video",
        }
    }
}

/// A request for one image, naming the model both by its registry name and
/// by the provider's identifier.
#[derive(Debug)]
pub struct ImageRequest {
    pub prompt: String,
    pub model_name: String,
    pub model_id: String,
    pub width: u32,
    pub height: u32,
}

/// A request for one video, naming the model both by its registry name and
/// by the provider's identifier.
#[derive(Debug)]
pub struct VideoRequest {
    pub prompt: String,
    pub model_name: String,
    pub model_id: String,
    pub aspect_ratio: String,
    pub duration_secs: u8,
}

/// A span of time as whole seconds and the nanoseconds beyond them.
#[derive(Clone, Copy, Debug)]
pub struct Elapsed {
    pub secs: u64,
    pub nanos: u32,
}

impl Elapsed {
    /// The whole milliseconds of this span, truncated to 64 bits as
    /// `Duration::as_millis() as u64` does.
    pub open spec fn spec_millis(self) -> int {
        (self.secs * 1000 + self.nanos / 1_000_000) % 0x1_0000_0000_0000_0000
    }

    /// The whole milliseconds of this span.
    pub fn millis(&self) -> (ms: u64)
        ensures
            ms == self.spec_millis(),
    {
        let total: u128 = (self.secs as u128) * 1000 + (self.nanos as u128) / 1_000_000;
        (total % 0x1_0000_0000_0000_0000) as u64
    }
}

/// A generated file saved on disk.
#[derive(Debug)]
pub struct MediaOutput {
    pub local_path: String,
    pub provider: String,
    pub model: String,
    pub elapsed: Elapsed,
}

/// The service that generates the media.
#[derive(PartialEq, Eq, Structural, Clone, Copy, Debug)]
pub enum ProviderKind {
    Fal,
    OpenAi,
}

impl ProviderKind {
    /// The short name of the provider, as models are registered under it.
    pub open spec fn spec_name(self) -> Seq<char> {
        match self {
            ProviderKind::Fal => "fal"@,
            ProviderKind::OpenAi => "openai"@,
        }
    }

    /// The short name of the provider: `fal` or `openai`.
    pub fn name(&self) -> (s: &str)
        ensures
            s@ == self.spec_name(),
    {
        match self {
            ProviderKind::Fal => "fal",
            ProviderKind::OpenAi => "openai",
        }
    }
}

/// A key that is set and not empty.
pub open spec fn key_present(key: Option<&str>) -> bool {
    key matches Some(k) && k@.len() > 0
}

/// The provider that `select_provider` picks, or the error it gives.
pub open spec fn spec_select_provider(
    explicit: Option<Seq<char>>,
    fal_key_present: bool,
    openai_key_present: bool,
) -> Result<ProviderKind, (ErrorKind, Seq<char>)> {
    match explicit {
        Some(name) => if name == "fal"@ {
            Ok(ProviderKind::Fal)
        } else if name == "openai"@ {
            Ok(ProviderKind::OpenAi)
        } else {
            Err((ErrorKind::BadInput, "Unknown provider '"@ + name + "'. Use 'fal' or 'openai'"@))
        },
        None => if fal_key_present {
            Ok(ProviderKind::Fal)
        } else if openai_key_present {
            Ok(ProviderKind::OpenAi)
        } else {
            Err((ErrorKind::Config, "No API key found. Set FAL_KEY or OPENAI_API_KEY"@))
        },
    }
}

/// The view of a provider choice, with the error by its view.
pub open spec fn provider_result_view(r: Result<ProviderKind, GenaiError>) -> Result<
    ProviderKind,
    (ErrorKind, Seq<char>),
> {
    match r {
        Ok(k) => Ok(k),
        Err(e) => Err(e@),
    }
}

/// Picks the provider: the one named on the command line if any (`fal` or
/// `openai`, any other name is refused); else fal.ai when `FAL_KEY` holds a
/// key; else OpenAI when `OPENAI_API_KEY` holds one; else a configuration
/// error. The keys are the values of those variables, `None` when unset.
pub fn select_provider(
    explicit: Option<&str>,
    fal_key: Option<&str>,
    openai_key: Option<&str>,
) -> (r: Result<ProviderKind, GenaiError>)
    ensures
        provider_result_view(r) == spec_select_provider(
            match explicit {
                Some(n) => Some(n@),
                None => None,
            },
            key_present(fal_key),
            key_present(openai_key),
        ),
{
    if let Some(name) = explicit {
        if str_eq(name, "fal") {
            return Ok(ProviderKind::Fal);
        } else if str_eq(name, "openai") {
            return Ok(ProviderKind::OpenAi);
        } else {
            let mut m = String::from_str("Unknown provider '");
            m.append(name);
            m.append("'. Use 'fal' or 'openai'");
            return Err(GenaiError::BadInput(m));
        }
    }
    if let Some(k) = fal_key {
        if !k.is_empty() {
            return Ok(ProviderKind::Fal);
        }
    }
    if let Some(k) = openai_key {
        if !k.is_empty() {
            return Ok(ProviderKind::OpenAi);
        }
    }
    Err(GenaiError::Config(String::from_str("No API key found. Set FAL_KEY or OPENAI_API_KEY")))
}

/// A provider named on the command line is used whatever keys are set, and
/// a name other than `fal` or `openai` is refused as bad input.
pub proof fn lemma_explicit_provider_ignores_keys(
    name: Seq<char>,
    fal_a: bool,
    openai_a: bool,
    fal_b: bool,
    openai_b: bool,
)
    ensures
        spec_select_provider(Some(name), fal_a, openai_a) == spec_select_provider(
            Some(name),
            fal_b,
            openai_b,
        ),
        spec_select_provider(Some(name), fal_a, openai_a) is Err ==> spec_select_provider(
            Some(name),
            fal_a,
            openai_a,
        )->Err_0.0 == ErrorKind::BadInput,
{
}

/// Without a provider on the command line, fal.ai wins whenever its key is
/// set, and the only error is the configuration error for no key at all.
pub proof fn lemma_fal_key_takes_precedence(fal: bool, openai: bool)
    ensures
        fal ==> spec_select_provider(None, fal, openai) == Ok::<
            ProviderKind,
            (ErrorKind, Seq<char>),
        >(ProviderKind::Fal),
        spec_select_provider(None, fal, openai) is Err <==> (!fal && !openai),
        spec_select_provider(None, fal, openai) is Err ==> spec_select_provider(
            None,
            fal,
            openai,
        )->Err_0.0 == ErrorKind::Config,
{
}

/// The reason phrase that the `http` crate (which `reqwest` re-exports as
/// `StatusCode`) gives a status code, as plain characters; `None` for a
/// code that has none or that is not a valid status code.
pub uninterp spec fn http_reason_phrase(code: u16) -> Option<Seq<char>>;

/// Calls `reqwest::StatusCode::from_u16` and `StatusCode::canonical_reason`:
/// the contract claims that the result is the reason phrase of that code,
/// the same phrase for the same code every time, and `None` where
/// `from_u16` refuses the code.
#[verifier::external_body]
fn reason_phrase(code: u16) -> (r: Option<&'static str>)
    ensures
        match r {
            Some(p) => http_reason_phrase(code) == Some(p@),
            None => http_reason_phrase(code) is None,
        },
{
    match reqwest::StatusCode::from_u16(code) {
        Ok(s) => s.canonical_reason(),
        Err(_) => None,
    }
}

/// A status code as `StatusCode` displays it: the number, a space, and the
/// reason phrase or `<unknown status code>`.
pub open spec fn spec_status_text(code: u16) -> Seq<char> {
    decimal(code as nat) + " "@ + match http_reason_phrase(code) {
        Some(p) => p,
        None => "<unknown status code>"@,
    }
}

/// A status code as an HTTP response shows it, e.g. `500 Internal Server Error`.
pub fn status_text(code: u16) -> (s: String)
    ensures
        s@ == spec_status_text(code),
{
    let mut s = decimal_string(code as u64);
    s.append(" ");
    match reason_phrase(code) {
        Some(p) => s.append(p),
        None => s.append("<unknown status code>"),
    }
    s
}

/// A status in the 2xx range, as `StatusCode::is_success` states it.
pub open spec fn is_success(code: u16) -> bool {
    200 <= code < 300
}

/// Whether a reply with this status succeeded (2xx).
pub fn status_ok(code: u16) -> (b: bool)
    ensures
        b == is_success(code),
{
    200 <= code && code < 300
}

/// The error for a reply that the provider rejected: a rate-limit error for
/// status 429, else a transient error that quotes the status and the body.
pub open spec fn spec_reply_error(
    service: Seq<char>,
    code: u16,
    body: Seq<char>,
) -> (ErrorKind, Seq<char>) {
    if code == 429 {
        (ErrorKind::RateLimited, "Rate limited by "@ + service)
    } else {
        (ErrorKind::Transient, service + " returned HTTP "@ + spec_status_text(code) + ": "@ + body)
    }
}

/// The error for a reply from `service` that did not succeed.
pub fn reply_error(service: &str, code: u16, body: &str) -> (e: GenaiError)
    ensures
        e@ == spec_reply_error(service@, code, body@),
{
    if code == 429 {
        let mut m = String::from_str("Rate limited by ");
        m.append(service);
        GenaiError::RateLimited(m)
    } else {
        let mut m = String::from_str(service);
        m.append(" returned HTTP ");
        let st = status_text(code);
        m.append(st.as_str());
        m.append(": ");
        m.append(body);
        GenaiError::Transient(m)
    }
}

/// The error of a download that the server refused: a transient error that
/// quotes the status.
pub fn check_download(code: u16) -> (r: Result<(), GenaiError>)
    ensures
        is_success(code) <==> r is Ok,
        r matches Err(e) ==> e@ == (ErrorKind::Transient, "Download returned HTTP "@
            + spec_status_text(code)),
{
    if 200 <= code && code < 300 {
        Ok(())
    } else {
        let mut m = String::from_str("Download returned HTTP ");
        let st = status_text(code);
        m.append(st.as_str());
        Err(GenaiError::Transient(m))
    }
}

} // verus!
