//! OpenAI: the image request, its reply, and base64 image decoding.

use base64::Engine;
use vstd::prelude::*;
use crate::cli::{lemma_size_round_trip, spec_parse_size};
use crate::error::{ErrorKind, GenaiError};
use crate::providers::{
    reply_error, spec_reply_error, Elapsed, ImageRequest, MediaOutput, VideoRequest,
};
use crate::text::{decimal, decimal_string, push_char};

verus! {

/// The OpenAI provider, holding its API key.
pub struct OpenAiProvider {
    pub api_key: String,
}

/// The JSON body that asks OpenAI for an image.
#[derive(Debug)]
pub struct OpenAiImageBody {
    pub model: String,
    pub prompt: String,
    pub n: u32,
    pub size: String,
    pub response_format: &'static str,
}

/// One generated image in a reply, base64-encoded.
#[derive(Debug)]
pub struct ImageData {
    pub b64_json: String,
}

/// The reply to an image request.
#[derive(Debug)]
pub struct ImageResponse {
    pub data: Vec<ImageData>,
}

/// Why base64 text could not be decoded, with the offsets and bytes that
/// the decoder reports.
#[derive(PartialEq, Eq, Structural, Clone, Copy, Debug)]
pub enum Base64Fault {
    InvalidByte(usize, u8),
    InvalidLength(usize),
    InvalidLastSymbol(usize, u8),
    InvalidPadding,
}

/// What the standard base64 alphabet with padding
/// (`base64::engine::general_purpose::STANDARD`) decodes `text` to: the
/// bytes, or the fault that the decoder reports.
pub uninterp spec fn base64_standard_decode(text: Seq<char>) -> Result<Seq<u8>, Base64Fault>;

/// Calls `Engine::decode` of `base64::engine::general_purpose::STANDARD` on
/// the bytes of `text` and tells the variants of its `DecodeError` apart.
/// The contract claims that the outcome, bytes or fault, is the named
/// decoding of `text`, the same for the same text every time.
#[verifier::external_body]
fn decode_standard(text: &str) -> (r: Result<Vec<u8>, Base64Fault>)
    ensures
        match r {
            Ok(bytes) => base64_standard_decode(text@) == Ok::<Seq<u8>, Base64Fault>(bytes@),
            Err(f) => base64_standard_decode(text@) == Err::<Seq<u8>, Base64Fault>(f),
        },
{
    match base64::engine::general_purpose::STANDARD.decode(text) {
        Ok(bytes) => Ok(bytes),
        Err(base64::DecodeError::InvalidByte(i, b)) => Err(Base64Fault::InvalidByte(i, b)),
        Err(base64::DecodeError::InvalidLength(n)) => Err(Base64Fault::InvalidLength(n)),
        Err(base64::DecodeError::InvalidLastSymbol(i, b)) => Err(Base64Fault::InvalidLastSymbol(i, b)),
        Err(base64::DecodeError::InvalidPadding) => Err(Base64Fault::InvalidPadding),
    }
}

impl Base64Fault {
    /// The text of a fault, as the decoder's error displays it.
    pub open spec fn spec_text(self) -> Seq<char> {
        match self {
            Base64Fault::InvalidByte(i, b) => "Invalid symbol "@ + decimal(b as nat) + ", offset "@
                + decimal(i as nat) + "."@,
            Base64Fault::InvalidLength(n) => "Invalid input length: "@ + decimal(n as nat),
            Base64Fault::InvalidLastSymbol(i, b) => "Invalid last symbol "@ + decimal(b as nat)
                + ", offset "@ + decimal(i as nat) + "."@,
            Base64Fault::InvalidPadding => "Invalid padding"@,
        }
    }

    /// The text of this fault.
    pub fn text(&self) -> (s: String)
        ensures
            s@ == self.spec_text(),
    {
        match self {
            Base64Fault::InvalidByte(i, b) => {
                let mut s = String::from_str("Invalid symbol ");
                let bs = decimal_string(*b as u64);
                s.append(bs.as_str());
                s.append(", offset ");
                let is = decimal_string(*i as u64);
                s.append(is.as_str());
                s.append(".");
                s
            },
            Base64Fault::InvalidLength(n) => {
                let mut s = String::from_str("Invalid input length: ");
                let ns = decimal_string(*n as u64);
                s.append(ns.as_str());
                s
            },
            Base64Fault::InvalidLastSymbol(i, b) => {
                let mut s = String::from_str("Invalid last symbol ");
                let bs = decimal_string(*b as u64);
                s.append(bs.as_str());
                s.append(", offset ");
                let is = decimal_string(*i as u64);
                s.append(is.as_str());
                s.append(".");
                s
            },
            Base64Fault::InvalidPadding => String::from_str("Invalid padding"),
        }
    }
}

/// The image size to ask OpenAI for: `WxH` when it is one of the sizes the
/// service offers (1024x1024, 1536x1024, 1024x1536), else 1024x1024.
pub open spec fn spec_openai_size(width: u32, height: u32) -> Seq<char> {
    let asked = decimal(width as nat) + "x"@ + decimal(height as nat);
    if (width == 1024 && height == 1024) || (width == 1536 && height == 1024) || (width == 1024
        && height == 1536) {
        asked
    } else {
        "1024x1024"@
    }
}

/// Whatever the dimensions asked for, OpenAI is asked for one of the three
/// sizes it offers.
pub proof fn lemma_openai_size_offered(width: u32, height: u32)
    ensures
        spec_openai_size(width, height) == "1024x1024"@ || spec_openai_size(width, height)
            == "1536x1024"@ || spec_openai_size(width, height) == "1024x1536"@,
{
    reveal_with_fuel(decimal, 5);
    reveal_strlit("x");
    reveal_strlit("1024x1024");
    reveal_strlit("1536x1024");
    reveal_strlit("1024x1536");
    let d1024 = decimal(1024);
    let d1536 = decimal(1536);
    assert(decimal(1) =~= seq!['1']);
    assert(decimal(10) =~= seq!['1', '0']);
    assert(decimal(102) =~= seq!['1', '0', '2']);
    assert(d1024 =~= seq!['1', '0', '2', '4']);
    assert(decimal(15) =~= seq!['1', '5']);
    assert(decimal(153) =~= seq!['1', '5', '3']);
    assert(d1536 =~= seq!['1', '5', '3', '6']);
    assert(d1024 + "x"@ + d1024 =~= "1024x1024"@);
    assert(d1536 + "x"@ + d1024 =~= "1536x1024"@);
    assert(d1024 + "x"@ + d1536 =~= "1024x1536"@);
}

/// A size that OpenAI offers is asked for as it is (it reads back as the
/// same width and height); any other size falls back to 1024x1024.
pub proof fn lemma_openai_size_keeps_or_falls_back(width: u32, height: u32)
    ensures
        !((width == 1024 && height == 1024) || (width == 1536 && height == 1024) || (width == 1024
            && height == 1536)) ==> spec_openai_size(width, height) == "1024x1024"@,
        ((width == 1024 && height == 1024) || (width == 1536 && height == 1024) || (width == 1024
            && height == 1536)) ==> spec_parse_size(spec_openai_size(width, height)) == Ok::<
            (u32, u32),
            (ErrorKind, Seq<char>),
        >((width, height)),
{
    lemma_size_round_trip(width, height);
}

impl OpenAiProvider {
    /// The provider for the key in `OPENAI_API_KEY` (`None` when the
    /// variable is unset), or a configuration error without one.
    pub fn from_env(openai_key: Option<&str>) -> (r: Result<OpenAiProvider, GenaiError>)
        ensures
            match openai_key {
                Some(k) => r matches Ok(p) && p.api_key@ == k@,
                None => r matches Err(e) && e@ == (
                    ErrorKind::Config,
                    "OPENAI_API_KEY environment variable not set"@,
                ),
            },
    {
        match openai_key {
            Some(k) => Ok(OpenAiProvider { api_key: String::from_str(k) }),
            None => Err(
                GenaiError::Config(String::from_str("OPENAI_API_KEY environment variable not set")),
            ),
        }
    }

    /// The `Authorization` header: `Bearer ` and the API key.
    pub fn auth_header(&self) -> (h: String)
        ensures
            h@ == "Bearer "@ + self.api_key@,
    {
        let mut h = String::from_str("Bearer ");
        h.append(self.api_key.as_str());
        h
    }

    /// The endpoint that generates images.
    pub fn images_endpoint() -> (u: &'static str)
        ensures
            u@ == "https://api.openai.com/v1/images/generations"@,
    {
        "https://api.openai.com/v1/images/generations"
    }

    /// The size to ask for at `width` by `height`.
    pub fn image_size(width: u32, height: u32) -> (s: String)
        ensures
            s@ == spec_openai_size(width, height),
    {
        let mut asked = decimal_string(width as u64);
        push_char(&mut asked, 'x');
        let h = decimal_string(height as u64);
        asked.append(h.as_str());
        if (width == 1024 && height == 1024) || (width == 1536 && height == 1024) || (width
            == 1024 && height == 1536) {
            proof {
                reveal_strlit("x");
                assert("x"@ =~= seq!['x']);
            }
            asked
        } else {
            String::from_str("1024x1024")
        }
    }

    /// The body of an image request: the model, the prompt, one image, the
    /// size that `image_size` picks, base64 in the reply.
    pub fn image_body(req: &ImageRequest) -> (b: OpenAiImageBody)
        ensures
            b.model@ == req.model_id@,
            b.prompt@ == req.prompt@,
            b.n == 1,
            b.size@ == spec_openai_size(req.width, req.height),
            b.response_format@ == "b64_json"@,
    {
        OpenAiImageBody {
            model: req.model_id.clone(),
            prompt: req.prompt.clone(),
            n: 1,
            size: Self::image_size(req.width, req.height),
            response_format: "b64_json",
        }
    }

    /// The error for a reply with a status other than 2xx: a rate-limit
    /// error for 429, else a transient error quoting the status and `body`.
    pub fn response_error(code: u16, body: &str) -> (e: GenaiError)
        ensures
            e@ == spec_reply_error("OpenAI"@, code, body@),
    {
        reply_error("OpenAI", code, body)
    }

    /// The base64 text of the first image of the reply.
    pub fn first_image(resp: &ImageResponse) -> (r: Result<&str, GenaiError>)
        ensures
            resp.data@.len() > 0 ==> (r matches Ok(s) && s@ == resp.data@[0].b64_json@),
            resp.data@.len() == 0 ==> (r matches Err(e) && e@ == (
                ErrorKind::Transient,
                "No image in OpenAI response"@,
            )),
    {
        if resp.data.len() > 0 {
            Ok(resp.data[0].b64_json.as_str())
        } else {
            Err(GenaiError::Transient(String::from_str("No image in OpenAI response")))
        }
    }

    /// The image bytes that the base64 text `b64` encodes, or a transient
    /// error with the text of the decoder's fault.
    pub fn decode_image(b64: &str) -> (r: Result<Vec<u8>, GenaiError>)
        ensures
            match base64_standard_decode(b64@) {
                Ok(bytes) => r matches Ok(v) && v@ == bytes,
                Err(f) => r matches Err(e) && e@ == (
                    ErrorKind::Transient,
                    "Failed to decode base64 image: "@ + f.spec_text(),
                ),
            },
    {
        match decode_standard(b64) {
            Ok(bytes) => Ok(bytes),
            Err(f) => {
                let mut m = String::from_str("Failed to decode base64 image: ");
                let t = f.text();
                m.append(t.as_str());
                Err(GenaiError::Transient(m))
            },
        }
    }

    /// The record of an image that OpenAI generated for `req`, saved at
    /// `path` after `elapsed`; the model is named as the registry names it.
    pub fn media_output(req: &ImageRequest, path: String, elapsed: Elapsed) -> (o: MediaOutput)
        ensures
            o.local_path@ == path@,
            o.provider@ == "openai"@,
            o.model@ == req.model_name@,
            o.elapsed == elapsed,
    {
        MediaOutput {
            local_path: path,
            provider: String::from_str("openai"),
            model: req.model_name.clone(),
            elapsed,
        }
    }

    /// Video generation is not offered through the OpenAI API: every request
    /// is refused as bad input.
    pub fn generate_video(&self, req: &VideoRequest, explicit_output: Option<&str>) -> (r: Result<
        MediaOutput,
        GenaiError,
    >)
        ensures
            r matches Err(e) && e@ == (
                ErrorKind::BadInput,
                "OpenAI video generation (Sora) is not yet available via API. Use --provider fal instead"@,
            ),
    {
        Err(
            GenaiError::BadInput(
                String::from_str(
                    "OpenAI video generation (Sora) is not yet available via API. Use --provider fal instead",
                ),
            ),
        )
    }
}

} // verus!
