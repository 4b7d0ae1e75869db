//! What the commands decide before and after the provider is called:
//! size parsing, request planning and model listing.

use vstd::prelude::*;
use crate::error::{ErrorKind, GenaiError};
use crate::models::{all_models, resolve_model, spec_resolve, views, ModelInfo, ModelView};
use crate::providers::fal::FalProvider;
use crate::providers::openai::OpenAiProvider;
use crate::providers::{
    key_present, select_provider, spec_select_provider, ImageRequest,
    MediaType, ProviderKind, VideoRequest,
};
use crate::text::{
    all_digits, blank, decimal, digit_char, digit_value, digits_value, is_blank, is_digit, owned,
    parse_u32, spec_parse_u32, str_eq,
};

verus! {

/// `p` is the position of the only `x` in `s`.
pub open spec fn sole_x_at(s: Seq<char>, p: int) -> bool {
    &&& 0 <= p < s.len()
    &&& s[p] == 'x'
    &&& forall|q: int| 0 <= q < s.len() && q != p ==> s[q] != 'x'
}

/// The width and height that a `WxH` size gives, or the error for it: the
/// size must hold exactly one `x`, and each side must parse as a `u32`.
pub open spec fn spec_parse_size(s: Seq<char>) -> Result<(u32, u32), (ErrorKind, Seq<char>)> {
    if exists|p: int| sole_x_at(s, p) {
        let p = choose|p: int| sole_x_at(s, p);
        match spec_parse_u32(s.take(p)) {
            None => Err((ErrorKind::BadInput, "Invalid width in '"@ + s + "'"@)),
            Some(w) => match spec_parse_u32(s.skip(p + 1)) {
                None => Err((ErrorKind::BadInput, "Invalid height in '"@ + s + "'"@)),
                Some(h) => Ok((w, h)),
            },
        }
    } else {
        Err((ErrorKind::BadInput, "Invalid size '"@ + s + "'. Use WxH format like 1024x1024"@))
    }
}

/// The view of a parsed size.
pub open spec fn size_result_view(r: Result<(u32, u32), GenaiError>) -> Result<
    (u32, u32),
    (ErrorKind, Seq<char>),
> {
    match r {
        Ok(wh) => Ok(wh),
        Err(e) => Err(e@),
    }
}

/// Parses a `WxH` image size such as `1024x1024`.
pub fn parse_size(s: &str) -> (r: Result<(u32, u32), GenaiError>)
    ensures
        size_result_view(r) == spec_parse_size(s@),
{
    let n = s.unicode_len();
    let mut found: u8 = 0;
    let mut pos: usize = 0;
    let mut other: usize = 0;
    let mut i: usize = 0;
    while i < n
        invariant
            n == s@.len(),
            i <= n,
            found <= 2,
            found == 0 ==> forall|q: int| 0 <= q < i ==> s@[q] != 'x',
            found >= 1 ==> pos < i && s@[pos as int] == 'x',
            found == 1 ==> forall|q: int| 0 <= q < i && q != pos ==> s@[q] != 'x',
            found == 2 ==> other < i && other != pos && s@[other as int] == 'x',
        decreases n - i,
    {
        if s.get_char(i) == 'x' {
            if found == 0 {
                found = 1;
                pos = i;
            } else if found == 1 {
                found = 2;
                other = i;
            }
        }
        i = i + 1;
    }
    if found != 1 {
        proof {
            assert forall|p: int| !sole_x_at(s@, p) by {
                if found == 2 && sole_x_at(s@, p) {
                    if p == pos {
                        assert(s@[other as int] != 'x');
                    } else {
                        assert(s@[pos as int] != 'x');
                    }
                }
            }
        }
        let mut m = String::from_str("Invalid size '");
        m.append(s);
        m.append("'. Use WxH format like 1024x1024");
        return Err(GenaiError::BadInput(m));
    }
    proof {
        assert(sole_x_at(s@, pos as int));
        let p = choose|p: int| sole_x_at(s@, p);
        assert(p == pos);
    }
    let left = s.substring_char(0, pos);
    let right = s.substring_char(pos + 1, n);
    assert(left@ =~= s@.take(pos as int));
    assert(right@ =~= s@.skip(pos as int + 1));
    match parse_u32(left) {
        None => {
            let mut m = String::from_str("Invalid width in '");
            m.append(s);
            m.append("'");
            Err(GenaiError::BadInput(m))
        },
        Some(w) => match parse_u32(right) {
            None => {
                let mut m = String::from_str("Invalid height in '");
                m.append(s);
                m.append("'");
                Err(GenaiError::BadInput(m))
            },
            Some(h) => Ok((w, h)),
        },
    }
}

proof fn lemma_digit_char(k: nat)
    requires
        k < 10,
    ensures
        is_digit(digit_char(k)),
        digit_value(digit_char(k)) == k,
        digit_char(k) != '+',
        digit_char(k) != 'x',
{
}

proof fn lemma_decimal_digits(n: nat)
    ensures
        decimal(n).len() > 0,
        all_digits(decimal(n)),
        digits_value(decimal(n)) == n,
        decimal(n)[0] != '+',
        forall|i: int| 0 <= i < decimal(n).len() ==> decimal(n)[i] != 'x',
    decreases n,
{
    if n >= 10 {
        lemma_decimal_digits(n / 10);
        lemma_digit_char(n % 10);
        let d = decimal(n);
        assert(d.drop_last() =~= decimal(n / 10));
        assert(d.last() == digit_char(n % 10));
        assert(digits_value(d) == digits_value(decimal(n / 10)) * 10 + digit_value(digit_char(n % 10)));
        assert((n / 10) * 10 + n % 10 == n);
        assert(d[0] == decimal(n / 10)[0]);
        assert forall|i: int| 0 <= i < d.len() implies is_digit(#[trigger] d[i]) by {
            if i < d.len() - 1 {
                assert(d[i] == decimal(n / 10)[i]);
            }
        }
    } else {
        lemma_digit_char(n);
        assert(decimal(n).drop_last() =~= Seq::<char>::empty());
        assert(decimal(n).last() == digit_char(n));
        assert(digits_value(decimal(n)) == digits_value(Seq::<char>::empty()) * 10 + digit_value(digit_char(n)));
    }
}

/// A decimal number parses back to itself.
pub proof fn lemma_parse_decimal(n: u32)
    ensures
        spec_parse_u32(decimal(n as nat)) == Some(n),
{
    lemma_decimal_digits(n as nat);
}

/// Printing a width and a height as `WxH` and parsing the result gives
/// them back.
pub proof fn lemma_size_round_trip(w: u32, h: u32)
    ensures
        spec_parse_size(decimal(w as nat) + "x"@ + decimal(h as nat)) == Ok::<
            (u32, u32),
            (ErrorKind, Seq<char>),
        >((w, h)),
{
    reveal_strlit("x");
    let dw = decimal(w as nat);
    let dh = decimal(h as nat);
    lemma_decimal_digits(w as nat);
    lemma_decimal_digits(h as nat);
    let s = dw + "x"@ + dh;
    let p = dw.len() as int;
    assert(s[p] == 'x');
    assert forall|q: int| 0 <= q < s.len() && q != p implies s[q] != 'x' by {
        if q < p {
            assert(s[q] == dw[q]);
        } else {
            assert(s[q] == dh[q - p - 1]);
        }
    }
    assert(sole_x_at(s, p));
    let c = choose|c: int| sole_x_at(s, c);
    assert(c == p);
    assert(s.take(p) =~= dw);
    assert(s.skip(p + 1) =~= dh);
    lemma_parse_decimal(w);
    lemma_parse_decimal(h);
}

/// The provider that serves a request, with its key.
pub enum Provider {
    Fal(FalProvider),
    OpenAi(OpenAiProvider),
}

impl Provider {
    /// Which provider this is.
    pub open spec fn spec_kind(&self) -> ProviderKind {
        match self {
            Provider::Fal(_) => ProviderKind::Fal,
            Provider::OpenAi(_) => ProviderKind::OpenAi,
        }
    }

    /// The API key this provider holds.
    pub open spec fn spec_key(&self) -> Seq<char> {
        match self {
            Provider::Fal(p) => p.api_key@,
            Provider::OpenAi(p) => p.api_key@,
        }
    }
}

/// The view of an optional name.
pub open spec fn opt_str(s: Option<&str>) -> Option<Seq<char>> {
    match s {
        Some(x) => Some(x@),
        None => None,
    }
}

/// The error for a model name that is not registered for the provider and
/// media type; `default` stands in when no name was given.
pub open spec fn unknown_model_error(model: Option<Seq<char>>, t: MediaType) -> (
    ErrorKind,
    Seq<char>,
) {
    (
        ErrorKind::BadInput,
        "Unknown model '"@ + match model {
            Some(n) => n,
            None => "default"@,
        } + "'. Run 'genai models --type "@ + t.spec_name() + "' to see options"@,
    )
}

/// The key of the provider's environment variable.
pub open spec fn provider_key(k: ProviderKind, fal_key: Option<&str>, openai_key: Option<&str>) -> Option<Seq<char>> {
    match k {
        ProviderKind::Fal => opt_str(fal_key),
        ProviderKind::OpenAi => opt_str(openai_key),
    }
}

/// The error for a provider whose key variable is unset.
pub open spec fn missing_key_error(k: ProviderKind) -> (ErrorKind, Seq<char>) {
    match k {
        ProviderKind::Fal => (ErrorKind::Config, "FAL_KEY environment variable not set"@),
        ProviderKind::OpenAi => (ErrorKind::Config, "OPENAI_API_KEY environment variable not set"@),
    }
}

/// What a media request resolves to, the size aside: the provider, the
/// identifier and the registry name of the model, and the provider's key;
/// or the first error in the order provider, model, key.
pub open spec fn spec_plan(
    prompt: Seq<char>,
    model: Option<Seq<char>>,
    provider: Option<Seq<char>>,
    fal_key: Option<&str>,
    openai_key: Option<&str>,
    t: MediaType,
) -> Result<(ProviderKind, Seq<char>, Seq<char>, Seq<char>), (ErrorKind, Seq<char>)> {
    match spec_select_provider(provider, key_present(fal_key), key_present(openai_key)) {
        Err(e) => Err(e),
        Ok(k) => match spec_resolve(model, k.spec_name(), t) {
            None => Err(unknown_model_error(model, t)),
            Some(m) => match provider_key(k, fal_key, openai_key) {
                None => Err(missing_key_error(k)),
                Some(key) => Ok((k, m.model_id, m.name, key)),
            },
        },
    }
}

/// Resolves provider, model and key for a request of media type `t`.
fn plan(
    model: Option<&str>,
    provider: Option<&str>,
    fal_key: Option<&str>,
    openai_key: Option<&str>,
    t: MediaType,
) -> (r: Result<(Provider, &'static str, &'static str), GenaiError>)
    ensures
        match spec_plan(Seq::empty(), opt_str(model), opt_str(provider), fal_key, openai_key, t) {
            Ok((k, id, name, key)) => r matches Ok((p, mid, mname)) && p.spec_kind() == k && mid@
                == id && mname@ == name && p.spec_key() == key,
            Err(e) => r matches Err(err) && err@ == e,
        },
{
    let kind = match select_provider(provider, fal_key, openai_key) {
        Ok(k) => k,
        Err(e) => {
            return Err(e);
        },
    };
    let mi = match resolve_model(model, kind.name(), t) {
        Some(m) => m,
        None => {
            let mut m = String::from_str("Unknown model '");
            match model {
                Some(n) => m.append(n),
                None => m.append("default"),
            }
            m.append("'. Run 'genai models --type ");
            m.append(t.name());
            m.append("' to see options");
            return Err(GenaiError::BadInput(m));
        },
    };
    let p = match kind {
        ProviderKind::Fal => match FalProvider::from_env(fal_key) {
            Ok(p) => Provider::Fal(p),
            Err(e) => {
                return Err(e);
            },
        },
        ProviderKind::OpenAi => match OpenAiProvider::from_env(openai_key) {
            Ok(p) => Provider::OpenAi(p),
            Err(e) => {
                return Err(e);
            },
        },
    };
    Ok((p, mi.model_id, mi.name))
}

/// What `plan_image` gives: the provider, its key, the model's identifier
/// and registry name, and the size; or the first error in the order empty
/// prompt, size, provider, model, key.
pub open spec fn spec_plan_image(
    prompt: Seq<char>,
    model: Option<Seq<char>>,
    provider: Option<Seq<char>>,
    size: Seq<char>,
    fal_key: Option<&str>,
    openai_key: Option<&str>,
) -> Result<(ProviderKind, Seq<char>, Seq<char>, Seq<char>, u32, u32), (ErrorKind, Seq<char>)> {
    if is_blank(prompt) {
        Err((ErrorKind::BadInput, "Prompt cannot be empty"@))
    } else {
        match spec_parse_size(size) {
            Err(e) => Err(e),
            Ok((w, h)) => match spec_plan(prompt, model, provider, fal_key, openai_key, MediaType::Image) {
                Err(e) => Err(e),
                Ok((k, id, name, key)) => Ok((k, key, id, name, w, h)),
            },
        }
    }
}

/// Plans the `image` command: refuses a blank prompt, parses the size,
/// picks the provider and the model, takes the provider's key, and builds
/// the request.
pub fn plan_image(
    prompt: &str,
    model: Option<&str>,
    provider: Option<&str>,
    size: &str,
    fal_key: Option<&str>,
    openai_key: Option<&str>,
) -> (r: Result<(Provider, ImageRequest), GenaiError>)
    ensures
        match spec_plan_image(prompt@, opt_str(model), opt_str(provider), size@, fal_key, openai_key) {
            Ok((k, key, id, name, w, h)) => r matches Ok((p, req)) && p.spec_kind() == k
                && p.spec_key() == key && req.prompt@ == prompt@ && req.model_id@ == id
                && req.model_name@ == name && req.width == w && req.height == h,
            Err(e) => r matches Err(err) && err@ == e,
        },
{
    if blank(prompt) {
        return Err(GenaiError::BadInput(String::from_str("Prompt cannot be empty")));
    }
    let (w, h) = match parse_size(size) {
        Ok(wh) => wh,
        Err(e) => {
            return Err(e);
        },
    };
    match plan(model, provider, fal_key, openai_key, MediaType::Image) {
        Ok((p, id, name)) => Ok(
            (
                p,
                ImageRequest {
                    prompt: owned(prompt),
                    model_name: owned(name),
                    model_id: owned(id),
                    width: w,
                    height: h,
                },
            ),
        ),
        Err(e) => Err(e),
    }
}

/// What `plan_video` gives: the provider, its key, and the model's
/// identifier and registry name; or the first error in the order empty
/// prompt, provider, model, key.
pub open spec fn spec_plan_video(
    prompt: Seq<char>,
    model: Option<Seq<char>>,
    provider: Option<Seq<char>>,
    fal_key: Option<&str>,
    openai_key: Option<&str>,
) -> Result<(ProviderKind, Seq<char>, Seq<char>, Seq<char>), (ErrorKind, Seq<char>)> {
    if is_blank(prompt) {
        Err((ErrorKind::BadInput, "Prompt cannot be empty"@))
    } else {
        match spec_plan(prompt, model, provider, fal_key, openai_key, MediaType::Video) {
            Err(e) => Err(e),
            Ok((k, id, name, key)) => Ok((k, key, id, name)),
        }
    }
}

/// Plans the `video` command: refuses a blank prompt, picks the provider
/// and the model, takes the provider's key, and builds the request with the
/// duration and aspect ratio given.
pub fn plan_video(
    prompt: &str,
    model: Option<&str>,
    provider: Option<&str>,
    duration_secs: u8,
    aspect_ratio: &str,
    fal_key: Option<&str>,
    openai_key: Option<&str>,
) -> (r: Result<(Provider, VideoRequest), GenaiError>)
    ensures
        match spec_plan_video(prompt@, opt_str(model), opt_str(provider), fal_key, openai_key) {
            Ok((k, key, id, name)) => r matches Ok((p, req)) && p.spec_kind() == k && p.spec_key()
                == key && req.prompt@ == prompt@ && req.model_id@ == id && req.model_name@ == name
                && req.duration_secs
                == duration_secs && req.aspect_ratio@ == aspect_ratio@,
            Err(e) => r matches Err(err) && err@ == e,
        },
{
    if blank(prompt) {
        return Err(GenaiError::BadInput(String::from_str("Prompt cannot be empty")));
    }
    match plan(model, provider, fal_key, openai_key, MediaType::Video) {
        Ok((p, id, name)) => Ok(
            (
                p,
                VideoRequest {
                    prompt: owned(prompt),
                    model_name: owned(name),
                    model_id: owned(id),
                    aspect_ratio: owned(aspect_ratio),
                    duration_secs,
                },
            ),
        ),
        Err(e) => Err(e),
    }
}

/// The media type that `--type` names: `image` or `video`; any other value
/// (or none) filters nothing.
pub open spec fn spec_media_filter(t: Option<Seq<char>>) -> Option<MediaType> {
    match t {
        Some(s) => if s == "image"@ {
            Some(MediaType::Image)
        } else if s == "video"@ {
            Some(MediaType::Video)
        } else {
            None
        },
        None => None,
    }
}

/// The filter of the `models` command.
pub fn media_filter(t: Option<&str>) -> (f: Option<MediaType>)
    ensures
        f == spec_media_filter(opt_str(t)),
{
    match t {
        Some(s) => if str_eq(s, "image") {
            Some(MediaType::Image)
        } else if str_eq(s, "video") {
            Some(MediaType::Video)
        } else {
            None
        },
        None => None,
    }
}

/// A model passes the filter when there is none or its type is the one named.
pub open spec fn passes(filter: Option<MediaType>, m: ModelView) -> bool {
    match filter {
        Some(t) => m.media_type == t,
        None => true,
    }
}

/// The registered models that pass the filter, in registry order.
pub fn list_models(filter: Option<MediaType>) -> (models: Vec<ModelInfo>)
    ensures
        views(models@) == crate::models::registry().filter(|m: ModelView| passes(filter, m)),
{
    let all = all_models();
    let ghost pred = |m: ModelView| passes(filter, m);
    let mut out: Vec<ModelInfo> = Vec::new();
    let mut i: usize = 0;
    while i < all.len()
        invariant
            i <= all.len(),
            views(all@) == crate::models::registry(),
            pred == (|m: ModelView| passes(filter, m)),
            views(out@) == views(all@).take(i as int).filter(pred),
        decreases all.len() - i,
    {
        let m = all[i];
        let keep = match filter {
            Some(t) => m.media_type == t,
            None => true,
        };
        let ghost before = out@;
        if keep {
            out.push(m);
        }
        proof {
            let vs = views(all@);
            let t = vs.take(i as int + 1);
            assert(t.drop_last() =~= vs.take(i as int));
            assert(t.last() == m@);
            reveal(Seq::filter);
            assert(keep == pred(m@));
            if keep {
                assert(views(out@) =~= views(before).push(m@));
            } else {
                assert(views(out@) =~= views(before));
            }
        }
        i = i + 1;
    }
    assert(views(all@).take(all.len() as int) =~= views(all@));
    out
}

} // verus!
