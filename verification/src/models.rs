//! The registry of models and the choice of a model for a request.

use vstd::prelude::*;
use crate::providers::MediaType;
use crate::text::str_eq;

verus! {

/// A model that a provider offers.
#[derive(Clone, Copy, Debug)]
pub struct ModelInfo {
    pub name: &'static str,
    pub provider: &'static str,
    pub media_type: MediaType,
    pub model_id: &'static str,
    pub description: &'static str,
    pub default: bool,
}

/// A model as plain values.
pub struct ModelView {
    pub name: Seq<char>,
    pub provider: Seq<char>,
    pub media_type: MediaType,
    pub model_id: Seq<char>,
    pub description: Seq<char>,
    pub default: bool,
}

impl View for ModelInfo {
    type V = ModelView;

    open spec fn view(&self) -> ModelView {
        ModelView {
            name: self.name@,
            provider: self.provider@,
            media_type: self.media_type,
            model_id: self.model_id@,
            description: self.description@,
            default: self.default,
        }
    }
}

/// One registry entry as plain values.
pub open spec fn entry(
    name: Seq<char>,
    provider: Seq<char>,
    media_type: MediaType,
    model_id: Seq<char>,
    description: Seq<char>,
    default: bool,
) -> ModelView {
    ModelView { name, provider, media_type, model_id, description, default }
}

/// The registry, in the order in which it is listed and searched. The
/// identifiers of `nano-banana-2`, `flux-2-pro`, `veo3` and `ltx-video`
/// follow fal.ai's endpoint naming; the project's documentation lists these
/// models without naming their endpoints.
pub open spec fn registry() -> Seq<ModelView> {
    seq![
        entry("nano-banana-2"@, "fal"@, MediaType::Image, "fal-ai/nano-banana-2"@, "Nano Banana 2 (Google) -- best quality, text rendering"@, true),
        entry("flux-2-pro"@, "fal"@, MediaType::Image, "fal-ai/flux-2-pro"@, "FLUX 2 Pro -- fast, high quality"@, false),
        entry("flux-pro"@, "fal"@, MediaType::Image, "fal-ai/flux-pro/v1.1"@, "FLUX Pro 1.1 -- general-purpose"@, false),
        entry("flux-dev"@, "fal"@, MediaType::Image, "fal-ai/flux/dev"@, "FLUX Dev -- fast, good quality"@, false),
        entry("flux-schnell"@, "fal"@, MediaType::Image, "fal-ai/flux/schnell"@, "FLUX Schnell -- fastest, lower quality"@, false),
        entry("gpt-image-1"@, "openai"@, MediaType::Image, "gpt-image-1"@, "GPT Image 1 -- high quality"@, true),
        entry("kling-video"@, "fal"@, MediaType::Video, "fal-ai/kling-video/v2/master"@, "Kling 3.0 Pro -- cinematic motion, 1080p"@, true),
        entry("veo3"@, "fal"@, MediaType::Video, "fal-ai/veo3.1"@, "Veo 3.1 (Google) -- highest quality, 4K"@, false),
        entry("ltx-video"@, "fal"@, MediaType::Video, "fal-ai/ltx-2/text-to-video"@, "LTX Video 2.0 Pro -- fast, affordable ($0.02/video)"@, false),
        entry("minimax-video"@, "fal"@, MediaType::Video, "fal-ai/minimax-video"@, "Minimax -- fast, good quality"@, false),
        entry("sora"@, "openai"@, MediaType::Video, "sora"@, "Sora -- video generation (API pending)"@, true),
    ]
}

/// The views of a list of models.
pub open spec fn views(models: Seq<ModelInfo>) -> Seq<ModelView> {
    models.map_values(|m: ModelInfo| m@)
}

/// Every model that the tool knows, in registry order.
pub fn all_models() -> (models: Vec<ModelInfo>)
    ensures
        views(models@) == registry(),
{
    let models = vec![
        ModelInfo {
            name: "nano-banana-2",
            provider: "fal",
            media_type: MediaType::Image,
            model_id: "fal-ai/nano-banana-2",
            description: "Nano Banana 2 (Google) -- best quality, text rendering",
            default: true,
        },
        ModelInfo {
            name: "flux-2-pro",
            provider: "fal",
            media_type: MediaType::Image,
            model_id: "fal-ai/flux-2-pro",
            description: "FLUX 2 Pro -- fast, high quality",
            default: false,
        },
        ModelInfo {
            name: "flux-pro",
            provider: "fal",
            media_type: MediaType::Image,
            model_id: "fal-ai/flux-pro/v1.1",
            description: "FLUX Pro 1.1 -- general-purpose",
            default: false,
        },
        ModelInfo {
            name: "flux-dev",
            provider: "fal",
            media_type: MediaType::Image,
            model_id: "fal-ai/flux/dev",
            description: "FLUX Dev -- fast, good quality",
            default: false,
        },
        ModelInfo {
            name: "flux-schnell",
            provider: "fal",
            media_type: MediaType::Image,
            model_id: "fal-ai/flux/schnell",
            description: "FLUX Schnell -- fastest, lower quality",
            default: false,
        },
        ModelInfo {
            name: "gpt-image-1",
            provider: "openai",
            media_type: MediaType::Image,
            model_id: "gpt-image-1",
            description: "GPT Image 1 -- high quality",
            default: true,
        },
        ModelInfo {
            name: "kling-video",
            provider: "fal",
            media_type: MediaType::Video,
            model_id: "fal-ai/kling-video/v2/master",
            description: "Kling 3.0 Pro -- cinematic motion, 1080p",
            default: true,
        },
        ModelInfo {
            name: "veo3",
            provider: "fal",
            media_type: MediaType::Video,
            model_id: "fal-ai/veo3.1",
            description: "Veo 3.1 (Google) -- highest quality, 4K",
            default: false,
        },
        ModelInfo {
            name: "ltx-video",
            provider: "fal",
            media_type: MediaType::Video,
            model_id: "fal-ai/ltx-2/text-to-video",
            description: "LTX Video 2.0 Pro -- fast, affordable ($0.02/video)",
            default: false,
        },
        ModelInfo {
            name: "minimax-video",
            provider: "fal",
            media_type: MediaType::Video,
            model_id: "fal-ai/minimax-video",
            description: "Minimax -- fast, good quality",
            default: false,
        },
        ModelInfo {
            name: "sora",
            provider: "openai",
            media_type: MediaType::Video,
            model_id: "sora",
            description: "Sora -- video generation (API pending)",
            default: true,
        },
    ];
    assert(views(models@) =~= registry());
    models
}

/// The first model of `models` that satisfies `p`, if any.
pub open spec fn find_first(models: Seq<ModelView>, p: spec_fn(ModelView) -> bool) -> Option<
    ModelView,
>
    decreases models.len(),
{
    if models.len() == 0 {
        None
    } else if p(models[0]) {
        Some(models[0])
    } else {
        find_first(models.drop_first(), p)
    }
}

/// A model of that name, provider and media type.
pub open spec fn exact_match(name: Seq<char>, provider: Seq<char>, t: MediaType) -> spec_fn(
    ModelView,
) -> bool {
    |m: ModelView| m.name == name && m.provider == provider && m.media_type == t
}

/// A model of that name and media type, from any provider.
pub open spec fn name_match(name: Seq<char>, t: MediaType) -> spec_fn(ModelView) -> bool {
    |m: ModelView| m.name == name && m.media_type == t
}

/// The default model of that provider and media type.
pub open spec fn default_match(provider: Seq<char>, t: MediaType) -> spec_fn(ModelView) -> bool {
    |m: ModelView| m.provider == provider && m.media_type == t && m.default
}

/// The model that `resolve_model` picks: a named model of the provider if
/// there is one, else the first model of that name and media type from any
/// provider; with no name, the provider's default for the media type.
pub open spec fn spec_resolve(name: Option<Seq<char>>, provider: Seq<char>, t: MediaType) -> Option<
    ModelView,
> {
    match name {
        Some(n) => match find_first(registry(), exact_match(n, provider, t)) {
            Some(m) => Some(m),
            None => find_first(registry(), name_match(n, t)),
        },
        None => find_first(registry(), default_match(provider, t)),
    }
}

/// The view of an optional model.
pub open spec fn opt_view(m: Option<ModelInfo>) -> Option<ModelView> {
    match m {
        Some(m) => Some(m@),
        None => None,
    }
}

proof fn lemma_find_first_at(models: Seq<ModelView>, p: spec_fn(ModelView) -> bool, i: int)
    requires
        0 <= i <= models.len(),
        forall|j: int| 0 <= j < i ==> !p(#[trigger] models[j]),
    ensures
        i < models.len() && p(models[i]) ==> find_first(models, p) == Some(models[i]),
        i == models.len() ==> find_first(models, p) is None,
    decreases i,
{
    if i > 0 {
        let rest = models.drop_first();
        assert forall|j: int| 0 <= j < i - 1 implies !p(#[trigger] rest[j]) by {
            assert(rest[j] == models[j + 1]);
        }
        assert(!p(models[0]));
        lemma_find_first_at(rest, p, i - 1);
    }
}

/// Which search `find_model` runs.
enum Search {
    Exact,
    ByName,
    Default,
}

/// The first model of `models` that the search accepts.
fn find_model(models: &Vec<ModelInfo>, search: Search, name: &str, provider: &str, t: MediaType) -> (r: Option<ModelInfo>)
    ensures
        opt_view(r) == find_first(
            views(models@),
            match search {
                Search::Exact => exact_match(name@, provider@, t),
                Search::ByName => name_match(name@, t),
                Search::Default => default_match(provider@, t),
            },
        ),
{
    let ghost p = match search {
        Search::Exact => exact_match(name@, provider@, t),
        Search::ByName => name_match(name@, t),
        Search::Default => default_match(provider@, t),
    };
    let ghost vs = views(models@);
    let mut i: usize = 0;
    while i < models.len()
        invariant
            i <= models.len(),
            vs == views(models@),
            p == match search {
                Search::Exact => exact_match(name@, provider@, t),
                Search::ByName => name_match(name@, t),
                Search::Default => default_match(provider@, t),
            },
            forall|j: int| 0 <= j < i ==> !p(#[trigger] vs[j]),
        decreases models.len() - i,
    {
        let m = models[i];
        let hit = match search {
            Search::Exact => str_eq(m.name, name) && str_eq(m.provider, provider) && m.media_type
                == t,
            Search::ByName => str_eq(m.name, name) && m.media_type == t,
            Search::Default => str_eq(m.provider, provider) && m.media_type == t && m.default,
        };
        assert(vs[i as int] == m@);
        if hit {
            proof {
                lemma_find_first_at(vs, p, i as int);
            }
            return Some(m);
        }
        i = i + 1;
    }
    proof {
        lemma_find_first_at(vs, p, i as int);
    }
    None
}

/// The model for a request: with a name, the model of that name from the
/// provider, else one of that name from any provider; without one, the
/// provider's default. The media type always matches.
pub fn resolve_model(name: Option<&str>, provider: &str, media_type: MediaType) -> (r: Option<
    ModelInfo,
>)
    ensures
        opt_view(r) == spec_resolve(
            match name {
                Some(n) => Some(n@),
                None => None,
            },
            provider@,
            media_type,
        ),
{
    let models = all_models();
    match name {
        Some(n) => {
            let exact = find_model(&models, Search::Exact, n, provider, media_type);
            if exact.is_some() {
                exact
            } else {
                find_model(&models, Search::ByName, n, provider, media_type)
            }
        },
        None => find_model(&models, Search::Default, "", provider, media_type),
    }
}

proof fn lemma_find_first_sound(models: Seq<ModelView>, p: spec_fn(ModelView) -> bool)
    ensures
        find_first(models, p) matches Some(m) ==> p(m) && models.contains(m),
    decreases models.len(),
{
    if models.len() > 0 && !p(models[0]) {
        lemma_find_first_sound(models.drop_first(), p);
        if let Some(m) = find_first(models.drop_first(), p) {
            let k = choose|k: int| 0 <= k < models.drop_first().len() && models.drop_first()[k] == m;
            assert(models[k + 1] == m);
        }
    }
}

/// A resolved model is a registered model of the requested media type; a
/// named request gets a model of that name, and a request without a name
/// gets the default model of the requested provider.
pub proof fn lemma_resolved_model_fits(name: Option<Seq<char>>, provider: Seq<char>, t: MediaType)
    ensures
        spec_resolve(name, provider, t) matches Some(m) ==> {
            &&& registry().contains(m)
            &&& m.media_type == t
            &&& (name matches Some(n) ==> m.name == n)
            &&& (name is None ==> m.default && m.provider == provider)
        },
{
    match name {
        Some(n) => {
            lemma_find_first_sound(registry(), exact_match(n, provider, t));
            lemma_find_first_sound(registry(), name_match(n, t));
        },
        None => {
            lemma_find_first_sound(registry(), default_match(provider, t));
        },
    }
}

proof fn lemma_find_first_complete(models: Seq<ModelView>, p: spec_fn(ModelView) -> bool, i: int)
    requires
        0 <= i < models.len(),
        p(models[i]),
    ensures
        find_first(models, p) is Some,
    decreases i,
{
    if i > 0 && !p(models[0]) {
        assert(models.drop_first()[i - 1] == models[i]);
        lemma_find_first_complete(models.drop_first(), p, i - 1);
    }
}

/// Asking for a registered model by name always finds one of that name and
/// media type, and it is the requested provider's whenever that provider
/// registers a model of that name and type.
pub proof fn lemma_named_model_is_found(name: Seq<char>, provider: Seq<char>, t: MediaType)
    ensures
        (exists|i: int|
            0 <= i < registry().len() && #[trigger] registry()[i].name == name
                && registry()[i].media_type == t) ==> (spec_resolve(Some(name), provider, t) matches Some(
            m,
        ) && m.name == name && m.media_type == t),
        (exists|i: int|
            0 <= i < registry().len() && #[trigger] registry()[i].name == name
                && registry()[i].media_type == t && registry()[i].provider == provider) ==> (
        spec_resolve(Some(name), provider, t) matches Some(m) && m.name == name && m.media_type
            == t && m.provider == provider),
{
    let r = registry();
    lemma_find_first_sound(r, exact_match(name, provider, t));
    lemma_find_first_sound(r, name_match(name, t));
    if exists|i: int|
        0 <= i < r.len() && #[trigger] r[i].name == name && r[i].media_type == t {
        let i = choose|i: int| 0 <= i < r.len() && #[trigger] r[i].name == name && r[i].media_type == t;
        assert(name_match(name, t)(r[i]));
        lemma_find_first_complete(r, name_match(name, t), i);
    }
    if exists|i: int|
        0 <= i < r.len() && #[trigger] r[i].name == name && r[i].media_type == t && r[i].provider
            == provider {
        let i = choose|i: int|
            0 <= i < r.len() && #[trigger] r[i].name == name && r[i].media_type == t
                && r[i].provider == provider;
        assert(exact_match(name, provider, t)(r[i]));
        lemma_find_first_complete(r, exact_match(name, provider, t), i);
    }
}

/// Each provider has exactly one default model for each media type: fal.ai
/// `nano-banana-2` and `kling-video`, OpenAI `gpt-image-1` and `sora`; a
/// request without a model name gets that default.
pub proof fn lemma_default_models()
    ensures
        forall|i: int, j: int|
            0 <= i < registry().len() && 0 <= j < registry().len() && #[trigger] registry()[i].default
                && #[trigger] registry()[j].default && registry()[i].provider == registry()[j].provider
                && registry()[i].media_type == registry()[j].media_type ==> i == j,
        spec_resolve(None, "fal"@, MediaType::Image) == Some(registry()[0]),
        spec_resolve(None, "fal"@, MediaType::Video) == Some(registry()[6]),
        spec_resolve(None, "openai"@, MediaType::Image) == Some(registry()[5]),
        spec_resolve(None, "openai"@, MediaType::Video) == Some(registry()[10]),
        registry()[0].name == "nano-banana-2"@,
        registry()[6].name == "kling-video"@,
        registry()[5].name == "gpt-image-1"@,
        registry()[10].name == "sora"@,
{
    reveal_strlit("fal");
    reveal_strlit("openai");
    let r = registry();
    assert("fal"@.len() == 3);
    assert("openai"@.len() == 6);
    assert("fal"@ != "openai"@);
    lemma_find_first_at(r, default_match("fal"@, MediaType::Image), 0);
    lemma_find_first_at(r, default_match("fal"@, MediaType::Video), 6);
    lemma_find_first_at(r, default_match("openai"@, MediaType::Image), 5);
    lemma_find_first_at(r, default_match("openai"@, MediaType::Video), 10);
}

} // verus!
