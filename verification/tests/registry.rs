use genai_media::cli::{list_models, media_filter};
use genai_media::models::{all_models, resolve_model};
use genai_media::providers::MediaType;

#[test]
fn registry_lists_the_documented_models_in_order() {
    let names: Vec<&str> = all_models().iter().map(|m| m.name).collect();
    assert_eq!(
        names,
        vec![
            "nano-banana-2",
            "flux-2-pro",
            "flux-pro",
            "flux-dev",
            "flux-schnell",
            "gpt-image-1",
            "kling-video",
            "veo3",
            "ltx-video",
            "minimax-video",
            "sora",
        ]
    );
    for m in all_models() {
        let expected = if m.name == "gpt-image-1" || m.name == "sora" { "openai" } else { "fal" };
        assert_eq!(m.provider, expected);
    }
    let m = all_models()[6];
    assert_eq!(m.description, "Kling 3.0 Pro -- cinematic motion, 1080p");
    assert_eq!(m.model_id, "fal-ai/kling-video/v2/master");
    let ids: Vec<(&str, &str)> = all_models().iter().map(|m| (m.name, m.model_id)).collect();
    assert!(ids.contains(&("flux-pro", "fal-ai/flux-pro/v1.1")));
    assert!(ids.contains(&("gpt-image-1", "gpt-image-1")));
    assert!(ids.contains(&("sora", "sora")));
    assert_eq!(m.provider, "fal");
    assert_eq!(m.media_type, MediaType::Video);
    assert!(m.default);
}

#[test]
fn defaults_per_provider_and_type() {
    let pick = |p: &str, t: MediaType| resolve_model(None, p, t).map(|m| m.name);
    assert_eq!(pick("fal", MediaType::Image), Some("nano-banana-2"));
    assert_eq!(pick("fal", MediaType::Video), Some("kling-video"));
    assert_eq!(pick("openai", MediaType::Image), Some("gpt-image-1"));
    assert_eq!(pick("openai", MediaType::Video), Some("sora"));
    assert_eq!(pick("other", MediaType::Image), None);
}

#[test]
fn exactly_one_default_per_provider_and_type() {
    for p in ["fal", "openai"] {
        for t in [MediaType::Image, MediaType::Video] {
            let n = all_models()
                .iter()
                .filter(|m| m.provider == p && m.media_type == t && m.default)
                .count();
            assert_eq!(n, 1);
        }
    }
}

#[test]
fn named_model_prefers_provider_then_any_provider() {
    let m = resolve_model(Some("flux-dev"), "fal", MediaType::Image).unwrap();
    assert_eq!(m.model_id, "fal-ai/flux/dev");
    let m = resolve_model(Some("flux-dev"), "openai", MediaType::Image).unwrap();
    assert_eq!(m.provider, "fal");
    let m = resolve_model(Some("sora"), "fal", MediaType::Video).unwrap();
    assert_eq!(m.provider, "openai");
}

#[test]
fn named_model_must_match_media_type() {
    assert!(resolve_model(Some("sora"), "openai", MediaType::Image).is_none());
    assert!(resolve_model(Some("nope"), "fal", MediaType::Image).is_none());
    assert!(resolve_model(Some(""), "fal", MediaType::Image).is_none());
}

#[test]
fn media_filter_names() {
    assert_eq!(media_filter(Some("image")), Some(MediaType::Image));
    assert_eq!(media_filter(Some("video")), Some(MediaType::Video));
    assert_eq!(media_filter(Some("audio")), None);
    assert_eq!(media_filter(None), None);
}

#[test]
fn list_models_filters_by_type() {
    let names = |f| list_models(f).iter().map(|m| m.name).collect::<Vec<_>>();
    assert_eq!(names(None).len(), 11);
    assert_eq!(
        names(Some(MediaType::Image)),
        vec!["nano-banana-2", "flux-2-pro", "flux-pro", "flux-dev", "flux-schnell", "gpt-image-1"]
    );
    assert_eq!(
        names(Some(MediaType::Video)),
        vec!["kling-video", "veo3", "ltx-video", "minimax-video", "sora"]
    );
}

#[test]
fn media_type_names() {
    assert_eq!(MediaType::Image.name(), "image");
    assert_eq!(MediaType::Video.name(), "video");
}
