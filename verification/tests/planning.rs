use genai_media::cli::{parse_size, plan_image, plan_video, Provider};
use genai_media::error::ErrorKind;

#[test]
fn parse_size_accepts_w_by_h() {
    assert_eq!(parse_size("1024x1024").unwrap(), (1024, 1024));
    assert_eq!(parse_size("1280x720").unwrap(), (1280, 720));
    assert_eq!(parse_size("+5x07").unwrap(), (5, 7));
    assert_eq!(parse_size("0x0").unwrap(), (0, 0));
}

#[test]
fn parse_size_needs_exactly_one_x() {
    for s in ["1024", "1x2x3", "", "1024X768", "xx"] {
        let e = parse_size(s).unwrap_err();
        assert_eq!(e.kind(), ErrorKind::BadInput);
        assert_eq!(e.message(), format!("Invalid size '{s}'. Use WxH format like 1024x1024"));
    }
}

#[test]
fn parse_size_reports_the_bad_side() {
    assert_eq!(parse_size("axb").unwrap_err().message(), "Invalid width in 'axb'");
    assert_eq!(parse_size("x5").unwrap_err().message(), "Invalid width in 'x5'");
    assert_eq!(parse_size("10xb").unwrap_err().message(), "Invalid height in '10xb'");
    assert_eq!(parse_size("10x").unwrap_err().message(), "Invalid height in '10x'");
    assert_eq!(parse_size("10x99999999999").unwrap_err().message(), "Invalid height in '10x99999999999'");
}

#[test]
fn parse_size_round_trips_formatted_sizes() {
    for (w, h) in [(0u32, 0u32), (1, 2), (1024, 1536), (u32::MAX, 7)] {
        assert_eq!(parse_size(&format!("{w}x{h}")).unwrap(), (w, h));
    }
}

fn image_err(prompt: &str, model: Option<&str>, provider: Option<&str>, size: &str, fal: Option<&str>, openai: Option<&str>) -> (ErrorKind, String) {
    let e = plan_image(prompt, model, provider, size, fal, openai).err().unwrap();
    (e.kind(), e.message())
}

#[test]
fn plan_image_error_order() {
    assert_eq!(
        image_err("   ", None, Some("bogus"), "bad", None, None),
        (ErrorKind::BadInput, "Prompt cannot be empty".to_string())
    );
    assert_eq!(
        image_err("a cat", None, Some("bogus"), "bad", None, None),
        (ErrorKind::BadInput, "Invalid size 'bad'. Use WxH format like 1024x1024".to_string())
    );
    assert_eq!(
        image_err("a cat", Some("nope"), Some("bogus"), "1x1", None, None),
        (ErrorKind::BadInput, "Unknown provider 'bogus'. Use 'fal' or 'openai'".to_string())
    );
    assert_eq!(
        image_err("a cat", Some("nope"), None, "1x1", None, None),
        (ErrorKind::Config, "No API key found. Set FAL_KEY or OPENAI_API_KEY".to_string())
    );
    assert_eq!(
        image_err("a cat", Some("nope"), Some("fal"), "1x1", None, None),
        (ErrorKind::BadInput, "Unknown model 'nope'. Run 'genai models --type image' to see options".to_string())
    );
    assert_eq!(
        image_err("a cat", None, Some("fal"), "1x1", None, Some("k")),
        (ErrorKind::Config, "FAL_KEY environment variable not set".to_string())
    );
    assert_eq!(
        image_err("a cat", None, Some("openai"), "1x1", Some("k"), None),
        (ErrorKind::Config, "OPENAI_API_KEY environment variable not set".to_string())
    );
}

#[test]
fn plan_image_with_defaults() {
    let (p, req) = plan_image("a cat", None, None, "1024x1024", Some("fk"), Some("ok")).ok().unwrap();
    match p {
        Provider::Fal(f) => assert_eq!(f.api_key, "fk"),
        Provider::OpenAi(_) => panic!("expected fal"),
    }
    assert_eq!(req.prompt, "a cat");
    assert_eq!(req.model_name, "nano-banana-2");
    assert_eq!(req.model_id, "fal-ai/nano-banana-2");
    assert_eq!((req.width, req.height), (1024, 1024));

    let (p, req) = plan_image("a cat", None, None, "1536x1024", None, Some("ok")).ok().unwrap();
    match p {
        Provider::OpenAi(o) => assert_eq!(o.api_key, "ok"),
        Provider::Fal(_) => panic!("expected openai"),
    }
    assert_eq!(req.model_id, "gpt-image-1");
    assert_eq!(req.model_name, "gpt-image-1");
}

#[test]
fn plan_image_with_named_model_from_other_provider() {
    let (p, req) = plan_image("a cat", Some("flux-dev"), Some("openai"), "1x1", None, Some("ok")).ok().unwrap();
    assert!(matches!(p, Provider::OpenAi(_)));
    assert_eq!(req.model_id, "fal-ai/flux/dev");
    assert_eq!(req.model_name, "flux-dev");
}

#[test]
fn plan_image_with_empty_explicit_key() {
    let (p, _) = plan_image("a cat", None, Some("fal"), "1x1", Some(""), None).ok().unwrap();
    match p {
        Provider::Fal(f) => assert_eq!(f.api_key, ""),
        Provider::OpenAi(_) => panic!("expected fal"),
    }
}

#[test]
fn plan_video_defaults_and_errors() {
    let (p, req) = plan_video("waves", None, None, 10, "9:16", Some("fk"), None).ok().unwrap();
    assert!(matches!(p, Provider::Fal(_)));
    assert_eq!(req.model_name, "kling-video");
    assert_eq!(req.model_id, "fal-ai/kling-video/v2/master");
    assert_eq!(req.duration_secs, 10);
    assert_eq!(req.aspect_ratio, "9:16");
    assert_eq!(req.prompt, "waves");

    let (_, req) = plan_video("waves", None, Some("openai"), 5, "16:9", None, Some("ok")).ok().unwrap();
    assert_eq!(req.model_id, "sora");
    assert_eq!(req.model_name, "sora");

    let e = plan_video("\n", None, None, 5, "16:9", Some("fk"), None).err().unwrap();
    assert_eq!(e.message(), "Prompt cannot be empty");
    let e = plan_video("waves", Some("flux-pro"), Some("fal"), 5, "16:9", Some("fk"), None).err().unwrap();
    assert_eq!(e.message(), "Unknown model 'flux-pro'. Run 'genai models --type video' to see options");
}
