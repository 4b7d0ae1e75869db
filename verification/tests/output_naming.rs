use genai_media::error::GenaiError;
use genai_media::models::all_models;
use genai_media::output::{model_line, output_path, output_path_at, slugify, ErrorJson, Format, SuccessJson};
use genai_media::providers::{Elapsed, MediaOutput};

fn is_slug(s: &str) -> bool {
    !s.is_empty()
        && s.chars().count() <= 40
        && s.chars().all(|c| c.is_ascii_lowercase() || c.is_ascii_digit() || c == '-')
        && !s.starts_with('-')
        && !s.ends_with('-')
        && !s.contains("--")
}

#[test]
fn slugify_examples() {
    assert_eq!(slugify("a cat in space"), "a-cat-in-space");
    assert_eq!(slugify("A Majestic Horse at Sunset!"), "a-majestic-horse-at-sunset");
    assert_eq!(slugify("--Hello--World--"), "hello-world");
    assert_eq!(slugify("Café ☕ time"), "caf-time");
    assert_eq!(slugify("minimalist logo"), "minimalist-logo");
}

#[test]
fn slugify_falls_back_to_output() {
    assert_eq!(slugify(""), "output");
    assert_eq!(slugify("!!! ???"), "output");
    assert_eq!(slugify("日本語"), "output");
}

#[test]
fn slugify_stops_at_forty_characters() {
    let s = slugify(&"abcdefghij".repeat(10));
    assert_eq!(s, "abcdefghij".repeat(4));
    let s = slugify("one two three four five six seven eight nine ten eleven");
    assert_eq!(s, "one-two-three-four-five-six-seven-eight");
    let s = slugify("aaaaaaaaaaaaaaaaaaaaaaaaaaaaaaaaaaaaaaa bbbb");
    assert_eq!(s, "aaaaaaaaaaaaaaaaaaaaaaaaaaaaaaaaaaaaaaa");
}

#[test]
fn slugify_reads_only_forty_characters() {
    let prompt = format!("{}abcdefghij", " ".repeat(35));
    assert_eq!(slugify(&prompt), "abcde");
    let prompt = format!("{}b", " ".repeat(40));
    assert_eq!(slugify(&prompt), "output");
    for p in ["a cat in space", "Über-long prompt with many words that goes on and on and on", ""] {
        let head: String = p.chars().take(40).collect();
        assert_eq!(slugify(p), slugify(&head));
    }
}

#[test]
fn slugify_results_are_slugs_and_stable() {
    let prompts = [
        "",
        "a cat in space",
        "--Hello--World--",
        "ÜBER cool: 100% done?!",
        "x-",
        "-",
        "The quick brown fox jumps over the lazy dog, again and again and again",
    ];
    for p in prompts {
        let s = slugify(p);
        assert!(is_slug(&s), "{p:?} gave {s:?}");
        assert_eq!(slugify(&s), s);
    }
}

#[test]
fn output_path_uses_slug_time_and_extension() {
    assert_eq!(output_path_at(None, "a cat in space", "png", 1711547200), "a-cat-in-space-1711547200.png");
    assert_eq!(output_path_at(None, "", "mp4", 0), "output-0.mp4");
    assert_eq!(output_path_at(Some("portrait.png"), "a cat", "png", 5), "portrait.png");
}

#[test]
fn output_path_reads_the_clock_only_without_explicit_path() {
    assert_eq!(output_path(Some("out/x.mp4"), "p", "mp4"), "out/x.mp4");
    let p = output_path(None, "a cat", "png");
    assert!(p.starts_with("a-cat-"));
    assert!(p.ends_with(".png"));
    let digits = &p["a-cat-".len()..p.len() - ".png".len()];
    assert!(!digits.is_empty() && digits.chars().all(|c| c.is_ascii_digit()));
}

#[test]
fn format_detection() {
    assert_eq!(Format::detect(true, true), Format::Json);
    assert_eq!(Format::detect(false, false), Format::Json);
    assert_eq!(Format::detect(true, false), Format::Json);
    assert_eq!(Format::detect(false, true), Format::Tty);
}

#[test]
fn success_record() {
    let out = MediaOutput {
        local_path: "a-cat-1.png".to_string(),
        provider: "fal".to_string(),
        model: "flux-pro".to_string(),
        elapsed: Elapsed { secs: 4, nanos: 250_999_999 },
    };
    let j = SuccessJson::new(&out, "a cat");
    assert_eq!(j.status, "ok");
    assert_eq!(j.file, "a-cat-1.png");
    assert_eq!(j.provider, "fal");
    assert_eq!(j.model, "flux-pro");
    assert_eq!(j.elapsed_ms, 4250);
    assert_eq!(j.prompt, "a cat");
}

#[test]
fn elapsed_millis_match_duration() {
    for (secs, nanos) in [(0u64, 0u32), (4, 250_999_999), (1_000_000, 999_999_999)] {
        let e = Elapsed { secs, nanos };
        let d = std::time::Duration::new(secs, nanos);
        assert_eq!(e.millis(), d.as_millis() as u64);
    }
}

#[test]
fn error_record() {
    let e = GenaiError::RateLimited("Rate limited by fal.ai".to_string());
    let j = ErrorJson::new(&e);
    assert_eq!(j.status, "error");
    assert_eq!(j.code, 4);
    assert_eq!(j.error, "Rate limited by fal.ai");
    assert_eq!(j.suggestion, "Wait 60 seconds or switch provider with --provider openai");
}

#[test]
fn model_lines() {
    let models = all_models();
    assert_eq!(
        model_line(&models[0]),
        "  nano-banana-2    image    fal      Nano Banana 2 (Google) -- best quality, text rendering (default)"
    );
    assert_eq!(
        model_line(&models[3]),
        "  flux-dev         image    fal      FLUX Dev -- fast, good quality"
    );
    for m in &models {
        let def = if m.default { " (default)" } else { "" };
        let t = m.media_type.name();
        assert_eq!(
            model_line(m),
            format!("  {:16} {:8} {:8} {}{}", m.name, t, m.provider, m.description, def)
        );
    }
}
