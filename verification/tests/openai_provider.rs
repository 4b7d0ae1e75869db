use base64::Engine;
use genai_media::error::ErrorKind;
use genai_media::providers::openai::{Base64Fault, ImageData, ImageResponse, OpenAiProvider};
use genai_media::providers::{Elapsed, ImageRequest, VideoRequest};

fn req(w: u32, h: u32) -> ImageRequest {
    ImageRequest {
        prompt: "a cat".to_string(),
        model_name: "gpt-image-1".to_string(),
        model_id: "gpt-image-1".to_string(),
        width: w,
        height: h,
    }
}

#[test]
fn openai_key_and_headers() {
    let p = OpenAiProvider::from_env(Some("sk")).ok().unwrap();
    assert_eq!(p.auth_header(), "Bearer sk");
    let e = OpenAiProvider::from_env(None).err().unwrap();
    assert_eq!(e.kind(), ErrorKind::Config);
    assert_eq!(e.message(), "OPENAI_API_KEY environment variable not set");
    assert_eq!(OpenAiProvider::images_endpoint(), "https://api.openai.com/v1/images/generations");
}

#[test]
fn openai_sizes_are_offered_sizes() {
    assert_eq!(OpenAiProvider::image_size(1024, 1024), "1024x1024");
    assert_eq!(OpenAiProvider::image_size(1536, 1024), "1536x1024");
    assert_eq!(OpenAiProvider::image_size(1024, 1536), "1024x1536");
    assert_eq!(OpenAiProvider::image_size(800, 600), "1024x1024");
    assert_eq!(OpenAiProvider::image_size(1536, 1536), "1024x1024");
}

#[test]
fn openai_body() {
    let b = OpenAiProvider::image_body(&req(1536, 1024));
    assert_eq!(b.model, "gpt-image-1");
    assert_eq!(b.prompt, "a cat");
    assert_eq!(b.n, 1);
    assert_eq!(b.size, "1536x1024");
    assert_eq!(b.response_format, "b64_json");
}

#[test]
fn openai_reply_statuses() {
    let e = OpenAiProvider::response_error(429, "");
    assert_eq!(e.message(), "Rate limited by OpenAI");
    assert_eq!(OpenAiProvider::response_error(429, "").message(), "Rate limited by OpenAI");
    assert_eq!(e.kind(), ErrorKind::RateLimited);
    let e = OpenAiProvider::response_error(400, "bad");
    assert_eq!(e.message(), "OpenAI returned HTTP 400 Bad Request: bad");
}

#[test]
fn openai_first_image() {
    let r = ImageResponse {
        data: vec![ImageData { b64_json: "aGVsbG8=".to_string() }, ImageData { b64_json: "x".to_string() }],
    };
    assert_eq!(OpenAiProvider::first_image(&r).unwrap(), "aGVsbG8=");
    let r = ImageResponse { data: vec![] };
    let e = OpenAiProvider::first_image(&r).unwrap_err();
    assert_eq!(e.message(), "No image in OpenAI response");
    assert_eq!(e.kind(), ErrorKind::Transient);
}

#[test]
fn openai_decodes_base64() {
    assert_eq!(OpenAiProvider::decode_image("aGVsbG8=").unwrap(), b"hello".to_vec());
    assert_eq!(OpenAiProvider::decode_image("").unwrap(), Vec::<u8>::new());
    assert_eq!(OpenAiProvider::decode_image("AAEC").unwrap(), vec![0u8, 1, 2]);
}

#[test]
fn openai_reports_bad_base64() {
    for bad in ["!!!!", "aGVsbG8", "aGVsbG8=x", "aGVsbG9="] {
        let e = OpenAiProvider::decode_image(bad).unwrap_err();
        assert_eq!(e.kind(), ErrorKind::Transient);
        let expected = base64::engine::general_purpose::STANDARD.decode(bad).unwrap_err();
        assert_eq!(e.message(), format!("Failed to decode base64 image: {expected}"));
    }
}

#[test]
fn base64_fault_texts() {
    assert_eq!(Base64Fault::InvalidByte(3, 33).text(), "Invalid symbol 33, offset 3.");
    assert_eq!(Base64Fault::InvalidLength(7).text(), "Invalid input length: 7");
    assert_eq!(Base64Fault::InvalidLastSymbol(2, 65).text(), "Invalid last symbol 65, offset 2.");
    assert_eq!(Base64Fault::InvalidPadding.text(), "Invalid padding");
}

#[test]
fn openai_media_output_keeps_model_id() {
    let o = OpenAiProvider::media_output(&req(1024, 1024), "p.png".to_string(), Elapsed { secs: 2, nanos: 5 });
    assert_eq!(o.provider, "openai");
    assert_eq!(o.model, "gpt-image-1");
    assert_eq!(o.local_path, "p.png");
}

#[test]
fn openai_video_is_refused() {
    let p = OpenAiProvider { api_key: "sk".to_string() };
    let v = VideoRequest {
        prompt: "waves".to_string(),
        model_name: "sora".to_string(),
        model_id: "sora".to_string(),
        aspect_ratio: "16:9".to_string(),
        duration_secs: 5,
    };
    let e = p.generate_video(&v, None).unwrap_err();
    assert_eq!(e.kind(), ErrorKind::BadInput);
    assert_eq!(e.exit_code(), 3);
    assert_eq!(
        e.message(),
        "OpenAI video generation (Sora) is not yet available via API. Use --provider fal instead"
    );
}
