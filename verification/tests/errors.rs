use genai_media::error::{ErrorKind, GenaiError};

fn all_errors() -> Vec<GenaiError> {
    vec![
        GenaiError::Transient("t".to_string()),
        GenaiError::Config("c".to_string()),
        GenaiError::BadInput("b".to_string()),
        GenaiError::RateLimited("r".to_string()),
    ]
}

#[test]
fn exit_codes_follow_the_documented_table() {
    let codes: Vec<i32> = all_errors().iter().map(|e| e.exit_code()).collect();
    assert_eq!(codes, vec![1, 2, 3, 4]);
}

#[test]
fn suggestions_per_kind() {
    let s: Vec<String> = all_errors().iter().map(|e| e.suggestion().to_string()).collect();
    assert_eq!(s[0], "Retry the request — this may be a temporary issue");
    assert_eq!(
        s[1],
        "Set FAL_KEY or OPENAI_API_KEY. Get a fal.ai key at https://fal.ai/dashboard/keys"
    );
    assert_eq!(s[2], "Check your prompt and options");
    assert_eq!(s[3], "Wait 60 seconds or switch provider with --provider openai");
}

#[test]
fn message_and_kind_of_each_variant() {
    let errs = all_errors();
    let msgs: Vec<String> = errs.iter().map(|e| e.message()).collect();
    assert_eq!(msgs, vec!["t", "c", "b", "r"]);
    assert_eq!(errs[0].kind(), ErrorKind::Transient);
    assert_eq!(errs[1].kind(), ErrorKind::Config);
    assert_eq!(errs[2].kind(), ErrorKind::BadInput);
    assert_eq!(errs[3].kind(), ErrorKind::RateLimited);
}

#[test]
fn exit_code_tells_the_kind() {
    let errs = all_errors();
    for a in &errs {
        for b in &errs {
            assert_eq!(a.exit_code() == b.exit_code(), a.kind() == b.kind());
        }
        assert!((1..=4).contains(&a.exit_code()));
    }
}
