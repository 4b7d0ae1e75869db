use genai_media::agent::agent_info;
use genai_media::error::GenaiError;

#[test]
fn manifest_names_the_tool_and_version() {
    let m = agent_info("1.2.3");
    assert_eq!(m.name, "genai");
    assert_eq!(m.version, "1.2.3");
    assert_eq!(m.description, "AI image and video generation CLI — fal.ai + OpenAI");
}

#[test]
fn manifest_commands() {
    let m = agent_info("0.1.0");
    let names: Vec<&str> = m.commands.iter().map(|c| c.name).collect();
    assert_eq!(names, vec!["image", "video", "models"]);
    assert_eq!(m.commands[0].description, "Generate an image from a text prompt");
    assert_eq!(
        m.commands[0].usage,
        "genai image \"prompt\" [--model MODEL] [--size WxH] [--output PATH]"
    );
    assert_eq!(m.commands[0].required_args, Some(vec!["prompt"]));
    assert_eq!(
        m.commands[1].usage,
        "genai video \"prompt\" [--model MODEL] [--duration SECS] [--output PATH]"
    );
    assert_eq!(m.commands[1].required_args, Some(vec!["prompt"]));
    assert_eq!(m.commands[2].description, "List available AI models");
    assert_eq!(m.commands[2].usage, "genai models [--type image|video]");
    assert_eq!(m.commands[2].required_args, None);
}

#[test]
fn manifest_exit_codes_match_errors() {
    let m = agent_info("0.1.0");
    for e in &m.exit_codes {
        assert_eq!(e.key, e.code.to_string());
    }
    let codes: Vec<(i32, &str)> = m.exit_codes.iter().map(|e| (e.code, e.meaning)).collect();
    assert_eq!(
        codes,
        vec![
            (0, "success"),
            (1, "transient error (retry may help)"),
            (2, "configuration error (missing API key)"),
            (3, "bad input (invalid prompt or options)"),
            (4, "rate limited (wait and retry)"),
        ]
    );
    let e = GenaiError::Config("x".to_string());
    assert_eq!(m.exit_codes[e.exit_code() as usize].meaning, "configuration error (missing API key)");
}

#[test]
fn manifest_env_vars() {
    let m = agent_info("0.1.0");
    let vars: Vec<(&str, &str)> = m.env_vars.iter().map(|v| (v.name, v.description)).collect();
    assert_eq!(
        vars,
        vec![
            ("FAL_KEY", "fal.ai API key (primary provider)"),
            ("OPENAI_API_KEY", "OpenAI API key (fallback provider)"),
        ]
    );
}
