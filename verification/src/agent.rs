//! The capability manifest that AI agents read to learn how to call the tool.

use vstd::prelude::*;
use crate::error::{ErrorKind, spec_exit_code};
use crate::text::{decimal, owned};

verus! {

/// A command of the tool as the manifest describes it.
#[derive(Debug)]
pub struct CommandInfo {
    pub name: &'static str,
    pub description: &'static str,
    pub usage: &'static str,
    /// The arguments the command cannot do without; `None` when the manifest
    /// lists none for it.
    pub required_args: Option<Vec<&'static str>>,
}

/// An exit code and what it means; `key` is the code in decimal, as the
/// manifest's JSON keys it.
#[derive(Debug)]
pub struct ExitCodeInfo {
    pub code: i32,
    pub key: &'static str,
    pub meaning: &'static str,
}

/// An environment variable that the tool reads.
#[derive(Debug)]
pub struct EnvVarInfo {
    pub name: &'static str,
    pub description: &'static str,
}

/// The capability manifest.
#[derive(Debug)]
pub struct AgentInfo {
    pub name: &'static str,
    pub version: String,
    pub description: &'static str,
    pub commands: Vec<CommandInfo>,
    pub exit_codes: Vec<ExitCodeInfo>,
    pub env_vars: Vec<EnvVarInfo>,
}

/// What exit code `code` (0 to 4) means.
pub open spec fn spec_exit_meaning(code: int) -> Seq<char> {
    if code == 0 {
        "success"@
    } else if code == 1 {
        "transient error (retry may help)"@
    } else if code == 2 {
        "configuration error (missing API key)"@
    } else if code == 3 {
        "bad input (invalid prompt or options)"@
    } else {
        "rate limited (wait and retry)"@
    }
}

/// A command entry with these texts.
pub open spec fn command_is(
    c: CommandInfo,
    name: Seq<char>,
    description: Seq<char>,
    usage: Seq<char>,
    required: Option<Seq<char>>,
) -> bool {
    &&& c.name@ == name
    &&& c.description@ == description
    &&& c.usage@ == usage
    &&& match required {
        Some(arg) => c.required_args matches Some(a) && a@.len() == 1 && a@[0]@ == arg,
        None => c.required_args is None,
    }
}

fn command(
    name: &'static str,
    description: &'static str,
    usage: &'static str,
    required: Option<&'static str>,
) -> (c: CommandInfo)
    ensures
        command_is(
            c,
            name@,
            description@,
            usage@,
            match required {
                Some(r) => Some(r@),
                None => None,
            },
        ),
{
    let required_args = match required {
        Some(r) => Some(vec![r]),
        None => None,
    };
    CommandInfo { name, description, usage, required_args }
}

/// The manifest of this tool at version `version`: its name and purpose,
/// the `image`, `video` and `models` commands with their usage, the exit
/// codes 0 to 4 with their meanings, and the two key variables.
pub fn agent_info(version: &str) -> (m: AgentInfo)
    ensures
        m.name@ == "genai"@,
        m.version@ == version@,
        m.description@ == "AI image and video generation CLI — fal.ai + OpenAI"@,
        m.commands@.len() == 3,
        command_is(
            m.commands@[0],
            "image"@,
            "Generate an image from a text prompt"@,
            "genai image \"prompt\" [--model MODEL] [--size WxH] [--output PATH]"@,
            Some("prompt"@),
        ),
        command_is(
            m.commands@[1],
            "video"@,
            "Generate a video from a text prompt"@,
            "genai video \"prompt\" [--model MODEL] [--duration SECS] [--output PATH]"@,
            Some("prompt"@),
        ),
        command_is(
            m.commands@[2],
            "models"@,
            "List available AI models"@,
            "genai models [--type image|video]"@,
            None,
        ),
        m.exit_codes@.len() == 5,
        forall|i: int|
            0 <= i < 5 ==> #[trigger] m.exit_codes@[i].code == i && m.exit_codes@[i].key@
                == decimal(i as nat) && m.exit_codes@[i].meaning@ == spec_exit_meaning(i),
        forall|k: ErrorKind|
            #![trigger spec_exit_code(k)]
            exists|i: int|
                #![trigger m.exit_codes@[i]]
                0 <= i < m.exit_codes@.len() && m.exit_codes@[i].code == spec_exit_code(k)
                    && m.exit_codes@[i].meaning@ == spec_exit_meaning(spec_exit_code(k) as int),
        m.env_vars@.len() == 2,
        m.env_vars@[0].name@ == "FAL_KEY"@,
        m.env_vars@[0].description@ == "fal.ai API key (primary provider)"@,
        m.env_vars@[1].name@ == "OPENAI_API_KEY"@,
        m.env_vars@[1].description@ == "OpenAI API key (fallback provider)"@,
{
    let commands = vec![
        command(
            "image",
            "Generate an image from a text prompt",
            "genai image \"prompt\" [--model MODEL] [--size WxH] [--output PATH]",
            Some("prompt"),
        ),
        command(
            "video",
            "Generate a video from a text prompt",
            "genai video \"prompt\" [--model MODEL] [--duration SECS] [--output PATH]",
            Some("prompt"),
        ),
        command("models", "List available AI models", "genai models [--type image|video]", None),
    ];
    let exit_codes = vec![
        ExitCodeInfo { code: 0, key: "0", meaning: "success" },
        ExitCodeInfo { code: 1, key: "1", meaning: "transient error (retry may help)" },
        ExitCodeInfo { code: 2, key: "2", meaning: "configuration error (missing API key)" },
        ExitCodeInfo { code: 3, key: "3", meaning: "bad input (invalid prompt or options)" },
        ExitCodeInfo { code: 4, key: "4", meaning: "rate limited (wait and retry)" },
    ];
    let env_vars = vec![
        EnvVarInfo { name: "FAL_KEY", description: "fal.ai API key (primary provider)" },
        EnvVarInfo { name: "OPENAI_API_KEY", description: "OpenAI API key (fallback provider)" },
    ];
    proof {
        reveal_strlit("0");
        reveal_strlit("1");
        reveal_strlit("2");
        reveal_strlit("3");
        reveal_strlit("4");
        assert("0"@ =~= decimal(0));
        assert("1"@ =~= decimal(1));
        assert("2"@ =~= decimal(2));
        assert("3"@ =~= decimal(3));
        assert("4"@ =~= decimal(4));
    }
    let m = AgentInfo {
        name: "genai",
        version: owned(version),
        description: "AI image and video generation CLI — fal.ai + OpenAI",
        commands,
        exit_codes,
        env_vars,
    };
    assert forall|k: ErrorKind|
        #![trigger spec_exit_code(k)]
        exists|i: int|
            #![trigger m.exit_codes@[i]]
            0 <= i < m.exit_codes@.len() && m.exit_codes@[i].code == spec_exit_code(k)
                && m.exit_codes@[i].meaning@ == spec_exit_meaning(spec_exit_code(k) as int) by {
        let i = spec_exit_code(k) as int;
        assert(m.exit_codes@[i].code == spec_exit_code(k));
    }
    m
}

} // verus!
