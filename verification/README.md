# genai_media

A command-line tool that generates images and videos from text prompts
through fal.ai and OpenAI, built around a library whose behaviour is stated
in contracts and proved with Verus.

- `src/` is the verified library:
  - `text.rs`: ASCII classification, white space, decimal rendering, `u32`
    parsing, equality and padding of strings;
  - `agent.rs`: the capability manifest for AI agents;
  - `error.rs`: the error kinds, exit codes and advice;
  - `models.rs`: the model registry and model resolution;
  - `output.rs`: output format, file-name slugs, output paths, and the
    records printed for results and errors;
  - `providers/`: provider selection, HTTP status handling, and the fal.ai
    queue protocol and OpenAI request logic;
  - `cli.rs`: size parsing, planning of the `image` and `video` commands,
    and model listing.
- `app/` is the program: argument parsing, environment, HTTP, waiting,
  files, JSON serialisation and printing.
- `tests/` exercises the library on concrete values.
