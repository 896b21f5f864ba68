# genote

Generates IT study notes in the style of a directory of existing Markdown notes, with
local or cloud language-model providers (Ollama, OpenAI-compatible servers, llama.cpp,
Anthropic, Gemini).

The library in `src/` holds every decision of the tool, written in Verus with
contracts that Verus proves:

- `provider` — provider names, base URLs and endpoints, authentication headers, and
  how a response body is read (text and token count). A proof shows that configuring
  a full endpoint URL gives the same endpoint again, and that a bare
  `scheme://host` is kept, with or without a known endpoint suffix.
- `body` — the request bodies each provider expects, with proofs that the token cap
  and the temperature land where the provider reads them.
- `json` — JSON values as the bodies carry them.
- `config` — settings by precedence (command line, profile, root of `config.toml`),
  profile selection, the API key's source, `~` expansion, path joining per platform,
  and the configuration path (never in the working directory).
- `note` — note sizes, topic hints, file-name sanitizing, the line-count warning.
- `prompt` — the prompts of single-request and two-stage (weak) generation.
- `topic` — the steps of generating one note, from topic to file path, as a state
  machine that the program drives, and the tally that lets every topic run.
- `notes_dir` — which files are notes, their order, the covered topics, and the capped
  collection of style examples.
- `retry` — when a failed HTTP request is sent again.
- `issue` — the link that files an issue about an error.
- `text` — character-level string operations.

`app/` is the command-line program around it: argument parsing, the configuration
file, HTTP, the terminal and the file system.
