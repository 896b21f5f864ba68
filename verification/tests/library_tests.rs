use genote::config::{
    api_key_source, config_dir_unknown, config_path, env_api_key, expand_home, resolve_settings, select_profile,
    join_path_exec, typed_api_key, unknown_keys_warning, CliArgs, ConfigValues, KeySource, Log, LogRaw,
    LogTable, Platform,
};
use genote::issue::{answer_is_yes, issue_url};
use genote::json::{Json, JsonNumber};
use genote::note::{canonical_write_key, count_non_blank_lines, line_count_warning, sanitize_filename};
use genote::notes_dir::{
    add_example, covered_topics, distinct_names, example_files, markdown_stem, notes_dir_missing,
    sort_names,
};
use genote::provider::Provider;
use genote::retry::{after_status, CallStep};
use genote::topic::{
    analysis_outcome, analysis_request, note_chat, note_outcome, note_path, note_request,
    overwrite_warning, runs_concurrently, start_topic, timing_line, Run,
};

fn s(x: &str) -> Json {
    Json::Str(x.to_string())
}

fn n(x: u64) -> Json {
    Json::Number(JsonNumber::PosInt(x))
}

fn obj(entries: Vec<(&str, Json)>) -> Json {
    Json::Object(entries.into_iter().map(|(k, v)| (k.to_string(), v)).collect())
}

fn strings(v: &[&str]) -> Vec<String> {
    v.iter().map(|x| x.to_string()).collect()
}

fn no_args() -> CliArgs {
    CliArgs {
        model: None,
        api_url: None,
        provider: None,
        notes_dir: None,
        lang: None,
        note_size: None,
        notes_count: None,
        use_covered_topics: None,
        weak_mode: None,
        skill: None,
        profile: None,
        api_key: None,
    }
}

fn full_root() -> ConfigValues {
    let mut v = ConfigValues::empty();
    v.model = Some("llama3".to_string());
    v.api_url = Some("http://127.0.0.1:11434".to_string());
    v.notes_dir = Some("~/notes".to_string());
    v.lang = Some("en".to_string());
    v.note_size = Some("small".to_string());
    v
}

fn run_for(provider: Provider, root: ConfigValues) -> Run {
    let settings = resolve_settings(&no_args(), &ConfigValues::empty(), &root, Some("/home/u".to_string()), Platform::Other)
        .unwrap();
    Run::new(
        provider,
        String::new(),
        settings,
        None,
        "EX".to_string(),
        Vec::new(),
        1,
    )
}

#[test]
fn issue_url_percent_encodes_title_and_body() {
    let url = issue_url("a b/é", "linux");
    assert_eq!(
        url,
        "https://github.com/xmb03/Genote/issues/new?title=a%20b%2F%C3%A9&body=%23%23%20Error%0A%0Aa%20b%2F%C3%A9%0A%0A%23%23%20Environment%0A%0A-%20OS%3A%20linux%0A"
    );
}

#[test]
fn issue_url_keeps_first_800_characters() {
    let long = "x".repeat(900);
    let url = issue_url(&long, "os");
    let title = url.split("&body=").next().unwrap();
    assert_eq!(title.len(), "https://github.com/xmb03/Genote/issues/new?title=".len() + 800);
}

#[test]
fn answer_yes_ignores_case_and_whitespace() {
    assert!(answer_is_yes(" Y \n"));
    assert!(answer_is_yes("y"));
    assert!(!answer_is_yes("yes"));
    assert!(!answer_is_yes(""));
}

#[test]
fn write_key_folds_case_only_where_asked() {
    assert_eq!(canonical_write_key("/N/Rust.md", true), "/n/rust.md");
    assert_eq!(canonical_write_key("/N/Rust.md", false), "/N/Rust.md");
}

#[test]
fn path_debug_quotes_the_path() {
    assert_eq!(
        notes_dir_missing("/x y"),
        "Notes directory does not exist or is not a directory: \"/x y\""
    );
}

#[test]
fn retries_transient_failures_twice_at_most() {
    assert_eq!(after_status(1, 200, "200 OK", ""), CallStep::Success);
    assert_eq!(after_status(1, 429, "429 Too Many Requests", ""), CallStep::Retry(1));
    assert_eq!(after_status(2, 503, "503 Service Unavailable", ""), CallStep::Retry(2));
    assert_eq!(
        after_status(3, 503, "503 Service Unavailable", "down"),
        CallStep::Fail("HTTP 503 Service Unavailable: down".to_string())
    );
    assert_eq!(
        after_status(1, 404, "404 Not Found", "no"),
        CallStep::Fail("HTTP 404 Not Found: no".to_string())
    );
}

#[test]
fn profile_flag_needs_profile_sections() {
    let r = select_profile(Some("work".to_string()), None, None);
    assert_eq!(r.err(), Some("--profile flag requires [profile] sections in config.toml".to_string()));
    let r = select_profile(None, None, Some(Vec::new())).ok().unwrap();
    assert!(r.warning.is_none());
    assert!(r.values.model.is_none());
}

#[test]
fn profile_selection_by_name_default_and_warning() {
    let mut work = ConfigValues::empty();
    work.model = Some("big-model".to_string());
    let profiles = || vec![("home".to_string(), ConfigValues::empty()), ("work".to_string(), {
        let mut w = ConfigValues::empty();
        w.model = Some("big-model".to_string());
        w
    })];
    let chosen = select_profile(None, Some("work".to_string()), Some(profiles())).ok().unwrap();
    assert_eq!(chosen.values.model, work.model);
    let none = select_profile(None, None, Some(profiles())).ok().unwrap();
    assert_eq!(
        none.warning,
        Some("Warning: no default profile set and --profile not passed; using root-level settings".to_string())
    );
    let missing = select_profile(Some("x".to_string()), None, Some(profiles()));
    assert_eq!(missing.err(), Some("profile 'x' not found in config.toml".to_string()));
}

#[test]
fn settings_checks_in_order() {
    let mut root = full_root();
    root.model = None;
    let r = resolve_settings(&no_args(), &ConfigValues::empty(), &root, None, Platform::Other);
    assert_eq!(r.err(), Some("model is not set in config.toml or via CLI".to_string()));

    let mut root = full_root();
    root.note_size = Some("huge".to_string());
    let r = resolve_settings(&no_args(), &ConfigValues::empty(), &root, None, Platform::Other);
    assert_eq!(
        r.err(),
        Some("note_size must be either \"small\", \"mid\", or \"big\", got \"huge\"".to_string())
    );

    let mut root = full_root();
    root.notes_count = Some(0);
    let r = resolve_settings(&no_args(), &ConfigValues::empty(), &root, None, Platform::Other);
    assert_eq!(r.err(), Some("notes_count is set to 0, nothing to load.".to_string()));
}

#[test]
fn settings_precedence_and_defaults() {
    let mut root = full_root();
    root.notes_include = Some(strings(&["a", "b.md"]));
    root.temperature = Some(0.7f32.to_bits());
    let mut profile = ConfigValues::empty();
    profile.lang = Some("ru".to_string());
    let mut args = no_args();
    args.lang = Some("de".to_string());
    args.note_size = Some("big".to_string());
    let st = resolve_settings(&args, &profile, &root, Some("/home/u".to_string()), Platform::Other).ok().unwrap();
    assert_eq!(st.lang, "de");
    assert_eq!(st.note_size, "big");
    assert_eq!(st.model, "llama3");
    assert_eq!(st.notes_path, "/home/u/notes");
    assert_eq!(st.notes_include, Some(strings(&["a.md", "b.md"])));
    assert_eq!(st.notes_count, 7);
    assert!(!st.use_covered);
    assert!(!st.weak_mode);
    assert_eq!(st.temperature, Some(0.7f32.to_bits()));
    assert_eq!(st.log, Log { prompt: false, response: false, status: true, timing: true });
}

#[test]
fn log_switches() {
    let all = Log::resolve(Some(LogRaw::Bool(true)));
    assert_eq!(all.prompt("p"), Some("[PROMPT]\np\n[/PROMPT]".to_string()));
    let none = Log::resolve(Some(LogRaw::Bool(false)));
    assert_eq!(none.status("s"), None);
    let table = Log::resolve(Some(LogRaw::Table(LogTable {
        prompt: false,
        response: true,
        status: true,
        timing: false,
    })));
    assert_eq!(table.response("r"), Some("[RESPONSE]\nr\n[/RESPONSE]".to_string()));
    assert_eq!(table.timing("t"), None);
}

#[test]
fn api_key_precedence() {
    let root = full_root();
    let mut args = no_args();
    args.api_key = Some("prompt".to_string());
    assert_eq!(
        api_key_source(&args, None, &ConfigValues::empty(), &root, Provider::Ollama),
        KeySource::Prompt
    );
    let mut with_key = full_root();
    with_key.api_key = Some("cfg".to_string());
    assert_eq!(
        api_key_source(&no_args(), Some("env".to_string()), &ConfigValues::empty(), &with_key, Provider::OpenAI),
        KeySource::Given("env".to_string())
    );
    assert_eq!(
        api_key_source(&no_args(), None, &ConfigValues::empty(), &with_key, Provider::OpenAI),
        KeySource::Given("cfg".to_string())
    );
    assert_eq!(
        api_key_source(&no_args(), None, &ConfigValues::empty(), &root, Provider::Gemini),
        KeySource::Prompt
    );
    assert_eq!(
        api_key_source(&no_args(), None, &ConfigValues::empty(), &root, Provider::Llamacpp),
        KeySource::Given(String::new())
    );
}

#[test]
fn api_key_cleaning() {
    assert_eq!(env_api_key(Some("  k  ".to_string())), Some("k".to_string()));
    assert_eq!(env_api_key(Some("   ".to_string())), None);
    assert_eq!(typed_api_key("  "), Err("API key cannot be empty.".to_string()));
    assert_eq!(typed_api_key(" sk-1 "), Ok("sk-1".to_string()));
}

#[test]
fn home_expansion() {
    assert_eq!(expand_home("~", None, Platform::Other), ".");
    assert_eq!(expand_home("~", Some("/h".to_string()), Platform::Other), "/h");
    assert_eq!(expand_home("~/notes", Some("/home/u".to_string()), Platform::Other), "/home/u/notes");
    assert_eq!(expand_home("~/notes", Some("/home/u/".to_string()), Platform::Other), "/home/u/notes");
    assert_eq!(expand_home("~/notes", None, Platform::Other), "~/notes");
    assert_eq!(expand_home("~x/notes", Some("/h".to_string()), Platform::Other), "~x/notes");
}

#[test]
fn config_file_location() {
    assert_eq!(
        config_path(Platform::Other, None, Some("/home/u".to_string()), None),
        Some("/home/u/.config/Genote/config.toml".to_string())
    );
    assert_eq!(
        config_path(Platform::Other, None, Some("/home/u".to_string()), Some("/x".to_string())),
        Some("/x/Genote/config.toml".to_string())
    );
    assert_eq!(
        config_path(Platform::MacOs, None, Some("/Users/u".to_string()), None),
        Some("/Users/u/Library/Application Support/Genote/config.toml".to_string())
    );
    assert_eq!(
        config_path(Platform::Windows, Some("C:\\Users\\u\\AppData\\Roaming".to_string()), None, None),
        Some("C:\\Users\\u\\AppData\\Roaming\\Genote\\config.toml".to_string())
    );
}

#[test]
fn config_never_in_working_directory() {
    assert_eq!(config_path(Platform::Windows, None, None, None), None);
    assert_eq!(config_path(Platform::Windows, Some(String::new()), None, None), None);
    assert_eq!(config_path(Platform::MacOs, None, None, Some("/x".to_string())), None);
    assert_eq!(config_path(Platform::Other, None, None, None), None);
    assert_eq!(config_path(Platform::Other, None, None, Some(String::new())), None);
    assert_eq!(
        config_dir_unknown(Platform::Other),
        "Cannot locate config.toml: set XDG_CONFIG_HOME or HOME"
    );
}

#[test]
fn windows_paths_join_with_backslash() {
    assert_eq!(
        expand_home("~/notes", Some("C:\\Users\\x".to_string()), Platform::Windows),
        "C:\\Users\\x\\notes"
    );
    assert_eq!(join_path_exec(Platform::Windows, "C:\\a\\", "b"), "C:\\a\\b");
    assert_eq!(join_path_exec(Platform::Windows, "C:\\a/", "b"), "C:\\a/b");
    assert_eq!(join_path_exec(Platform::Windows, "C:", "b"), "C:b");
    assert_eq!(join_path_exec(Platform::Windows, "C:\\a", "D:\\b"), "D:\\b");
    assert_eq!(join_path_exec(Platform::Windows, "C:\\a", "\\b"), "C:\\b");
    assert_eq!(join_path_exec(Platform::Windows, "C:\\a", "\\\\srv\\share"), "\\\\srv\\share");
    assert_eq!(join_path_exec(Platform::Other, "/a", "\\b"), "/a/\\b");
    assert_eq!(join_path_exec(Platform::Other, "/a", "/b"), "/b");
}

#[test]
fn unknown_keys_are_listed() {
    assert_eq!(unknown_keys_warning("root config", &Vec::new()), None);
    assert_eq!(
        unknown_keys_warning("root config", &strings(&["foo", "bar"])),
        Some("Warning: unknown config key(s) in root config: foo, bar".to_string())
    );
}

#[test]
fn line_count_warning_only_outside_the_range() {
    assert_eq!(count_non_blank_lines("a\n\n  \r\nb\r\nc\n"), 3);
    assert_eq!(
        line_count_warning("T", "a\nb\nc", "small"),
        Some("Warning: \"T\" has 3 lines (expected 25-30). Model exceeded limit.".to_string())
    );
    assert_eq!(line_count_warning("T", "a\nb\nc", "big"), None);
    let ok = "line\n".repeat(50);
    assert_eq!(line_count_warning("T", &ok, "mid"), None);
}

#[test]
fn notes_directory_listing() {
    let names = strings(&["b_c.md", "a.MD", "x.txt", ".md", "z.md"]);
    assert_eq!(example_files(&names), strings(&["a.MD", "b_c.md", "z.md"]));
    assert_eq!(covered_topics(&names), strings(&["a", "b c", "z"]));
    assert_eq!(markdown_stem("notes.v2.md"), Some("notes.v2".to_string()));
    assert_eq!(markdown_stem(".md"), None);
    assert_eq!(sort_names(strings(&["b", "B", "a", "ab"])), strings(&["B", "a", "ab", "b"]));
    assert_eq!(distinct_names(&strings(&["a.md", "b.md", "a.md"])), strings(&["a.md", "b.md"]));
}

#[test]
fn examples_are_framed_and_counted() {
    let mut ex = String::new();
    let mut count = 0u32;
    add_example(&mut ex, &mut count, "one");
    add_example(&mut ex, &mut count, "two");
    assert_eq!(count, 2);
    assert_eq!(ex, "--- Example 1 ---\none\n\n--- Example 2 ---\ntwo\n\n");
}

#[test]
fn sanitizing_twice_changes_nothing() {
    for t in ["CON", "a/b:c", "topic.. ", "...", "Rust ownership", "nul.txt"] {
        let once = sanitize_filename(t);
        assert_eq!(sanitize_filename(&once), once);
    }
}

#[test]
fn full_endpoint_url_gives_the_same_endpoint() {
    for p in [Provider::Ollama, Provider::OpenAI, Provider::Llamacpp, Provider::Anthropic, Provider::Gemini] {
        let url = p.generate_url("http://h:1/prefix", "gemini-2.0-flash", "");
        assert_eq!(p.generate_url(&url, "gemini-2.0-flash", ""), url);
    }
}

#[test]
fn provider_errors_and_headers() {
    assert_eq!(
        Provider::from_str("x").err(),
        Some("unknown provider \"x\" (expected: ollama, openai, llamacpp, anthropic, gemini)".to_string())
    );
    assert_eq!(Provider::OpenAI.headers("k"), vec![("Authorization", "Bearer k".to_string())]);
    assert_eq!(
        Provider::Anthropic.headers("k"),
        vec![("x-api-key", "k".to_string()), ("anthropic-version", "2023-06-01".to_string())]
    );
    assert!(Provider::Ollama.headers("k").is_empty());
    assert_eq!(Provider::Ollama.chat_url("http://h/api/generate", "m", ""), "http://h/api/chat");
}

#[test]
fn response_without_text_or_count() {
    let body = obj(vec![("message", obj(vec![("content", s("  padded \n"))]))]);
    assert_eq!(Provider::Ollama.parse_response(&body), ("padded".to_string(), "N/A".to_string()));
    let empty = obj(vec![]);
    assert_eq!(Provider::Gemini.parse_response(&empty), (String::new(), "N/A".to_string()));
    assert_eq!(Provider::Anthropic.parse_response(&empty), (String::new(), "0".to_string()));
    let huge = obj(vec![(
        "usage",
        obj(vec![("input_tokens", n(u64::MAX)), ("output_tokens", n(1))]),
    )]);
    assert!(!Provider::Anthropic.tokens_fit(&huge));
    assert!(Provider::OpenAI.tokens_fit(&huge));
}

#[test]
fn chat_body_splits_system_messages() {
    let msgs = Json::Array(vec![
        obj(vec![("role", s("system")), ("content", s("S1"))]),
        obj(vec![("role", s("user")), ("content", s("U"))]),
        obj(vec![("role", s("assistant")), ("content", s("A"))]),
        obj(vec![("role", s("system")), ("content", s("S2"))]),
    ]);
    let body = Provider::Anthropic.build_chat_body("m", &msgs, 10, None);
    assert_eq!(body.get("system"), Some(&s("S2")));
    assert_eq!(
        body.get("messages"),
        Some(&Json::Array(vec![
            obj(vec![("role", s("user")), ("content", s("U"))]),
            obj(vec![("role", s("assistant")), ("content", s("A"))]),
        ]))
    );
    let g = Provider::Gemini.build_chat_body("m", &msgs, 10, None);
    let part = |t: &str| Json::Array(vec![obj(vec![("text", s(t))])]);
    assert_eq!(
        g.get("contents"),
        Some(&Json::Array(vec![
            obj(vec![("role", s("user")), ("parts", part("U"))]),
            obj(vec![("role", s("model")), ("parts", part("A"))]),
        ]))
    );
    assert_eq!(g.get("system_instruction"), Some(&obj(vec![("parts", part("S2"))])));
}

#[test]
fn llamacpp_completion_has_no_system_field() {
    let body = Provider::Llamacpp.build_generate_body("m", "p", Some("sys"), 5, None);
    assert!(body.get("system").is_none());
    let body = Provider::Ollama.build_generate_body("m", "p", Some("sys"), 5, None);
    assert_eq!(body.get("system"), Some(&s("sys")));
}

#[test]
fn topic_flow_decisions() {
    let run = run_for(Provider::Ollama, full_root());
    assert_eq!(
        start_topic(&run, "(hint)").err(),
        Some("Topic \"(hint)\" is empty after hint removal. Hint must follow the topic text.".to_string())
    );
    let job = start_topic(&run, "Rust Ownership (short)").ok().unwrap();
    assert_eq!(job.topic, "Rust Ownership");
    assert_eq!(job.hint_line, "- Additional instruction: short\n");
    let (req, log) = note_request(&run, &job);
    assert_eq!(req.url, "http://127.0.0.1:11434/api/generate");
    assert!(log.is_none());
    match req.body.get("prompt") {
        Some(Json::Str(p)) => {
            assert!(p.starts_with("You are a strict note-writing assistant."));
            assert!(p.contains("- Write a note about: \"Rust Ownership\"\n"));
            assert!(p.contains("- Additional instruction: short\n"));
            assert!(p.ends_with("REMINDER: 25-30 LINES ONLY. VERIFY COUNT BEFORE OUTPUT.\n\nOUTPUT:"));
        }
        other => panic!("no prompt: {:?}", other),
    }
    assert_eq!(note_path(&run, &job, Platform::Other), "/home/u/notes/Rust_Ownership.md");
    assert_eq!(
        analysis_outcome(&job, Ok((String::new(), "1".to_string()))).err(),
        Some("[Rust Ownership] Stage 1 returned empty analysis".to_string())
    );
    assert_eq!(
        note_outcome(&run, &job, Err("HTTP 500: x".to_string())).err(),
        Some("Request failed for \"Rust Ownership\": HTTP 500: x".to_string())
    );
    let ok = note_outcome(&run, &job, Ok(obj(vec![("response", s(" note ")), ("eval_count", n(9))])))
        .ok()
        .unwrap();
    assert_eq!((ok.text.as_str(), ok.tokens.as_str()), ("note", "9"));
    assert_eq!(timing_line(&run, 1234, "9"), Some("  Took 1234 ms, generated tokens: 9".to_string()));
    assert!(runs_concurrently(Provider::Gemini, 2));
    assert!(!runs_concurrently(Provider::Ollama, 2));
    assert!(!runs_concurrently(Provider::OpenAI, 1));
}

#[test]
fn overwrite_warned_for_existing_or_repeated_notes() {
    assert_eq!(overwrite_warning("/n/a.md", false, false), None);
    assert_eq!(overwrite_warning("/n/a.md", true, false), Some("Warning: overwriting /n/a.md".to_string()));
    assert_eq!(overwrite_warning("/n/a.md", false, true), Some("Warning: overwriting /n/a.md".to_string()));
}

#[test]
fn weak_mode_requests_share_one_chat() {
    let run = run_for(Provider::Anthropic, full_root());
    let first = analysis_request(&run);
    assert_eq!(first.url, "http://127.0.0.1:11434/v1/messages");
    match first.body.get("system") {
        Some(Json::Str(sys)) => assert!(sys.starts_with("You are a strict style-analysis engine.")),
        other => panic!("no system prompt: {:?}", other),
    }
    let job = start_topic(&run, "Traits").ok().unwrap();
    let (second, _) = note_chat(&run, &job, "- headings: ##");
    match second.body.get("messages") {
        Some(Json::Array(msgs)) => {
            assert_eq!(msgs.len(), 3);
            assert_eq!(msgs[1].get("role"), Some(&s("assistant")));
            assert_eq!(msgs[1].get("content"), Some(&s("- headings: ##")));
        }
        other => panic!("no messages: {:?}", other),
    }
    assert_eq!(
        second.body.get("system"),
        Some(&s("You are a helpful assistant that writes study notes."))
    );
}
