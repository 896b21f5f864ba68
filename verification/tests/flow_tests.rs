use genote::config::{resolve_settings, CliArgs, ConfigValues, Platform};
use genote::json::Json;
use genote::notes_dir::{include_step, Examples, IncludeStep};
use genote::provider::Provider;
use genote::topic::{first_step, next_step, start_topic, Run, Stage, Tally, TopicStep};

fn s(x: &str) -> Json {
    Json::Str(x.to_string())
}

fn obj(entries: Vec<(&str, Json)>) -> Json {
    Json::Object(entries.into_iter().map(|(k, v)| (k.to_string(), v)).collect())
}

fn no_args() -> CliArgs {
    CliArgs {
        model: None,
        api_url: None,
        provider: None,
        notes_dir: None,
        lang: None,
        note_size: None,
        notes_count: None,
        use_covered_topics: None,
        weak_mode: None,
        skill: None,
        profile: None,
        api_key: None,
    }
}

fn run_for(provider: Provider, weak: bool) -> Run {
    let mut root = ConfigValues::empty();
    root.model = Some("m".to_string());
    root.api_url = Some("http://127.0.0.1:8000".to_string());
    root.notes_dir = Some("/n".to_string());
    root.lang = Some("en".to_string());
    root.note_size = Some("small".to_string());
    root.weak_mode = Some(weak);
    let settings =
        resolve_settings(&no_args(), &ConfigValues::empty(), &root, None, Platform::Other).unwrap();
    Run::new(provider, "k".to_string(), settings, None, "EX".to_string(), Vec::new(), 1)
}

fn chat_body(text: &str) -> Json {
    obj(vec![(
        "choices",
        Json::Array(vec![obj(vec![("message", obj(vec![("content", s(text))]))])]),
    )])
}

#[test]
fn single_request_flow() {
    let run = run_for(Provider::OpenAI, false);
    let job = start_topic(&run, "Traits").ok().unwrap();
    match first_step(&run, &job) {
        TopicStep::Send { stage, request, .. } => {
            assert_eq!(stage, Stage::Note);
            assert_eq!(request.url, "http://127.0.0.1:8000/v1/chat/completions");
        }
        _ => panic!("the first step sends a request"),
    }
    match next_step(&run, &job, Stage::Note, Ok(chat_body(" note "))) {
        TopicStep::Done(g) => assert_eq!((g.text.as_str(), g.tokens.as_str()), ("note", "N/A")),
        _ => panic!("a note was given"),
    }
    match next_step(&run, &job, Stage::Note, Err("HTTP 500".to_string())) {
        TopicStep::Failed(m) => assert_eq!(m, "Request failed for \"Traits\": HTTP 500"),
        _ => panic!("the request failed"),
    }
}

#[test]
fn weak_mode_flow_stops_at_a_failed_stage() {
    let run = run_for(Provider::OpenAI, true);
    let job = start_topic(&run, "Traits").ok().unwrap();
    match first_step(&run, &job) {
        TopicStep::Send { stage, log, .. } => {
            assert_eq!(stage, Stage::Analysis);
            assert!(log.is_none());
        }
        _ => panic!("the first step sends the analysis"),
    }
    match next_step(&run, &job, Stage::Analysis, Ok(chat_body("- short lines"))) {
        TopicStep::Send { stage, request, .. } => {
            assert_eq!(stage, Stage::NoteChat);
            match request.body.get("messages") {
                Some(Json::Array(msgs)) => {
                    assert_eq!(msgs[2].get("content"), Some(&s("- short lines")));
                }
                other => panic!("no messages: {:?}", other),
            }
        }
        _ => panic!("the analysis leads to the note request"),
    }
    match next_step(&run, &job, Stage::Analysis, Ok(chat_body("  "))) {
        TopicStep::Failed(m) => assert_eq!(m, "[Traits] Stage 1 returned empty analysis"),
        _ => panic!("an empty analysis ends the note"),
    }
    match next_step(&run, &job, Stage::Analysis, Err("timeout".to_string())) {
        TopicStep::Failed(m) => assert_eq!(m, "[Traits] Stage 1 request failed: timeout"),
        _ => panic!("a failed analysis ends the note"),
    }
    match next_step(&run, &job, Stage::NoteChat, Ok(chat_body(""))) {
        TopicStep::Failed(m) => assert_eq!(m, "[Traits] Stage 2 returned empty response"),
        _ => panic!("an empty note ends the note"),
    }
    match next_step(&run, &job, Stage::NoteChat, Ok(chat_body("# Traits"))) {
        TopicStep::Done(g) => assert_eq!(g.text, "# Traits"),
        _ => panic!("a note was given"),
    }
}

#[test]
fn examples_are_capped_and_missing_ones_skipped() {
    let mut ex = Examples::new(2);
    assert!(ex.wants_more());
    assert!(matches!(include_step("a.md", "/n", true, &ex), IncludeStep::Read));
    ex.offer(Some("one".to_string()));
    ex.offer(None);
    assert_eq!(ex.count, 1);
    ex.offer(Some("two".to_string()));
    assert!(!ex.wants_more());
    assert!(matches!(include_step("c.md", "/n", true, &ex), IncludeStep::Pass));
    ex.offer(Some("three".to_string()));
    assert_eq!(ex.count, 2);
    assert_eq!(ex.text, "--- Example 1 ---\none\n\n--- Example 2 ---\ntwo\n\n");
    match include_step("gone.md", "/n", false, &ex) {
        IncludeStep::Skip(w) => assert_eq!(w, "Warning: skipped gone.md — not found in \"/n\""),
        _ => panic!("a missing file is skipped"),
    }
}

#[test]
fn a_failed_topic_stops_no_other() {
    let mut t = Tally::new();
    assert_eq!(t.next_topic(3), Some(0));
    t.record(true);
    assert_eq!(t.next_topic(3), Some(1));
    t.record(false);
    assert_eq!(t.next_topic(3), Some(2));
    t.record(false);
    assert_eq!(t.next_topic(3), None);
    assert_eq!(t.exit_code(), 1);
    let mut ok = Tally::new();
    ok.record(false);
    assert_eq!(ok.exit_code(), 0);
}
