use genote::config::pick;
use genote::note::{max_tokens_for, parse_hint, sanitize_filename, size_line_bounds};

#[test]
fn parse_hint_basic() {
    assert_eq!(parse_hint("Rust"), ("Rust".to_string(), None));
    assert_eq!(
        parse_hint("Closures (skip FnOnce)"),
        ("Closures".to_string(), Some("skip FnOnce".to_string()))
    );
    assert_eq!(
        parse_hint("Generics (no (traits)) here"),
        ("Generics".to_string(), Some("no (traits)".to_string()))
    );
}

#[test]
fn parse_hint_edges() {
    assert_eq!(parse_hint("()"), ("".to_string(), Some("".to_string())));
    assert_eq!(parse_hint("(hint)"), ("".to_string(), Some("hint".to_string())));
    assert_eq!(parse_hint("(unclosed"), ("(unclosed".to_string(), None));
    assert_eq!(parse_hint("Topic )("), ("Topic )(".to_string(), None));
}

#[test]
fn pick_merge_order() {
    assert_eq!(pick(Some("cli"), Some("prof"), Some("root")), Some("cli"));
    assert_eq!(pick(None, Some("prof"), Some("root")), Some("prof"));
    assert_eq!(pick(None, None, Some("root")), Some("root"));
    assert_eq!(pick::<String>(None, None, None), None);
}

#[test]
fn max_tokens_by_size() {
    assert_eq!(max_tokens_for("big"), 8192);
    assert_eq!(max_tokens_for("mid"), 6144);
    assert_eq!(max_tokens_for("small"), 4096);
}

#[test]
fn size_line_bounds_by_size() {
    assert_eq!(size_line_bounds("small"), (25, 30));
    assert_eq!(size_line_bounds("mid"), (45, 68));
    assert_eq!(size_line_bounds("big"), (0, 0));
}

#[test]
fn sanitize_filename_handles_windows_reserved_and_edges() {
    assert_eq!(sanitize_filename("CON"), "_CON");
    assert_eq!(sanitize_filename("con"), "_con");
    assert_eq!(sanitize_filename("COM1"), "_COM1");
    assert_eq!(sanitize_filename("NUL"), "_NUL");
    assert_eq!(sanitize_filename("CON.md"), "_CON.md");
    assert_eq!(sanitize_filename("Rust"), "Rust");
    assert_eq!(sanitize_filename("Rust ownership"), "Rust_ownership");
    assert_eq!(sanitize_filename("topic."), "topic");
    assert_eq!(sanitize_filename("topic.. "), "topic");
    assert_eq!(sanitize_filename("..."), "_");
    assert_eq!(sanitize_filename("a/b:c"), "a_b_c");
}
