use genote::json::{Json, JsonNumber};
use genote::provider::Provider;

fn s(x: &str) -> Json {
    Json::Str(x.to_string())
}

fn n(x: u64) -> Json {
    Json::Number(JsonNumber::PosInt(x))
}

fn obj(entries: Vec<(&str, Json)>) -> Json {
    Json::Object(entries.into_iter().map(|(k, v)| (k.to_string(), v)).collect())
}

fn arr(items: Vec<Json>) -> Json {
    Json::Array(items)
}

fn at<'a>(j: &'a Json, path: &[&str]) -> Option<&'a Json> {
    let mut cur = j;
    for key in path {
        cur = cur.get(key)?;
    }
    Some(cur)
}

fn user_hi() -> Json {
    arr(vec![obj(vec![("role", s("user")), ("content", s("hi"))])])
}

#[test]
fn from_str_accepts_known_providers() {
    for name in ["ollama", "openai", "llamacpp", "anthropic", "gemini"] {
        assert!(Provider::from_str(name).is_ok());
    }
    assert!(Provider::from_str("openaai").is_err());
}

#[test]
fn base_url_strips_known_suffixes() {
    assert_eq!(Provider::base_url("http://h:11434/api/generate"), "http://h:11434");
    assert_eq!(Provider::base_url("http://h:8000/v1/chat/completions"), "http://h:8000");
    assert_eq!(Provider::base_url("http://h:8080/completion/"), "http://h:8080");
    assert_eq!(
        Provider::base_url("https://api.anthropic.com/v1/messages"),
        "https://api.anthropic.com"
    );
    assert_eq!(Provider::base_url("https://api.openai.com/v1"), "https://api.openai.com");
}

#[test]
fn base_url_strips_generate_content_endpoint() {
    assert_eq!(
        Provider::base_url(
            "https://generativelanguage.googleapis.com/v1beta/models/gemini-2.0-flash:generateContent?key=abc"
        ),
        "https://generativelanguage.googleapis.com"
    );
    assert_eq!(
        Provider::base_url("https://generativelanguage.googleapis.com/v1beta"),
        "https://generativelanguage.googleapis.com"
    );
}

#[test]
fn base_url_fallback_strips_last_segment() {
    assert_eq!(Provider::base_url("http://host/api/v1"), "http://host/api");
    assert_eq!(Provider::base_url("http://host/llm"), "http://host");
    assert_eq!(Provider::base_url("http://host:8080"), "http://host:8080");
    assert_eq!(Provider::base_url("http://host"), "http://host");
}

#[test]
fn parse_response_llamacpp_native() {
    let body = obj(vec![
        ("content", s("Some note text")),
        ("timings", obj(vec![("predicted_n", n(42))])),
    ]);
    let (text, tokens) = Provider::Llamacpp.parse_response(&body);
    assert_eq!(text, "Some note text");
    assert_eq!(tokens, "42");
}

#[test]
fn parse_response_llamacpp_chat_fallback() {
    let body = obj(vec![(
        "choices",
        arr(vec![obj(vec![("message", obj(vec![("content", s("Chat text"))]))])]),
    )]);
    let (text, _) = Provider::Llamacpp.parse_response(&body);
    assert_eq!(text, "Chat text");
}

#[test]
fn parse_response_other_providers() {
    let ollama = obj(vec![
        ("message", obj(vec![("content", s("O"))])),
        ("eval_count", n(5)),
    ]);
    assert_eq!(
        Provider::Ollama.parse_response(&ollama),
        ("O".to_string(), "5".to_string())
    );

    let openai = obj(vec![
        (
            "choices",
            arr(vec![obj(vec![("message", obj(vec![("content", s("A"))]))])]),
        ),
        ("usage", obj(vec![("total_tokens", n(3))])),
    ]);
    assert_eq!(
        Provider::OpenAI.parse_response(&openai),
        ("A".to_string(), "3".to_string())
    );

    let anthropic = obj(vec![
        ("content", arr(vec![obj(vec![("type", s("text")), ("text", s("N"))])])),
        ("usage", obj(vec![("input_tokens", n(1)), ("output_tokens", n(2))])),
    ]);
    assert_eq!(
        Provider::Anthropic.parse_response(&anthropic),
        ("N".to_string(), "3".to_string())
    );

    let gemini = obj(vec![
        (
            "candidates",
            arr(vec![obj(vec![(
                "content",
                obj(vec![("parts", arr(vec![obj(vec![("text", s("G"))])]))]),
            )])]),
        ),
        ("usageMetadata", obj(vec![("totalTokenCount", n(7))])),
    ]);
    assert_eq!(
        Provider::Gemini.parse_response(&gemini),
        ("G".to_string(), "7".to_string())
    );
}

#[test]
fn headers_gemini_uses_header_not_url() {
    let headers = Provider::Gemini.headers("secret-key");
    assert_eq!(headers, vec![("x-goog-api-key", "secret-key".to_string())]);
    let url = Provider::Gemini.generate_url(
        "https://generativelanguage.googleapis.com/v1beta",
        "gemini-2.0-flash",
        "secret-key",
    );
    assert!(!url.contains("key="));
}

#[test]
fn build_chat_body_uses_max_tokens_and_temperature() {
    let body = Provider::Anthropic.build_chat_body("sonnet", &user_hi(), 8192, Some(0.5f32.to_bits()));
    assert_eq!(body.get("max_tokens"), Some(&n(8192)));
    assert_eq!(body.get("temperature"), Some(&Json::Float32(0.5f32.to_bits())));
}

#[test]
fn generate_body_sends_token_cap_per_provider() {
    let cases = [
        (Provider::OpenAI, "max_tokens", false),
        (Provider::Ollama, "num_predict", true),
        (Provider::Llamacpp, "n_predict", false),
        (Provider::Anthropic, "max_tokens", false),
        (Provider::Gemini, "maxOutputTokens", true),
    ];
    for (p, field, nested) in cases {
        let body = p.build_generate_body("m", "p", None, 6144, None);
        let found = if nested && matches!(p, Provider::Ollama) {
            at(&body, &["options", field]) == Some(&n(6144))
        } else if nested {
            at(&body, &["generationConfig", field]) == Some(&n(6144))
        } else {
            at(&body, &[field]) == Some(&n(6144))
        };
        assert!(found, "generate body for {:?} missing {}", p, field);
    }
}

#[test]
fn chat_body_sends_token_cap_per_provider() {
    let msgs = user_hi();
    let cases = [
        (Provider::OpenAI, "max_tokens", false),
        (Provider::Ollama, "num_predict", true),
        (Provider::Llamacpp, "max_tokens", false),
        (Provider::Anthropic, "max_tokens", false),
        (Provider::Gemini, "maxOutputTokens", true),
    ];
    for (p, field, nested) in cases {
        let body = p.build_chat_body("m", &msgs, 4096, None);
        let found = if nested && matches!(p, Provider::Ollama) {
            at(&body, &["options", field]) == Some(&n(4096))
        } else if nested {
            at(&body, &["generationConfig", field]) == Some(&n(4096))
        } else {
            at(&body, &[field]) == Some(&n(4096))
        };
        assert!(found, "chat body for {:?} missing {}", p, field);
    }
}

#[test]
fn ollama_temperature_goes_into_options() {
    let body = Provider::Ollama.build_generate_body("m", "p", None, 100, Some(0.7f32.to_bits()));
    assert_eq!(
        at(&body, &["options", "temperature"]),
        Some(&Json::Float32(0.7f32.to_bits()))
    );
    assert!(body.get("temperature").is_none());
    let chat = Provider::Ollama.build_chat_body("m", &user_hi(), 100, Some(0.3f32.to_bits()));
    assert_eq!(
        at(&chat, &["options", "temperature"]),
        Some(&Json::Float32(0.3f32.to_bits()))
    );
}

#[test]
fn gemini_cap_and_temperature_in_generation_config() {
    let body = Provider::Gemini.build_generate_body("m", "p", None, 8192, Some(0.9f32.to_bits()));
    assert_eq!(at(&body, &["generationConfig", "maxOutputTokens"]), Some(&n(8192)));
    assert_eq!(
        at(&body, &["generationConfig", "temperature"]),
        Some(&Json::Float32(0.9f32.to_bits()))
    );
}

#[test]
fn base_url_keeps_bare_base() {
    let b = "http://localhost:11434";
    assert_eq!(Provider::base_url(b), b);
    assert_eq!(Provider::base_url("http://localhost:11434/"), b);
    for s in [
        "/api/generate", "/api/generate/", "/v1/chat/completions", "/v1/chat/completions/",
        "/v1/completions", "/v1/completions/", "/completion", "/completion/", "/v1/messages",
        "/v1/messages/", "/v1", "/v1/", "/v1beta", "/v1beta/",
    ] {
        assert_eq!(Provider::base_url(&format!("{}{}", b, s)), b);
    }
}

#[test]
fn endpoint_url_given_back_builds_same_endpoint() {
    let providers = [
        Provider::Ollama, Provider::OpenAI, Provider::Llamacpp, Provider::Anthropic, Provider::Gemini,
    ];
    for p in providers {
        for model in ["llama3:8b", "gemini-2.0-flash"] {
            let u = p.generate_url("https://example.com", model, "k1");
            assert_eq!(p.generate_url(&u, model, "k2"), u);
        }
    }
}
