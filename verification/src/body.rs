//! The request bodies that each provider expects.
use vstd::prelude::*;
use crate::json::{
    Json, JsonNumber, JsonV, as_array_v, as_str_v, entries_of, entry, get_v, index_v, json_array,
    json_object, json_str, json_u32, values_of,
};
use crate::provider::Provider;
use crate::text::str_equal;

verus! {

/// A string value.
pub open spec fn s_v(s: Seq<char>) -> JsonV {
    JsonV::Str(s)
}

/// The value of a token cap.
pub open spec fn n_v(n: u32) -> JsonV {
    JsonV::Number(JsonNumber::PosInt(n as u64))
}

/// `{"role": role, "content": content}`.
pub open spec fn message_v(role: Seq<char>, content: Seq<char>) -> JsonV {
    JsonV::Object(seq![("role"@, s_v(role)), ("content"@, s_v(content))])
}

/// `{"parts": [{"text": text}]}`.
pub open spec fn parts_v(text: JsonV) -> JsonV {
    JsonV::Object(seq![("parts"@, JsonV::Array(seq![JsonV::Object(seq![("text"@, text)])]))])
}

/// The entries with a `temperature` entry added where one is given.
pub open spec fn with_temperature(
    entries: Seq<(Seq<char>, JsonV)>,
    temperature: Option<u32>,
) -> Seq<(Seq<char>, JsonV)> {
    match temperature {
        Some(t) => entries.push(("temperature"@, JsonV::Float32(t))),
        None => entries,
    }
}

/// The entries with `key: text` added where a system prompt is given.
pub open spec fn with_system(
    entries: Seq<(Seq<char>, JsonV)>,
    system: Option<Seq<char>>,
) -> Seq<(Seq<char>, JsonV)> {
    match system {
        Some(s) => entries.push(("system"@, s_v(s))),
        None => entries,
    }
}

/// The entries with a Gemini `system_instruction` added where a system prompt is given.
pub open spec fn with_system_instruction(
    entries: Seq<(Seq<char>, JsonV)>,
    system: Option<Seq<char>>,
) -> Seq<(Seq<char>, JsonV)> {
    match system {
        Some(s) => entries.push(("system_instruction"@, parts_v(s_v(s)))),
        None => entries,
    }
}

/// Gemini's `generationConfig`: the token cap and the temperature, if any.
pub open spec fn generation_config(max_tokens: u32, temperature: Option<u32>) -> JsonV {
    JsonV::Object(with_temperature(seq![("maxOutputTokens"@, n_v(max_tokens))], temperature))
}

/// Ollama's `options`: the token cap and the temperature, if any.
pub open spec fn ollama_options(max_tokens: u32, temperature: Option<u32>) -> JsonV {
    JsonV::Object(with_temperature(seq![("num_predict"@, n_v(max_tokens))], temperature))
}

/// The body of a single-prompt request.
pub open spec fn generate_body_of(
    p: Provider,
    model: Seq<char>,
    prompt: Seq<char>,
    system: Option<Seq<char>>,
    max_tokens: u32,
    temperature: Option<u32>,
) -> JsonV {
    match p {
        Provider::OpenAI => {
            let first: Seq<JsonV> = match system {
                Some(s) => seq![message_v("system"@, s)],
                None => seq![],
            };
            JsonV::Object(
                with_temperature(
                    seq![
                        ("model"@, s_v(model)),
                        ("messages"@, JsonV::Array(first.push(message_v("user"@, prompt)))),
                        ("max_tokens"@, n_v(max_tokens)),
                        ("stream"@, JsonV::Bool(false)),
                    ],
                    temperature,
                ),
            )
        },
        Provider::Ollama => JsonV::Object(
            with_system(
                seq![
                    ("model"@, s_v(model)),
                    ("prompt"@, s_v(prompt)),
                    ("stream"@, JsonV::Bool(false)),
                    ("options"@, ollama_options(max_tokens, temperature)),
                ],
                system,
            ),
        ),
        Provider::Llamacpp => JsonV::Object(
            with_temperature(
                seq![
                    ("prompt"@, s_v(prompt)),
                    ("stream"@, JsonV::Bool(false)),
                    ("n_predict"@, n_v(max_tokens)),
                ],
                temperature,
            ),
        ),
        Provider::Anthropic => JsonV::Object(
            with_temperature(
                with_system(
                    seq![
                        ("model"@, s_v(model)),
                        ("max_tokens"@, n_v(max_tokens)),
                        ("messages"@, JsonV::Array(seq![message_v("user"@, prompt)])),
                    ],
                    system,
                ),
                temperature,
            ),
        ),
        Provider::Gemini => JsonV::Object(
            with_system_instruction(
                seq![("contents"@, JsonV::Array(seq![parts_v(s_v(prompt))]))],
                system,
            ).push(("generationConfig"@, generation_config(max_tokens, temperature))),
        ),
    }
}

/// Whether `msg["role"] == role`.
pub open spec fn has_role(msg: JsonV, role: Seq<char>) -> bool {
    index_v(msg, "role"@) == s_v(role)
}

/// `msg["content"].as_str().unwrap_or("")`.
pub open spec fn content_text(msg: JsonV) -> Seq<char> {
    match as_str_v(index_v(msg, "content"@)) {
        Some(s) => s,
        None => Seq::empty(),
    }
}

/// The elements of `messages` where it is an array, or none.
pub open spec fn messages_of(messages: JsonV) -> Seq<JsonV> {
    match as_array_v(messages) {
        Some(a) => a,
        None => seq![],
    }
}

/// The content of the last system message, if any.
pub open spec fn last_system(msgs: Seq<JsonV>) -> Option<Seq<char>>
    decreases msgs.len(),
{
    if msgs.len() == 0 {
        None
    } else if has_role(msgs.last(), "system"@) {
        Some(content_text(msgs.last()))
    } else {
        last_system(msgs.drop_last())
    }
}

/// The messages that are not system messages, in order.
pub open spec fn non_system(msgs: Seq<JsonV>) -> Seq<JsonV>
    decreases msgs.len(),
{
    if msgs.len() == 0 {
        seq![]
    } else if has_role(msgs.last(), "system"@) {
        non_system(msgs.drop_last())
    } else {
        non_system(msgs.drop_last()).push(msgs.last())
    }
}

/// A non-system message as a Gemini content entry.
pub open spec fn gemini_content(msg: JsonV) -> JsonV {
    let role = if has_role(msg, "assistant"@) { "model"@ } else { "user"@ };
    JsonV::Object(
        seq![
            ("role"@, s_v(role)),
            ("parts"@, JsonV::Array(seq![JsonV::Object(seq![("text"@, index_v(msg, "content"@))])])),
        ],
    )
}

/// The non-system messages as Gemini content entries, in order.
pub open spec fn gemini_contents(msgs: Seq<JsonV>) -> Seq<JsonV>
    decreases msgs.len(),
{
    if msgs.len() == 0 {
        seq![]
    } else if has_role(msgs.last(), "system"@) {
        gemini_contents(msgs.drop_last())
    } else {
        gemini_contents(msgs.drop_last()).push(gemini_content(msgs.last()))
    }
}

/// The body of a chat request.
pub open spec fn chat_body_of(
    p: Provider,
    model: Seq<char>,
    messages: JsonV,
    max_tokens: u32,
    temperature: Option<u32>,
) -> JsonV {
    let msgs = messages_of(messages);
    match p {
        Provider::Anthropic => JsonV::Object(
            with_temperature(
                with_system(
                    seq![
                        ("model"@, s_v(model)),
                        ("max_tokens"@, n_v(max_tokens)),
                        ("messages"@, JsonV::Array(non_system(msgs))),
                    ],
                    last_system(msgs),
                ),
                temperature,
            ),
        ),
        Provider::Gemini => JsonV::Object(
            with_system_instruction(
                seq![("contents"@, JsonV::Array(gemini_contents(msgs)))],
                last_system(msgs),
            ).push(("generationConfig"@, generation_config(max_tokens, temperature))),
        ),
        Provider::OpenAI => JsonV::Object(
            with_temperature(
                seq![
                    ("model"@, s_v(model)),
                    ("messages"@, messages),
                    ("max_tokens"@, n_v(max_tokens)),
                    ("stream"@, JsonV::Bool(false)),
                ],
                temperature,
            ),
        ),
        Provider::Ollama => JsonV::Object(
            seq![
                ("model"@, s_v(model)),
                ("messages"@, messages),
                ("stream"@, JsonV::Bool(false)),
                ("options"@, ollama_options(max_tokens, temperature)),
            ],
        ),
        Provider::Llamacpp => JsonV::Object(
            with_temperature(
                seq![
                    ("model"@, s_v(model)),
                    ("messages"@, messages),
                    ("max_tokens"@, n_v(max_tokens)),
                    ("stream"@, JsonV::Bool(false)),
                ],
                temperature,
            ),
        ),
    }
}

fn push_temperature(entries: &mut Vec<(String, Json)>, temperature: Option<u32>)
    ensures
        entries_of(final(entries)@) == with_temperature(entries_of(old(entries)@), temperature),
{
    if let Some(t) = temperature {
        entries.push(entry("temperature", Json::Float32(t)));
    }
    assert(entries_of(entries@) =~= with_temperature(entries_of(old(entries)@), temperature));
}

fn push_system(entries: &mut Vec<(String, Json)>, system: Option<&str>)
    ensures
        entries_of(final(entries)@) == with_system(
            entries_of(old(entries)@),
            match system { Some(s) => Some(s@), None => None },
        ),
{
    if let Some(s) = system {
        entries.push(entry("system", json_str(s)));
    }
    assert(entries_of(entries@) =~= with_system(
        entries_of(old(entries)@),
        match system { Some(s) => Some(s@), None => None },
    ));
}

fn parts_json(text: Json) -> (res: Json)
    ensures
        res@ == parts_v(text@),
{
    let mut inner: Vec<(String, Json)> = Vec::new();
    inner.push(entry("text", text));
    let inner_obj = json_object(inner);
    let mut arr: Vec<Json> = Vec::new();
    arr.push(inner_obj);
    let arr_json = json_array(arr);
    let mut outer: Vec<(String, Json)> = Vec::new();
    outer.push(entry("parts", arr_json));
    let res = json_object(outer);
    assert(entries_of(inner@) =~= seq![("text"@, text@)]);
    assert(values_of(arr@) =~= seq![inner_obj@]);
    assert(entries_of(outer@) =~= seq![("parts"@, arr_json@)]);
    res
}

fn push_system_instruction(entries: &mut Vec<(String, Json)>, system: Option<&str>)
    ensures
        entries_of(final(entries)@) == with_system_instruction(
            entries_of(old(entries)@),
            match system { Some(s) => Some(s@), None => None },
        ),
{
    if let Some(s) = system {
        entries.push(entry("system_instruction", parts_json(json_str(s))));
    }
    assert(entries_of(entries@) =~= with_system_instruction(
        entries_of(old(entries)@),
        match system { Some(s) => Some(s@), None => None },
    ));
}

/// The message `{"role": role, "content": content}`.
pub fn message_json(role: &str, content: &str) -> (res: Json)
    ensures
        res@ == message_v(role@, content@),
{
    let mut e: Vec<(String, Json)> = Vec::new();
    e.push(entry("role", json_str(role)));
    e.push(entry("content", json_str(content)));
    assert(entries_of(e@) =~= seq![("role"@, s_v(role@)), ("content"@, s_v(content@))]);
    json_object(e)
}

fn options_json(key: &str, max_tokens: u32, temperature: Option<u32>) -> (res: Json)
    ensures
        res@ == JsonV::Object(with_temperature(seq![(key@, n_v(max_tokens))], temperature)),
{
    let mut e: Vec<(String, Json)> = Vec::new();
    e.push(entry(key, json_u32(max_tokens)));
    assert(entries_of(e@) =~= seq![(key@, n_v(max_tokens))]);
    push_temperature(&mut e, temperature);
    json_object(e)
}

pub open spec fn opt_str_view(o: Option<&str>) -> Option<Seq<char>> {
    match o {
        Some(s) => Some(s@),
        None => None,
    }
}

impl Provider {
    /// The body of a single-prompt request: the prompt, the optional system prompt,
    /// the token cap and the optional temperature (given by the bits of its `f32`),
    /// laid out as this provider expects them. llama.cpp's completion endpoint has no
    /// system field, so there the system prompt is left out.
    pub fn build_generate_body(
        &self,
        model: &str,
        prompt: &str,
        system: Option<&str>,
        max_tokens: u32,
        temperature: Option<u32>,
    ) -> (res: Json)
        ensures
            res@ == generate_body_of(*self, model@, prompt@, opt_str_view(system), max_tokens, temperature),
    {
        let mut e: Vec<(String, Json)> = Vec::new();
        match self {
            Provider::OpenAI => {
                let mut msgs: Vec<Json> = Vec::new();
                if let Some(s) = system {
                    msgs.push(message_json("system", s));
                }
                msgs.push(message_json("user", prompt));
                let ghost first: Seq<JsonV> = match system {
                    Some(s) => seq![message_v("system"@, s@)],
                    None => seq![],
                };
                assert(values_of(msgs@) =~= first.push(message_v("user"@, prompt@)));
                e.push(entry("model", json_str(model)));
                e.push(entry("messages", json_array(msgs)));
                e.push(entry("max_tokens", json_u32(max_tokens)));
                e.push(entry("stream", Json::Bool(false)));
                let ghost base = entries_of(e@);
                push_temperature(&mut e, temperature);
                assert(base =~= seq![
                    ("model"@, s_v(model@)),
                    ("messages"@, JsonV::Array(first.push(message_v("user"@, prompt@)))),
                    ("max_tokens"@, n_v(max_tokens)),
                    ("stream"@, JsonV::Bool(false)),
                ]);
            },
            Provider::Ollama => {
                e.push(entry("model", json_str(model)));
                e.push(entry("prompt", json_str(prompt)));
                e.push(entry("stream", Json::Bool(false)));
                e.push(entry("options", options_json("num_predict", max_tokens, temperature)));
                let ghost base = entries_of(e@);
                push_system(&mut e, system);
                assert(base =~= seq![
                    ("model"@, s_v(model@)),
                    ("prompt"@, s_v(prompt@)),
                    ("stream"@, JsonV::Bool(false)),
                    ("options"@, ollama_options(max_tokens, temperature)),
                ]);
            },
            Provider::Llamacpp => {
                e.push(entry("prompt", json_str(prompt)));
                e.push(entry("stream", Json::Bool(false)));
                e.push(entry("n_predict", json_u32(max_tokens)));
                let ghost base = entries_of(e@);
                push_temperature(&mut e, temperature);
                assert(base =~= seq![
                    ("prompt"@, s_v(prompt@)),
                    ("stream"@, JsonV::Bool(false)),
                    ("n_predict"@, n_v(max_tokens)),
                ]);
            },
            Provider::Anthropic => {
                let mut msgs: Vec<Json> = Vec::new();
                msgs.push(message_json("user", prompt));
                assert(values_of(msgs@) =~= seq![message_v("user"@, prompt@)]);
                e.push(entry("model", json_str(model)));
                e.push(entry("max_tokens", json_u32(max_tokens)));
                e.push(entry("messages", json_array(msgs)));
                let ghost base = entries_of(e@);
                push_system(&mut e, system);
                push_temperature(&mut e, temperature);
                assert(base =~= seq![
                    ("model"@, s_v(model@)),
                    ("max_tokens"@, n_v(max_tokens)),
                    ("messages"@, JsonV::Array(seq![message_v("user"@, prompt@)])),
                ]);
            },
            Provider::Gemini => {
                let mut contents: Vec<Json> = Vec::new();
                contents.push(parts_json(json_str(prompt)));
                assert(values_of(contents@) =~= seq![parts_v(s_v(prompt@))]);
                e.push(entry("contents", json_array(contents)));
                let ghost base = entries_of(e@);
                push_system_instruction(&mut e, system);
                let ghost mid = entries_of(e@);
                e.push(entry("generationConfig", options_json("maxOutputTokens", max_tokens, temperature)));
                assert(base =~= seq![("contents"@, JsonV::Array(seq![parts_v(s_v(prompt@))]))]);
                assert(entries_of(e@) =~= mid.push(("generationConfig"@, generation_config(max_tokens, temperature))));
            },
        }
        json_object(e)
    }
}

fn has_role_exec(msg: &Json, role: &str) -> (res: bool)
    ensures
        res == has_role(msg@, role@),
{
    match msg.get("role") {
        Some(r) => match r.as_str() {
            Some(s) => str_equal(s.as_str(), role),
            None => false,
        },
        None => false,
    }
}

fn content_text_exec(msg: &Json) -> (res: String)
    ensures
        res@ == content_text(msg@),
{
    match msg.get("content") {
        Some(c) => match c.as_str() {
            Some(s) => s.clone(),
            None => String::new(),
        },
        None => String::new(),
    }
}

fn content_value_exec(msg: &Json) -> (res: Json)
    ensures
        res@ == index_v(msg@, "content"@),
{
    match msg.get("content") {
        Some(c) => c.deep_clone(),
        None => Json::Null,
    }
}

fn gemini_content_exec(msg: &Json) -> (res: Json)
    ensures
        res@ == gemini_content(msg@),
{
    let role = if has_role_exec(msg, "assistant") { "model" } else { "user" };
    let mut text: Vec<(String, Json)> = Vec::new();
    text.push(entry("text", content_value_exec(msg)));
    let text_obj = json_object(text);
    let mut parts: Vec<Json> = Vec::new();
    parts.push(text_obj);
    let mut e: Vec<(String, Json)> = Vec::new();
    e.push(entry("role", json_str(role)));
    e.push(entry("parts", json_array(parts)));
    assert(entries_of(text@) =~= seq![("text"@, index_v(msg@, "content"@))]);
    assert(values_of(parts@) =~= seq![text_obj@]);
    assert(entries_of(e@) =~= seq![
        ("role"@, s_v(if has_role(msg@, "assistant"@) { "model"@ } else { "user"@ })),
        ("parts"@, JsonV::Array(seq![JsonV::Object(seq![("text"@, index_v(msg@, "content"@))])])),
    ]);
    json_object(e)
}

/// The last system message's content and the other messages, each kept as is or
/// turned into a Gemini content entry.
fn split_messages(messages: &Json, gemini: bool) -> (res: (Option<String>, Vec<Json>))
    ensures
        match res.0 { Some(s) => Some(s@), None => None } == last_system(messages_of(messages@)),
        gemini ==> values_of(res.1@) == gemini_contents(messages_of(messages@)),
        !gemini ==> values_of(res.1@) == non_system(messages_of(messages@)),
{
    let mut system: Option<String> = None;
    let mut kept: Vec<Json> = Vec::new();
    match messages.as_array() {
        Some(msgs) => {
            let ghost mv = values_of(msgs@);
            let mut i: usize = 0;
            while i < msgs.len()
                invariant
                    i <= msgs.len(),
                    mv == values_of(msgs@),
                    mv == messages_of(messages@),
                    match system { Some(s) => Some(s@), None => None } == last_system(mv.take(i as int)),
                    gemini ==> values_of(kept@) == gemini_contents(mv.take(i as int)),
                    !gemini ==> values_of(kept@) == non_system(mv.take(i as int)),
                decreases msgs.len() - i,
            {
                let ghost before = kept@;
                assert(mv.take(i + 1).drop_last() =~= mv.take(i as int));
                assert(mv.take(i + 1).last() == msgs@[i as int]@);
                if has_role_exec(&msgs[i], "system") {
                    system = Some(content_text_exec(&msgs[i]));
                } else if gemini {
                    kept.push(gemini_content_exec(&msgs[i]));
                    assert(values_of(kept@) =~= values_of(before).push(gemini_content(msgs@[i as int]@)));
                } else {
                    kept.push(msgs[i].deep_clone());
                    assert(values_of(kept@) =~= values_of(before).push(msgs@[i as int]@));
                }
                i = i + 1;
            }
            assert(mv.take(msgs.len() as int) =~= mv);
        },
        None => {
            assert(values_of(kept@) =~= Seq::<JsonV>::empty());
        },
    }
    (system, kept)
}

impl Provider {
    /// The body of a chat request. Anthropic and Gemini take the system prompt apart
    /// from the messages (the last system message wins); the other providers get the
    /// messages as they are.
    pub fn build_chat_body(
        &self,
        model: &str,
        messages: &Json,
        max_tokens: u32,
        temperature: Option<u32>,
    ) -> (res: Json)
        ensures
            res@ == chat_body_of(*self, model@, messages@, max_tokens, temperature),
    {
        let mut e: Vec<(String, Json)> = Vec::new();
        match self {
            Provider::Anthropic => {
                let (system, kept) = split_messages(messages, false);
                let ghost kv = values_of(kept@);
                e.push(entry("model", json_str(model)));
                e.push(entry("max_tokens", json_u32(max_tokens)));
                e.push(entry("messages", json_array(kept)));
                let ghost base = entries_of(e@);
                match &system {
                    Some(s) => push_system(&mut e, Some(s.as_str())),
                    None => push_system(&mut e, None),
                }
                push_temperature(&mut e, temperature);
                assert(base =~= seq![
                    ("model"@, s_v(model@)),
                    ("max_tokens"@, n_v(max_tokens)),
                    ("messages"@, JsonV::Array(non_system(messages_of(messages@)))),
                ]);
            },
            Provider::Gemini => {
                let (system, kept) = split_messages(messages, true);
                e.push(entry("contents", json_array(kept)));
                let ghost base = entries_of(e@);
                match &system {
                    Some(s) => push_system_instruction(&mut e, Some(s.as_str())),
                    None => push_system_instruction(&mut e, None),
                }
                let ghost mid = entries_of(e@);
                e.push(entry("generationConfig", options_json("maxOutputTokens", max_tokens, temperature)));
                assert(base =~= seq![("contents"@, JsonV::Array(gemini_contents(messages_of(messages@))))]);
                assert(entries_of(e@) =~= mid.push(("generationConfig"@, generation_config(max_tokens, temperature))));
            },
            Provider::OpenAI | Provider::Llamacpp => {
                e.push(entry("model", json_str(model)));
                e.push(entry("messages", messages.deep_clone()));
                e.push(entry("max_tokens", json_u32(max_tokens)));
                e.push(entry("stream", Json::Bool(false)));
                let ghost base = entries_of(e@);
                push_temperature(&mut e, temperature);
                assert(base =~= seq![
                    ("model"@, s_v(model@)),
                    ("messages"@, messages@),
                    ("max_tokens"@, n_v(max_tokens)),
                    ("stream"@, JsonV::Bool(false)),
                ]);
            },
            Provider::Ollama => {
                e.push(entry("model", json_str(model)));
                e.push(entry("messages", messages.deep_clone()));
                e.push(entry("stream", Json::Bool(false)));
                e.push(entry("options", options_json("num_predict", max_tokens, temperature)));
                assert(entries_of(e@) =~= seq![
                    ("model"@, s_v(model@)),
                    ("messages"@, messages@),
                    ("stream"@, JsonV::Bool(false)),
                    ("options"@, ollama_options(max_tokens, temperature)),
                ]);
            },
        }
        json_object(e)
    }
}

/// The value at a path of keys through nested objects.
pub open spec fn at_path(j: JsonV, path: Seq<Seq<char>>) -> Option<JsonV>
    decreases path.len(),
{
    if path.len() == 0 {
        Some(j)
    } else {
        match get_v(j, path[0]) {
            Some(v) => at_path(v, path.drop_first()),
            None => None,
        }
    }
}

/// The object in which a provider expects its sampling options: the body itself, or
/// Ollama's `options`, or Gemini's `generationConfig`.
pub open spec fn options_path(p: Provider) -> Seq<Seq<char>> {
    match p {
        Provider::Ollama => seq!["options"@],
        Provider::Gemini => seq!["generationConfig"@],
        _ => seq![],
    }
}

/// The key of the token cap of a request: single-prompt requests to llama.cpp use
/// `n_predict`.
pub open spec fn cap_key(p: Provider, chat: bool) -> Seq<char> {
    match p {
        Provider::Ollama => "num_predict"@,
        Provider::Gemini => "maxOutputTokens"@,
        Provider::Llamacpp => if chat { "max_tokens"@ } else { "n_predict"@ },
        _ => "max_tokens"@,
    }
}

pub open spec fn temperature_v(t: Option<u32>) -> Option<JsonV> {
    match t {
        Some(b) => Some(JsonV::Float32(b)),
        None => None,
    }
}

proof fn reveal_keys() -> (r: ())
    ensures
        "model"@ != "max_tokens"@,
        "model"@ != "messages"@,
        "model"@ != "stream"@,
        "model"@ != "prompt"@,
        "model"@ != "options"@,
        "model"@ != "system"@,
        "model"@ != "temperature"@,
        "model"@ != "n_predict"@,
        "model"@ != "num_predict"@,
        "model"@ != "maxOutputTokens"@,
        "model"@ != "contents"@,
        "model"@ != "system_instruction"@,
        "model"@ != "generationConfig"@,
        "max_tokens"@ != "messages"@,
        "max_tokens"@ != "stream"@,
        "max_tokens"@ != "prompt"@,
        "max_tokens"@ != "options"@,
        "max_tokens"@ != "system"@,
        "max_tokens"@ != "temperature"@,
        "max_tokens"@ != "n_predict"@,
        "max_tokens"@ != "num_predict"@,
        "max_tokens"@ != "maxOutputTokens"@,
        "max_tokens"@ != "contents"@,
        "max_tokens"@ != "system_instruction"@,
        "max_tokens"@ != "generationConfig"@,
        "messages"@ != "stream"@,
        "messages"@ != "prompt"@,
        "messages"@ != "options"@,
        "messages"@ != "system"@,
        "messages"@ != "temperature"@,
        "messages"@ != "n_predict"@,
        "messages"@ != "num_predict"@,
        "messages"@ != "maxOutputTokens"@,
        "messages"@ != "contents"@,
        "messages"@ != "system_instruction"@,
        "messages"@ != "generationConfig"@,
        "stream"@ != "prompt"@,
        "stream"@ != "options"@,
        "stream"@ != "system"@,
        "stream"@ != "temperature"@,
        "stream"@ != "n_predict"@,
        "stream"@ != "num_predict"@,
        "stream"@ != "maxOutputTokens"@,
        "stream"@ != "contents"@,
        "stream"@ != "system_instruction"@,
        "stream"@ != "generationConfig"@,
        "prompt"@ != "options"@,
        "prompt"@ != "system"@,
        "prompt"@ != "temperature"@,
        "prompt"@ != "n_predict"@,
        "prompt"@ != "num_predict"@,
        "prompt"@ != "maxOutputTokens"@,
        "prompt"@ != "contents"@,
        "prompt"@ != "system_instruction"@,
        "prompt"@ != "generationConfig"@,
        "options"@ != "system"@,
        "options"@ != "temperature"@,
        "options"@ != "n_predict"@,
        "options"@ != "num_predict"@,
        "options"@ != "maxOutputTokens"@,
        "options"@ != "contents"@,
        "options"@ != "system_instruction"@,
        "options"@ != "generationConfig"@,
        "system"@ != "temperature"@,
        "system"@ != "n_predict"@,
        "system"@ != "num_predict"@,
        "system"@ != "maxOutputTokens"@,
        "system"@ != "contents"@,
        "system"@ != "system_instruction"@,
        "system"@ != "generationConfig"@,
        "temperature"@ != "n_predict"@,
        "temperature"@ != "num_predict"@,
        "temperature"@ != "maxOutputTokens"@,
        "temperature"@ != "contents"@,
        "temperature"@ != "system_instruction"@,
        "temperature"@ != "generationConfig"@,
        "n_predict"@ != "num_predict"@,
        "n_predict"@ != "maxOutputTokens"@,
        "n_predict"@ != "contents"@,
        "n_predict"@ != "system_instruction"@,
        "n_predict"@ != "generationConfig"@,
        "num_predict"@ != "maxOutputTokens"@,
        "num_predict"@ != "contents"@,
        "num_predict"@ != "system_instruction"@,
        "num_predict"@ != "generationConfig"@,
        "maxOutputTokens"@ != "contents"@,
        "maxOutputTokens"@ != "system_instruction"@,
        "maxOutputTokens"@ != "generationConfig"@,
        "contents"@ != "system_instruction"@,
        "contents"@ != "generationConfig"@,
        "system_instruction"@ != "generationConfig"@,
{
    reveal_strlit("model");
    reveal_strlit("max_tokens");
    reveal_strlit("messages");
    reveal_strlit("stream");
    reveal_strlit("prompt");
    reveal_strlit("options");
    reveal_strlit("system");
    reveal_strlit("temperature");
    reveal_strlit("n_predict");
    reveal_strlit("num_predict");
    reveal_strlit("maxOutputTokens");
    reveal_strlit("contents");
    reveal_strlit("system_instruction");
    reveal_strlit("generationConfig");
    assert("model"@.len() == 5);
    assert("max_tokens"@.len() == 10);
    assert("messages"@.len() == 8);
    assert("stream"@.len() == 6);
    assert("prompt"@.len() == 6);
    assert("options"@.len() == 7);
    assert("system"@.len() == 6);
    assert("temperature"@.len() == 11);
    assert("n_predict"@.len() == 9);
    assert("num_predict"@.len() == 11);
    assert("maxOutputTokens"@.len() == 15);
    assert("contents"@.len() == 8);
    assert("system_instruction"@.len() == 18);
    assert("generationConfig"@.len() == 16);
    assert("prompt"@[0] != "stream"@[0]);
    assert("stream"@[1] != "system"@[1]);
    assert("prompt"@[0] != "system"@[0]);
    assert("num_predict"@[0] != "temperature"@[0]);
    assert("messages"@[0] != "contents"@[0]);
}

/// Every single-prompt body carries the token cap, under the provider's key and in the
/// provider's options object; the temperature stands in that same object where one is
/// given, and nowhere where none is.
pub proof fn lemma_generate_body_limits(
    p: Provider,
    model: Seq<char>,
    prompt: Seq<char>,
    system: Option<Seq<char>>,
    max_tokens: u32,
    temperature: Option<u32>,
)
    ensures
        at_path(generate_body_of(p, model, prompt, system, max_tokens, temperature), options_path(p).push(cap_key(p, false)))
            == Some(n_v(max_tokens)),
        at_path(generate_body_of(p, model, prompt, system, max_tokens, temperature), options_path(p).push("temperature"@))
            == temperature_v(temperature),
        options_path(p).len() > 0 ==> get_v(generate_body_of(p, model, prompt, system, max_tokens, temperature), "temperature"@) is None,
{
    reveal_keys();
    let body = generate_body_of(p, model, prompt, system, max_tokens, temperature);
    reveal_with_fuel(at_path, 3);
    reveal_with_fuel(crate::json::assoc, 8);
    match p {
        Provider::Ollama => {
            assert(options_path(p).push(cap_key(p, false)).drop_first() =~= seq![cap_key(p, false)]);
            assert(options_path(p).push("temperature"@).drop_first() =~= seq!["temperature"@]);
            let base = seq![
                ("model"@, s_v(model)),
                ("prompt"@, s_v(prompt)),
                ("stream"@, JsonV::Bool(false)),
                ("options"@, ollama_options(max_tokens, temperature)),
            ];
            match system {
                Some(sy) => {
                    let e = base.push(("system"@, s_v(sy)));
                    assert(e.drop_first().drop_first().drop_first().drop_first() =~= seq![("system"@, s_v(sy))]);
                    assert(e.drop_first().drop_first().drop_first() =~= seq![("options"@, ollama_options(max_tokens, temperature)), ("system"@, s_v(sy))]);
                },
                None => {
                    assert(base.drop_first().drop_first().drop_first() =~= seq![("options"@, ollama_options(max_tokens, temperature))]);
                },
            }
            match temperature {
                Some(t) => {
                    let o = seq![("num_predict"@, n_v(max_tokens)), ("temperature"@, JsonV::Float32(t))];
                    assert(seq![("num_predict"@, n_v(max_tokens))].push(("temperature"@, JsonV::Float32(t))) =~= o);
                    assert(o.drop_first() =~= seq![("temperature"@, JsonV::Float32(t))]);
                },
                None => {},
            }
        },
        Provider::Gemini => {
            assert(options_path(p).push(cap_key(p, false)).drop_first() =~= seq![cap_key(p, false)]);
            assert(options_path(p).push("temperature"@).drop_first() =~= seq!["temperature"@]);
        },
        _ => {
            assert(options_path(p).push(cap_key(p, false)) =~= seq![cap_key(p, false)]);
            assert(options_path(p).push("temperature"@) =~= seq!["temperature"@]);
        },
    }
}

/// Every chat body carries the token cap, under the provider's key and in the
/// provider's options object; the temperature stands in that same object where one is
/// given, and nowhere where none is.
pub proof fn lemma_chat_body_limits(
    p: Provider,
    model: Seq<char>,
    messages: JsonV,
    max_tokens: u32,
    temperature: Option<u32>,
)
    ensures
        at_path(chat_body_of(p, model, messages, max_tokens, temperature), options_path(p).push(cap_key(p, true)))
            == Some(n_v(max_tokens)),
        at_path(chat_body_of(p, model, messages, max_tokens, temperature), options_path(p).push("temperature"@))
            == temperature_v(temperature),
        options_path(p).len() > 0 ==> get_v(chat_body_of(p, model, messages, max_tokens, temperature), "temperature"@) is None,
{
    reveal_keys();
    reveal_with_fuel(at_path, 3);
    reveal_with_fuel(crate::json::assoc, 8);
    match p {
        Provider::Ollama => {
            assert(options_path(p).push(cap_key(p, true)).drop_first() =~= seq![cap_key(p, true)]);
            assert(options_path(p).push("temperature"@).drop_first() =~= seq!["temperature"@]);
            match temperature {
                Some(t) => {
                    let o = seq![("num_predict"@, n_v(max_tokens)), ("temperature"@, JsonV::Float32(t))];
                    assert(seq![("num_predict"@, n_v(max_tokens))].push(("temperature"@, JsonV::Float32(t))) =~= o);
                    assert(o.drop_first() =~= seq![("temperature"@, JsonV::Float32(t))]);
                },
                None => {},
            }
        },
        Provider::Gemini => {
            assert(options_path(p).push(cap_key(p, true)).drop_first() =~= seq![cap_key(p, true)]);
            assert(options_path(p).push("temperature"@).drop_first() =~= seq!["temperature"@]);
        },
        _ => {
            assert(options_path(p).push(cap_key(p, true)) =~= seq![cap_key(p, true)]);
            assert(options_path(p).push("temperature"@) =~= seq!["temperature"@]);
        },
    }
}

/// The messages that Anthropic and Gemini receive hold no system message: the system
/// prompt travels apart from them.
pub proof fn lemma_no_system_in_messages(msgs: Seq<JsonV>)
    ensures
        forall|i: int| 0 <= i < non_system(msgs).len() ==> !has_role(#[trigger] non_system(msgs)[i], "system"@),
        non_system(msgs).len() <= msgs.len(),
        gemini_contents(msgs).len() == non_system(msgs).len(),
    decreases msgs.len(),
{
    if msgs.len() > 0 {
        lemma_no_system_in_messages(msgs.drop_last());
    }
}

/// Every request body asks for one JSON reply: where the provider reads a `stream`
/// flag (OpenAI, Ollama, llama.cpp) it is `false`, in single-prompt and chat bodies
/// alike; Anthropic and Gemini bodies carry no such flag.
pub proof fn lemma_bodies_not_streamed(
    p: Provider,
    model: Seq<char>,
    prompt: Seq<char>,
    system: Option<Seq<char>>,
    messages: JsonV,
    max_tokens: u32,
    temperature: Option<u32>,
)
    ensures
        (p == Provider::OpenAI || p == Provider::Ollama || p == Provider::Llamacpp) ==> {
            &&& get_v(generate_body_of(p, model, prompt, system, max_tokens, temperature), "stream"@)
                == Some(JsonV::Bool(false))
            &&& get_v(chat_body_of(p, model, messages, max_tokens, temperature), "stream"@)
                == Some(JsonV::Bool(false))
        },
        (p == Provider::Anthropic || p == Provider::Gemini) ==> {
            &&& get_v(generate_body_of(p, model, prompt, system, max_tokens, temperature), "stream"@) is None
            &&& get_v(chat_body_of(p, model, messages, max_tokens, temperature), "stream"@) is None
        },
{
    reveal_keys();
    reveal_with_fuel(crate::json::assoc, 8);
}

/// A single-prompt body carries the prompt, the model where the provider takes one, and
/// a given system prompt wherever the provider has a place for it: OpenAI as a system
/// message before the user's, Ollama and Anthropic in `system`, Gemini in
/// `system_instruction`; without one, none of these is there. Only llama.cpp's native
/// completion body has no place for a system prompt, and takes the prompt and
/// `n_predict` rather than messages.
pub proof fn lemma_generate_body_carries_inputs(
    p: Provider,
    model: Seq<char>,
    prompt: Seq<char>,
    system: Option<Seq<char>>,
    max_tokens: u32,
    temperature: Option<u32>,
)
    ensures
        p == Provider::OpenAI ==> {
            &&& get_v(generate_body_of(p, model, prompt, system, max_tokens, temperature), "model"@) == Some(s_v(model))
            &&& get_v(generate_body_of(p, model, prompt, system, max_tokens, temperature), "messages"@) == Some(
                JsonV::Array(match system {
                    Some(sy) => seq![message_v("system"@, sy), message_v("user"@, prompt)],
                    None => seq![message_v("user"@, prompt)],
                }),
            )
        },
        (p == Provider::Ollama || p == Provider::Anthropic) ==> {
            &&& get_v(generate_body_of(p, model, prompt, system, max_tokens, temperature), "model"@) == Some(s_v(model))
            &&& get_v(generate_body_of(p, model, prompt, system, max_tokens, temperature), "system"@) == match system {
                Some(sy) => Some(s_v(sy)),
                None => None,
            }
        },
        p == Provider::Ollama ==> get_v(generate_body_of(p, model, prompt, system, max_tokens, temperature), "prompt"@)
            == Some(s_v(prompt)),
        p == Provider::Anthropic ==> get_v(generate_body_of(p, model, prompt, system, max_tokens, temperature), "messages"@)
            == Some(JsonV::Array(seq![message_v("user"@, prompt)])),
        p == Provider::Gemini ==> {
            &&& get_v(generate_body_of(p, model, prompt, system, max_tokens, temperature), "contents"@)
                == Some(JsonV::Array(seq![parts_v(s_v(prompt))]))
            &&& get_v(generate_body_of(p, model, prompt, system, max_tokens, temperature), "system_instruction"@)
                == match system {
                    Some(sy) => Some(parts_v(s_v(sy))),
                    None => None,
                }
        },
        p == Provider::Llamacpp ==> {
            &&& get_v(generate_body_of(p, model, prompt, system, max_tokens, temperature), "prompt"@) == Some(s_v(prompt))
            &&& get_v(generate_body_of(p, model, prompt, system, max_tokens, temperature), "n_predict"@) == Some(n_v(max_tokens))
            &&& get_v(generate_body_of(p, model, prompt, system, max_tokens, temperature), "messages"@) is None
            &&& get_v(generate_body_of(p, model, prompt, system, max_tokens, temperature), "system"@) is None
        },
{
    reveal_keys();
    reveal_with_fuel(crate::json::assoc, 8);
    if p == Provider::OpenAI {
        match system {
            Some(sy) => {
                assert(seq![message_v("system"@, sy)].push(message_v("user"@, prompt))
                    =~= seq![message_v("system"@, sy), message_v("user"@, prompt)]);
            },
            None => {
                assert(Seq::<JsonV>::empty().push(message_v("user"@, prompt)) =~= seq![message_v("user"@, prompt)]);
            },
        }
    }
}

/// A chat body hands the messages on as they are where the provider reads them whole
/// (OpenAI, Ollama, llama.cpp), with the model.
pub proof fn lemma_chat_body_carries_messages(
    p: Provider,
    model: Seq<char>,
    messages: JsonV,
    max_tokens: u32,
    temperature: Option<u32>,
)
    ensures
        (p == Provider::OpenAI || p == Provider::Ollama || p == Provider::Llamacpp) ==> {
            &&& get_v(chat_body_of(p, model, messages, max_tokens, temperature), "messages"@) == Some(messages)
            &&& get_v(chat_body_of(p, model, messages, max_tokens, temperature), "model"@) == Some(s_v(model))
        },
{
    reveal_keys();
    reveal_with_fuel(crate::json::assoc, 8);
}

} // verus!
