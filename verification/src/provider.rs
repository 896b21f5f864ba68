//! The LLM providers: how each one is addressed and authenticated.
use vstd::prelude::*;
use crate::text::{
    chars_of, ends_with, ends_with_exec, find, find_exec, occurs_at, rfind, rfind_exec, slice_chars,
    str_equal, string_from_chars, to_owned_string, trim_end_by, trim_end_exec, CharClass,
    decimal, decimal_string, trim, trimmed_string,
};
use crate::json::{
    Json, JsonNumber, JsonV, get_v, opt_get, opt_str, opt_u64, opt_first, opt_get_exec,
    opt_str_exec, opt_u64_exec, opt_first_exec,
};

verus! {

/// A backend that serves the model.
#[derive(Clone, Copy, Debug, PartialEq, Eq, Structural)]
pub enum Provider {
    Ollama,
    OpenAI,
    Llamacpp,
    Anthropic,
    Gemini,
}

/// The provider that a configuration name selects, if any.
pub open spec fn provider_named(s: Seq<char>) -> Option<Provider> {
    if s == "ollama"@ {
        Some(Provider::Ollama)
    } else if s == "openai"@ {
        Some(Provider::OpenAI)
    } else if s == "llamacpp"@ {
        Some(Provider::Llamacpp)
    } else if s == "anthropic"@ {
        Some(Provider::Anthropic)
    } else if s == "gemini"@ {
        Some(Provider::Gemini)
    } else {
        None
    }
}

/// The message that rejects an unknown provider name.
pub open spec fn unknown_provider_message(s: Seq<char>) -> Seq<char> {
    "unknown provider \""@ + s + "\" (expected: ollama, openai, llamacpp, anthropic, gemini)"@
}

/// The part of a Gemini endpoint URL before `models/...:generateContent`.
pub open spec fn strip_generate_content(s: Seq<char>) -> Seq<char> {
    match find(s, ":generateContent"@) {
        Some(pos) => {
            let t = s.take(pos);
            match rfind(t, "models/"@) {
                Some(m) => t.take(m),
                None => t,
            }
        },
        None => s,
    }
}

/// The endpoint suffixes that are stripped from a configured URL, in the order tried.
pub open spec fn known_suffixes() -> Seq<Seq<char>> {
    seq![
        "/api/generate"@,
        "/api/generate/"@,
        "/v1/chat/completions"@,
        "/v1/chat/completions/"@,
        "/v1/completions"@,
        "/v1/completions/"@,
        "/completion"@,
        "/completion/"@,
        "/v1/messages"@,
        "/v1/messages/"@,
        "/v1"@,
        "/v1/"@,
        "/v1beta"@,
        "/v1beta/"@,
    ]
}

/// The first suffix of `list` that `s` ends with.
pub open spec fn first_suffix(s: Seq<char>, list: Seq<Seq<char>>) -> Option<Seq<char>>
    decreases list.len(),
{
    if list.len() == 0 {
        None
    } else if ends_with(s, list[0]) {
        Some(list[0])
    } else {
        first_suffix(s, list.drop_first())
    }
}

/// Index where the URL's authority begins: just after `://`, or 0.
pub open spec fn authority_start(t: Seq<char>) -> int {
    match find(t, "://"@) {
        Some(i) => i + 3,
        None => 0,
    }
}

/// `s` without trailing slashes and without its last path segment, where it has one
/// after the authority.
pub open spec fn strip_last_segment(s: Seq<char>) -> Seq<char> {
    let t = trim_end_by(s, CharClass::Exactly('/'));
    match rfind(t, seq!['/']) {
        Some(pos) => if pos > authority_start(t) { t.take(pos) } else { t },
        None => t,
    }
}

/// The base URL (scheme, authority and any path prefix) of a configured API URL.
pub open spec fn base_url_of(u: Seq<char>) -> Seq<char> {
    let s = strip_generate_content(u);
    match first_suffix(s, known_suffixes()) {
        Some(suf) => trim_end_by(s.take(s.len() - suf.len()), CharClass::Exactly('/')),
        None => strip_last_segment(s),
    }
}

/// The endpoint for a single-prompt request.
pub open spec fn generate_url_of(p: Provider, base: Seq<char>, model: Seq<char>) -> Seq<char> {
    match p {
        Provider::Ollama => base + "/api/generate"@,
        Provider::OpenAI => base + "/v1/chat/completions"@,
        Provider::Llamacpp => base + "/completion"@,
        Provider::Anthropic => base + "/v1/messages"@,
        Provider::Gemini => base + "/v1beta/models/"@ + model + ":generateContent"@,
    }
}

/// The endpoint for a chat request.
pub open spec fn chat_url_of(p: Provider, base: Seq<char>, model: Seq<char>) -> Seq<char> {
    match p {
        Provider::Ollama => base + "/api/chat"@,
        Provider::OpenAI => base + "/v1/chat/completions"@,
        Provider::Llamacpp => base + "/v1/chat/completions"@,
        Provider::Anthropic => base + "/v1/messages"@,
        Provider::Gemini => base + "/v1beta/models/"@ + model + ":generateContent"@,
    }
}

/// The authentication headers of a provider, as (name, value) pairs.
pub open spec fn headers_of(p: Provider, key: Seq<char>) -> Seq<(Seq<char>, Seq<char>)> {
    match p {
        Provider::Ollama => seq![],
        Provider::Llamacpp => seq![],
        Provider::OpenAI => seq![("Authorization"@, "Bearer "@ + key)],
        Provider::Anthropic => seq![("x-api-key"@, key), ("anthropic-version"@, "2023-06-01"@)],
        Provider::Gemini => seq![("x-goog-api-key"@, key)],
    }
}

pub open spec fn header_view(h: (&'static str, String)) -> (Seq<char>, Seq<char>) {
    (h.0@, h.1@)
}

fn known_suffix(i: usize) -> (s: &'static str)
    requires
        i < 14,
    ensures
        s@ == known_suffixes()[i as int],
{
    if i == 0 { "/api/generate" }
    else if i == 1 { "/api/generate/" }
    else if i == 2 { "/v1/chat/completions" }
    else if i == 3 { "/v1/chat/completions/" }
    else if i == 4 { "/v1/completions" }
    else if i == 5 { "/v1/completions/" }
    else if i == 6 { "/completion" }
    else if i == 7 { "/completion/" }
    else if i == 8 { "/v1/messages" }
    else if i == 9 { "/v1/messages/" }
    else if i == 10 { "/v1" }
    else if i == 11 { "/v1/" }
    else if i == 12 { "/v1beta" }
    else { "/v1beta/" }
}

fn strip_generate_content_exec(v: &Vec<char>) -> (res: Vec<char>)
    ensures
        res@ == strip_generate_content(v@),
{
    let marker = chars_of(":generateContent");
    match find_exec(v, &marker) {
        Some(pos) => {
            let t = slice_chars(v, 0, pos);
            assert(t@ == v@.take(pos as int));
            let models = chars_of("models/");
            match rfind_exec(&t, &models) {
                Some(m) => {
                    let r = slice_chars(&t, 0, m);
                    assert(r@ == t@.take(m as int));
                    r
                },
                None => t,
            }
        },
        None => slice_chars(v, 0, v.len()),
    }
}

fn strip_last_segment_exec(v: &Vec<char>) -> (res: Vec<char>)
    ensures
        res@ == strip_last_segment(v@),
{
    let t = trim_end_exec(v, CharClass::Exactly('/'));
    let sep = chars_of("://");
    proof {
        reveal_strlit("://");
    }
    let start: usize = match find_exec(&t, &sep) {
        Some(i) => {
            assert(i + sep@.len() <= t.len());
            i + 3
        },
        None => 0,
    };
    assert(start as int == authority_start(t@));
    let mut slash: Vec<char> = Vec::new();
    slash.push('/');
    assert(slash@ =~= seq!['/']);
    match rfind_exec(&t, &slash) {
        Some(pos) => {
            if pos > start {
                let r = slice_chars(&t, 0, pos);
                assert(r@ == t@.take(pos as int));
                r
            } else {
                t
            }
        },
        None => t,
    }
}

impl Provider {
    /// Parses a provider name.
    pub fn from_str(s: &str) -> (res: Result<Provider, String>)
        ensures
            match provider_named(s@) {
                Some(p) => res == Ok::<Provider, String>(p),
                None => res matches Err(e) && e@ == unknown_provider_message(s@),
            },
    {
        if str_equal(s, "ollama") {
            Ok(Provider::Ollama)
        } else if str_equal(s, "openai") {
            Ok(Provider::OpenAI)
        } else if str_equal(s, "llamacpp") {
            Ok(Provider::Llamacpp)
        } else if str_equal(s, "anthropic") {
            Ok(Provider::Anthropic)
        } else if str_equal(s, "gemini") {
            Ok(Provider::Gemini)
        } else {
            let mut msg = String::from_str("unknown provider \"");
            msg.append(s);
            msg.append("\" (expected: ollama, openai, llamacpp, anthropic, gemini)");
            Err(msg)
        }
    }

    /// The base URL of a configured API URL: a Gemini `models/...:generateContent` tail
    /// goes, then the first known endpoint suffix that matches (with the slashes before
    /// it); failing that, the last path segment after the authority.
    pub fn base_url(api_url: &str) -> (res: String)
        ensures
            res@ == base_url_of(api_url@),
    {
        let u = chars_of(api_url);
        let s = strip_generate_content_exec(&u);
        let ghost list = known_suffixes();
        let mut i: usize = 0;
        assert(list.skip(0) =~= list);
        while i < 14
            invariant
                i <= 14,
                list == known_suffixes(),
                s@ == strip_generate_content(api_url@),
                first_suffix(s@, list) == first_suffix(s@, list.skip(i as int)),
            decreases 14 - i,
        {
            let suffix = chars_of(known_suffix(i));
            assert(list.skip(i as int)[0] == list[i as int]);
            assert(list.skip(i as int).drop_first() =~= list.skip(i + 1));
            if ends_with_exec(&s, &suffix) {
                assert(first_suffix(s@, list.skip(i as int)) == Some(list[i as int]));
                let stripped = slice_chars(&s, 0, s.len() - suffix.len());
                assert(stripped@ == s@.take(s@.len() - suffix@.len()));
                let r = trim_end_exec(&stripped, CharClass::Exactly('/'));
                return string_from_chars(&r);
            }
            i = i + 1;
        }
        assert(list.skip(14) =~= Seq::<Seq<char>>::empty());
        let r = strip_last_segment_exec(&s);
        string_from_chars(&r)
    }

    /// The authentication headers that this provider expects.
    pub fn headers(&self, api_key: &str) -> (res: Vec<(&'static str, String)>)
        ensures
            res@.map_values(|h: (&'static str, String)| header_view(h)) == headers_of(*self, api_key@),
    {
        let mut res: Vec<(&'static str, String)> = Vec::new();
        match self {
            Provider::Ollama | Provider::Llamacpp => {},
            Provider::OpenAI => {
                let mut v = String::from_str("Bearer ");
                v.append(api_key);
                res.push(("Authorization", v));
            },
            Provider::Anthropic => {
                res.push(("x-api-key", to_owned_string(api_key)));
                res.push(("anthropic-version", String::from_str("2023-06-01")));
            },
            Provider::Gemini => {
                res.push(("x-goog-api-key", to_owned_string(api_key)));
            },
        }
        assert(res@.map_values(|h: (&'static str, String)| header_view(h)) =~= headers_of(*self, api_key@));
        res
    }

    /// The endpoint for a single-prompt request. The key travels in a header, never in
    /// the URL.
    pub fn generate_url(&self, api_url: &str, model: &str, _api_key: &str) -> (res: String)
        ensures
            res@ == generate_url_of(*self, base_url_of(api_url@), model@),
    {
        let mut base = Provider::base_url(api_url);
        match self {
            Provider::Ollama => base.append("/api/generate"),
            Provider::OpenAI => base.append("/v1/chat/completions"),
            Provider::Llamacpp => base.append("/completion"),
            Provider::Anthropic => base.append("/v1/messages"),
            Provider::Gemini => {
                base.append("/v1beta/models/");
                base.append(model);
                base.append(":generateContent");
            },
        }
        base
    }

    /// The endpoint for a chat request. The key travels in a header, never in the URL.
    pub fn chat_url(&self, api_url: &str, model: &str, _api_key: &str) -> (res: String)
        ensures
            res@ == chat_url_of(*self, base_url_of(api_url@), model@),
    {
        let mut base = Provider::base_url(api_url);
        match self {
            Provider::Ollama => base.append("/api/chat"),
            Provider::OpenAI | Provider::Llamacpp => base.append("/v1/chat/completions"),
            Provider::Anthropic => base.append("/v1/messages"),
            Provider::Gemini => {
                base.append("/v1beta/models/");
                base.append(model);
                base.append(":generateContent");
            },
        }
        base
    }
}

/// `a.or(b)`.
pub open spec fn or_opt(a: Option<Seq<char>>, b: Option<Seq<char>>) -> Option<Seq<char>> {
    match a {
        Some(x) => Some(x),
        None => b,
    }
}

/// The text found, trimmed; empty where none was found.
pub open spec fn found_text(o: Option<Seq<char>>) -> Seq<char> {
    match o {
        Some(s) => trim(s),
        None => Seq::empty(),
    }
}

/// A token count as text, or `N/A` where the response gave none.
pub open spec fn token_text(n: Option<u64>) -> Seq<char> {
    match n {
        Some(n) => decimal(n as nat),
        None => "N/A"@,
    }
}

pub open spec fn u64_or_zero(n: Option<u64>) -> nat {
    match n {
        Some(n) => n as nat,
        None => 0,
    }
}

/// `choices[0].message.content` of an OpenAI-style chat response.
pub open spec fn chat_choice_text(body: JsonV) -> Option<Seq<char>> {
    opt_str(opt_get(opt_get(opt_first(get_v(body, "choices"@)), "message"@), "content"@))
}

/// The sum of the input and output token counts of an Anthropic response.
pub open spec fn anthropic_tokens(body: JsonV) -> nat {
    u64_or_zero(opt_u64(opt_get(get_v(body, "usage"@), "input_tokens"@)))
        + u64_or_zero(opt_u64(opt_get(get_v(body, "usage"@), "output_tokens"@)))
}

/// The generated text of a provider's response body.
pub open spec fn response_text(p: Provider, body: JsonV) -> Seq<char> {
    match p {
        Provider::Ollama => found_text(
            or_opt(
                opt_str(opt_get(get_v(body, "message"@), "content"@)),
                opt_str(get_v(body, "response"@)),
            ),
        ),
        Provider::OpenAI => found_text(chat_choice_text(body)),
        Provider::Llamacpp => found_text(or_opt(opt_str(get_v(body, "content"@)), chat_choice_text(body))),
        Provider::Anthropic => found_text(opt_str(opt_get(opt_first(get_v(body, "content"@)), "text"@))),
        Provider::Gemini => found_text(
            opt_str(
                opt_get(
                    opt_first(opt_get(opt_get(opt_first(get_v(body, "candidates"@)), "content"@), "parts"@)),
                    "text"@,
                ),
            ),
        ),
    }
}

/// The token count that a provider's response body reports, as text.
pub open spec fn response_tokens(p: Provider, body: JsonV) -> Seq<char> {
    match p {
        Provider::Ollama => token_text(opt_u64(get_v(body, "eval_count"@))),
        Provider::OpenAI => token_text(opt_u64(opt_get(get_v(body, "usage"@), "total_tokens"@))),
        Provider::Llamacpp => token_text(opt_u64(opt_get(get_v(body, "timings"@), "predicted_n"@))),
        Provider::Anthropic => decimal(anthropic_tokens(body)),
        Provider::Gemini => token_text(opt_u64(opt_get(get_v(body, "usageMetadata"@), "totalTokenCount"@))),
    }
}

fn found_text_exec(o: Option<&String>) -> (res: String)
    ensures
        res@ == found_text(match o { Some(s) => Some(s@), None => None }),
{
    match o {
        Some(s) => trimmed_string(s.as_str()),
        None => String::new(),
    }
}

fn token_text_exec(n: Option<u64>) -> (res: String)
    ensures
        res@ == token_text(n),
{
    match n {
        Some(n) => decimal_string(n as u128),
        None => String::from_str("N/A"),
    }
}

fn or_str_exec<'a>(a: Option<&'a String>, b: Option<&'a String>) -> (res: Option<&'a String>)
    ensures
        match res { Some(s) => Some(s@), None => None } == or_opt(
            match a { Some(s) => Some(s@), None => None },
            match b { Some(s) => Some(s@), None => None },
        ),
{
    match a {
        Some(x) => Some(x),
        None => b,
    }
}

fn chat_choice_exec(body: &Json) -> (res: Option<&String>)
    ensures
        match res { Some(s) => Some(s@), None => None } == chat_choice_text(body@),
{
    let c = opt_first_exec(body.get("choices"));
    let m = opt_get_exec(c, "message");
    let t = opt_get_exec(m, "content");
    opt_str_exec(t)
}

impl Provider {
    /// The generated text (trimmed) and the token count (as text, `N/A` where the
    /// response has none) of a response body.
    pub fn parse_response(&self, body: &Json) -> (res: (String, String))
        requires
            *self == Provider::Anthropic ==> anthropic_tokens(body@) <= u64::MAX,
        ensures
            res.0@ == response_text(*self, body@),
            res.1@ == response_tokens(*self, body@),
    {
        match self {
            Provider::Ollama => {
                let a = opt_str_exec(opt_get_exec(body.get("message"), "content"));
                let b = opt_str_exec(body.get("response"));
                let text = found_text_exec(or_str_exec(a, b));
                let tokens = token_text_exec(opt_u64_exec(body.get("eval_count")));
                (text, tokens)
            },
            Provider::OpenAI => {
                let text = found_text_exec(chat_choice_exec(body));
                let tokens = token_text_exec(
                    opt_u64_exec(opt_get_exec(body.get("usage"), "total_tokens")),
                );
                (text, tokens)
            },
            Provider::Llamacpp => {
                let a = opt_str_exec(body.get("content"));
                let b = chat_choice_exec(body);
                let text = found_text_exec(or_str_exec(a, b));
                let tokens = token_text_exec(
                    opt_u64_exec(opt_get_exec(body.get("timings"), "predicted_n")),
                );
                (text, tokens)
            },
            Provider::Anthropic => {
                let t = opt_str_exec(opt_get_exec(opt_first_exec(body.get("content")), "text"));
                let text = found_text_exec(t);
                let inp = match opt_u64_exec(opt_get_exec(body.get("usage"), "input_tokens")) {
                    Some(n) => n,
                    None => 0,
                };
                let out = match opt_u64_exec(opt_get_exec(body.get("usage"), "output_tokens")) {
                    Some(n) => n,
                    None => 0,
                };
                let tokens = decimal_string((inp + out) as u128);
                (text, tokens)
            },
            Provider::Gemini => {
                let c = opt_first_exec(body.get("candidates"));
                let parts = opt_get_exec(opt_get_exec(c, "content"), "parts");
                let t = opt_str_exec(opt_get_exec(opt_first_exec(parts), "text"));
                let text = found_text_exec(t);
                let tokens = token_text_exec(
                    opt_u64_exec(opt_get_exec(body.get("usageMetadata"), "totalTokenCount")),
                );
                (text, tokens)
            },
        }
    }
}

impl Provider {
    /// Whether a response body can be read: for Anthropic, whether its input and output
    /// token counts add up within `u64`.
    pub fn tokens_fit(&self, body: &Json) -> (res: bool)
        ensures
            res == (*self == Provider::Anthropic ==> anthropic_tokens(body@) <= u64::MAX),
    {
        match self {
            Provider::Anthropic => {
                let inp = match opt_u64_exec(opt_get_exec(body.get("usage"), "input_tokens")) {
                    Some(n) => n,
                    None => 0,
                };
                let out = match opt_u64_exec(opt_get_exec(body.get("usage"), "output_tokens")) {
                    Some(n) => n,
                    None => 0,
                };
                inp <= u64::MAX - out
            },
            _ => true,
        }
    }
}

/// `s` ends with the suffix at `idx` and with none before it in `list`.
proof fn lemma_first_suffix_at(s: Seq<char>, list: Seq<Seq<char>>, idx: int)
    requires
        0 <= idx < list.len(),
        ends_with(s, list[idx]),
        forall|i: int| 0 <= i < idx ==> !ends_with(s, #[trigger] list[i]),
    ensures
        first_suffix(s, list) == Some(list[idx]),
    decreases idx,
{
    if idx > 0 {
        assert forall|i: int| 0 <= i < idx - 1 implies !ends_with(s, #[trigger] list.drop_first()[i]) by {
            assert(list.drop_first()[i] == list[i + 1]);
        }
        lemma_first_suffix_at(s, list.drop_first(), idx - 1);
    }
}

/// A string that ends with `x` does not end with `y` where their last two characters
/// differ.
proof fn lemma_not_ends(u: Seq<char>, x: Seq<char>, y: Seq<char>)
    requires
        ends_with(u, x),
        x.len() >= 2,
        y.len() >= 2,
        x[x.len() - 1] != y[y.len() - 1] || x[x.len() - 2] != y[y.len() - 2],
    ensures
        !ends_with(u, y),
{
    if ends_with(u, y) {
        crate::text::lemma_common_ending(u, x, y, 2);
        assert(x[x.len() - 1] == y[y.len() - 1]);
        assert(x[x.len() - 2] == y[y.len() - 2]);
    }
}

/// A string that ends with `x` does not end with `y` where their `k`-th last characters
/// differ.
proof fn lemma_not_ends_at(u: Seq<char>, x: Seq<char>, y: Seq<char>, k: int)
    requires
        ends_with(u, x),
        1 <= k <= x.len(),
        k <= y.len(),
        x[x.len() - k] != y[y.len() - k],
    ensures
        !ends_with(u, y),
{
    if ends_with(u, y) {
        crate::text::lemma_common_ending(u, x, y, k);
        assert(x[x.len() - k] == y[y.len() - k]);
    }
}

/// The lengths of the known suffixes and the characters that the proofs about them use.
proof fn reveal_suffixes()
    ensures
        "/api/generate"@.len() == 13,
        "/api/generate/"@.len() == 14,
        "/v1/chat/completions"@.len() == 20,
        "/v1/chat/completions/"@.len() == 21,
        "/v1/completions"@.len() == 15,
        "/v1/completions/"@.len() == 16,
        "/completion"@.len() == 11,
        "/completion/"@.len() == 12,
        "/v1/messages"@.len() == 12,
        "/v1/messages/"@.len() == 13,
        "/v1"@.len() == 3,
        "/v1/"@.len() == 4,
        "/v1beta"@.len() == 7,
        "/v1beta/"@.len() == 8,
        "/api/generate"@[0] == '/' && "/api/generate"@[1] == 'a' && "/api/generate"@[4] == '/' && "/api/generate"@[11] == 't' && "/api/generate"@[12] == 'e',
        "/api/generate/"@[0] == '/' && "/api/generate/"@[1] == 'a' && "/api/generate/"@[4] == '/' && "/api/generate/"@[12] == 'e' && "/api/generate/"@[13] == '/',
        "/v1/chat/completions"@[0] == '/' && "/v1/chat/completions"@[1] == 'v' && "/v1/chat/completions"@[3] == '/' && "/v1/chat/completions"@[7] == 't' && "/v1/chat/completions"@[18] == 'n' && "/v1/chat/completions"@[19] == 's',
        "/v1/chat/completions/"@[0] == '/' && "/v1/chat/completions/"@[1] == 'v' && "/v1/chat/completions/"@[2] == '1' && "/v1/chat/completions/"@[3] == '/' && "/v1/chat/completions/"@[4] == 'c' && "/v1/chat/completions/"@[5] == 'h' && "/v1/chat/completions/"@[7] == 't' && "/v1/chat/completions/"@[18] == 'n' && "/v1/chat/completions/"@[19] == 's' && "/v1/chat/completions/"@[20] == '/',
        "/v1/completions"@[0] == '/' && "/v1/completions"@[1] == 'v' && "/v1/completions"@[2] == '1' && "/v1/completions"@[3] == '/' && "/v1/completions"@[13] == 'n' && "/v1/completions"@[14] == 's',
        "/v1/completions/"@[0] == '/' && "/v1/completions/"@[1] == 'v' && "/v1/completions/"@[2] == '1' && "/v1/completions/"@[3] == '/' && "/v1/completions/"@[13] == 'n' && "/v1/completions/"@[14] == 's' && "/v1/completions/"@[15] == '/',
        "/completion"@[0] == '/' && "/completion"@[1] == 'c' && "/completion"@[9] == 'o' && "/completion"@[10] == 'n',
        "/completion/"@[0] == '/' && "/completion/"@[1] == 'c' && "/completion/"@[10] == 'n' && "/completion/"@[11] == '/',
        "/v1/messages"@[0] == '/' && "/v1/messages"@[1] == 'v' && "/v1/messages"@[3] == '/' && "/v1/messages"@[10] == 'e' && "/v1/messages"@[11] == 's',
        "/v1/messages/"@[0] == '/' && "/v1/messages/"@[1] == 'v' && "/v1/messages/"@[3] == '/' && "/v1/messages/"@[10] == 'e' && "/v1/messages/"@[11] == 's' && "/v1/messages/"@[12] == '/',
        "/v1"@[0] == '/' && "/v1"@[1] == 'v' && "/v1"@[2] == '1',
        "/v1/"@[0] == '/' && "/v1/"@[1] == 'v' && "/v1/"@[2] == '1' && "/v1/"@[3] == '/',
        "/v1beta"@[0] == '/' && "/v1beta"@[1] == 'v' && "/v1beta"@[5] == 't' && "/v1beta"@[6] == 'a',
        "/v1beta/"@[0] == '/' && "/v1beta/"@[1] == 'v' && "/v1beta/"@[6] == 'a' && "/v1beta/"@[7] == '/',
{
    reveal_strlit("/api/generate");
    reveal_strlit("/api/generate/");
    reveal_strlit("/v1/chat/completions");
    reveal_strlit("/v1/chat/completions/");
    reveal_strlit("/v1/completions");
    reveal_strlit("/v1/completions/");
    reveal_strlit("/completion");
    reveal_strlit("/completion/");
    reveal_strlit("/v1/messages");
    reveal_strlit("/v1/messages/");
    reveal_strlit("/v1");
    reveal_strlit("/v1/");
    reveal_strlit("/v1beta");
    reveal_strlit("/v1beta/");
    assert("/api/generate"@.len() == 13);
    assert("/api/generate/"@.len() == 14);
    assert("/v1/chat/completions"@.len() == 20);
    assert("/v1/chat/completions/"@.len() == 21);
    assert("/v1/completions"@.len() == 15);
    assert("/v1/completions/"@.len() == 16);
    assert("/completion"@.len() == 11);
    assert("/completion/"@.len() == 12);
    assert("/v1/messages"@.len() == 12);
    assert("/v1/messages/"@.len() == 13);
    assert("/v1"@.len() == 3);
    assert("/v1/"@.len() == 4);
    assert("/v1beta"@.len() == 7);
    assert("/v1beta/"@.len() == 8);
    assert("/api/generate"@[0] == '/' && "/api/generate"@[1] == 'a' && "/api/generate"@[4] == '/' && "/api/generate"@[11] == 't' && "/api/generate"@[12] == 'e');
    assert("/api/generate/"@[0] == '/' && "/api/generate/"@[1] == 'a' && "/api/generate/"@[4] == '/' && "/api/generate/"@[12] == 'e' && "/api/generate/"@[13] == '/');
    assert("/v1/chat/completions"@[0] == '/' && "/v1/chat/completions"@[1] == 'v' && "/v1/chat/completions"@[3] == '/' && "/v1/chat/completions"@[7] == 't' && "/v1/chat/completions"@[18] == 'n' && "/v1/chat/completions"@[19] == 's');
    assert("/v1/chat/completions/"@[0] == '/' && "/v1/chat/completions/"@[1] == 'v' && "/v1/chat/completions/"@[2] == '1' && "/v1/chat/completions/"@[3] == '/' && "/v1/chat/completions/"@[4] == 'c' && "/v1/chat/completions/"@[5] == 'h' && "/v1/chat/completions/"@[7] == 't' && "/v1/chat/completions/"@[18] == 'n' && "/v1/chat/completions/"@[19] == 's' && "/v1/chat/completions/"@[20] == '/');
    assert("/v1/completions"@[0] == '/' && "/v1/completions"@[1] == 'v' && "/v1/completions"@[2] == '1' && "/v1/completions"@[3] == '/' && "/v1/completions"@[13] == 'n' && "/v1/completions"@[14] == 's');
    assert("/v1/completions/"@[0] == '/' && "/v1/completions/"@[1] == 'v' && "/v1/completions/"@[2] == '1' && "/v1/completions/"@[3] == '/' && "/v1/completions/"@[13] == 'n' && "/v1/completions/"@[14] == 's' && "/v1/completions/"@[15] == '/');
    assert("/completion"@[0] == '/' && "/completion"@[1] == 'c' && "/completion"@[9] == 'o' && "/completion"@[10] == 'n');
    assert("/completion/"@[0] == '/' && "/completion/"@[1] == 'c' && "/completion/"@[10] == 'n' && "/completion/"@[11] == '/');
    assert("/v1/messages"@[0] == '/' && "/v1/messages"@[1] == 'v' && "/v1/messages"@[3] == '/' && "/v1/messages"@[10] == 'e' && "/v1/messages"@[11] == 's');
    assert("/v1/messages/"@[0] == '/' && "/v1/messages/"@[1] == 'v' && "/v1/messages/"@[3] == '/' && "/v1/messages/"@[10] == 'e' && "/v1/messages/"@[11] == 's' && "/v1/messages/"@[12] == '/');
    assert("/v1"@[0] == '/' && "/v1"@[1] == 'v' && "/v1"@[2] == '1');
    assert("/v1/"@[0] == '/' && "/v1/"@[1] == 'v' && "/v1/"@[2] == '1' && "/v1/"@[3] == '/');
    assert("/v1beta"@[0] == '/' && "/v1beta"@[1] == 'v' && "/v1beta"@[5] == 't' && "/v1beta"@[6] == 'a');
    assert("/v1beta/"@[0] == '/' && "/v1beta/"@[1] == 'v' && "/v1beta/"@[6] == 'a' && "/v1beta/"@[7] == '/');
}

/// A URL that ends with one known suffix does not end with an earlier one.
proof fn lemma_suffix_pair(u: Seq<char>, idx: int, i: int)
    requires
        0 <= i < idx < 14,
        ends_with(u, known_suffixes()[idx]),
    ensures
        !ends_with(u, known_suffixes()[i]),
{
    reveal_suffixes();
    if idx == 1 && i == 0 {
        lemma_not_ends(u, known_suffixes()[1], known_suffixes()[0]);
    } else if idx == 2 && i == 0 {
        lemma_not_ends(u, known_suffixes()[2], known_suffixes()[0]);
    } else if idx == 2 && i == 1 {
        lemma_not_ends(u, known_suffixes()[2], known_suffixes()[1]);
    } else if idx == 3 && i == 0 {
        lemma_not_ends(u, known_suffixes()[3], known_suffixes()[0]);
    } else if idx == 3 && i == 1 {
        lemma_not_ends(u, known_suffixes()[3], known_suffixes()[1]);
    } else if idx == 3 && i == 2 {
        lemma_not_ends(u, known_suffixes()[3], known_suffixes()[2]);
    } else if idx == 4 && i == 0 {
        lemma_not_ends(u, known_suffixes()[4], known_suffixes()[0]);
    } else if idx == 4 && i == 1 {
        lemma_not_ends(u, known_suffixes()[4], known_suffixes()[1]);
    } else if idx == 4 && i == 2 {
        lemma_not_ends_at(u, known_suffixes()[4], known_suffixes()[2], 13);
    } else if idx == 4 && i == 3 {
        lemma_not_ends(u, known_suffixes()[4], known_suffixes()[3]);
    } else if idx == 5 && i == 0 {
        lemma_not_ends(u, known_suffixes()[5], known_suffixes()[0]);
    } else if idx == 5 && i == 1 {
        lemma_not_ends(u, known_suffixes()[5], known_suffixes()[1]);
    } else if idx == 5 && i == 2 {
        lemma_not_ends(u, known_suffixes()[5], known_suffixes()[2]);
    } else if idx == 5 && i == 3 {
        lemma_not_ends_at(u, known_suffixes()[5], known_suffixes()[3], 14);
    } else if idx == 5 && i == 4 {
        lemma_not_ends(u, known_suffixes()[5], known_suffixes()[4]);
    } else if idx == 6 && i == 0 {
        lemma_not_ends(u, known_suffixes()[6], known_suffixes()[0]);
    } else if idx == 6 && i == 1 {
        lemma_not_ends(u, known_suffixes()[6], known_suffixes()[1]);
    } else if idx == 6 && i == 2 {
        lemma_not_ends(u, known_suffixes()[6], known_suffixes()[2]);
    } else if idx == 6 && i == 3 {
        lemma_not_ends(u, known_suffixes()[6], known_suffixes()[3]);
    } else if idx == 6 && i == 4 {
        lemma_not_ends(u, known_suffixes()[6], known_suffixes()[4]);
    } else if idx == 6 && i == 5 {
        lemma_not_ends(u, known_suffixes()[6], known_suffixes()[5]);
    } else if idx == 7 && i == 0 {
        lemma_not_ends(u, known_suffixes()[7], known_suffixes()[0]);
    } else if idx == 7 && i == 1 {
        lemma_not_ends(u, known_suffixes()[7], known_suffixes()[1]);
    } else if idx == 7 && i == 2 {
        lemma_not_ends(u, known_suffixes()[7], known_suffixes()[2]);
    } else if idx == 7 && i == 3 {
        lemma_not_ends(u, known_suffixes()[7], known_suffixes()[3]);
    } else if idx == 7 && i == 4 {
        lemma_not_ends(u, known_suffixes()[7], known_suffixes()[4]);
    } else if idx == 7 && i == 5 {
        lemma_not_ends(u, known_suffixes()[7], known_suffixes()[5]);
    } else if idx == 7 && i == 6 {
        lemma_not_ends(u, known_suffixes()[7], known_suffixes()[6]);
    } else if idx == 8 && i == 0 {
        lemma_not_ends(u, known_suffixes()[8], known_suffixes()[0]);
    } else if idx == 8 && i == 1 {
        lemma_not_ends(u, known_suffixes()[8], known_suffixes()[1]);
    } else if idx == 8 && i == 2 {
        lemma_not_ends(u, known_suffixes()[8], known_suffixes()[2]);
    } else if idx == 8 && i == 3 {
        lemma_not_ends(u, known_suffixes()[8], known_suffixes()[3]);
    } else if idx == 8 && i == 4 {
        lemma_not_ends(u, known_suffixes()[8], known_suffixes()[4]);
    } else if idx == 8 && i == 5 {
        lemma_not_ends(u, known_suffixes()[8], known_suffixes()[5]);
    } else if idx == 8 && i == 6 {
        lemma_not_ends(u, known_suffixes()[8], known_suffixes()[6]);
    } else if idx == 8 && i == 7 {
        lemma_not_ends(u, known_suffixes()[8], known_suffixes()[7]);
    } else if idx == 9 && i == 0 {
        lemma_not_ends(u, known_suffixes()[9], known_suffixes()[0]);
    } else if idx == 9 && i == 1 {
        lemma_not_ends(u, known_suffixes()[9], known_suffixes()[1]);
    } else if idx == 9 && i == 2 {
        lemma_not_ends(u, known_suffixes()[9], known_suffixes()[2]);
    } else if idx == 9 && i == 3 {
        lemma_not_ends_at(u, known_suffixes()[9], known_suffixes()[3], 3);
    } else if idx == 9 && i == 4 {
        lemma_not_ends(u, known_suffixes()[9], known_suffixes()[4]);
    } else if idx == 9 && i == 5 {
        lemma_not_ends_at(u, known_suffixes()[9], known_suffixes()[5], 3);
    } else if idx == 9 && i == 6 {
        lemma_not_ends(u, known_suffixes()[9], known_suffixes()[6]);
    } else if idx == 9 && i == 7 {
        lemma_not_ends(u, known_suffixes()[9], known_suffixes()[7]);
    } else if idx == 9 && i == 8 {
        lemma_not_ends(u, known_suffixes()[9], known_suffixes()[8]);
    } else if idx == 10 && i == 0 {
        lemma_not_ends(u, known_suffixes()[10], known_suffixes()[0]);
    } else if idx == 10 && i == 1 {
        lemma_not_ends(u, known_suffixes()[10], known_suffixes()[1]);
    } else if idx == 10 && i == 2 {
        lemma_not_ends(u, known_suffixes()[10], known_suffixes()[2]);
    } else if idx == 10 && i == 3 {
        lemma_not_ends(u, known_suffixes()[10], known_suffixes()[3]);
    } else if idx == 10 && i == 4 {
        lemma_not_ends(u, known_suffixes()[10], known_suffixes()[4]);
    } else if idx == 10 && i == 5 {
        lemma_not_ends(u, known_suffixes()[10], known_suffixes()[5]);
    } else if idx == 10 && i == 6 {
        lemma_not_ends(u, known_suffixes()[10], known_suffixes()[6]);
    } else if idx == 10 && i == 7 {
        lemma_not_ends(u, known_suffixes()[10], known_suffixes()[7]);
    } else if idx == 10 && i == 8 {
        lemma_not_ends(u, known_suffixes()[10], known_suffixes()[8]);
    } else if idx == 10 && i == 9 {
        lemma_not_ends(u, known_suffixes()[10], known_suffixes()[9]);
    } else if idx == 11 && i == 0 {
        lemma_not_ends(u, known_suffixes()[11], known_suffixes()[0]);
    } else if idx == 11 && i == 1 {
        lemma_not_ends(u, known_suffixes()[11], known_suffixes()[1]);
    } else if idx == 11 && i == 2 {
        lemma_not_ends(u, known_suffixes()[11], known_suffixes()[2]);
    } else if idx == 11 && i == 3 {
        lemma_not_ends(u, known_suffixes()[11], known_suffixes()[3]);
    } else if idx == 11 && i == 4 {
        lemma_not_ends(u, known_suffixes()[11], known_suffixes()[4]);
    } else if idx == 11 && i == 5 {
        lemma_not_ends(u, known_suffixes()[11], known_suffixes()[5]);
    } else if idx == 11 && i == 6 {
        lemma_not_ends(u, known_suffixes()[11], known_suffixes()[6]);
    } else if idx == 11 && i == 7 {
        lemma_not_ends(u, known_suffixes()[11], known_suffixes()[7]);
    } else if idx == 11 && i == 8 {
        lemma_not_ends(u, known_suffixes()[11], known_suffixes()[8]);
    } else if idx == 11 && i == 9 {
        lemma_not_ends(u, known_suffixes()[11], known_suffixes()[9]);
    } else if idx == 11 && i == 10 {
        lemma_not_ends(u, known_suffixes()[11], known_suffixes()[10]);
    } else if idx == 12 && i == 0 {
        lemma_not_ends(u, known_suffixes()[12], known_suffixes()[0]);
    } else if idx == 12 && i == 1 {
        lemma_not_ends(u, known_suffixes()[12], known_suffixes()[1]);
    } else if idx == 12 && i == 2 {
        lemma_not_ends(u, known_suffixes()[12], known_suffixes()[2]);
    } else if idx == 12 && i == 3 {
        lemma_not_ends(u, known_suffixes()[12], known_suffixes()[3]);
    } else if idx == 12 && i == 4 {
        lemma_not_ends(u, known_suffixes()[12], known_suffixes()[4]);
    } else if idx == 12 && i == 5 {
        lemma_not_ends(u, known_suffixes()[12], known_suffixes()[5]);
    } else if idx == 12 && i == 6 {
        lemma_not_ends(u, known_suffixes()[12], known_suffixes()[6]);
    } else if idx == 12 && i == 7 {
        lemma_not_ends(u, known_suffixes()[12], known_suffixes()[7]);
    } else if idx == 12 && i == 8 {
        lemma_not_ends(u, known_suffixes()[12], known_suffixes()[8]);
    } else if idx == 12 && i == 9 {
        lemma_not_ends(u, known_suffixes()[12], known_suffixes()[9]);
    } else if idx == 12 && i == 10 {
        lemma_not_ends(u, known_suffixes()[12], known_suffixes()[10]);
    } else if idx == 12 && i == 11 {
        lemma_not_ends(u, known_suffixes()[12], known_suffixes()[11]);
    } else if idx == 13 && i == 0 {
        lemma_not_ends(u, known_suffixes()[13], known_suffixes()[0]);
    } else if idx == 13 && i == 1 {
        lemma_not_ends(u, known_suffixes()[13], known_suffixes()[1]);
    } else if idx == 13 && i == 2 {
        lemma_not_ends(u, known_suffixes()[13], known_suffixes()[2]);
    } else if idx == 13 && i == 3 {
        lemma_not_ends(u, known_suffixes()[13], known_suffixes()[3]);
    } else if idx == 13 && i == 4 {
        lemma_not_ends(u, known_suffixes()[13], known_suffixes()[4]);
    } else if idx == 13 && i == 5 {
        lemma_not_ends(u, known_suffixes()[13], known_suffixes()[5]);
    } else if idx == 13 && i == 6 {
        lemma_not_ends(u, known_suffixes()[13], known_suffixes()[6]);
    } else if idx == 13 && i == 7 {
        lemma_not_ends(u, known_suffixes()[13], known_suffixes()[7]);
    } else if idx == 13 && i == 8 {
        lemma_not_ends(u, known_suffixes()[13], known_suffixes()[8]);
    } else if idx == 13 && i == 9 {
        lemma_not_ends(u, known_suffixes()[13], known_suffixes()[9]);
    } else if idx == 13 && i == 10 {
        lemma_not_ends(u, known_suffixes()[13], known_suffixes()[10]);
    } else if idx == 13 && i == 11 {
        lemma_not_ends(u, known_suffixes()[13], known_suffixes()[11]);
    } else if idx == 13 && i == 12 {
        lemma_not_ends(u, known_suffixes()[13], known_suffixes()[12]);
    }
}

/// A URL that ends with a known suffix has that suffix as the first one `base_url` tries
/// that matches.
proof fn lemma_suffix_first(u: Seq<char>, idx: int)
    requires
        0 <= idx < 14,
        ends_with(u, known_suffixes()[idx]),
    ensures
        first_suffix(u, known_suffixes()) == Some(known_suffixes()[idx]),
{
    assert forall|i: int| 0 <= i < idx implies !ends_with(u, #[trigger] known_suffixes()[i]) by {
        lemma_suffix_pair(u, idx, i);
    }
    lemma_first_suffix_at(u, known_suffixes(), idx);
}

/// Where no suffix of `list` ends `s`, there is no first one.
proof fn lemma_first_suffix_none(s: Seq<char>, list: Seq<Seq<char>>)
    requires
        forall|i: int| 0 <= i < list.len() ==> !ends_with(s, #[trigger] list[i]),
    ensures
        first_suffix(s, list) is None,
    decreases list.len(),
{
    if list.len() > 0 {
        assert(!ends_with(s, list[0]));
        assert forall|i: int| 0 <= i < list.drop_first().len() implies !ends_with(s, #[trigger] list.drop_first()[i]) by {
            assert(list.drop_first()[i] == list[i + 1]);
        }
        lemma_first_suffix_none(s, list.drop_first());
    }
}

/// A base URL that endpoint URLs are built on: without a Gemini `:generateContent`
/// marker and without a trailing slash.
pub open spec fn plain_base(b: Seq<char>) -> bool {
    &&& find(b, ":generateContent"@) is None
    &&& !(b.len() > 0 && b.last() == '/')
}

/// A model name that can stand in a Gemini endpoint URL and be found again: without `/`
/// and without the `:generateContent` marker (other colons, as in `llama3:8b`, are fine).
pub open spec fn endpoint_model(m: Seq<char>) -> bool {
    &&& forall|i: int| 0 <= i < m.len() ==> #[trigger] m[i] != '/'
    &&& find(m, ":generateContent"@) is None
}

/// A URL scheme that API URLs use.
pub open spec fn web_scheme(s: Seq<char>) -> bool {
    s == "http"@ || s == "https"@
}

/// A path segment that some known suffix consists of alone.
pub open spec fn suffix_segment(a: Seq<char>) -> bool {
    a == "v1"@ || a == "v1beta"@ || a == "completion"@
}

/// An authority (host and port) that stands alone after `scheme://`: not empty, without
/// `/`, without the Gemini marker, and not a segment that a known suffix consists of.
pub open spec fn bare_authority(a: Seq<char>) -> bool {
    &&& a.len() > 0
    &&& forall|i: int| 0 <= i < a.len() ==> #[trigger] a[i] != '/'
    &&& find(a, ":generateContent"@) is None
    &&& !suffix_segment(a)
}

/// A path that no `scheme://authority` with a bare authority ends with: a `/`, a
/// character other than `/`, and then a second `/` or nothing but a suffix segment.
pub open spec fn suffix_shape(y: Seq<char>) -> bool {
    &&& y.len() >= 2
    &&& y[0] == '/'
    &&& y[1] != '/'
    &&& (exists|k: int| 1 <= k < y.len() && #[trigger] y[k] == '/') || suffix_segment(y.drop_first())
}

/// The known suffixes whose path is a single segment, with or without a trailing slash.
proof fn lemma_single_segment_suffixes()
    ensures
        "/completion"@.drop_first() == "completion"@,
        "/completion/"@.drop_last().drop_first() == "completion"@,
        "/v1"@.drop_first() == "v1"@,
        "/v1/"@.drop_last().drop_first() == "v1"@,
        "/v1beta"@.drop_first() == "v1beta"@,
        "/v1beta/"@.drop_last().drop_first() == "v1beta"@,
{
    reveal_strlit("/completion");
    reveal_strlit("/completion/");
    reveal_strlit("/v1");
    reveal_strlit("/v1/");
    reveal_strlit("/v1beta");
    reveal_strlit("/v1beta/");
    reveal_strlit("completion");
    reveal_strlit("v1");
    reveal_strlit("v1beta");
    assert("/completion"@.len() == 11);
    assert("/completion/"@.len() == 12);
    assert("/v1"@.len() == 3);
    assert("/v1/"@.len() == 4);
    assert("/v1beta"@.len() == 7);
    assert("/v1beta/"@.len() == 8);
    assert("completion"@.len() == 10);
    assert("v1"@.len() == 2);
    assert("v1beta"@.len() == 6);
    assert("/completion"@.drop_first().len() == 10);
    assert forall|k: int| 0 <= k < 10 implies "/completion"@.drop_first()[k] == "completion"@[k] by {
        if k == 0 {} else if k == 1 {} else if k == 2 {} else if k == 3 {} else if k == 4 {} else if k == 5 {} else if k == 6 {} else if k == 7 {} else if k == 8 {} else if k == 9 {}
    }
    assert("/completion"@.drop_first() =~= "completion"@);
    assert("/completion/"@.drop_last().drop_first().len() == 10);
    assert forall|k: int| 0 <= k < 10 implies "/completion/"@.drop_last().drop_first()[k] == "completion"@[k] by {
        if k == 0 {} else if k == 1 {} else if k == 2 {} else if k == 3 {} else if k == 4 {} else if k == 5 {} else if k == 6 {} else if k == 7 {} else if k == 8 {} else if k == 9 {}
    }
    assert("/completion/"@.drop_last().drop_first() =~= "completion"@);
    assert("/v1"@.drop_first().len() == 2);
    assert forall|k: int| 0 <= k < 2 implies "/v1"@.drop_first()[k] == "v1"@[k] by {
        if k == 0 {} else if k == 1 {}
    }
    assert("/v1"@.drop_first() =~= "v1"@);
    assert("/v1/"@.drop_last().drop_first().len() == 2);
    assert forall|k: int| 0 <= k < 2 implies "/v1/"@.drop_last().drop_first()[k] == "v1"@[k] by {
        if k == 0 {} else if k == 1 {}
    }
    assert("/v1/"@.drop_last().drop_first() =~= "v1"@);
    assert("/v1beta"@.drop_first().len() == 6);
    assert forall|k: int| 0 <= k < 6 implies "/v1beta"@.drop_first()[k] == "v1beta"@[k] by {
        if k == 0 {} else if k == 1 {} else if k == 2 {} else if k == 3 {} else if k == 4 {} else if k == 5 {}
    }
    assert("/v1beta"@.drop_first() =~= "v1beta"@);
    assert("/v1beta/"@.drop_last().drop_first().len() == 6);
    assert forall|k: int| 0 <= k < 6 implies "/v1beta/"@.drop_last().drop_first()[k] == "v1beta"@[k] by {
        if k == 0 {} else if k == 1 {} else if k == 2 {} else if k == 3 {} else if k == 4 {} else if k == 5 {}
    }
    assert("/v1beta/"@.drop_last().drop_first() =~= "v1beta"@);
}

/// Every known suffix, taken without its trailing slash where it has one, is a path
/// that a URL with a bare authority cannot end with.
proof fn lemma_suffix_shapes()
    ensures
        suffix_shape("/api/generate"@),
        suffix_shape("/api/generate/"@.drop_last()),
        suffix_shape("/v1/chat/completions"@),
        suffix_shape("/v1/chat/completions/"@.drop_last()),
        suffix_shape("/v1/completions"@),
        suffix_shape("/v1/completions/"@.drop_last()),
        suffix_shape("/completion"@),
        suffix_shape("/completion/"@.drop_last()),
        suffix_shape("/v1/messages"@),
        suffix_shape("/v1/messages/"@.drop_last()),
        suffix_shape("/v1"@),
        suffix_shape("/v1/"@.drop_last()),
        suffix_shape("/v1beta"@),
        suffix_shape("/v1beta/"@.drop_last()),
{
    reveal_suffixes();
    lemma_single_segment_suffixes();
    assert("/api/generate"@[4] == '/');
    assert(suffix_shape("/api/generate"@));
    assert("/api/generate/"@.drop_last()[4] == '/');
    assert(suffix_shape("/api/generate/"@.drop_last()));
    assert("/v1/chat/completions"@[3] == '/');
    assert(suffix_shape("/v1/chat/completions"@));
    assert("/v1/chat/completions/"@.drop_last()[3] == '/');
    assert(suffix_shape("/v1/chat/completions/"@.drop_last()));
    assert("/v1/completions"@[3] == '/');
    assert(suffix_shape("/v1/completions"@));
    assert("/v1/completions/"@.drop_last()[3] == '/');
    assert(suffix_shape("/v1/completions/"@.drop_last()));
    assert(suffix_shape("/completion"@));
    assert(suffix_shape("/completion/"@.drop_last()));
    assert("/v1/messages"@[3] == '/');
    assert(suffix_shape("/v1/messages"@));
    assert("/v1/messages/"@.drop_last()[3] == '/');
    assert(suffix_shape("/v1/messages/"@.drop_last()));
    assert(suffix_shape("/v1"@));
    assert(suffix_shape("/v1/"@.drop_last()));
    assert(suffix_shape("/v1beta"@));
    assert(suffix_shape("/v1beta/"@.drop_last()));
}

proof fn lemma_literal_facts()
    ensures
        ":generateContent"@.len() == 16,
        ":generateContent"@[0] == ':',
        ":generateContent"@[1] == 'g',
        forall|k: int| 0 <= k < 16 ==> ":generateContent"@[k] != '/',
        forall|k: int| 1 <= k < 16 ==> ":generateContent"@[k] != ':',
        "/v1beta/models/"@.len() == 15,
        forall|k: int| 0 <= k < 15 ==> "/v1beta/models/"@[k] != ':',
        "/v1beta/models/"@[0] == '/',
        "/v1beta/models/"@.subrange(8, 15) == "models/"@,
        "/v1beta/models/"@.take(8) == "/v1beta/"@,
        "models/"@.len() == 7,
        "models/"@[6] == '/',
        "/v1/chat/completions"@.len() == 20,
        forall|k: int| 0 <= k < 20 ==> "/v1/chat/completions"@[k] != ':',
        "://"@.len() == 3,
        "://"@[0] == ':' && "://"@[1] == '/' && "://"@[2] == '/',
        "/"@.len() == 1,
        "/"@[0] == '/',
{
    reveal_strlit(":generateContent");
    reveal_strlit("/v1beta/models/");
    reveal_strlit("models/");
    reveal_strlit("/v1beta/");
    reveal_strlit("/v1/chat/completions");
    reveal_strlit("://");
    reveal_strlit("/");
    assert(":generateContent"@.len() == 16);
    assert("/v1beta/models/"@.len() == 15);
    assert("models/"@.len() == 7);
    assert("/v1beta/"@.len() == 8);
    assert("/v1/chat/completions"@.len() == 20);
    assert("://"@.len() == 3);
    assert("/"@.len() == 1);
    assert forall|k: int| 0 <= k < 16 implies ":generateContent"@[k] != '/' && (k >= 1 ==> ":generateContent"@[k] != ':') by {
        if k == 0 {} else if k == 1 {} else if k == 2 {} else if k == 3 {} else if k == 4 {} else if k == 5 {} else if k == 6 {} else if k == 7 {} else if k == 8 {} else if k == 9 {} else if k == 10 {} else if k == 11 {} else if k == 12 {} else if k == 13 {} else if k == 14 {} else if k == 15 {}
    }
    assert forall|k: int| 0 <= k < 15 implies "/v1beta/models/"@[k] != ':' by {
        if k == 0 {} else if k == 1 {} else if k == 2 {} else if k == 3 {} else if k == 4 {} else if k == 5 {} else if k == 6 {} else if k == 7 {} else if k == 8 {} else if k == 9 {} else if k == 10 {} else if k == 11 {} else if k == 12 {} else if k == 13 {} else if k == 14 {}
    }
    assert forall|k: int| 0 <= k < 20 implies "/v1/chat/completions"@[k] != ':' by {
        if k == 0 {} else if k == 1 {} else if k == 2 {} else if k == 3 {} else if k == 4 {} else if k == 5 {} else if k == 6 {} else if k == 7 {} else if k == 8 {} else if k == 9 {} else if k == 10 {} else if k == 11 {} else if k == 12 {} else if k == 13 {} else if k == 14 {} else if k == 15 {} else if k == 16 {} else if k == 17 {} else if k == 18 {} else if k == 19 {}
    }
    assert forall|k: int| 0 <= k < 7 implies "/v1beta/models/"@.subrange(8, 15)[k] == "models/"@[k] by {
        if k == 0 {} else if k == 1 {} else if k == 2 {} else if k == 3 {} else if k == 4 {} else if k == 5 {} else if k == 6 {}
    }
    assert("/v1beta/models/"@.subrange(8, 15) =~= "models/"@);
    assert forall|k: int| 0 <= k < 8 implies "/v1beta/models/"@.take(8)[k] == "/v1beta/"@[k] by {
        if k == 0 {} else if k == 1 {} else if k == 2 {} else if k == 3 {} else if k == 4 {} else if k == 5 {} else if k == 6 {} else if k == 7 {}
    }
    assert("/v1beta/models/"@.take(8) =~= "/v1beta/"@);
}

/// The first character of each known suffix is `/`, and no `:` stands early enough in
/// it to begin a `:generateContent` marker.
proof fn lemma_suffix_start(idx: int)
    requires
        0 <= idx < 14,
    ensures
        known_suffixes()[idx].len() >= 3,
        known_suffixes()[idx][0] == '/',
        forall|j: int| 0 <= j && j + 16 <= known_suffixes()[idx].len() ==> known_suffixes()[idx][j] != ':',
{
    reveal_suffixes();
    lemma_literal_facts();
    let sfx = known_suffixes()[idx];
    if idx == 3 {
        assert forall|j: int| 0 <= j && j + 16 <= sfx.len() implies sfx[j] != ':' by {
            if j == 0 {} else if j == 1 {} else if j == 2 {} else if j == 3 {} else if j == 4 {} else if j == 5 {}
        }
    } else if idx == 5 {
        assert forall|j: int| 0 <= j && j + 16 <= sfx.len() implies sfx[j] != ':' by {
            assert(j == 0);
        }
    } else if idx == 2 {
    } else {
        assert(sfx.len() < 16) by {
            if idx == 0 {} else if idx == 1 {} else if idx == 4 {} else if idx == 6 {} else if idx == 7 {}
            else if idx == 8 {} else if idx == 9 {} else if idx == 10 {} else if idx == 11 {} else if idx == 12 {}
            else {}
        }
    }
    assert(sfx[0] == '/' && sfx.len() >= 3) by {
        if idx == 0 {} else if idx == 1 {} else if idx == 2 {} else if idx == 3 {} else if idx == 4 {} else if idx == 5 {}
        else if idx == 6 {} else if idx == 7 {} else if idx == 8 {} else if idx == 9 {} else if idx == 10 {}
        else if idx == 11 {} else if idx == 12 {} else {}
    }
}

/// No `:generateContent` marker begins in `b` and runs on into `t` where `t` starts
/// with `/`, nor begins in `t` where `t` has no `:` early enough.
proof fn lemma_no_marker(b: Seq<char>, t: Seq<char>)
    requires
        find(b, ":generateContent"@) is None,
        t.len() > 0,
        t[0] == '/',
        forall|j: int| 0 <= j && j + 16 <= t.len() ==> t[j] != ':',
    ensures
        find(b + t, ":generateContent"@) is None,
{
    lemma_literal_facts();
    let P = ":generateContent"@;
    let u = b + t;
    crate::text::lemma_find_from_none_inv(b, P, 0);
    assert forall|j: int| 0 <= j <= u.len() implies !occurs_at(u, P, j) by {
        if occurs_at(u, P, j) {
            if j + 16 <= b.len() {
                crate::text::lemma_occurs_in_prefix(b, t, P, j);
            } else if j < b.len() {
                assert(u.subrange(j, j + 16)[b.len() - j] == u[b.len() as int]);
                assert(P[b.len() - j] == '/');
            } else {
                assert(u.subrange(j, j + 16)[0] == u[j]);
                assert(u[j] == t[j - b.len()]);
            }
        }
    }
    crate::text::lemma_find_from_none(u, P, 0);
}

/// The base of a URL built from a plain base and a known suffix is that base.
proof fn lemma_base_of_suffixed(b: Seq<char>, idx: int)
    requires
        plain_base(b),
        0 <= idx < 14,
    ensures
        base_url_of(b + known_suffixes()[idx]) == b,
{
    let sfx = known_suffixes()[idx];
    let u = b + sfx;
    lemma_suffix_start(idx);
    lemma_no_marker(b, sfx);
    assert(strip_generate_content(u) == u);
    assert(u.subrange(u.len() - sfx.len(), u.len() as int) =~= sfx);
    lemma_suffix_first(u, idx);
    assert(u.take(u.len() - sfx.len()) =~= b);
}

/// The base of a Gemini endpoint URL is the base it was built on.
proof fn lemma_base_of_gemini(b: Seq<char>, m: Seq<char>)
    requires
        plain_base(b),
        endpoint_model(m),
    ensures
        base_url_of(b + "/v1beta/models/"@ + m + ":generateContent"@) == b,
{
    lemma_literal_facts();
    reveal_suffixes();
    let P = ":generateContent"@;
    let G = "/v1beta/models/"@;
    let Q = "models/"@;
    let t = b + G + m;
    let u = t + P;
    let k: int = (b.len() + 15 + m.len()) as int;
    crate::text::lemma_find_from_none_inv(b, P, 0);
    crate::text::lemma_find_from_none_inv(m, P, 0);
    assert(u.subrange(k, k + 16) =~= P);
    assert forall|j: int| 0 <= j < k implies !occurs_at(u, P, j) by {
        if occurs_at(u, P, j) {
            if j + 16 <= b.len() {
                assert(u =~= b + (G + m + P));
                crate::text::lemma_occurs_in_prefix(b, G + m + P, P, j);
            } else if j < b.len() {
                assert(u.subrange(j, j + 16)[b.len() - j] == u[b.len() as int]);
                assert(u[b.len() as int] == G[0]);
            } else if j < b.len() + 15 {
                assert(u.subrange(j, j + 16)[0] == u[j]);
                assert(u[j] == G[j - b.len()]);
            } else if j + 16 <= k {
                crate::text::lemma_occurs_in_prefix(t, P, P, j);
                assert(t =~= (b + G) + m);
                crate::text::lemma_occurs_in_suffix(b + G, m, P, j);
            } else {
                assert(u.subrange(j, j + 16)[k - j] == u[k]);
                assert(u[k] == P[0]);
            }
        }
    }
    crate::text::lemma_find_from_at(u, P, 0, k);
    assert(u.take(k) =~= t);
    let r: int = (b.len() + 8) as int;
    assert(t.subrange(r, r + 7) =~= G.subrange(8, 15));
    assert forall|j: int| r < j <= t.len() implies !occurs_at(t, Q, j) by {
        if occurs_at(t, Q, j) {
            assert(t.subrange(j, j + 7)[6] == t[j + 6]);
            assert(t[j + 6] == m[j + 6 - b.len() - 15]);
        }
    }
    crate::text::lemma_rfind_from_at(t, Q, t.len() as int, r);
    let s = t.take(r);
    assert(s =~= b + "/v1beta/"@);
    assert(s.subrange(s.len() - 8, s.len() as int) =~= "/v1beta/"@);
    lemma_suffix_first(s, 13);
    assert(s.take(s.len() - 8) =~= b);
}

/// Configuring the full endpoint URL in place of its base gives the same endpoint:
/// `base_url` finds the base again in every single-prompt endpoint built on a plain
/// base (for Gemini, with a model that can stand in its URL), and in every chat
/// endpoint but Ollama's `/api/chat`, which is no known suffix.
pub proof fn lemma_base_url_recovers_base(p: Provider, b: Seq<char>, m: Seq<char>)
    requires
        plain_base(b),
        p == Provider::Gemini ==> endpoint_model(m),
    ensures
        base_url_of(generate_url_of(p, b, m)) == b,
        p != Provider::Ollama ==> base_url_of(chat_url_of(p, b, m)) == b,
        generate_url_of(p, base_url_of(generate_url_of(p, b, m)), m) == generate_url_of(p, b, m),
{
    reveal_suffixes();
    match p {
        Provider::Ollama => {
            lemma_base_of_suffixed(b, 0);
        },
        Provider::OpenAI => {
            lemma_base_of_suffixed(b, 2);
        },
        Provider::Llamacpp => {
            lemma_base_of_suffixed(b, 6);
            lemma_base_of_suffixed(b, 2);
        },
        Provider::Anthropic => {
            lemma_base_of_suffixed(b, 8);
        },
        Provider::Gemini => {
            lemma_base_of_gemini(b, m);
        },
    }
}

/// The characters of a web scheme are letters.
proof fn lemma_scheme_chars(s: Seq<char>)
    requires
        web_scheme(s),
    ensures
        forall|k: int| 0 <= k < s.len() ==> #[trigger] s[k] != '/' && s[k] != ':',
{
    reveal_strlit("http");
    reveal_strlit("https");
    assert("http"@.len() == 4);
    assert("https"@.len() == 5);
    assert forall|k: int| 0 <= k < s.len() implies #[trigger] s[k] != '/' && s[k] != ':' by {
        if k == 0 {} else if k == 1 {} else if k == 2 {} else if k == 3 {} else {}
    }
}

/// A URL `scheme://authority` with a bare authority ends with no path of suffix shape.
proof fn lemma_bare_not_ends(s: Seq<char>, a: Seq<char>, y: Seq<char>)
    requires
        web_scheme(s),
        bare_authority(a),
        suffix_shape(y),
    ensures
        !ends_with(s + "://"@ + a, y),
{
    lemma_scheme_chars(s);
    lemma_literal_facts();
    let b = s + "://"@ + a;
    if ends_with(b, y) {
        let n = y.len();
        let q = b.len() - n;
        let w = b.subrange(q, b.len() as int);
        assert(w[0] == b[q]);
        assert(w[1] == b[q + 1]);
        if q >= s.len() + 3 {
            assert(b[q] == a[q - s.len() - 3]);
        } else if q == s.len() + 2 {
            if exists|k: int| 1 <= k < y.len() && #[trigger] y[k] == '/' {
                let k = choose|k: int| 1 <= k < y.len() && #[trigger] y[k] == '/';
                assert(w[k] == b[q + k]);
                assert(b[q + k] == a[k - 1]);
            } else {
                assert forall|k: int| 0 <= k < a.len() implies y.drop_first()[k] == a[k] by {
                    assert(w[k + 1] == b[q + k + 1]);
                }
                assert(y.drop_first() =~= a);
            }
        } else if q == s.len() + 1 {
            assert(b[q + 1] == '/');
        } else if q == s.len() {
            assert(b[q] == ':');
        } else {
            assert(b[q] == s[q]);
        }
    }
}

/// What `base_url` reads of `scheme://authority` with a bare authority: no marker, the
/// authority begins after the first `://`, and the last `/` is the one before it.
proof fn lemma_bare_facts(s: Seq<char>, a: Seq<char>)
    requires
        web_scheme(s),
        bare_authority(a),
    ensures
        plain_base(s + "://"@ + a),
        find(s + "://"@ + a, "://"@) == Some(s.len() as int),
        rfind(s + "://"@ + a, seq!['/']) == Some(s.len() + 2 as int),
{
    lemma_scheme_chars(s);
    lemma_literal_facts();
    let P = ":generateContent"@;
    let C = "://"@;
    let b = s + C + a;
    let h = s + C;
    crate::text::lemma_find_from_none_inv(a, P, 0);
    assert forall|j: int| 0 <= j <= b.len() implies !occurs_at(b, P, j) by {
        if occurs_at(b, P, j) {
            assert(b.subrange(j, j + 16)[0] == b[j]);
            assert(b.subrange(j, j + 16)[1] == b[j + 1]);
            if j >= h.len() {
                assert(b =~= h + a);
                crate::text::lemma_occurs_in_suffix(h, a, P, j);
            } else if j == s.len() {
                assert(b[j + 1] == '/');
            } else if j < s.len() {
                assert(b[j] == s[j]);
            } else {
                assert(b[j] == C[j - s.len()]);
            }
        }
    }
    crate::text::lemma_find_from_none(b, P, 0);
    assert(b.last() == a.last());
    let sl: int = s.len() as int;
    assert(b.subrange(sl, sl + 3) =~= C);
    assert forall|j: int| 0 <= j < s.len() implies !occurs_at(b, C, j) by {
        if occurs_at(b, C, j) {
            assert(b.subrange(j, j + 3)[0] == b[j]);
            assert(b[j] == s[j]);
        }
    }
    crate::text::lemma_find_from_at(b, C, 0, s.len() as int);
    assert(b.subrange(sl + 2, sl + 3) =~= seq!['/']);
    assert forall|j: int| s.len() + 2 < j <= b.len() implies !occurs_at(b, seq!['/'], j) by {
        if occurs_at(b, seq!['/'], j) {
            assert(b.subrange(j, j + 1)[0] == b[j]);
            assert(b[j] == a[j - s.len() - 3]);
        }
    }
    crate::text::lemma_rfind_from_at(b, seq!['/'], b.len() as int, sl + 2);
}

/// A string that ends with `x` ends with the last character of `x`.
proof fn lemma_ends_last(u: Seq<char>, x: Seq<char>)
    requires
        ends_with(u, x),
        x.len() > 0,
    ensures
        u.last() == x.last(),
{
    assert(u.subrange(u.len() - x.len(), u.len() as int)[x.len() - 1] == u.last());
}

/// `base_url` keeps a bare `scheme://authority`, with or without a trailing slash, and
/// strips every known endpoint suffix from it; so a full endpoint URL built on such a
/// base, given back as the API URL, builds the same endpoint again.
pub proof fn lemma_base_url_keeps_bare_base(s: Seq<char>, a: Seq<char>)
    requires
        web_scheme(s),
        bare_authority(a),
    ensures
        plain_base(s + "://"@ + a),
        base_url_of(s + "://"@ + a) == s + "://"@ + a,
        base_url_of(s + "://"@ + a + "/"@) == s + "://"@ + a,
        forall|i: int| 0 <= i < known_suffixes().len()
            ==> base_url_of(s + "://"@ + a + #[trigger] known_suffixes()[i]) == s + "://"@ + a,
        forall|p: Provider, m: Seq<char>| (p == Provider::Gemini ==> endpoint_model(m))
            ==> #[trigger] generate_url_of(p, base_url_of(generate_url_of(p, s + "://"@ + a, m)), m)
                == generate_url_of(p, s + "://"@ + a, m),
{
    let b = s + "://"@ + a;
    lemma_bare_facts(s, a);
    lemma_literal_facts();
    reveal_suffixes();
    lemma_suffix_shapes();
    let K = known_suffixes();
    // The base itself.
    assert forall|i: int| 0 <= i < K.len() implies !ends_with(b, #[trigger] K[i]) by {
        if ends_with(b, K[i]) {
            lemma_ends_last(b, K[i]);
            if i == 0 || i == 2 || i == 4 || i == 6 || i == 8 || i == 10 || i == 12 {
                lemma_bare_not_ends(s, a, K[i]);
            }
        }
    }
    lemma_first_suffix_none(b, K);
    assert(strip_generate_content(b) == b);
    assert(trim_end_by(b, CharClass::Exactly('/')) == b);
    assert(authority_start(b) == s.len() + 3);
    assert(base_url_of(b) == b);
    // The base with a trailing slash.
    let bs = b + "/"@;
    lemma_no_marker(b, "/"@);
    assert forall|i: int| 0 <= i < K.len() implies !ends_with(bs, #[trigger] K[i]) by {
        if ends_with(bs, K[i]) {
            lemma_ends_last(bs, K[i]);
            assert(bs.last() == '/');
            if i == 1 || i == 3 || i == 5 || i == 7 || i == 9 || i == 11 || i == 13 {
                let y = K[i].drop_last();
                assert(bs.subrange(bs.len() - K[i].len(), bs.len() as int).drop_last()
                    =~= b.subrange(b.len() - y.len(), b.len() as int));
                lemma_bare_not_ends(s, a, y);
            }
        }
    }
    lemma_first_suffix_none(bs, K);
    assert(strip_generate_content(bs) == bs);
    assert(bs.drop_last() =~= b);
    assert(trim_end_by(bs, CharClass::Exactly('/')) == b);
    assert(base_url_of(bs) == b);
    // The base with a known suffix.
    assert forall|i: int| 0 <= i < K.len() implies base_url_of(b + #[trigger] K[i]) == b by {
        lemma_base_of_suffixed(b, i);
    }
    assert forall|p: Provider, m: Seq<char>| (p == Provider::Gemini ==> endpoint_model(m))
        implies #[trigger] generate_url_of(p, base_url_of(generate_url_of(p, b, m)), m)
            == generate_url_of(p, b, m) by {
        lemma_base_url_recovers_base(p, b, m);
    }
}

/// The endpoint paths of each provider on a base: Ollama's `/api/generate` and
/// `/api/chat`; the OpenAI-style `/v1/chat/completions`; llama.cpp's native
/// `/completion` for single prompts, a different endpoint from the OpenAI-style one its
/// chat requests use; Anthropic's `/v1/messages`; Gemini's `generateContent` of the model.
pub proof fn lemma_endpoint_paths(b: Seq<char>, m: Seq<char>)
    ensures
        generate_url_of(Provider::Ollama, b, m) == b + "/api/generate"@,
        chat_url_of(Provider::Ollama, b, m) == b + "/api/chat"@,
        generate_url_of(Provider::OpenAI, b, m) == b + "/v1/chat/completions"@,
        chat_url_of(Provider::OpenAI, b, m) == b + "/v1/chat/completions"@,
        generate_url_of(Provider::Llamacpp, b, m) == b + "/completion"@,
        chat_url_of(Provider::Llamacpp, b, m) == b + "/v1/chat/completions"@,
        generate_url_of(Provider::Llamacpp, b, m) != chat_url_of(Provider::Llamacpp, b, m),
        generate_url_of(Provider::Ollama, b, m) != chat_url_of(Provider::Ollama, b, m),
        generate_url_of(Provider::Anthropic, b, m) == b + "/v1/messages"@,
        chat_url_of(Provider::Anthropic, b, m) == b + "/v1/messages"@,
        generate_url_of(Provider::Gemini, b, m) == b + "/v1beta/models/"@ + m + ":generateContent"@,
        chat_url_of(Provider::Gemini, b, m) == b + "/v1beta/models/"@ + m + ":generateContent"@,
{
    reveal_suffixes();
    reveal_strlit("/api/chat");
    assert("/api/chat"@.len() == 9);
    assert((b + "/completion"@).len() != (b + "/v1/chat/completions"@).len());
    assert((b + "/api/generate"@).len() != (b + "/api/chat"@).len());
}

proof fn reveal_response_keys()
    ensures
        "message"@ != "eval_count"@,
        "message"@ != "response"@,
        "response"@ != "eval_count"@,
        "role"@ != "content"@,
        "choices"@ != "usage"@,
        "content"@ != "timings"@,
        "content"@ != "choices"@,
        "content"@ != "usage"@,
        "type"@ != "text"@,
        "input_tokens"@ != "output_tokens"@,
        "candidates"@ != "usageMetadata"@,
{
    reveal_strlit("message");
    reveal_strlit("eval_count");
    reveal_strlit("response");
    reveal_strlit("role");
    reveal_strlit("content");
    reveal_strlit("choices");
    reveal_strlit("usage");
    reveal_strlit("timings");
    reveal_strlit("type");
    reveal_strlit("text");
    reveal_strlit("input_tokens");
    reveal_strlit("output_tokens");
    reveal_strlit("candidates");
    reveal_strlit("usageMetadata");
    assert("message"@.len() == 7);
    assert("eval_count"@.len() == 10);
    assert("response"@.len() == 8);
    assert("role"@.len() == 4);
    assert("content"@.len() == 7);
    assert("choices"@.len() == 7);
    assert("usage"@.len() == 5);
    assert("timings"@.len() == 7);
    assert("type"@.len() == 4);
    assert("text"@.len() == 4);
    assert("input_tokens"@.len() == 12);
    assert("output_tokens"@.len() == 13);
    assert("candidates"@.len() == 10);
    assert("usageMetadata"@.len() == 13);
    assert("content"@[0] != "timings"@[0]);
    assert("content"@[1] != "choices"@[1]);
    assert("type"@[1] != "text"@[1]);
}

/// A count as a JSON number.
pub open spec fn count_v(n: u64) -> JsonV {
    JsonV::Number(JsonNumber::PosInt(n))
}

/// An OpenAI-style chat reply whose first choice says `text`.
pub open spec fn chat_reply_v(text: Seq<char>) -> JsonV {
    JsonV::Array(seq![JsonV::Object(seq![(
        "message"@,
        JsonV::Object(seq![("role"@, JsonV::Str("assistant"@)), ("content"@, JsonV::Str(text))]),
    )])])
}

/// What a reply says is read where each provider's API puts it, trimmed, and the token
/// count where the API reports it: Ollama's `message.content` (or `response`) and
/// `eval_count`; the OpenAI-style `choices[0].message.content` and `usage.total_tokens`;
/// llama.cpp's native `content` and `timings.predicted_n`, or its OpenAI-style reply;
/// Anthropic's `content[0].text` and the sum of its input and output tokens; Gemini's
/// `candidates[0].content.parts[0].text` and `usageMetadata.totalTokenCount`.
pub proof fn lemma_response_fields(text: Seq<char>, n: u64, m: u64)
    ensures
        response_text(Provider::Ollama, JsonV::Object(seq![
            ("message"@, JsonV::Object(seq![("role"@, JsonV::Str("assistant"@)), ("content"@, JsonV::Str(text))])),
            ("eval_count"@, count_v(n)),
        ])) == trim(text),
        response_tokens(Provider::Ollama, JsonV::Object(seq![
            ("message"@, JsonV::Object(seq![("role"@, JsonV::Str("assistant"@)), ("content"@, JsonV::Str(text))])),
            ("eval_count"@, count_v(n)),
        ])) == decimal(n as nat),
        response_text(Provider::Ollama, JsonV::Object(seq![("response"@, JsonV::Str(text)), ("eval_count"@, count_v(n))]))
            == trim(text),
        response_tokens(Provider::Ollama, JsonV::Object(seq![("response"@, JsonV::Str(text)), ("eval_count"@, count_v(n))]))
            == decimal(n as nat),
        response_text(Provider::OpenAI, JsonV::Object(seq![
            ("choices"@, chat_reply_v(text)),
            ("usage"@, JsonV::Object(seq![("total_tokens"@, count_v(n))])),
        ])) == trim(text),
        response_tokens(Provider::OpenAI, JsonV::Object(seq![
            ("choices"@, chat_reply_v(text)),
            ("usage"@, JsonV::Object(seq![("total_tokens"@, count_v(n))])),
        ])) == decimal(n as nat),
        response_text(Provider::Llamacpp, JsonV::Object(seq![
            ("content"@, JsonV::Str(text)),
            ("timings"@, JsonV::Object(seq![("predicted_n"@, count_v(n))])),
        ])) == trim(text),
        response_tokens(Provider::Llamacpp, JsonV::Object(seq![
            ("content"@, JsonV::Str(text)),
            ("timings"@, JsonV::Object(seq![("predicted_n"@, count_v(n))])),
        ])) == decimal(n as nat),
        response_text(Provider::Llamacpp, JsonV::Object(seq![("choices"@, chat_reply_v(text))])) == trim(text),
        response_text(Provider::Anthropic, JsonV::Object(seq![
            ("content"@, JsonV::Array(seq![JsonV::Object(seq![("type"@, JsonV::Str("text"@)), ("text"@, JsonV::Str(text))])])),
            ("usage"@, JsonV::Object(seq![("input_tokens"@, count_v(n)), ("output_tokens"@, count_v(m))])),
        ])) == trim(text),
        response_tokens(Provider::Anthropic, JsonV::Object(seq![
            ("content"@, JsonV::Array(seq![JsonV::Object(seq![("type"@, JsonV::Str("text"@)), ("text"@, JsonV::Str(text))])])),
            ("usage"@, JsonV::Object(seq![("input_tokens"@, count_v(n)), ("output_tokens"@, count_v(m))])),
        ])) == decimal(n as nat + m as nat),
        response_text(Provider::Gemini, JsonV::Object(seq![
            ("candidates"@, JsonV::Array(seq![JsonV::Object(seq![(
                "content"@,
                JsonV::Object(seq![("parts"@, JsonV::Array(seq![JsonV::Object(seq![("text"@, JsonV::Str(text))])]))]),
            )])])),
            ("usageMetadata"@, JsonV::Object(seq![("totalTokenCount"@, count_v(n))])),
        ])) == trim(text),
        response_tokens(Provider::Gemini, JsonV::Object(seq![
            ("candidates"@, JsonV::Array(seq![JsonV::Object(seq![(
                "content"@,
                JsonV::Object(seq![("parts"@, JsonV::Array(seq![JsonV::Object(seq![("text"@, JsonV::Str(text))])]))]),
            )])])),
            ("usageMetadata"@, JsonV::Object(seq![("totalTokenCount"@, count_v(n))])),
        ])) == decimal(n as nat),
{
    reveal_response_keys();
    reveal_with_fuel(crate::json::assoc, 3);
}

} // verus!
