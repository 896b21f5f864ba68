//! The decisions taken while one note is generated: which requests go out, what a
//! reply means, and where the note is written. The caller performs the requests and
//! the file work and hands each result back.
use vstd::prelude::*;
use crate::body::{
    chat_body_of, generate_body_of, lemma_chat_body_carries_messages, lemma_generate_body_carries_inputs,
    message_json, message_v, s_v,
};
use crate::config::{Log, Platform, Settings, join_path, join_path_exec, needs_api_key, opt_str_v, shown};
use crate::json::{Json, JsonV, get_v, values_of};
use crate::note::{
    max_tokens_for, max_tokens_of, parse_hint, parse_hint_of, sanitize_filename, sanitized,
};
use crate::prompt::{
    chat_messages, covered_instruction, covered_instruction_of, hint_instruction,
    hint_instruction_of, note_prompt, note_prompt_of, skill_preamble, skill_preamble_of,
    skill_system, skill_system_of, stage1_system, stage1_system_of, stage2_prompt,
    stage2_prompt_of, stage2_system, stage2_system_of, status_line, status_line_of,
};
use crate::provider::{
    Provider, anthropic_tokens, base_url_of, chat_url_of, generate_url_of, response_text,
    response_tokens,
};
use crate::text::{decimal, decimal_string};

verus! {

/// Everything that the generation of each note reads.
pub struct Run {
    pub provider: Provider,
    pub api_key: String,
    pub settings: Settings,
    pub skill: Option<String>,
    /// The style examples, framed, one after the other.
    pub examples: String,
    /// The topics of the notes already written, sorted.
    pub covered_topics: Vec<String>,
    /// How many style examples were read.
    pub note_count: u32,
    /// The system prompt of a single-prompt request.
    pub skill_system: Option<String>,
    /// The skill rules as a preamble of a user prompt.
    pub skill_preamble: String,
}

impl Run {
    /// The state of a run, with the skill rules prepared for the prompts.
    pub fn new(
        provider: Provider,
        api_key: String,
        settings: Settings,
        skill: Option<String>,
        examples: String,
        covered_topics: Vec<String>,
        note_count: u32,
    ) -> (res: Run)
        ensures
            res.provider == provider,
            res.api_key == api_key,
            res.settings == settings,
            res.skill == skill,
            res.examples == examples,
            res.covered_topics == covered_topics,
            res.note_count == note_count,
            opt_str_v(res.skill_system) == skill_system_of(provider, opt_str_v(skill)),
            res.skill_preamble@ == skill_preamble_of(opt_str_v(skill)),
    {
        let sys = skill_system(provider, &skill);
        let pre = skill_preamble(&skill);
        Run {
            provider,
            api_key,
            settings,
            skill,
            examples,
            covered_topics,
            note_count,
            skill_system: sys,
            skill_preamble: pre,
        }
    }
}

/// A request to send: where, and with what body.
pub struct Request {
    pub url: String,
    pub body: Json,
}

/// One note in the making: its topic and the lines that its prompts add.
pub struct TopicJob {
    /// The topic without its hint.
    pub topic: String,
    /// The line that passes the hint on, or nothing.
    pub hint_line: String,
    /// The line that names the covered topics, or nothing.
    pub covered_line: String,
}

pub open spec fn empty_topic_message(topic: Seq<char>) -> Seq<char> {
    "Topic \""@ + topic + "\" is empty after hint removal. Hint must follow the topic text."@
}

pub open spec fn strs_v(v: Vec<String>) -> Seq<Seq<char>> {
    v@.map_values(|s: String| s@)
}

/// A topic as given on the command line, split into topic and hint; refused where
/// nothing is left of the topic.
pub fn start_topic(run: &Run, topic: &str) -> (res: Result<TopicJob, String>)
    ensures
        parse_hint_of(topic@).0.len() == 0 <==> res is Err,
        res matches Err(e) ==> e@ == empty_topic_message(topic@),
        res matches Ok(job) ==> {
            &&& job.topic@ == parse_hint_of(topic@).0
            &&& job.hint_line@ == hint_instruction_of(parse_hint_of(topic@).1)
            &&& job.covered_line@ == covered_instruction_of(
                run.settings.use_covered,
                strs_v(run.covered_topics),
            )
        },
{
    let (clean, hint) = parse_hint(topic);
    if clean.as_str().is_empty() {
        let mut msg = String::from_str("Topic \"");
        msg.append(topic);
        msg.append("\" is empty after hint removal. Hint must follow the topic text.");
        return Err(msg);
    }
    let hint_line = hint_instruction(&hint);
    let covered_line = covered_instruction(run.settings.use_covered, &run.covered_topics);
    Ok(TopicJob { topic: clean, hint_line, covered_line })
}

/// The progress line for a note, where progress is shown.
pub fn announce(run: &Run, job: &TopicJob, index: usize, total: usize) -> (res: Option<String>)
    ensures
        opt_str_v(res) == shown(
            run.settings.log.status,
            status_line_of(
                index as nat,
                total as nat,
                run.settings.model@,
                job.topic@,
                run.note_count as nat,
                run.settings.weak_mode,
            ),
        ),
{
    let line = status_line(
        index,
        total,
        run.settings.model.as_str(),
        job.topic.as_str(),
        run.note_count,
        run.settings.weak_mode,
    );
    run.settings.log.status(line.as_str())
}

/// The style analysis request of weak mode: the skill rules and the analysis rules as
/// the system prompt, the skill preamble and the examples as the user message.
pub open spec fn analysis_request_ok(run: Run, req: Request) -> bool {
    &&& req.url@ == chat_url_of(run.provider, base_url_of(run.settings.api_url@), run.settings.model@)
    &&& req.body@ == chat_body_of(
        run.provider,
        run.settings.model@,
        JsonV::Array(
            seq![
                message_v("system"@, stage1_system_of(opt_str_v(run.skill))),
                message_v("user"@, run.skill_preamble@ + run.examples@),
            ],
        ),
        max_tokens_of(run.settings.note_size@),
        run.settings.temperature,
    )
}

/// The style analysis request of weak mode.
pub fn analysis_request(run: &Run) -> (res: Request)
    ensures
        analysis_request_ok(*run, res),
{
    let system = stage1_system(&run.skill);
    let mut user = run.skill_preamble.clone();
    user.append(run.examples.as_str());
    let mut rest: Vec<Json> = Vec::new();
    rest.push(message_json("user", user.as_str()));
    assert(values_of(rest@) =~= seq![message_v("user"@, user@)]);
    let ghost rv = values_of(rest@);
    let msgs = chat_messages(system.as_str(), rest);
    assert(seq![message_v("system"@, system@)] + rv =~= seq![
        message_v("system"@, stage1_system_of(opt_str_v(run.skill))),
        message_v("user"@, run.skill_preamble@ + run.examples@),
    ]);
    assert(msgs@ == JsonV::Array(seq![
        message_v("system"@, stage1_system_of(opt_str_v(run.skill))),
        message_v("user"@, run.skill_preamble@ + run.examples@),
    ]));
    let url = run.provider.chat_url(
        run.settings.api_url.as_str(),
        run.settings.model.as_str(),
        run.api_key.as_str(),
    );
    let body = run.provider.build_chat_body(
        run.settings.model.as_str(),
        &msgs,
        max_tokens_for(run.settings.note_size.as_str()),
        run.settings.temperature,
    );
    Request { url, body }
}

/// What a chat request gave back: the text and token count, or why it failed.
pub open spec fn reply_v(reply: Result<(String, String), String>) -> Result<(Seq<char>, Seq<char>), Seq<char>> {
    match reply {
        Ok((t, k)) => Ok((t@, k@)),
        Err(e) => Err(e@),
    }
}

/// The analysis that the first stage gave, or the message for its failure.
pub open spec fn analysis_outcome_of(
    topic: Seq<char>,
    reply: Result<(Seq<char>, Seq<char>), Seq<char>>,
) -> Result<Seq<char>, Seq<char>> {
    match reply {
        Ok((a, _)) => if a.len() > 0 {
            Ok(a)
        } else {
            Err("["@ + topic + "] Stage 1 returned empty analysis"@)
        },
        Err(e) => Err("["@ + topic + "] Stage 1 request failed: "@ + e),
    }
}

/// The analysis that the first stage gave, or the message for its failure.
pub fn analysis_outcome(job: &TopicJob, reply: Result<(String, String), String>) -> (res: Result<String, String>)
    ensures
        match res { Ok(a) => Ok(a@), Err(e) => Err(e@) } == analysis_outcome_of(job.topic@, reply_v(reply)),
{
    match reply {
        Ok((a, _)) => {
            if a.as_str().is_empty() {
                let mut msg = String::from_str("[");
                msg.append(job.topic.as_str());
                msg.append("] Stage 1 returned empty analysis");
                Err(msg)
            } else {
                Ok(a)
            }
        },
        Err(e) => {
            let mut msg = String::from_str("[");
            msg.append(job.topic.as_str());
            msg.append("] Stage 1 request failed: ");
            msg.append(e.as_str());
            Err(msg)
        },
    }
}

/// The prompt of weak mode's second stage for a job.
pub open spec fn stage2_prompt_for(run: Run, job: TopicJob) -> Seq<char> {
    stage2_prompt_of(
        job.topic@,
        run.settings.lang@,
        run.settings.note_size@,
        job.hint_line@,
        job.covered_line@,
    )
}

/// The note-writing request of weak mode, in the same chat as the analysis: the
/// examples, the analysis as the model's answer, then the note prompt; the skill rules
/// (or a default) as the system prompt.
pub open spec fn note_chat_ok(run: Run, job: TopicJob, analysis: Seq<char>, req: Request) -> bool {
    &&& req.url@ == chat_url_of(run.provider, base_url_of(run.settings.api_url@), run.settings.model@)
    &&& req.body@ == chat_body_of(
        run.provider,
        run.settings.model@,
        JsonV::Array(
            seq![
                message_v("system"@, stage2_system_of(opt_str_v(run.skill))),
                message_v("user"@, run.examples@),
                message_v("assistant"@, analysis),
                message_v("user"@, stage2_prompt_for(run, job)),
            ],
        ),
        max_tokens_of(run.settings.note_size@),
        run.settings.temperature,
    )
}

/// Weak mode holds one conversation at one chat endpoint: the analysis asks about the
/// skill preamble and the style examples; the note request replays the examples, then
/// the analysis as the model's own answer, then the note prompt. Where the provider takes
/// the messages whole (OpenAI, Ollama, llama.cpp), they stand so in the bodies.
pub proof fn lemma_weak_mode_conversation(run: Run, job: TopicJob, analysis: Seq<char>, first: Request, second: Request)
    requires
        analysis_request_ok(run, first),
        note_chat_ok(run, job, analysis, second),
    ensures
        first.url@ == second.url@,
        (run.provider == Provider::OpenAI || run.provider == Provider::Ollama || run.provider == Provider::Llamacpp) ==> {
            &&& get_v(first.body@, "messages"@) == Some(JsonV::Array(seq![
                message_v("system"@, stage1_system_of(opt_str_v(run.skill))),
                message_v("user"@, run.skill_preamble@ + run.examples@),
            ]))
            &&& get_v(second.body@, "messages"@) == Some(JsonV::Array(seq![
                message_v("system"@, stage2_system_of(opt_str_v(run.skill))),
                message_v("user"@, run.examples@),
                message_v("assistant"@, analysis),
                message_v("user"@, stage2_prompt_for(run, job)),
            ]))
        },
{
    let model = run.settings.model@;
    let cap = max_tokens_of(run.settings.note_size@);
    lemma_chat_body_carries_messages(run.provider, model, JsonV::Array(seq![
        message_v("system"@, stage1_system_of(opt_str_v(run.skill))),
        message_v("user"@, run.skill_preamble@ + run.examples@),
    ]), cap, run.settings.temperature);
    lemma_chat_body_carries_messages(run.provider, model, JsonV::Array(seq![
        message_v("system"@, stage2_system_of(opt_str_v(run.skill))),
        message_v("user"@, run.examples@),
        message_v("assistant"@, analysis),
        message_v("user"@, stage2_prompt_for(run, job)),
    ]), cap, run.settings.temperature);
}

/// The line that shows a prompt, where prompts are shown.
pub open spec fn prompt_log_of(log: Log, title: Seq<char>, topic: Seq<char>, prompt: Seq<char>) -> Option<Seq<char>> {
    shown(log.prompt, "[PROMPT]\n"@ + ("--- "@ + title + " for \""@ + topic + "\" ---\n"@ + prompt) + "\n[/PROMPT]"@)
}

fn titled(title: &str, topic: &str, body: &str) -> (res: String)
    ensures
        res@ == "--- "@ + title@ + " for \""@ + topic@ + "\" ---\n"@ + body@,
{
    let mut s = String::from_str("--- ");
    s.append(title);
    s.append(" for \"");
    s.append(topic);
    s.append("\" ---\n");
    s.append(body);
    s
}

/// The note-writing request of weak mode, and the line that shows its prompt.
pub fn note_chat(run: &Run, job: &TopicJob, analysis: &str) -> (res: (Request, Option<String>))
    ensures
        note_chat_ok(*run, *job, analysis@, res.0),
        opt_str_v(res.1) == prompt_log_of(run.settings.log, "Stage 2 prompt"@, job.topic@, stage2_prompt_for(*run, *job)),
{
    let prompt = stage2_prompt(
        job.topic.as_str(),
        run.settings.lang.as_str(),
        run.settings.note_size.as_str(),
        job.hint_line.as_str(),
        job.covered_line.as_str(),
    );
    let log_text = titled("Stage 2 prompt", job.topic.as_str(), prompt.as_str());
    let log_line = run.settings.log.prompt(log_text.as_str());
    let system = stage2_system(&run.skill);
    let mut rest: Vec<Json> = Vec::new();
    rest.push(message_json("user", run.examples.as_str()));
    rest.push(message_json("assistant", analysis));
    rest.push(message_json("user", prompt.as_str()));
    assert(values_of(rest@) =~= seq![
        message_v("user"@, run.examples@),
        message_v("assistant"@, analysis@),
        message_v("user"@, prompt@),
    ]);
    let ghost rv = values_of(rest@);
    let msgs = chat_messages(system.as_str(), rest);
    assert(seq![message_v("system"@, system@)] + rv =~= seq![
        message_v("system"@, stage2_system_of(opt_str_v(run.skill))),
        message_v("user"@, run.examples@),
        message_v("assistant"@, analysis@),
        message_v("user"@, stage2_prompt_for(*run, *job)),
    ]);
    assert(msgs@ == JsonV::Array(seq![
        message_v("system"@, stage2_system_of(opt_str_v(run.skill))),
        message_v("user"@, run.examples@),
        message_v("assistant"@, analysis@),
        message_v("user"@, stage2_prompt_for(*run, *job)),
    ]));
    let url = run.provider.chat_url(
        run.settings.api_url.as_str(),
        run.settings.model.as_str(),
        run.api_key.as_str(),
    );
    let body = run.provider.build_chat_body(
        run.settings.model.as_str(),
        &msgs,
        max_tokens_for(run.settings.note_size.as_str()),
        run.settings.temperature,
    );
    (Request { url, body }, log_line)
}

/// A generated note: its text, its token count as text, and the line that shows it,
/// where responses are shown.
pub struct Generated {
    pub text: String,
    pub tokens: String,
    pub log_line: Option<String>,
}

/// The line that shows a response, where responses are shown.
pub open spec fn response_log_of(log: Log, topic: Seq<char>, text: Seq<char>) -> Option<Seq<char>> {
    shown(log.response, "[RESPONSE]\n"@ + ("--- Response for \""@ + topic + "\" ---\n"@ + text) + "\n[/RESPONSE]"@)
}

fn generated(run: &Run, job: &TopicJob, text: String, tokens: String) -> (res: Generated)
    ensures
        res.text == text,
        res.tokens == tokens,
        opt_str_v(res.log_line) == response_log_of(run.settings.log, job.topic@, text@),
{
    let mut s = String::from_str("--- Response for \"");
    s.append(job.topic.as_str());
    s.append("\" ---\n");
    s.append(text.as_str());
    let log_line = run.settings.log.response(s.as_str());
    Generated { text, tokens, log_line }
}

/// The note that weak mode's second stage gave, or the message for its failure.
pub open spec fn note_chat_outcome_of(
    topic: Seq<char>,
    reply: Result<(Seq<char>, Seq<char>), Seq<char>>,
) -> Result<(Seq<char>, Seq<char>), Seq<char>> {
    match reply {
        Ok((t, k)) => if t.len() > 0 {
            Ok((t, k))
        } else {
            Err("["@ + topic + "] Stage 2 returned empty response"@)
        },
        Err(e) => Err("["@ + topic + "] Stage 2 request failed: "@ + e),
    }
}

/// The note that weak mode's second stage gave, or the message for its failure.
pub fn note_chat_outcome(run: &Run, job: &TopicJob, reply: Result<(String, String), String>) -> (res: Result<Generated, String>)
    ensures
        match res {
            Ok(g) => Ok((g.text@, g.tokens@)),
            Err(e) => Err(e@),
        } == note_chat_outcome_of(job.topic@, reply_v(reply)),
        res matches Ok(g) ==> opt_str_v(g.log_line) == response_log_of(run.settings.log, job.topic@, g.text@),
{
    match reply {
        Ok((t, k)) => {
            if t.as_str().is_empty() {
                let mut msg = String::from_str("[");
                msg.append(job.topic.as_str());
                msg.append("] Stage 2 returned empty response");
                Err(msg)
            } else {
                Ok(generated(run, job, t, k))
            }
        },
        Err(e) => {
            let mut msg = String::from_str("[");
            msg.append(job.topic.as_str());
            msg.append("] Stage 2 request failed: ");
            msg.append(e.as_str());
            Err(msg)
        },
    }
}

/// The prompt of a single request for a job.
pub open spec fn note_prompt_for(run: Run, job: TopicJob) -> Seq<char> {
    note_prompt_of(
        run.skill_preamble@,
        job.topic@,
        run.settings.lang@,
        run.settings.note_size@,
        job.hint_line@,
        job.covered_line@,
        run.examples@,
    )
}

/// The single request for a note: the note prompt, with the skill rules as the system
/// prompt where the provider takes one.
pub open spec fn note_request_ok(run: Run, job: TopicJob, req: Request) -> bool {
    &&& req.url@ == generate_url_of(run.provider, base_url_of(run.settings.api_url@), run.settings.model@)
    &&& req.body@ == generate_body_of(
        run.provider,
        run.settings.model@,
        note_prompt_for(run, job),
        opt_str_v(run.skill_system),
        max_tokens_of(run.settings.note_size@),
        run.settings.temperature,
    )
}

/// The single request for a note, and the line that shows its prompt.
pub fn note_request(run: &Run, job: &TopicJob) -> (res: (Request, Option<String>))
    ensures
        note_request_ok(*run, *job, res.0),
        opt_str_v(res.1) == prompt_log_of(run.settings.log, "Prompt"@, job.topic@, note_prompt_for(*run, *job)),
{
    let prompt = note_prompt(
        run.skill_preamble.as_str(),
        job.topic.as_str(),
        run.settings.lang.as_str(),
        run.settings.note_size.as_str(),
        job.hint_line.as_str(),
        job.covered_line.as_str(),
        run.examples.as_str(),
    );
    let log_text = titled("Prompt", job.topic.as_str(), prompt.as_str());
    let log_line = run.settings.log.prompt(log_text.as_str());
    let url = run.provider.generate_url(
        run.settings.api_url.as_str(),
        run.settings.model.as_str(),
        run.api_key.as_str(),
    );
    let system: Option<&str> = match &run.skill_system {
        Some(s) => Some(s.as_str()),
        None => None,
    };
    let body = run.provider.build_generate_body(
        run.settings.model.as_str(),
        prompt.as_str(),
        system,
        max_tokens_for(run.settings.note_size.as_str()),
        run.settings.temperature,
    );
    (Request { url, body }, log_line)
}

/// The single request for a note sends the note prompt, with the skill's system prompt
/// where there is one: as the prompt of Ollama and llama.cpp, as OpenAI's user message
/// after the system message, as Anthropic's user message with the system prompt apart.
pub proof fn lemma_single_request_carries_prompt(run: Run, job: TopicJob, req: Request)
    requires
        note_request_ok(run, job, req),
    ensures
        (run.provider == Provider::Ollama || run.provider == Provider::Llamacpp)
            ==> get_v(req.body@, "prompt"@) == Some(s_v(note_prompt_for(run, job))),
        run.provider == Provider::OpenAI ==> get_v(req.body@, "messages"@) == Some(JsonV::Array(
            match opt_str_v(run.skill_system) {
                Some(sy) => seq![message_v("system"@, sy), message_v("user"@, note_prompt_for(run, job))],
                None => seq![message_v("user"@, note_prompt_for(run, job))],
            },
        )),
        run.provider == Provider::Anthropic ==> get_v(req.body@, "messages"@)
            == Some(JsonV::Array(seq![message_v("user"@, note_prompt_for(run, job))])),
        (run.provider == Provider::Ollama || run.provider == Provider::Anthropic) ==> get_v(req.body@, "system"@)
            == match opt_str_v(run.skill_system) {
                Some(sy) => Some(s_v(sy)),
                None => None,
            },
{
    lemma_generate_body_carries_inputs(
        run.provider,
        run.settings.model@,
        note_prompt_for(run, job),
        opt_str_v(run.skill_system),
        max_tokens_of(run.settings.note_size@),
        run.settings.temperature,
    );
}

/// Whether a response body can be read: an Anthropic body's token counts must add up
/// within `u64`.
pub open spec fn readable(p: Provider, body: JsonV) -> bool {
    p == Provider::Anthropic ==> anthropic_tokens(body) <= u64::MAX
}

/// The note that a single request gave, or the message for its failure.
pub open spec fn note_outcome_of(
    p: Provider,
    topic: Seq<char>,
    reply: Result<JsonV, Seq<char>>,
) -> Result<(Seq<char>, Seq<char>), Seq<char>> {
    match reply {
        Ok(body) => if response_text(p, body).len() > 0 {
            Ok((response_text(p, body), response_tokens(p, body)))
        } else {
            Err("API returned an empty response for \""@ + topic + "\"."@)
        },
        Err(e) => Err("Request failed for \""@ + topic + "\": "@ + e),
    }
}

/// The note that a single request gave, or the message for its failure.
pub fn note_outcome(run: &Run, job: &TopicJob, reply: Result<Json, String>) -> (res: Result<Generated, String>)
    requires
        reply matches Ok(body) ==> readable(run.provider, body@),
    ensures
        match res {
            Ok(g) => Ok((g.text@, g.tokens@)),
            Err(e) => Err(e@),
        } == note_outcome_of(run.provider, job.topic@, match reply { Ok(b) => Ok(b@), Err(e) => Err(e@) }),
        res matches Ok(g) ==> opt_str_v(g.log_line) == response_log_of(run.settings.log, job.topic@, g.text@),
{
    match reply {
        Ok(body) => {
            let (text, tokens) = run.provider.parse_response(&body);
            if text.as_str().is_empty() {
                let mut msg = String::from_str("API returned an empty response for \"");
                msg.append(job.topic.as_str());
                msg.append("\".");
                Err(msg)
            } else {
                Ok(generated(run, job, text, tokens))
            }
        },
        Err(e) => {
            let mut msg = String::from_str("Request failed for \"");
            msg.append(job.topic.as_str());
            msg.append("\": ");
            msg.append(e.as_str());
            Err(msg)
        },
    }
}

/// The request of a topic that awaits its reply.
#[derive(Clone, Copy, Debug, PartialEq, Eq, Structural)]
pub enum Stage {
    /// Weak mode's style analysis (a chat request).
    Analysis,
    /// Weak mode's note-writing request (a chat request).
    NoteChat,
    /// The single note request.
    Note,
}

/// What the generation of one note does next.
pub enum TopicStep {
    /// Show `log` where there is one, send `request`, and hand its reply to `next_step`
    /// with `stage`.
    Send { stage: Stage, request: Request, log: Option<String> },
    /// The note was generated.
    Done(Generated),
    /// The note failed with this message; the other topics go on.
    Failed(String),
}

/// A reply body read as a chat answer (its text and token count), or the error.
pub open spec fn chat_reply_of(p: Provider, reply: Result<JsonV, Seq<char>>) -> Result<(Seq<char>, Seq<char>), Seq<char>> {
    match reply {
        Ok(body) => Ok((response_text(p, body), response_tokens(p, body))),
        Err(e) => Err(e),
    }
}

/// A reply as values.
pub open spec fn body_reply_v(reply: Result<Json, String>) -> Result<JsonV, Seq<char>> {
    match reply {
        Ok(b) => Ok(b@),
        Err(e) => Err(e@),
    }
}

/// The step that ends a note with `outcome`: the note, or the failure.
pub open spec fn ends_with_outcome(run: Run, job: TopicJob, step: TopicStep, outcome: Result<(Seq<char>, Seq<char>), Seq<char>>) -> bool {
    match outcome {
        Ok((t, k)) => step matches TopicStep::Done(g) && g.text@ == t && g.tokens@ == k
            && opt_str_v(g.log_line) == response_log_of(run.settings.log, job.topic@, t),
        Err(m) => step matches TopicStep::Failed(e) && e@ == m,
    }
}

/// The first step of a note: weak mode's style analysis, else the single note request.
pub fn first_step(run: &Run, job: &TopicJob) -> (res: TopicStep)
    ensures
        run.settings.weak_mode ==> (res matches TopicStep::Send { stage, request, log }
            && stage == Stage::Analysis && analysis_request_ok(*run, request) && log is None),
        !run.settings.weak_mode ==> (res matches TopicStep::Send { stage, request, log }
            && stage == Stage::Note && note_request_ok(*run, *job, request)
            && opt_str_v(log) == prompt_log_of(run.settings.log, "Prompt"@, job.topic@, note_prompt_for(*run, *job))),
{
    if run.settings.weak_mode {
        TopicStep::Send { stage: Stage::Analysis, request: analysis_request(run), log: None }
    } else {
        let (request, log) = note_request(run, job);
        TopicStep::Send { stage: Stage::Note, request, log }
    }
}

/// The step after the reply to the request of `stage`: a failed stage ends the note
/// with its message; a style analysis leads to the note-writing request; a note
/// request ends the note with what it gave.
pub fn next_step(run: &Run, job: &TopicJob, stage: Stage, reply: Result<Json, String>) -> (res: TopicStep)
    requires
        reply matches Ok(body) ==> readable(run.provider, body@),
    ensures
        stage == Stage::Analysis ==> match analysis_outcome_of(job.topic@, chat_reply_of(run.provider, body_reply_v(reply))) {
            Ok(a) => res matches TopicStep::Send { stage: s, request, log } && s == Stage::NoteChat
                && note_chat_ok(*run, *job, a, request)
                && opt_str_v(log) == prompt_log_of(run.settings.log, "Stage 2 prompt"@, job.topic@, stage2_prompt_for(*run, *job)),
            Err(m) => res matches TopicStep::Failed(e) && e@ == m,
        },
        stage == Stage::NoteChat ==> ends_with_outcome(*run, *job, res,
            note_chat_outcome_of(job.topic@, chat_reply_of(run.provider, body_reply_v(reply)))),
        stage == Stage::Note ==> ends_with_outcome(*run, *job, res,
            note_outcome_of(run.provider, job.topic@, body_reply_v(reply))),
{
    match stage {
        Stage::Note => match note_outcome(run, job, reply) {
            Ok(g) => TopicStep::Done(g),
            Err(m) => TopicStep::Failed(m),
        },
        _ => {
            let chat = match reply {
                Ok(body) => Ok(run.provider.parse_response(&body)),
                Err(e) => Err(e),
            };
            assert(reply_v(chat) == chat_reply_of(run.provider, body_reply_v(reply)));
            if stage == Stage::Analysis {
                match analysis_outcome(job, chat) {
                    Ok(a) => {
                        let (request, log) = note_chat(run, job, a.as_str());
                        TopicStep::Send { stage: Stage::NoteChat, request, log }
                    },
                    Err(m) => TopicStep::Failed(m),
                }
            } else {
                match note_chat_outcome(run, job, chat) {
                    Ok(g) => TopicStep::Done(g),
                    Err(m) => TopicStep::Failed(m),
                }
            }
        },
    }
}

/// The timing line of a note, where timings are shown.
pub open spec fn timing_line_of(log: Log, millis: nat, tokens: Seq<char>) -> Option<Seq<char>> {
    shown(log.timing, "  Took "@ + decimal(millis) + " ms, generated tokens: "@ + tokens)
}

/// The timing line of a note, where timings are shown.
pub fn timing_line(run: &Run, millis: u128, tokens: &str) -> (res: Option<String>)
    ensures
        opt_str_v(res) == timing_line_of(run.settings.log, millis as nat, tokens@),
{
    let mut s = String::from_str("  Took ");
    s.append(decimal_string(millis).as_str());
    s.append(" ms, generated tokens: ");
    s.append(tokens);
    run.settings.log.timing(s.as_str())
}

/// The path of a note: the sanitized topic with `.md`, in the notes directory.
pub open spec fn note_path_of(notes_path: Seq<char>, topic: Seq<char>, platform: Platform) -> Seq<char> {
    join_path(platform, notes_path, sanitized(topic) + ".md"@)
}

/// The path of a note.
pub fn note_path(run: &Run, job: &TopicJob, platform: Platform) -> (res: String)
    ensures
        res@ == note_path_of(run.settings.notes_path@, job.topic@, platform),
{
    let mut name = sanitize_filename(job.topic.as_str());
    name.append(".md");
    join_path_exec(platform, run.settings.notes_path.as_str(), name.as_str())
}

/// The warning before a note replaces a file: where the file exists, or where this
/// run already wrote a note under the same key.
pub fn overwrite_warning(path: &str, on_disk: bool, written_before: bool) -> (res: Option<String>)
    ensures
        opt_str_v(res) == if on_disk || written_before {
            Some("Warning: overwriting "@ + path@)
        } else {
            None
        },
{
    if on_disk || written_before {
        let mut s = String::from_str("Warning: overwriting ");
        s.append(path);
        Some(s)
    } else {
        None
    }
}

/// The message for a note that could not be written.
pub fn write_failure(path: &str, error: &str) -> (res: String)
    ensures
        res@ == "Failed to write file: "@ + path@ + " - "@ + error@,
{
    let mut s = String::from_str("Failed to write file: ");
    s.append(path);
    s.append(" - ");
    s.append(error);
    s
}

/// The line that reports a written note, where progress is shown.
pub fn saved_line(run: &Run, path: &str) -> (res: Option<String>)
    ensures
        opt_str_v(res) == shown(run.settings.log.status, "  Saved: "@ + path@),
{
    let mut s = String::from_str("  Saved: ");
    s.append(path);
    run.settings.log.status(s.as_str())
}

/// Whether the topics of a run are generated at the same time: with a cloud provider
/// and more than one topic; a local provider takes them one after the other.
pub fn runs_concurrently(p: Provider, topics: usize) -> (res: bool)
    ensures
        res == (needs_api_key(p) && topics > 1),
{
    (p == Provider::OpenAI || p == Provider::Anthropic || p == Provider::Gemini) && topics > 1
}

/// How the topics of a run have ended so far: how many, and how many of them failed.
pub struct Tally {
    pub ended: usize,
    pub failed: usize,
}

/// The topic to take next when topics are taken one after the other: the one after those
/// that ended, while there is one.
pub open spec fn next_topic_of(t: Tally, total: usize) -> Option<usize> {
    if t.ended < total {
        Some(t.ended)
    } else {
        None
    }
}

/// The tally after one more topic ended, failed or not.
pub open spec fn recorded(t: Tally, failed: bool) -> Tally {
    Tally {
        ended: (t.ended + 1) as usize,
        failed: (t.failed + if failed { 1int } else { 0int }) as usize,
    }
}

/// The exit status of a run: 1 where any topic failed, else 0.
pub open spec fn exit_code_of(t: Tally) -> i32 {
    if t.failed > 0 {
        1
    } else {
        0
    }
}

impl Tally {
    /// No more failures than ended topics.
    pub open spec fn wf(&self) -> bool {
        self.failed <= self.ended
    }

    /// No topic has ended yet.
    pub fn new() -> (res: Tally)
        ensures
            res.wf(),
            res.ended == 0,
            res.failed == 0,
    {
        Tally { ended: 0, failed: 0 }
    }

    /// The topic to take next when topics are taken one after the other.
    pub fn next_topic(&self, total: usize) -> (res: Option<usize>)
        ensures
            res == next_topic_of(*self, total),
    {
        if self.ended < total {
            Some(self.ended)
        } else {
            None
        }
    }

    /// Records that a topic ended, and whether it failed.
    pub fn record(&mut self, failed: bool)
        requires
            old(self).wf(),
            old(self).ended < usize::MAX,
        ensures
            final(self).wf(),
            *final(self) == recorded(*old(self), failed),
    {
        self.ended = self.ended + 1;
        if failed {
            self.failed = self.failed + 1;
        }
    }

    /// The exit status of the run.
    pub fn exit_code(&self) -> (res: i32)
        ensures
            res == exit_code_of(*self),
    {
        if self.failed > 0 {
            1
        } else {
            0
        }
    }
}

/// A failed topic stops none of the rest: taking topics one after the other, the topic
/// taken after a failed one is the one that would follow a written note, and the run
/// then ends with exit status 1.
pub proof fn lemma_failure_stops_no_topic(t: Tally, total: usize)
    requires
        t.wf(),
        t.ended < usize::MAX,
    ensures
        next_topic_of(recorded(t, true), total) == next_topic_of(recorded(t, false), total),
        recorded(t, true).wf(),
        exit_code_of(recorded(t, true)) == 1,
{
}

} // verus!
