//! The prompts that ask a model for a note, and the lines that report on a request.
use vstd::prelude::*;
use crate::body::{message_json, message_v};
use crate::config::{joined, join_strings, opt_str_v};
use crate::json::{Json, JsonV, json_array, values_of};
use crate::note::{size_instruction, size_instruction_of, size_reminder, size_reminder_of};
use crate::provider::Provider;
use crate::text::{decimal, decimal_string, ends_with, occurs_at, starts_with};

verus! {

/// The system prompt of the style analysis (the first stage of weak mode).
pub open spec fn analysis_system_of() -> Seq<char> {
    "You are a strict style-analysis engine. You have ONE task: extract structural/style facts from the notes below.\n\nRules:\n- Output ONLY a bullet list of style facts. No greetings, no confirmations, no \"I understand\", no \"Here is my analysis\".\n- Do NOT rewrite or summarize the content of the notes.\n- Do NOT add any text before or after the analysis.\n- Be precise and concise.\n\nExtract these aspects:\n- Heading style (which levels are used, capitalization, spacing)\n- List style (bullets vs numbers, nesting depth)\n- Code block style (inline `code` vs fenced blocks, with/without language tags)\n- Typical section structure (e.g. always starts with a definition, then examples)\n- Line density (short one-idea-per-line vs paragraph-style)\n- Tone (formal, tutorial-like, concise, etc.)\n- Any recurring formatting patterns\n\nFAILURE TO FOLLOW THESE RULES WILL BE PENALIZED."@
}

/// The system prompt of a chat where no skill file gives one.
pub open spec fn default_system_of() -> Seq<char> {
    "You are a helpful assistant that writes study notes."@
}

/// The system prompt of the style analysis.
pub fn analysis_system() -> (res: &'static str)
    ensures
        res@ == analysis_system_of(),
{
    "You are a strict style-analysis engine. You have ONE task: extract structural/style facts from the notes below.\n\nRules:\n- Output ONLY a bullet list of style facts. No greetings, no confirmations, no \"I understand\", no \"Here is my analysis\".\n- Do NOT rewrite or summarize the content of the notes.\n- Do NOT add any text before or after the analysis.\n- Be precise and concise.\n\nExtract these aspects:\n- Heading style (which levels are used, capitalization, spacing)\n- List style (bullets vs numbers, nesting depth)\n- Code block style (inline `code` vs fenced blocks, with/without language tags)\n- Typical section structure (e.g. always starts with a definition, then examples)\n- Line density (short one-idea-per-line vs paragraph-style)\n- Tone (formal, tutorial-like, concise, etc.)\n- Any recurring formatting patterns\n\nFAILURE TO FOLLOW THESE RULES WILL BE PENALIZED."
}

/// The system prompt of a chat where no skill file gives one.
pub fn default_system() -> (res: &'static str)
    ensures
        res@ == default_system_of(),
{
    "You are a helpful assistant that writes study notes."
}

/// The line that passes a user's hint on to the model, if there is a hint.
pub open spec fn hint_instruction_of(hint: Option<Seq<char>>) -> Seq<char> {
    match hint {
        Some(h) => "- Additional instruction: "@ + h + "\n"@,
        None => Seq::empty(),
    }
}

/// The line that passes a user's hint on to the model, if there is a hint.
pub fn hint_instruction(hint: &Option<String>) -> (res: String)
    ensures
        res@ == hint_instruction_of(opt_str_v(*hint)),
{
    match hint {
        Some(h) => {
            let mut s = String::from_str("- Additional instruction: ");
            s.append(h.as_str());
            s.append("\n");
            s
        },
        None => String::new(),
    }
}

/// The line that names the topics already covered, where they are used and there are
/// some.
pub open spec fn covered_instruction_of(use_covered: bool, topics: Seq<Seq<char>>) -> Seq<char> {
    if use_covered && topics.len() > 0 {
        "- Already covered topics: "@ + joined(topics, ", "@)
            + ". The reader ALREADY knows these topics — do NOT re-explain, redefine, or recap them. Use them as a foundation and build on them to explain the new topic.\n"@
    } else {
        Seq::empty()
    }
}

/// The line that names the topics already covered.
pub fn covered_instruction(use_covered: bool, topics: &Vec<String>) -> (res: String)
    ensures
        res@ == covered_instruction_of(use_covered, topics@.map_values(|s: String| s@)),
{
    if use_covered && topics.len() > 0 {
        let mut s = String::from_str("- Already covered topics: ");
        let list = join_strings(topics, ", ");
        s.append(list.as_str());
        s.append(
            ". The reader ALREADY knows these topics — do NOT re-explain, redefine, or recap them. Use them as a foundation and build on them to explain the new topic.\n",
        );
        s
    } else {
        String::new()
    }
}

/// The preamble that puts a skill file's rules above the examples in a user prompt.
pub open spec fn skill_preamble_of(skill: Option<Seq<char>>) -> Seq<char> {
    match skill {
        Some(s) => "STYLE SKILL (STRICT — these rules override the style examples below):\n"@ + s + "\n\n"@,
        None => Seq::empty(),
    }
}

/// The preamble that puts a skill file's rules above the examples in a user prompt.
pub fn skill_preamble(skill: &Option<String>) -> (res: String)
    ensures
        res@ == skill_preamble_of(opt_str_v(*skill)),
{
    match skill {
        Some(s) => {
            let mut p = String::from_str("STYLE SKILL (STRICT — these rules override the style examples below):\n");
            p.append(s.as_str());
            p.append("\n\n");
            p
        },
        None => String::new(),
    }
}

/// The system prompt of a single-prompt request: the skill rules, except for
/// llama.cpp, whose completion endpoint has no system field.
pub open spec fn skill_system_of(p: Provider, skill: Option<Seq<char>>) -> Option<Seq<char>> {
    if p == Provider::Llamacpp {
        None
    } else {
        skill
    }
}

/// The system prompt of a single-prompt request.
pub fn skill_system(p: Provider, skill: &Option<String>) -> (res: Option<String>)
    ensures
        opt_str_v(res) == skill_system_of(p, opt_str_v(*skill)),
{
    if p == Provider::Llamacpp {
        None
    } else {
        match skill {
            Some(s) => Some(s.clone()),
            None => None,
        }
    }
}

/// The system prompt of the style analysis: the skill rules, then the analysis rules.
pub open spec fn stage1_system_of(skill: Option<Seq<char>>) -> Seq<char> {
    match skill {
        Some(s) => s + "\n\n"@ + analysis_system_of(),
        None => analysis_system_of(),
    }
}

/// The system prompt of the style analysis.
pub fn stage1_system(skill: &Option<String>) -> (res: String)
    ensures
        res@ == stage1_system_of(opt_str_v(*skill)),
{
    match skill {
        Some(s) => {
            let mut p = s.clone();
            p.append("\n\n");
            p.append(analysis_system());
            p
        },
        None => String::from_str(analysis_system()),
    }
}

/// The system prompt of the note-writing chat: the skill rules, or a default.
pub open spec fn stage2_system_of(skill: Option<Seq<char>>) -> Seq<char> {
    match skill {
        Some(s) => s,
        None => default_system_of(),
    }
}

/// The system prompt of the note-writing chat.
pub fn stage2_system(skill: &Option<String>) -> (res: String)
    ensures
        res@ == stage2_system_of(opt_str_v(*skill)),
{
    match skill {
        Some(s) => s.clone(),
        None => String::from_str(default_system()),
    }
}

/// The prompt of a single request for a note.
pub open spec fn note_prompt_of(
    preamble: Seq<char>,
    topic: Seq<char>,
    lang: Seq<char>,
    size: Seq<char>,
    hint: Seq<char>,
    covered: Seq<char>,
    examples: Seq<char>,
) -> Seq<char> {
    "You are a strict note-writing assistant. Follow ALL rules EXACTLY.\n\n"@ + preamble
        + "RULES:\n- Write a note about: \""@ + topic + "\"\n- Language: "@ + lang
        + ". Write ONLY in this language.\n- Size: "@ + size_instruction_of(size) + "\n"@ + hint
        + covered
        + "- Use the examples below for STYLE ONLY (headings, lists, code blocks). DO NOT copy their length or depth — follow the size rule above.\n- OUTPUT ONLY THE NOTE. No greetings, no introductions, no conclusions, no commentary, no extra text.\n\nSTYLE EXAMPLES:\n"@
        + examples + "\n\n"@ + size_reminder_of(size) + "\n\nOUTPUT:"@
}

/// The prompt of a single request for a note.
pub fn note_prompt(
    preamble: &str,
    topic: &str,
    lang: &str,
    size: &str,
    hint: &str,
    covered: &str,
    examples: &str,
) -> (res: String)
    ensures
        res@ == note_prompt_of(preamble@, topic@, lang@, size@, hint@, covered@, examples@),
{
    let mut p = String::from_str("You are a strict note-writing assistant. Follow ALL rules EXACTLY.\n\n");
    p.append(preamble);
    p.append("RULES:\n- Write a note about: \"");
    p.append(topic);
    p.append("\"\n- Language: ");
    p.append(lang);
    p.append(". Write ONLY in this language.\n- Size: ");
    p.append(size_instruction(size));
    p.append("\n");
    p.append(hint);
    p.append(covered);
    p.append(
        "- Use the examples below for STYLE ONLY (headings, lists, code blocks). DO NOT copy their length or depth — follow the size rule above.\n- OUTPUT ONLY THE NOTE. No greetings, no introductions, no conclusions, no commentary, no extra text.\n\nSTYLE EXAMPLES:\n",
    );
    p.append(examples);
    p.append("\n\n");
    p.append(size_reminder(size));
    p.append("\n\nOUTPUT:");
    p
}

/// The prompt of the note-writing stage of weak mode.
pub open spec fn stage2_prompt_of(
    topic: Seq<char>,
    lang: Seq<char>,
    size: Seq<char>,
    hint: Seq<char>,
    covered: Seq<char>,
) -> Seq<char> {
    "Now use the style patterns you identified above.\n\nWrite a study note about \""@ + topic
        + "\".\n\nSTRICT RULES — YOU MUST FOLLOW EVERY ONE:\n- Language: "@ + lang
        + ". Write ONLY in this language. Zero words in any other language.\n- Size: "@
        + size_instruction_of(size) + "\n"@ + hint + covered
        + "- Use EXACTLY the heading style, list style, code style, section structure, and tone from your analysis above.\n- Do NOT add introductions like \"Here is your note\" or \"This note covers\".\n- Do NOT add conclusions like \"In summary\" or \"I hope this helps\".\n- OUTPUT ONLY THE NOTE. Nothing before. Nothing after.\n\n"@
        + size_reminder_of(size) + "\n\nOUTPUT:"@
}

/// The prompt of the note-writing stage of weak mode.
pub fn stage2_prompt(topic: &str, lang: &str, size: &str, hint: &str, covered: &str) -> (res: String)
    ensures
        res@ == stage2_prompt_of(topic@, lang@, size@, hint@, covered@),
{
    let mut p = String::from_str("Now use the style patterns you identified above.\n\nWrite a study note about \"");
    p.append(topic);
    p.append("\".\n\nSTRICT RULES — YOU MUST FOLLOW EVERY ONE:\n- Language: ");
    p.append(lang);
    p.append(". Write ONLY in this language. Zero words in any other language.\n- Size: ");
    p.append(size_instruction(size));
    p.append("\n");
    p.append(hint);
    p.append(covered);
    p.append(
        "- Use EXACTLY the heading style, list style, code style, section structure, and tone from your analysis above.\n- Do NOT add introductions like \"Here is your note\" or \"This note covers\".\n- Do NOT add conclusions like \"In summary\" or \"I hope this helps\".\n- OUTPUT ONLY THE NOTE. Nothing before. Nothing after.\n\n",
    );
    p.append(size_reminder(size));
    p.append("\n\nOUTPUT:");
    p
}

/// The messages of a chat: the system message, then the others in order.
pub fn chat_messages(system: &str, rest: Vec<Json>) -> (res: Json)
    ensures
        res@ == JsonV::Array(seq![message_v("system"@, system@)] + values_of(rest@)),
{
    let mut all: Vec<Json> = Vec::new();
    all.push(message_json("system", system));
    let ghost first = all@;
    let mut rest = rest;
    let ghost r = rest@;
    all.append(&mut rest);
    assert(values_of(all@) =~= seq![message_v("system"@, system@)] + values_of(r));
    json_array(all)
}

/// The progress line that announces a request for a note.
pub open spec fn status_line_of(
    index: nat,
    total: nat,
    model: Seq<char>,
    topic: Seq<char>,
    examples: nat,
    weak_mode: bool,
) -> Seq<char> {
    "["@ + decimal(index + 1) + "/"@ + decimal(total) + "] Sending request (Model: "@ + model
        + ", Topic: \""@ + topic + "\", style examples: "@ + decimal(examples) + ")"@
        + (if weak_mode { " [weak-mode: 2 stages]"@ } else { ""@ }) + "..."@
}

/// The progress line that announces a request for a note.
pub fn status_line(
    index: usize,
    total: usize,
    model: &str,
    topic: &str,
    examples: u32,
    weak_mode: bool,
) -> (res: String)
    ensures
        res@ == status_line_of(index as nat, total as nat, model@, topic@, examples as nat, weak_mode),
{
    let mut s = String::from_str("[");
    s.append(decimal_string(index as u128 + 1).as_str());
    s.append("/");
    s.append(decimal_string(total as u128).as_str());
    s.append("] Sending request (Model: ");
    s.append(model);
    s.append(", Topic: \"");
    s.append(topic);
    s.append("\", style examples: ");
    s.append(decimal_string(examples as u128).as_str());
    s.append(")");
    s.append(if weak_mode { " [weak-mode: 2 stages]" } else { "" });
    s.append("...");
    s
}

/// The note prompt carries each of its inputs: it opens with the instructions, the skill
/// preamble, the topic and the language; the hint and the covered-topics line stand
/// together before the style rule; and it ends with the style examples, the size
/// reminder and `OUTPUT:`.
pub proof fn lemma_note_prompt_carries_inputs(
    preamble: Seq<char>,
    topic: Seq<char>,
    lang: Seq<char>,
    size: Seq<char>,
    hint: Seq<char>,
    covered: Seq<char>,
    examples: Seq<char>,
)
    ensures
        starts_with(
            note_prompt_of(preamble, topic, lang, size, hint, covered, examples),
            "You are a strict note-writing assistant. Follow ALL rules EXACTLY.\n\n"@ + preamble
                + "RULES:\n- Write a note about: \""@ + topic + "\"\n- Language: "@ + lang,
        ),
        exists|i: int| occurs_at(
            note_prompt_of(preamble, topic, lang, size, hint, covered, examples),
            "- Size: "@ + size_instruction_of(size) + "\n"@ + hint + covered + "- Use the examples below"@,
            i,
        ),
        ends_with(
            note_prompt_of(preamble, topic, lang, size, hint, covered, examples),
            "STYLE EXAMPLES:\n"@ + examples + "\n\n"@ + size_reminder_of(size) + "\n\nOUTPUT:"@,
        ),
{
    let head = "You are a strict note-writing assistant. Follow ALL rules EXACTLY.\n\n"@ + preamble
        + "RULES:\n- Write a note about: \""@ + topic + "\"\n- Language: "@ + lang;
    let rules = "- Use the examples below for STYLE ONLY (headings, lists, code blocks). DO NOT copy their length or depth — follow the size rule above.\n- OUTPUT ONLY THE NOTE. No greetings, no introductions, no conclusions, no commentary, no extra text.\n\n"@;
    let marker = "STYLE EXAMPLES:\n"@;
    let tail = marker + examples + "\n\n"@ + size_reminder_of(size) + "\n\nOUTPUT:"@;
    let size_part = "- Size: "@ + size_instruction_of(size) + "\n"@ + hint + covered;
    let mid = ". Write ONLY in this language.\n"@ + size_part + rules;
    let whole = "- Use the examples below for STYLE ONLY (headings, lists, code blocks). DO NOT copy their length or depth — follow the size rule above.\n- OUTPUT ONLY THE NOTE. No greetings, no introductions, no conclusions, no commentary, no extra text.\n\nSTYLE EXAMPLES:\n"@;
    reveal_strlit(". Write ONLY in this language.\n- Size: ");
    reveal_strlit(". Write ONLY in this language.\n");
    reveal_strlit("- Size: ");
    reveal_strlit("- Use the examples below for STYLE ONLY (headings, lists, code blocks). DO NOT copy their length or depth — follow the size rule above.\n- OUTPUT ONLY THE NOTE. No greetings, no introductions, no conclusions, no commentary, no extra text.\n\nSTYLE EXAMPLES:\n");
    reveal_strlit("- Use the examples below for STYLE ONLY (headings, lists, code blocks). DO NOT copy their length or depth — follow the size rule above.\n- OUTPUT ONLY THE NOTE. No greetings, no introductions, no conclusions, no commentary, no extra text.\n\n");
    reveal_strlit("STYLE EXAMPLES:\n");
    reveal_strlit("- Use the examples below");
    assert(". Write ONLY in this language.\n- Size: "@ =~= ". Write ONLY in this language.\n"@ + "- Size: "@);
    assert(whole =~= rules + marker);
    let prompt = note_prompt_of(preamble, topic, lang, size, hint, covered, examples);
    assert(prompt =~= head + mid + tail);
    assert(prompt.subrange(0, head.len() as int) =~= head);
    assert(prompt.subrange(prompt.len() - tail.len(), prompt.len() as int) =~= tail);
    let use_line = "- Use the examples below"@;
    assert(rules.subrange(0, use_line.len() as int) =~= use_line);
    let needle = size_part + use_line;
    let i: int = (head.len() + ". Write ONLY in this language.\n"@.len()) as int;
    assert(prompt.subrange(i, i + needle.len()) =~= needle);
    assert(occurs_at(prompt, needle, i));
}

/// The prompt of weak mode's note-writing stage carries its inputs: it opens with the
/// topic and the language, holds the size rule with the hint and the covered-topics line
/// right after it, and ends with the size reminder and `OUTPUT:`.
pub proof fn lemma_stage2_prompt_carries_inputs(
    topic: Seq<char>,
    lang: Seq<char>,
    size: Seq<char>,
    hint: Seq<char>,
    covered: Seq<char>,
)
    ensures
        starts_with(
            stage2_prompt_of(topic, lang, size, hint, covered),
            "Now use the style patterns you identified above.\n\nWrite a study note about \""@ + topic
                + "\".\n\nSTRICT RULES — YOU MUST FOLLOW EVERY ONE:\n- Language: "@ + lang,
        ),
        exists|i: int| occurs_at(
            stage2_prompt_of(topic, lang, size, hint, covered),
            "- Size: "@ + size_instruction_of(size) + "\n"@ + hint + covered,
            i,
        ),
        ends_with(stage2_prompt_of(topic, lang, size, hint, covered), size_reminder_of(size) + "\n\nOUTPUT:"@),
{
    let head = "Now use the style patterns you identified above.\n\nWrite a study note about \""@ + topic
        + "\".\n\nSTRICT RULES — YOU MUST FOLLOW EVERY ONE:\n- Language: "@ + lang;
    let lead = ". Write ONLY in this language. Zero words in any other language.\n"@;
    let size_part = "- Size: "@ + size_instruction_of(size) + "\n"@ + hint + covered;
    let rules = "- Use EXACTLY the heading style, list style, code style, section structure, and tone from your analysis above.\n- Do NOT add introductions like \"Here is your note\" or \"This note covers\".\n- Do NOT add conclusions like \"In summary\" or \"I hope this helps\".\n- OUTPUT ONLY THE NOTE. Nothing before. Nothing after.\n\n"@;
    let tail = size_reminder_of(size) + "\n\nOUTPUT:"@;
    reveal_strlit(". Write ONLY in this language. Zero words in any other language.\n- Size: ");
    reveal_strlit(". Write ONLY in this language. Zero words in any other language.\n");
    reveal_strlit("- Size: ");
    assert(". Write ONLY in this language. Zero words in any other language.\n- Size: "@ =~= lead + "- Size: "@);
    let prompt = stage2_prompt_of(topic, lang, size, hint, covered);
    assert(prompt =~= head + lead + size_part + rules + tail);
    assert(prompt.subrange(0, head.len() as int) =~= head);
    assert(prompt.subrange(prompt.len() - tail.len(), prompt.len() as int) =~= tail);
    let i: int = (head.len() + lead.len()) as int;
    assert(prompt.subrange(i, i + size_part.len()) =~= size_part);
    assert(occurs_at(prompt, size_part, i));
}

} // verus!
