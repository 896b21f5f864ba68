//! How the settings of a run are chosen from the command line, the selected profile
//! and the root of the configuration file.
use vstd::prelude::*;
use crate::provider::{Provider, provider_named, unknown_provider_message};
use crate::text::{
    chars_of, ends_with, ends_with_exec, starts_with, starts_with_exec, str_equal,
    string_from_chars, to_owned_string, trim, trim_exec,
};

verus! {

/// `serde`'s default for a missing logging switch: on.
pub fn default_true() -> (res: bool)
    ensures
        res,
{
    true
}

/// The logging switches as a `[log]` table gives them.
#[derive(Clone, Copy, Debug, PartialEq, Eq, Structural)]
pub struct LogTable {
    pub prompt: bool,
    pub response: bool,
    pub status: bool,
    pub timing: bool,
}

/// The `log` setting: one switch for everything, or a table of switches.
#[derive(Clone, Copy, Debug, PartialEq, Eq, Structural)]
pub enum LogRaw {
    Bool(bool),
    Table(LogTable),
}

/// Which kinds of output a run prints.
#[derive(Clone, Copy, Debug, PartialEq, Eq, Structural)]
pub struct Log {
    pub prompt: bool,
    pub response: bool,
    pub status: bool,
    pub timing: bool,
}

/// The switches that a `log` setting selects: without one, status and timing only.
pub open spec fn log_of(raw: Option<LogRaw>) -> Log {
    match raw {
        None => Log { prompt: false, response: false, status: true, timing: true },
        Some(LogRaw::Bool(b)) => Log { prompt: b, response: b, status: b, timing: b },
        Some(LogRaw::Table(t)) => Log {
            prompt: t.prompt,
            response: t.response,
            status: t.status,
            timing: t.timing,
        },
    }
}

/// The line to print for `msg` where its switch is on.
pub open spec fn shown(on: bool, msg: Seq<char>) -> Option<Seq<char>> {
    if on {
        Some(msg)
    } else {
        None
    }
}

pub open spec fn opt_str_v(o: Option<String>) -> Option<Seq<char>> {
    match o {
        Some(s) => Some(s@),
        None => None,
    }
}

impl Log {
    /// The switches that a `log` setting selects.
    pub fn resolve(raw: Option<LogRaw>) -> (res: Log)
        ensures
            res == log_of(raw),
    {
        match raw {
            None => Log { prompt: false, response: false, status: true, timing: true },
            Some(LogRaw::Bool(true)) => Log { prompt: true, response: true, status: true, timing: true },
            Some(LogRaw::Bool(false)) => Log {
                prompt: false,
                response: false,
                status: false,
                timing: false,
            },
            Some(LogRaw::Table(t)) => Log {
                prompt: t.prompt,
                response: t.response,
                status: t.status,
                timing: t.timing,
            },
        }
    }

    /// `msg` where `on`, else nothing to print.
    pub fn out(&self, on: bool, msg: &str) -> (res: Option<String>)
        ensures
            opt_str_v(res) == shown(on, msg@),
    {
        if on {
            Some(to_owned_string(msg))
        } else {
            None
        }
    }

    /// A prompt, framed, where prompts are shown.
    pub fn prompt(&self, msg: &str) -> (res: Option<String>)
        ensures
            opt_str_v(res) == shown(self.prompt, "[PROMPT]\n"@ + msg@ + "\n[/PROMPT]"@),
    {
        let mut framed = String::from_str("[PROMPT]\n");
        framed.append(msg);
        framed.append("\n[/PROMPT]");
        self.out(self.prompt, framed.as_str())
    }

    /// A response, framed, where responses are shown.
    pub fn response(&self, msg: &str) -> (res: Option<String>)
        ensures
            opt_str_v(res) == shown(self.response, "[RESPONSE]\n"@ + msg@ + "\n[/RESPONSE]"@),
    {
        let mut framed = String::from_str("[RESPONSE]\n");
        framed.append(msg);
        framed.append("\n[/RESPONSE]");
        self.out(self.response, framed.as_str())
    }

    /// A progress message, where those are shown.
    pub fn status(&self, msg: &str) -> (res: Option<String>)
        ensures
            opt_str_v(res) == shown(self.status, msg@),
    {
        self.out(self.status, msg)
    }

    /// A timing message, where those are shown.
    pub fn timing(&self, msg: &str) -> (res: Option<String>)
        ensures
            opt_str_v(res) == shown(self.timing, msg@),
    {
        self.out(self.timing, msg)
    }
}

/// The first of three optional values that is given.
pub open spec fn first_given<T>(cli: Option<T>, profile: Option<T>, root: Option<T>) -> Option<T> {
    match cli {
        Some(v) => Some(v),
        None => match profile {
            Some(v) => Some(v),
            None => root,
        },
    }
}

/// A setting by precedence: the command line over the profile over the root.
pub fn pick<T>(cli: Option<T>, profile: Option<T>, root: Option<T>) -> (res: Option<T>)
    ensures
        res == first_given(cli, profile, root),
{
    match cli {
        Some(v) => Some(v),
        None => match profile {
            Some(v) => Some(v),
            None => root,
        },
    }
}

/// The message for a required setting that is given nowhere.
pub open spec fn missing_message(name: Seq<char>) -> Seq<char> {
    name + " is not set in config.toml or via CLI"@
}

/// A required setting, or the message that it is missing.
pub fn req<T>(v: Option<T>, name: &str) -> (res: Result<T, String>)
    ensures
        match v {
            Some(x) => res == Ok::<T, String>(x),
            None => res matches Err(e) && e@ == missing_message(name@),
        },
{
    match v {
        Some(x) => Ok(x),
        None => {
            let mut msg = to_owned_string(name);
            msg.append(" is not set in config.toml or via CLI");
            Err(msg)
        },
    }
}

/// The settings that one level of the configuration file gives (the root or a profile).
/// A temperature is given by the bits of its `f32`.
pub struct ConfigValues {
    pub model: Option<String>,
    pub api_url: Option<String>,
    pub provider: Option<String>,
    pub api_key: Option<String>,
    pub notes_dir: Option<String>,
    pub notes_include: Option<Vec<String>>,
    pub lang: Option<String>,
    pub note_size: Option<String>,
    pub notes_count: Option<u32>,
    pub use_covered_topics: Option<bool>,
    pub weak_mode: Option<bool>,
    pub temperature: Option<u32>,
    pub skill: Option<String>,
    pub log: Option<LogRaw>,
}

impl ConfigValues {
    /// A level that gives nothing.
    pub fn empty() -> (res: ConfigValues)
        ensures
            res.model is None && res.api_url is None && res.provider is None
                && res.api_key is None && res.notes_dir is None && res.notes_include is None
                && res.lang is None && res.note_size is None && res.notes_count is None
                && res.use_covered_topics is None && res.weak_mode is None
                && res.temperature is None && res.skill is None && res.log is None,
    {
        ConfigValues {
            model: None,
            api_url: None,
            provider: None,
            api_key: None,
            notes_dir: None,
            notes_include: None,
            lang: None,
            note_size: None,
            notes_count: None,
            use_covered_topics: None,
            weak_mode: None,
            temperature: None,
            skill: None,
            log: None,
        }
    }
}

/// The settings given on the command line.
pub struct CliArgs {
    pub model: Option<String>,
    pub api_url: Option<String>,
    pub provider: Option<String>,
    pub notes_dir: Option<String>,
    pub lang: Option<String>,
    pub note_size: Option<String>,
    pub notes_count: Option<u32>,
    pub use_covered_topics: Option<bool>,
    pub weak_mode: Option<bool>,
    pub skill: Option<String>,
    pub profile: Option<String>,
    pub api_key: Option<String>,
}

fn clone_opt(o: &Option<String>) -> (res: Option<String>)
    ensures
        res == *o,
{
    match o {
        Some(s) => Some(s.clone()),
        None => None,
    }
}

/// The provider that the settings name (`ollama` where none does), or the message
/// that rejects the name.
pub open spec fn provider_choice(a: Option<String>, p: Option<String>, r: Option<String>) -> Result<Provider, Seq<char>> {
    let name = match opt_str_v(first_given(a, p, r)) {
        Some(n) => n,
        None => "ollama"@,
    };
    match provider_named(name) {
        Some(pr) => Ok(pr),
        None => Err(unknown_provider_message(name)),
    }
}

/// The provider that the settings select.
pub fn resolve_provider(args: &CliArgs, profile: &ConfigValues, root: &ConfigValues) -> (res: Result<Provider, String>)
    ensures
        match provider_choice(args.provider, profile.provider, root.provider) {
            Ok(p) => res == Ok::<Provider, String>(p),
            Err(m) => res matches Err(e) && e@ == m,
        },
{
    let name = match pick(clone_opt(&args.provider), clone_opt(&profile.provider), clone_opt(&root.provider)) {
        Some(n) => n,
        None => String::from_str("ollama"),
    };
    Provider::from_str(name.as_str())
}

/// Whether a provider is a cloud service that needs an API key.
pub open spec fn needs_api_key(p: Provider) -> bool {
    p == Provider::OpenAI || p == Provider::Anthropic || p == Provider::Gemini
}

/// Where the API key of a run comes from.
#[derive(Debug, PartialEq, Eq)]
pub enum KeySource {
    /// This key.
    Given(String),
    /// Ask the user for it.
    Prompt,
}

/// The API key from the environment: the variable's value, trimmed, where that is not
/// blank.
pub open spec fn env_key_of(raw: Option<Seq<char>>) -> Option<Seq<char>> {
    match raw {
        Some(v) => if trim(v).len() > 0 { Some(trim(v)) } else { None },
        None => None,
    }
}

/// The API key from the environment variable's value, if usable.
pub fn env_api_key(raw: Option<String>) -> (res: Option<String>)
    ensures
        opt_str_v(res) == env_key_of(opt_str_v(raw)),
{
    match raw {
        Some(v) => {
            let c = chars_of(v.as_str());
            let t = trim_exec(&c);
            if t.len() > 0 {
                Some(string_from_chars(&t))
            } else {
                None
            }
        },
        None => None,
    }
}

/// The spec of [`KeySource`] by views.
pub enum KeySourceV {
    Given(Seq<char>),
    Prompt,
}

pub open spec fn key_source_view(k: KeySource) -> KeySourceV {
    match k {
        KeySource::Given(s) => KeySourceV::Given(s@),
        KeySource::Prompt => KeySourceV::Prompt,
    }
}

/// Where the API key comes from: `--api-key` (with no value: ask), then the
/// environment, then the profile and the root; a cloud provider asks where all are
/// missing, a local one goes without a key.
pub open spec fn key_source_of(
    cli: Option<Seq<char>>,
    env: Option<Seq<char>>,
    profile: Option<Seq<char>>,
    root: Option<Seq<char>>,
    p: Provider,
) -> KeySourceV {
    match cli {
        Some(k) => if k == "prompt"@ { KeySourceV::Prompt } else { KeySourceV::Given(k) },
        None => match first_given(env, profile, root) {
            Some(k) => KeySourceV::Given(k),
            None => if needs_api_key(p) { KeySourceV::Prompt } else { KeySourceV::Given(Seq::empty()) },
        },
    }
}

/// The API key is taken by precedence: `--api-key` (whose value `prompt` asks for it),
/// then the environment, then the selected profile, then the root of the file, the last
/// two in the same order as every other setting; with none of them, a cloud provider
/// asks for a key and a local one goes without.
pub proof fn lemma_api_key_precedence(
    cli: Option<Seq<char>>,
    env: Option<Seq<char>>,
    profile: Option<Seq<char>>,
    root: Option<Seq<char>>,
    p: Provider,
)
    ensures
        cli == Some("prompt"@) ==> key_source_of(cli, env, profile, root, p) == KeySourceV::Prompt,
        (cli is Some && cli->0 != "prompt"@) ==> key_source_of(cli, env, profile, root, p) == KeySourceV::Given(cli->0),
        (cli is None && env is Some) ==> key_source_of(cli, env, profile, root, p) == KeySourceV::Given(env->0),
        (cli is None && env is None && profile is Some) ==> key_source_of(cli, env, profile, root, p) == KeySourceV::Given(profile->0),
        (cli is None && env is None && profile is None && root is Some) ==> key_source_of(cli, env, profile, root, p) == KeySourceV::Given(root->0),
        (cli is None && env is None && first_given(None, profile, root) is Some)
            ==> key_source_of(cli, env, profile, root, p) == KeySourceV::Given(first_given(None, profile, root)->0),
        (cli is None && env is None && profile is None && root is None && needs_api_key(p))
            ==> key_source_of(cli, env, profile, root, p) == KeySourceV::Prompt,
        (cli is None && env is None && profile is None && root is None && !needs_api_key(p))
            ==> key_source_of(cli, env, profile, root, p) == KeySourceV::Given(Seq::empty()),
{
}

/// Where the API key of the run comes from, given the key from the environment.
pub fn api_key_source(
    args: &CliArgs,
    env_key: Option<String>,
    profile: &ConfigValues,
    root: &ConfigValues,
    provider: Provider,
) -> (res: KeySource)
    ensures
        key_source_view(res) == key_source_of(
            opt_str_v(args.api_key),
            opt_str_v(env_key),
            opt_str_v(profile.api_key),
            opt_str_v(root.api_key),
            provider,
        ),
{
    match &args.api_key {
        Some(k) => {
            if str_equal(k.as_str(), "prompt") {
                KeySource::Prompt
            } else {
                KeySource::Given(k.clone())
            }
        },
        None => match pick(env_key, clone_opt(&profile.api_key), clone_opt(&root.api_key)) {
            Some(k) => KeySource::Given(k),
            None => {
                if provider == Provider::OpenAI || provider == Provider::Anthropic
                    || provider == Provider::Gemini {
                    KeySource::Prompt
                } else {
                    KeySource::Given(String::new())
                }
            },
        },
    }
}

/// A key typed by the user, trimmed; blank is refused.
pub open spec fn typed_key_of(raw: Seq<char>) -> Result<Seq<char>, Seq<char>> {
    if trim(raw).len() == 0 {
        Err("API key cannot be empty."@)
    } else {
        Ok(trim(raw))
    }
}

/// The key that the user typed, trimmed, or the message that refuses a blank one.
pub fn typed_api_key(raw: &str) -> (res: Result<String, String>)
    ensures
        match typed_key_of(raw@) {
            Ok(k) => res matches Ok(r) && r@ == k,
            Err(m) => res matches Err(e) && e@ == m,
        },
{
    let c = chars_of(raw);
    let t = trim_exec(&c);
    if t.len() == 0 {
        Err(String::from_str("API key cannot be empty."))
    } else {
        Ok(string_from_chars(&t))
    }
}

/// The operating system family, which decides where the configuration lives and how
/// paths are joined.
#[derive(Clone, Copy, Debug, PartialEq, Eq, Structural)]
pub enum Platform {
    Windows,
    MacOs,
    Other,
}

/// Whether `c` separates path components: `/` everywhere, `\` on Windows too.
pub open spec fn is_separator(platform: Platform, c: char) -> bool {
    c == '/' || (platform == Platform::Windows && c == '\\')
}

/// The separator that a join puts between two components.
pub open spec fn separator(platform: Platform) -> char {
    if platform == Platform::Windows {
        '\\'
    } else {
        '/'
    }
}

/// Whether a Windows path starts with a drive, such as `C:`.
pub open spec fn has_drive(p: Seq<char>) -> bool {
    &&& p.len() >= 2
    &&& p[1] == ':'
    &&& ('a' <= p[0] && p[0] <= 'z') || ('A' <= p[0] && p[0] <= 'Z')
}

/// Whether `rest` replaces the whole base in a join: an absolute Unix path; on Windows
/// a path with a drive or one that starts with two separators (a UNC or device path).
pub open spec fn replaces_base(platform: Platform, rest: Seq<char>) -> bool {
    if platform == Platform::Windows {
        has_drive(rest) || (rest.len() >= 2 && is_separator(platform, rest[0])
            && is_separator(platform, rest[1]))
    } else {
        rest.len() > 0 && rest[0] == '/'
    }
}

/// A path joined to a base as `PathBuf::push` does: a path that `replaces_base` replaces
/// it; on Windows a path that starts with one separator keeps only the base's drive;
/// otherwise the platform's separator goes between them, unless the base is empty,
/// ends in a separator or is a bare drive. A drive is the only Windows prefix that this
/// keeps, and the `.` and `..` of a verbatim (`\\?\`) base are left as they are.
pub open spec fn join_path(platform: Platform, base: Seq<char>, rest: Seq<char>) -> Seq<char> {
    if replaces_base(platform, rest) {
        rest
    } else if rest.len() > 0 && is_separator(platform, rest[0]) {
        (if has_drive(base) { base.take(2) } else { Seq::empty() }) + rest
    } else if base.len() == 0 || is_separator(platform, base.last())
        || (platform == Platform::Windows && base.len() == 2 && has_drive(base)) {
        base + rest
    } else {
        base + seq![separator(platform)] + rest
    }
}

fn is_separator_exec(platform: Platform, c: char) -> (res: bool)
    ensures
        res == is_separator(platform, c),
{
    c == '/' || (platform == Platform::Windows && c == '\\')
}

fn has_drive_exec(p: &Vec<char>) -> (res: bool)
    ensures
        res == has_drive(p@),
{
    p.len() >= 2 && p[1] == ':' && (('a' <= p[0] && p[0] <= 'z') || ('A' <= p[0] && p[0] <= 'Z'))
}

/// The path for `rest` joined to `base` on the platform.
pub fn join_path_exec(platform: Platform, base: &str, rest: &str) -> (res: String)
    ensures
        res@ == join_path(platform, base@, rest@),
{
    let b = chars_of(base);
    let r = chars_of(rest);
    let replaces = if platform == Platform::Windows {
        has_drive_exec(&r) || (r.len() >= 2 && is_separator_exec(platform, r[0])
            && is_separator_exec(platform, r[1]))
    } else {
        r.len() > 0 && r[0] == '/'
    };
    if replaces {
        to_owned_string(rest)
    } else if r.len() > 0 && is_separator_exec(platform, r[0]) {
        if has_drive_exec(&b) {
            let drive = crate::text::slice_chars(&b, 0, 2);
            assert(drive@ =~= base@.take(2));
            let mut s = string_from_chars(&drive);
            s.append(rest);
            s
        } else {
            to_owned_string(rest)
        }
    } else if b.len() == 0 || is_separator_exec(platform, b[b.len() - 1])
        || (platform == Platform::Windows && b.len() == 2 && has_drive_exec(&b)) {
        let mut s = to_owned_string(base);
        s.append(rest);
        s
    } else {
        let mut s = to_owned_string(base);
        if platform == Platform::Windows {
            proof {
                reveal_strlit("\\");
            }
            s.append("\\");
        } else {
            proof {
                reveal_strlit("/");
            }
            s.append("/");
        }
        assert(s@ =~= base@ + seq![separator(platform)]);
        s.append(rest);
        s
    }
}

/// `~` and `~/...` resolved against the home directory (`.` for a bare `~` where there
/// is no home); any other path as it is.
pub open spec fn expand_home_of(path: Seq<char>, home: Option<Seq<char>>, platform: Platform) -> Seq<char> {
    if path == "~"@ {
        match home {
            Some(h) => h,
            None => "."@,
        }
    } else if starts_with(path, "~/"@) && home is Some {
        join_path(platform, home->0, path.skip(2))
    } else {
        path
    }
}

/// A path with a leading `~` resolved against the home directory.
pub fn expand_home(path: &str, home: Option<String>, platform: Platform) -> (res: String)
    ensures
        res@ == expand_home_of(path@, opt_str_v(home), platform),
{
    let p = chars_of(path);
    let tilde = chars_of("~");
    let tilde_slash = chars_of("~/");
    proof {
        reveal_strlit("~/");
    }
    if crate::text::chars_equal(&p, &tilde) {
        match home {
            Some(h) => h,
            None => String::from_str("."),
        }
    } else if starts_with_exec(&p, &tilde_slash) {
        match home {
            Some(h) => {
                let rest = crate::text::slice_chars(&p, 2, p.len());
                assert(rest@ == p@.skip(2));
                let rest_s = string_from_chars(&rest);
                join_path_exec(platform, h.as_str(), rest_s.as_str())
            },
            None => to_owned_string(path),
        }
    } else {
        to_owned_string(path)
    }
}

/// A file name with `.md` added where it does not end in it.
pub open spec fn with_md(n: Seq<char>) -> Seq<char> {
    if ends_with(n, ".md"@) {
        n
    } else {
        n + ".md"@
    }
}

/// The example files that `notes_include` lists, each with `.md`; none where the list
/// is missing or empty.
pub open spec fn include_list_of(v: Option<Vec<String>>) -> Option<Seq<Seq<char>>> {
    match v {
        Some(l) => if l@.len() > 0 {
            Some(l@.map_values(|n: String| with_md(n@)))
        } else {
            None
        },
        None => None,
    }
}

pub open spec fn size_ok(s: Seq<char>) -> bool {
    s == "small"@ || s == "mid"@ || s == "big"@
}

/// The message that refuses a note size.
pub open spec fn bad_size_message(s: Seq<char>) -> Seq<char> {
    "note_size must be either \"small\", \"mid\", or \"big\", got \""@ + s + "\""@
}

pub open spec fn count_of(a: CliArgs, p: ConfigValues, r: ConfigValues) -> u32 {
    match first_given(a.notes_count, p.notes_count, r.notes_count) {
        Some(n) => n,
        None => 7,
    }
}

/// Why the settings cannot be used, checked in this order: a required setting missing,
/// a note size that is not `small`, `mid` or `big`, a note count of 0.
pub open spec fn settings_error(a: CliArgs, p: ConfigValues, r: ConfigValues) -> Option<Seq<char>> {
    if first_given(a.model, p.model, r.model) is None {
        Some(missing_message("model"@))
    } else if first_given(a.api_url, p.api_url, r.api_url) is None {
        Some(missing_message("api_url"@))
    } else if first_given(a.notes_dir, p.notes_dir, r.notes_dir) is None {
        Some(missing_message("notes_dir"@))
    } else if first_given(a.lang, p.lang, r.lang) is None {
        Some(missing_message("lang"@))
    } else if first_given(a.note_size, p.note_size, r.note_size) is None {
        Some(missing_message("note_size"@))
    } else if !size_ok(first_given(a.note_size, p.note_size, r.note_size)->0@) {
        Some(bad_size_message(first_given(a.note_size, p.note_size, r.note_size)->0@))
    } else if count_of(a, p, r) == 0 {
        Some("notes_count is set to 0, nothing to load."@)
    } else {
        None
    }
}

/// The view of a required string setting.
pub open spec fn given_str(a: Option<String>, p: Option<String>, r: Option<String>) -> Seq<char> {
    first_given(a, p, r)->0@
}

/// The settings of a run, once chosen and checked.
pub struct Settings {
    pub model: String,
    pub api_url: String,
    /// The notes directory, with `~` resolved.
    pub notes_path: String,
    pub notes_include: Option<Vec<String>>,
    pub lang: String,
    pub note_size: String,
    pub notes_count: u32,
    pub use_covered: bool,
    pub weak_mode: bool,
    /// The temperature, by the bits of its `f32`.
    pub temperature: Option<u32>,
    /// The skill file, with `~` resolved.
    pub skill_path: Option<String>,
    pub log: Log,
}

pub open spec fn opt_strs_v(o: Option<Vec<String>>) -> Option<Seq<Seq<char>>> {
    match o {
        Some(v) => Some(v@.map_values(|s: String| s@)),
        None => None,
    }
}

fn include_list(v: Option<&Vec<String>>) -> (res: Option<Vec<String>>)
    ensures
        opt_strs_v(res) == include_list_of(match v { Some(l) => Some(*l), None => None }),
{
    match v {
        Some(l) => {
            if l.len() == 0 {
                return None;
            }
            let md = chars_of(".md");
            let mut out: Vec<String> = Vec::new();
            let mut i: usize = 0;
            while i < l.len()
                invariant
                    i <= l.len(),
                    md@ == ".md"@,
                    out@.map_values(|s: String| s@) == l@.take(i as int).map_values(|n: String| with_md(n@)),
                decreases l.len() - i,
            {
                let n = chars_of(l[i].as_str());
                let item = if ends_with_exec(&n, &md) {
                    l[i].clone()
                } else {
                    let mut t = l[i].clone();
                    t.append(".md");
                    t
                };
                let ghost before = out@;
                out.push(item);
                assert(l@.take(i + 1) =~= l@.take(i as int).push(l@[i as int]));
                assert(out@.map_values(|s: String| s@) =~= before.map_values(|s: String| s@).push(item@));
                assert(l@.take(i + 1).map_values(|n: String| with_md(n@)) =~= l@.take(i as int).map_values(|n: String| with_md(n@)).push(with_md(l@[i as int]@)));
                i = i + 1;
            }
            assert(l@.take(l.len() as int) =~= l@);
            Some(out)
        },
        None => None,
    }
}

/// The settings of a run, chosen by precedence (command line, then profile, then root;
/// `notes_include`, `temperature` and `log` come from the file only), with `~` resolved
/// in the notes directory and the skill path against `home`; or the message for the
/// first problem found.
pub fn resolve_settings(
    args: &CliArgs,
    profile: &ConfigValues,
    root: &ConfigValues,
    home: Option<String>,
    platform: Platform,
) -> (res: Result<Settings, String>)
    ensures
        res is Err <==> settings_error(*args, *profile, *root) is Some,
        res matches Err(e) ==> Some(e@) == settings_error(*args, *profile, *root),
        res matches Ok(s) ==> {
            &&& s.model@ == given_str(args.model, profile.model, root.model)
            &&& s.api_url@ == given_str(args.api_url, profile.api_url, root.api_url)
            &&& s.notes_path@ == expand_home_of(
                given_str(args.notes_dir, profile.notes_dir, root.notes_dir),
                opt_str_v(home),
                platform,
            )
            &&& opt_strs_v(s.notes_include) == include_list_of(
                first_given(None, profile.notes_include, root.notes_include),
            )
            &&& s.lang@ == given_str(args.lang, profile.lang, root.lang)
            &&& s.note_size@ == given_str(args.note_size, profile.note_size, root.note_size)
            &&& s.notes_count == count_of(*args, *profile, *root)
            &&& s.use_covered == match first_given(
                args.use_covered_topics,
                profile.use_covered_topics,
                root.use_covered_topics,
            ) {
                Some(b) => b,
                None => false,
            }
            &&& s.weak_mode == match first_given(args.weak_mode, profile.weak_mode, root.weak_mode) {
                Some(b) => b,
                None => false,
            }
            &&& s.temperature == first_given(None, profile.temperature, root.temperature)
            &&& opt_str_v(s.skill_path) == match first_given(args.skill, profile.skill, root.skill) {
                Some(p) => Some(expand_home_of(p@, opt_str_v(home), platform)),
                None => None,
            }
            &&& s.log == log_of(first_given(None, profile.log, root.log))
        },
{
    let model = match req(pick(clone_opt(&args.model), clone_opt(&profile.model), clone_opt(&root.model)), "model") {
        Ok(v) => v,
        Err(e) => return Err(e),
    };
    let api_url = match req(
        pick(clone_opt(&args.api_url), clone_opt(&profile.api_url), clone_opt(&root.api_url)),
        "api_url",
    ) {
        Ok(v) => v,
        Err(e) => return Err(e),
    };
    let notes_dir = match req(
        pick(clone_opt(&args.notes_dir), clone_opt(&profile.notes_dir), clone_opt(&root.notes_dir)),
        "notes_dir",
    ) {
        Ok(v) => v,
        Err(e) => return Err(e),
    };
    let chosen: Option<&Vec<String>> = match &profile.notes_include {
        Some(l) => Some(l),
        None => match &root.notes_include {
            Some(l) => Some(l),
            None => None,
        },
    };
    let notes_include = include_list(chosen);
    let lang = match req(pick(clone_opt(&args.lang), clone_opt(&profile.lang), clone_opt(&root.lang)), "lang") {
        Ok(v) => v,
        Err(e) => return Err(e),
    };
    let note_size = match req(
        pick(clone_opt(&args.note_size), clone_opt(&profile.note_size), clone_opt(&root.note_size)),
        "note_size",
    ) {
        Ok(v) => v,
        Err(e) => return Err(e),
    };
    if !str_equal(note_size.as_str(), "small") && !str_equal(note_size.as_str(), "mid")
        && !str_equal(note_size.as_str(), "big") {
        let mut msg = String::from_str("note_size must be either \"small\", \"mid\", or \"big\", got \"");
        msg.append(note_size.as_str());
        msg.append("\"");
        return Err(msg);
    }
    let notes_count = match pick(args.notes_count, profile.notes_count, root.notes_count) {
        Some(n) => n,
        None => 7,
    };
    if notes_count == 0 {
        return Err(String::from_str("notes_count is set to 0, nothing to load."));
    }
    let use_covered = match pick(args.use_covered_topics, profile.use_covered_topics, root.use_covered_topics) {
        Some(b) => b,
        None => false,
    };
    let weak_mode = match pick(args.weak_mode, profile.weak_mode, root.weak_mode) {
        Some(b) => b,
        None => false,
    };
    let temperature = pick(None, profile.temperature, root.temperature);
    let notes_path = expand_home(notes_dir.as_str(), clone_opt(&home), platform);
    let skill_path = match pick(clone_opt(&args.skill), clone_opt(&profile.skill), clone_opt(&root.skill)) {
        Some(p) => Some(expand_home(p.as_str(), clone_opt(&home), platform)),
        None => None,
    };
    let log = Log::resolve(pick(None, profile.log, root.log));
    Ok(Settings {
        model,
        api_url,
        notes_path,
        notes_include,
        lang,
        note_size,
        notes_count,
        use_covered,
        weak_mode,
        temperature,
        skill_path,
        log,
    })
}

/// The content of a skill file, where it is not blank.
pub open spec fn skill_of(content: Seq<char>) -> Option<Seq<char>> {
    if trim(content).len() > 0 {
        Some(content)
    } else {
        None
    }
}

/// The skill rules of a run: the file's content, unless it is blank.
pub fn skill_text(content: String) -> (res: Option<String>)
    ensures
        opt_str_v(res) == skill_of(content@),
{
    let c = chars_of(content.as_str());
    let t = trim_exec(&c);
    if t.len() > 0 {
        Some(content)
    } else {
        None
    }
}

/// Whether a level of the configuration gives nothing.
pub open spec fn gives_nothing(v: ConfigValues) -> bool {
    v.model is None && v.api_url is None && v.provider is None && v.api_key is None
        && v.notes_dir is None && v.notes_include is None && v.lang is None
        && v.note_size is None && v.notes_count is None && v.use_covered_topics is None
        && v.weak_mode is None && v.temperature is None && v.skill is None && v.log is None
}

/// The profile-level settings of a run, and a warning to print, if any.
pub struct ProfileSelection {
    pub values: ConfigValues,
    pub warning: Option<String>,
}

/// The index of the first profile named `name`.
pub open spec fn profile_index(entries: Seq<(String, ConfigValues)>, name: Seq<char>) -> Option<int>
    decreases entries.len(),
{
    if entries.len() == 0 {
        None
    } else if entries.last().0@ == name {
        match profile_index(entries.drop_last(), name) {
            Some(i) => Some(i),
            None => Some(entries.len() - 1),
        }
    } else {
        profile_index(entries.drop_last(), name)
    }
}

pub proof fn lemma_profile_index(entries: Seq<(String, ConfigValues)>, name: Seq<char>)
    ensures
        profile_index(entries, name) matches Some(i) ==> 0 <= i < entries.len() && entries[i].0@ == name,
        profile_index(entries, name) is None ==> forall|j: int| 0 <= j < entries.len() ==> entries[j].0@ != name,
    decreases entries.len(),
{
    if entries.len() > 0 {
        lemma_profile_index(entries.drop_last(), name);
        assert forall|j: int| 0 <= j < entries.len() - 1 implies entries.drop_last()[j] == entries[j] by {}
    }
}

pub open spec fn no_flag_message() -> Seq<char> {
    "--profile flag requires [profile] sections in config.toml"@
}

pub open spec fn no_default_warning() -> Seq<char> {
    "Warning: no default profile set and --profile not passed; using root-level settings"@
}

pub open spec fn unknown_profile_message(name: Seq<char>) -> Seq<char> {
    "profile '"@ + name + "' not found in config.toml"@
}

/// The profiles of a file, by name: no name stands twice, as in the table they come from.
pub open spec fn distinct_profile_names(entries: Seq<(String, ConfigValues)>) -> bool {
    forall|i: int, j: int| 0 <= i < j < entries.len() ==> #[trigger] entries[i].0@ != #[trigger] entries[j].0@
}

/// With distinct names, the profile found for a name is the one of that name, wherever it
/// stands in the list.
pub proof fn lemma_profile_named(entries: Seq<(String, ConfigValues)>, name: Seq<char>, i: int)
    requires
        distinct_profile_names(entries),
        0 <= i < entries.len(),
        entries[i].0@ == name,
    ensures
        profile_index(entries, name) == Some(i),
{
    assert forall|j: int| 0 <= j < i implies entries[j].0@ != name by {
        assert(entries[j].0@ != entries[i].0@);
    }
    lemma_profile_first(entries, name, i);
}

/// Whether the file has `[profile]` sections.
pub open spec fn has_profiles(profiles: Option<Vec<(String, ConfigValues)>>) -> bool {
    match profiles {
        Some(v) => v@.len() > 0,
        None => false,
    }
}

/// The profile that a run uses: the one `--profile` names, else the file's `default`.
/// Without profile sections, or without a name for one, the root settings apply alone
/// (the latter with a warning); `--profile` without sections and a name without a
/// section are refused.
pub fn select_profile(
    cli_profile: Option<String>,
    default: Option<String>,
    profiles: Option<Vec<(String, ConfigValues)>>,
) -> (res: Result<ProfileSelection, String>)
    requires
        profiles matches Some(v) ==> distinct_profile_names(v@),
    ensures
        !has_profiles(profiles) ==> match cli_profile {
            Some(_) => res matches Err(e) && e@ == no_flag_message(),
            None => res matches Ok(sel) && gives_nothing(sel.values) && sel.warning is None,
        },
        has_profiles(profiles) ==> match first_given(cli_profile, default, None) {
            None => res matches Ok(sel) && gives_nothing(sel.values)
                && opt_str_v(sel.warning) == Some(no_default_warning()),
            Some(name) => match profile_index(profiles->0@, name@) {
                Some(i) => res matches Ok(sel) && sel.values == profiles->0@[i].1
                    && sel.warning is None,
                None => res matches Err(e) && e@ == unknown_profile_message(name@),
            },
        },
{
    let mut list = match profiles {
        Some(v) => v,
        None => Vec::new(),
    };
    if list.len() == 0 {
        return match cli_profile {
            Some(_) => Err(String::from_str("--profile flag requires [profile] sections in config.toml")),
            None => Ok(ProfileSelection { values: ConfigValues::empty(), warning: None }),
        };
    }
    let name = match pick(cli_profile, default, None) {
        Some(n) => n,
        None => {
            return Ok(ProfileSelection {
                values: ConfigValues::empty(),
                warning: Some(String::from_str(
                    "Warning: no default profile set and --profile not passed; using root-level settings",
                )),
            });
        },
    };
    match find_profile(&list, name.as_str()) {
        Some(i) => {
            proof {
                lemma_profile_index(list@, name@);
            }
            let (_, values) = list.remove(i);
            return Ok(ProfileSelection { values, warning: None });
        },
        None => {},
    }
    let mut msg = String::from_str("profile '");
    msg.append(name.as_str());
    msg.append("' not found in config.toml");
    Err(msg)
}

fn find_profile(list: &Vec<(String, ConfigValues)>, name: &str) -> (res: Option<usize>)
    ensures
        match res { Some(i) => Some(i as int), None => None } == profile_index(list@, name@),
{
    let ghost entries = list@;
    proof {
        lemma_profile_index(entries, name@);
    }
    let mut i: usize = 0;
    while i < list.len()
        invariant
            i <= list.len(),
            list@ == entries,
            profile_index(entries, name@) matches Some(k) ==> i <= k,
            profile_index(entries, name@) is None ==> forall|j: int| 0 <= j < entries.len() ==> entries[j].0@ != name@,
            profile_index(entries, name@) matches Some(k) ==> 0 <= k < entries.len() && entries[k].0@ == name@,
            forall|j: int| 0 <= j < i ==> entries[j].0@ != name@,
        decreases list.len() - i,
    {
        if str_equal(list[i].0.as_str(), name) {
            proof {
                lemma_profile_first(entries, name@, i as int);
            }
            return Some(i);
        }
        i = i + 1;
    }
    None
}

proof fn lemma_profile_first(entries: Seq<(String, ConfigValues)>, name: Seq<char>, i: int)
    requires
        0 <= i < entries.len(),
        entries[i].0@ == name,
        forall|j: int| 0 <= j < i ==> entries[j].0@ != name,
    ensures
        profile_index(entries, name) == Some(i),
    decreases entries.len(),
{
    lemma_profile_index(entries.drop_last(), name);
    if i < entries.len() - 1 {
        assert forall|j: int| 0 <= j < i implies entries.drop_last()[j].0@ != name by {
            assert(entries.drop_last()[j] == entries[j]);
        }
        assert(entries.drop_last()[i] == entries[i]);
        lemma_profile_first(entries.drop_last(), name, i);
    } else {
        assert forall|j: int| 0 <= j < entries.drop_last().len() implies entries.drop_last()[j].0@ != name by {
            assert(entries.drop_last()[j] == entries[j]);
        }
    }
}

/// The directory that holds the per-user configuration: `%APPDATA%` on Windows,
/// `~/Library/Application Support` on macOS, else `$XDG_CONFIG_HOME` or `~/.config`;
/// empty where the variables it needs are not set.
pub open spec fn config_dir_of(
    platform: Platform,
    appdata: Option<Seq<char>>,
    home: Option<Seq<char>>,
    xdg: Option<Seq<char>>,
) -> Seq<char> {
    match platform {
        Platform::Windows => match appdata {
            Some(a) => a,
            None => Seq::empty(),
        },
        Platform::MacOs => match home {
            Some(h) => h + "/Library/Application Support"@,
            None => Seq::empty(),
        },
        Platform::Other => match xdg {
            Some(x) => x,
            None => match home {
                Some(h) => h + "/.config"@,
                None => Seq::empty(),
            },
        },
    }
}

/// The path of `config.toml`, under a `Genote` directory in the configuration directory;
/// none where that directory is unknown (empty), as the file is never looked for in the
/// working directory.
pub open spec fn config_path_of(
    platform: Platform,
    appdata: Option<Seq<char>>,
    home: Option<Seq<char>>,
    xdg: Option<Seq<char>>,
) -> Option<Seq<char>> {
    let dir = config_dir_of(platform, appdata, home, xdg);
    if dir.len() == 0 {
        None
    } else {
        Some(join_path(platform, join_path(platform, dir, "Genote"@), "config.toml"@))
    }
}

/// The path of the configuration file, from the environment variables it depends on,
/// or `None` where they do not locate a configuration directory.
pub fn config_path(
    platform: Platform,
    appdata: Option<String>,
    home: Option<String>,
    xdg: Option<String>,
) -> (res: Option<String>)
    ensures
        opt_str_v(res) == config_path_of(platform, opt_str_v(appdata), opt_str_v(home), opt_str_v(xdg)),
{
    let dir = match platform {
        Platform::Windows => match appdata {
            Some(a) => a,
            None => String::new(),
        },
        Platform::MacOs => match home {
            Some(h) => {
                let mut d = h;
                d.append("/Library/Application Support");
                d
            },
            None => String::new(),
        },
        Platform::Other => match xdg {
            Some(x) => x,
            None => match home {
                Some(h) => {
                    let mut d = h;
                    d.append("/.config");
                    d
                },
                None => String::new(),
            },
        },
    };
    if chars_of(dir.as_str()).len() == 0 {
        return None;
    }
    let app_dir = join_path_exec(platform, dir.as_str(), "Genote");
    Some(join_path_exec(platform, app_dir.as_str(), "config.toml"))
}

/// The message for a run whose configuration directory cannot be located.
pub fn config_dir_unknown(platform: Platform) -> (res: String)
    ensures
        res@ == "Cannot locate config.toml: set "@ + match platform {
            Platform::Windows => "APPDATA"@,
            Platform::MacOs => "HOME"@,
            Platform::Other => "XDG_CONFIG_HOME or HOME"@,
        },
{
    let mut s = String::from_str("Cannot locate config.toml: set ");
    match platform {
        Platform::Windows => s.append("APPDATA"),
        Platform::MacOs => s.append("HOME"),
        Platform::Other => s.append("XDG_CONFIG_HOME or HOME"),
    }
    s
}

/// `items` joined with `sep` between them.
pub open spec fn joined(items: Seq<Seq<char>>, sep: Seq<char>) -> Seq<char>
    decreases items.len(),
{
    if items.len() == 0 {
        Seq::empty()
    } else if items.len() == 1 {
        items[0]
    } else {
        joined(items.drop_last(), sep) + sep + items.last()
    }
}

/// The strings of `v` joined with `sep` between them.
pub fn join_strings(v: &Vec<String>, sep: &str) -> (res: String)
    ensures
        res@ == joined(v@.map_values(|s: String| s@), sep@),
{
    let ghost items = v@.map_values(|s: String| s@);
    let mut res = String::new();
    let mut i: usize = 0;
    while i < v.len()
        invariant
            i <= v.len(),
            items == v@.map_values(|s: String| s@),
            res@ == joined(items.take(i as int), sep@),
        decreases v.len() - i,
    {
        assert(items.take(i + 1).drop_last() =~= items.take(i as int));
        if i > 0 {
            res.append(sep);
        }
        res.append(v[i].as_str());
        i = i + 1;
    }
    assert(items.take(v.len() as int) =~= items);
    res
}

/// The warning for keys of a configuration level that nothing reads, if there are any.
pub open spec fn unknown_keys_warning_of(label: Seq<char>, keys: Seq<Seq<char>>) -> Option<Seq<char>> {
    if keys.len() == 0 {
        None
    } else {
        Some("Warning: unknown config key(s) in "@ + label + ": "@ + joined(keys, ", "@))
    }
}

/// The warning for keys that nothing reads, in the order given.
pub fn unknown_keys_warning(label: &str, keys: &Vec<String>) -> (res: Option<String>)
    ensures
        opt_str_v(res) == unknown_keys_warning_of(label@, keys@.map_values(|s: String| s@)),
{
    if keys.len() == 0 {
        return None;
    }
    let mut msg = String::from_str("Warning: unknown config key(s) in ");
    msg.append(label);
    msg.append(": ");
    let list = join_strings(keys, ", ");
    msg.append(list.as_str());
    Some(msg)
}

/// The label of a profile in warnings.
pub fn profile_label(name: &str) -> (res: String)
    ensures
        res@ == "profile '"@ + name@ + "'"@,
{
    let mut s = String::from_str("profile '");
    s.append(name);
    s.append("'");
    s
}

} // verus!
