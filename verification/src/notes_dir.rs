//! The notes directory: which files are notes, the order they are read in, and the
//! topics they cover.
use vstd::prelude::*;
use vstd::relations::{sorted_by, total_ordering};
use crate::config::opt_str_v;
use crate::text::{
    chars_of, decimal, decimal_string, rfind, rfind_exec, slice_chars,
    string_from_chars, to_owned_string,
};

verus! {

/// Whether `a` comes before or equals `b` in the order of `str`'s `Ord`: by code
/// points, character after character, a prefix first.
pub open spec fn lex_le(a: Seq<char>, b: Seq<char>) -> bool
    decreases a.len(),
{
    if a.len() == 0 {
        true
    } else if b.len() == 0 {
        false
    } else if a[0] == b[0] {
        lex_le(a.drop_first(), b.drop_first())
    } else {
        a[0] < b[0]
    }
}

pub open spec fn lex_order() -> spec_fn(Seq<char>, Seq<char>) -> bool {
    |a: Seq<char>, b: Seq<char>| lex_le(a, b)
}

proof fn lemma_lex_reflexive(a: Seq<char>)
    ensures
        lex_le(a, a),
    decreases a.len(),
{
    if a.len() > 0 {
        lemma_lex_reflexive(a.drop_first());
    }
}

proof fn lemma_lex_antisymmetric(a: Seq<char>, b: Seq<char>)
    requires
        lex_le(a, b),
        lex_le(b, a),
    ensures
        a == b,
    decreases a.len(),
{
    if a.len() > 0 {
        lemma_lex_antisymmetric(a.drop_first(), b.drop_first());
        assert(a =~= seq![a[0]] + a.drop_first());
        assert(b =~= seq![b[0]] + b.drop_first());
    } else {
        assert(b.len() == 0);
        assert(a =~= b);
    }
}

proof fn lemma_lex_transitive(a: Seq<char>, b: Seq<char>, c: Seq<char>)
    requires
        lex_le(a, b),
        lex_le(b, c),
    ensures
        lex_le(a, c),
    decreases a.len(),
{
    if a.len() > 0 && a[0] == b[0] && b[0] == c[0] {
        lemma_lex_transitive(a.drop_first(), b.drop_first(), c.drop_first());
    }
}

proof fn lemma_lex_total(a: Seq<char>, b: Seq<char>)
    ensures
        lex_le(a, b) || lex_le(b, a),
    decreases a.len(),
{
    if a.len() > 0 && b.len() > 0 {
        if a[0] == b[0] {
            lemma_lex_total(a.drop_first(), b.drop_first());
        }
    }
}

/// The order of `str` is a total order.
pub proof fn lemma_lex_total_ordering()
    ensures
        total_ordering(lex_order()),
{
    assert forall|x: Seq<char>| #[trigger] lex_order()(x, x) by {
        lemma_lex_reflexive(x);
    }
    assert forall|x: Seq<char>, y: Seq<char>| #[trigger] lex_order()(x, y) && #[trigger] lex_order()(y, x) implies x == y by {
        lemma_lex_antisymmetric(x, y);
    }
    assert forall|x: Seq<char>, y: Seq<char>, z: Seq<char>|
        #[trigger] lex_order()(x, y) && #[trigger] lex_order()(y, z) implies lex_order()(x, z) by {
        lemma_lex_transitive(x, y, z);
    }
    assert forall|x: Seq<char>, y: Seq<char>| #[trigger] lex_order()(x, y) || #[trigger] lex_order()(y, x) by {
        lemma_lex_total(x, y);
    }
}

fn lex_le_exec(a: &Vec<char>, b: &Vec<char>) -> (res: bool)
    ensures
        res == lex_le(a@, b@),
{
    let mut i: usize = 0;
    assert(a@.skip(0) =~= a@);
    assert(b@.skip(0) =~= b@);
    loop
        invariant
            i <= a.len(),
            i <= b.len(),
            lex_le(a@, b@) == lex_le(a@.skip(i as int), b@.skip(i as int)),
        decreases a.len() - i,
    {
        if i == a.len() {
            return true;
        }
        if i == b.len() {
            return false;
        }
        assert(a@.skip(i as int)[0] == a@[i as int]);
        assert(b@.skip(i as int)[0] == b@[i as int]);
        if a[i] != b[i] {
            return a[i] < b[i];
        }
        assert(a@.skip(i as int).drop_first() =~= a@.skip(i + 1));
        assert(b@.skip(i as int).drop_first() =~= b@.skip(i + 1));
        i = i + 1;
    }
}

pub open spec fn strs_v(v: Seq<String>) -> Seq<Seq<char>> {
    v.map_values(|s: String| s@)
}

/// Names sorted as `Vec::<String>::sort` sorts them.
pub fn sort_names(v: Vec<String>) -> (res: Vec<String>)
    ensures
        strs_v(res@) == strs_v(v@).sort_by(lex_order()),
{
    let ghost input = strs_v(v@);
    let mut out: Vec<String> = Vec::new();
    let mut keys: Vec<Vec<char>> = Vec::new();
    let mut v = v;
    let ghost given = v@;
    let mut i: usize = 0;
    proof {
        lemma_lex_total_ordering();
        assert(strs_v(out@) =~= Seq::<Seq<char>>::empty());
        assert(input.take(0) =~= Seq::<Seq<char>>::empty());
    }
    while i < v.len()
        invariant
            i <= v.len(),
            v@ == given,
            input == strs_v(given),
            keys@.len() == out@.len(),
            forall|k: int| 0 <= k < keys@.len() ==> #[trigger] keys@[k]@ == out@[k]@,
            sorted_by(strs_v(out@), lex_order()),
            strs_v(out@).to_multiset() == input.take(i as int).to_multiset(),
            total_ordering(lex_order()),
        decreases v.len() - i,
    {
        let key = chars_of(v[i].as_str());
        let mut j: usize = 0;
        while j < out.len() && lex_le_exec(&keys[j], &key)
            invariant
                j <= out@.len(),
                keys@.len() == out@.len(),
                forall|k: int| 0 <= k < keys@.len() ==> #[trigger] keys@[k]@ == out@[k]@,
                forall|k: int| 0 <= k < j ==> lex_le(#[trigger] out@[k]@, key@),
            decreases out@.len() - j,
        {
            j = j + 1;
        }
        let ghost before = strs_v(out@);
        proof {
            if j < out@.len() {
                lemma_lex_total(out@[j as int]@, key@);
            }
        }
        out.insert(j, v[i].clone());
        keys.insert(j, key);
        proof {
            assert(strs_v(out@) =~= before.insert(j as int, given[i as int]@));
            assert forall|a: int, b: int| 0 <= a < b < strs_v(out@).len() implies
                #[trigger] lex_order()(strs_v(out@)[a], strs_v(out@)[b]) by {
                let s = strs_v(out@);
                if b < j {
                    assert(lex_order()(before[a], before[b]));
                } else if a < j && b == j {
                    assert(lex_le(before[a], key@));
                } else if a < j && b > j {
                    assert(lex_le(before[a], key@));
                    assert(lex_le(key@, before[j as int]));
                    assert(lex_order()(before[j as int], before[b - 1]) || j == b - 1);
                    if j < b - 1 {
                        lemma_lex_transitive(key@, before[j as int], before[b - 1]);
                    }
                    lemma_lex_transitive(before[a], key@, before[b - 1]);
                } else if a == j {
                    assert(lex_le(key@, before[j as int]));
                    if j < b - 1 {
                        assert(lex_order()(before[j as int], before[b - 1]));
                        lemma_lex_transitive(key@, before[j as int], before[b - 1]);
                    }
                } else {
                    assert(lex_order()(before[a - 1], before[b - 1]));
                }
            }
            vstd::seq_lib::to_multiset_insert(before, j as int, given[i as int]@);
            assert(input.take(i + 1) =~= input.take(i as int).push(input[i as int]));
            vstd::seq_lib::to_multiset_build(input.take(i as int), input[i as int]);
        }
        i = i + 1;
    }
    proof {
        assert(input.take(v.len() as int) =~= input);
        input.lemma_sort_by_ensures(lex_order());
        vstd::seq_lib::lemma_sorted_unique(strs_v(out@), input.sort_by(lex_order()), lex_order());
    }
    out
}

/// The stem of a file name whose extension is `md` in any case (as
/// `Path::extension` and `Path::file_stem` split a name: at its last `.`, where
/// something precedes it); none for other names.
pub open spec fn markdown_stem_of(name: Seq<char>) -> Option<Seq<char>> {
    match rfind(name, seq!['.']) {
        Some(i) => {
            let ext = name.skip(i + 1);
            if i > 0 && ext.len() == 2 && (ext[0] == 'm' || ext[0] == 'M') && (ext[1] == 'd'
                || ext[1] == 'D') {
                Some(name.take(i))
            } else {
                None
            }
        },
        None => None,
    }
}

/// The stem of a note's file name, where it is a Markdown file.
pub fn markdown_stem(name: &str) -> (res: Option<String>)
    ensures
        opt_str_v(res) == markdown_stem_of(name@),
{
    let v = chars_of(name);
    let mut dot: Vec<char> = Vec::new();
    dot.push('.');
    assert(dot@ =~= seq!['.']);
    match rfind_exec(&v, &dot) {
        Some(i) => {
            assert(i + 1 <= v@.len());
            assert(i < v.len());
            let ext = slice_chars(&v, i + 1, v.len());
            assert(ext@ == v@.skip(i + 1));
            if i > 0 && ext.len() == 2 && (ext[0] == 'm' || ext[0] == 'M') && (ext[1] == 'd'
                || ext[1] == 'D') {
                let stem = slice_chars(&v, 0, i);
                assert(stem@ == v@.take(i as int));
                Some(string_from_chars(&stem))
            } else {
                None
            }
        },
        None => None,
    }
}

/// A topic as the file name of its note spells it: underscores back to spaces.
pub open spec fn topic_of_stem(stem: Seq<char>) -> Seq<char> {
    stem.map_values(|c: char| if c == '_' { ' ' } else { c })
}

fn topic_of_stem_exec(stem: &str) -> (res: String)
    ensures
        res@ == topic_of_stem(stem@),
{
    let v = chars_of(stem);
    let mut out: Vec<char> = Vec::new();
    let mut i: usize = 0;
    while i < v.len()
        invariant
            i <= v.len(),
            out@ == v@.take(i as int).map_values(|c: char| if c == '_' { ' ' } else { c }),
        decreases v.len() - i,
    {
        out.push(if v[i] == '_' { ' ' } else { v[i] });
        assert(v@.take(i + 1) =~= v@.take(i as int).push(v@[i as int]));
        i = i + 1;
    }
    assert(v@.take(v.len() as int) =~= v@);
    string_from_chars(&out)
}

/// The file names that are notes, in order.
pub open spec fn markdown_names(names: Seq<Seq<char>>) -> Seq<Seq<char>>
    decreases names.len(),
{
    if names.len() == 0 {
        seq![]
    } else if markdown_stem_of(names.last()) is Some {
        markdown_names(names.drop_last()).push(names.last())
    } else {
        markdown_names(names.drop_last())
    }
}

/// The topics of the notes, in order.
pub open spec fn note_topics(names: Seq<Seq<char>>) -> Seq<Seq<char>>
    decreases names.len(),
{
    if names.len() == 0 {
        seq![]
    } else {
        match markdown_stem_of(names.last()) {
            Some(stem) => note_topics(names.drop_last()).push(topic_of_stem(stem)),
            None => note_topics(names.drop_last()),
        }
    }
}

/// The Markdown files of a directory listing, sorted: the style examples are read in
/// this order.
pub fn example_files(names: &Vec<String>) -> (res: Vec<String>)
    ensures
        strs_v(res@) == markdown_names(strs_v(names@)).sort_by(lex_order()),
{
    let ghost all = strs_v(names@);
    let mut out: Vec<String> = Vec::new();
    let mut i: usize = 0;
    while i < names.len()
        invariant
            i <= names.len(),
            all == strs_v(names@),
            strs_v(out@) == markdown_names(all.take(i as int)),
        decreases names.len() - i,
    {
        assert(all.take(i + 1).drop_last() =~= all.take(i as int));
        assert(all.take(i + 1).last() == names@[i as int]@);
        let ghost before = strs_v(out@);
        if markdown_stem(names[i].as_str()).is_some() {
            out.push(names[i].clone());
            assert(strs_v(out@) =~= before.push(names@[i as int]@));
        }
        i = i + 1;
    }
    assert(all.take(names.len() as int) =~= all);
    sort_names(out)
}

/// The topics of the notes of a directory listing (Markdown files only, underscores
/// read as spaces), sorted: the topics the reader already knows.
pub fn covered_topics(names: &Vec<String>) -> (res: Vec<String>)
    ensures
        strs_v(res@) == note_topics(strs_v(names@)).sort_by(lex_order()),
{
    let ghost all = strs_v(names@);
    let mut out: Vec<String> = Vec::new();
    let mut i: usize = 0;
    while i < names.len()
        invariant
            i <= names.len(),
            all == strs_v(names@),
            strs_v(out@) == note_topics(all.take(i as int)),
        decreases names.len() - i,
    {
        assert(all.take(i + 1).drop_last() =~= all.take(i as int));
        assert(all.take(i + 1).last() == names@[i as int]@);
        let ghost before = strs_v(out@);
        match markdown_stem(names[i].as_str()) {
            Some(stem) => {
                let t = topic_of_stem_exec(stem.as_str());
                out.push(t);
                assert(strs_v(out@) =~= before.push(t@));
            },
            None => {},
        }
        i = i + 1;
    }
    assert(all.take(names.len() as int) =~= all);
    sort_names(out)
}

/// The names with repeats left out, each kept where it first occurs.
pub open spec fn distinct_of(names: Seq<Seq<char>>) -> Seq<Seq<char>>
    decreases names.len(),
{
    if names.len() == 0 {
        seq![]
    } else if distinct_of(names.drop_last()).contains(names.last()) {
        distinct_of(names.drop_last())
    } else {
        distinct_of(names.drop_last()).push(names.last())
    }
}

fn contains_name(v: &Vec<String>, name: &str) -> (res: bool)
    ensures
        res == strs_v(v@).contains(name@),
{
    let mut i: usize = 0;
    while i < v.len()
        invariant
            i <= v.len(),
            forall|j: int| 0 <= j < i ==> v@[j]@ != name@,
        decreases v.len() - i,
    {
        if crate::text::str_equal(v[i].as_str(), name) {
            assert(strs_v(v@)[i as int] == name@);
            return true;
        }
        i = i + 1;
    }
    assert(!strs_v(v@).contains(name@)) by {
        if strs_v(v@).contains(name@) {
            let j = choose|j: int| 0 <= j < strs_v(v@).len() && strs_v(v@)[j] == name@;
            assert(v@[j]@ == name@);
        }
    }
    false
}

/// The listed example files without repeats, in the order first listed.
pub fn distinct_names(names: &Vec<String>) -> (res: Vec<String>)
    ensures
        strs_v(res@) == distinct_of(strs_v(names@)),
{
    let ghost all = strs_v(names@);
    let mut out: Vec<String> = Vec::new();
    let mut i: usize = 0;
    while i < names.len()
        invariant
            i <= names.len(),
            all == strs_v(names@),
            strs_v(out@) == distinct_of(all.take(i as int)),
        decreases names.len() - i,
    {
        assert(all.take(i + 1).drop_last() =~= all.take(i as int));
        assert(all.take(i + 1).last() == names@[i as int]@);
        let ghost before = strs_v(out@);
        if !contains_name(&out, names[i].as_str()) {
            out.push(names[i].clone());
            assert(strs_v(out@) =~= before.push(names@[i as int]@));
        }
        i = i + 1;
    }
    assert(all.take(names.len() as int) =~= all);
    out
}

/// Leaving out repeats keeps every name once: no name twice, and the same names.
pub proof fn lemma_distinct_names(names: Seq<Seq<char>>)
    ensures
        forall|i: int, j: int|
            0 <= i < j < distinct_of(names).len() ==> distinct_of(names)[i] != distinct_of(names)[j],
        forall|x: Seq<char>| names.contains(x) <==> distinct_of(names).contains(x),
    decreases names.len(),
{
    if names.len() > 0 {
        let rest = names.drop_last();
        lemma_distinct_names(rest);
        let d = distinct_of(rest);
        assert forall|x: Seq<char>| names.contains(x) <==> distinct_of(names).contains(x) by {
            if names.contains(x) {
                let k = choose|k: int| 0 <= k < names.len() && names[k] == x;
                if k < names.len() - 1 {
                    assert(rest[k] == x);
                    assert(rest.contains(x));
                    assert(d.contains(x));
                    let w = choose|w: int| 0 <= w < d.len() && d[w] == x;
                    if !d.contains(names.last()) {
                        assert(d.push(names.last())[w] == x);
                    }
                } else if !d.contains(x) {
                    assert(d.push(x)[d.len() as int] == x);
                }
                assert(distinct_of(names).contains(x));
            }
            if distinct_of(names).contains(x) {
                let k = choose|k: int| 0 <= k < distinct_of(names).len() && distinct_of(names)[k] == x;
                if d.contains(names.last()) || k < d.len() {
                    assert(d[k] == x);
                    assert(d.contains(x));
                    assert(rest.contains(x));
                    let r = choose|r: int| 0 <= r < rest.len() && rest[r] == x;
                    assert(names[r] == rest[r]);
                    assert(names.contains(x));
                } else {
                    assert(names[names.len() - 1] == x);
                }
            }
        }
    }
}

/// The framing of the `n`-th style example (counting from 1).
pub open spec fn example_entry_of(n: nat, content: Seq<char>) -> Seq<char> {
    "--- Example "@ + decimal(n) + " ---\n"@ + content + "\n\n"@
}

/// Adds a style example to those collected so far.
pub fn add_example(examples: &mut String, count: &mut u32, content: &str)
    requires
        *old(count) < u32::MAX,
    ensures
        *final(count) == *old(count) + 1,
        final(examples)@ == old(examples)@ + example_entry_of(*old(count) as nat + 1, content@),
{
    examples.append("--- Example ");
    examples.append(decimal_string(*count as u128 + 1).as_str());
    examples.append(" ---\n");
    examples.append(content);
    examples.append("\n\n");
    *count = *count + 1;
}

/// The style examples gathered so far: their framed text, how many there are, and how
/// many are wanted at most.
pub struct Examples {
    pub text: String,
    pub count: u32,
    pub cap: u32,
}

impl Examples {
    /// Never more examples than wanted.
    pub open spec fn wf(&self) -> bool {
        self.count <= self.cap
    }

    /// No examples yet, and at most `cap` wanted.
    pub fn new(cap: u32) -> (res: Examples)
        ensures
            res.wf(),
            res.text@ == Seq::<char>::empty(),
            res.count == 0,
            res.cap == cap,
    {
        Examples { text: String::new(), count: 0, cap }
    }

    /// Whether another file is still worth reading: fewer examples than wanted so far.
    pub fn wants_more(&self) -> (res: bool)
        ensures
            res == (self.count < self.cap),
    {
        self.count < self.cap
    }

    /// A file offered as an example (`None` where it could not be read): added where
    /// fewer examples than wanted are there, else left out.
    pub fn offer(&mut self, content: Option<String>)
        requires
            old(self).wf(),
        ensures
            final(self).wf(),
            final(self).cap == old(self).cap,
            (old(self).count < old(self).cap && content is Some) ==> {
                &&& final(self).count == old(self).count + 1
                &&& final(self).text@ == old(self).text@ + example_entry_of(old(self).count as nat + 1, content->0@)
            },
            !(old(self).count < old(self).cap && content is Some) ==> {
                &&& final(self).count == old(self).count
                &&& final(self).text@ == old(self).text@
            },
    {
        if self.count < self.cap {
            if let Some(c) = content {
                add_example(&mut self.text, &mut self.count, c.as_str());
            }
        }
    }
}

/// What becomes of a file named in `notes_include`.
pub enum IncludeStep {
    /// It is no file in the notes directory: show this warning and go on.
    Skip(String),
    /// Read it and offer it as an example.
    Read,
    /// Enough examples are there: leave it.
    Pass,
}

/// What becomes of the file `name` of `notes_include`, given whether it is a file: a
/// missing one is skipped with a warning, whatever the count; a present one is read
/// while examples are still wanted.
pub fn include_step(name: &str, notes_path: &str, is_file: bool, examples: &Examples) -> (res: IncludeStep)
    ensures
        !is_file ==> (res matches IncludeStep::Skip(w)
            && w@ == "Warning: skipped "@ + name@ + " — not found in "@ + debug_path(notes_path@)),
        is_file && examples.count < examples.cap ==> res is Read,
        is_file && examples.count >= examples.cap ==> res is Pass,
{
    if !is_file {
        IncludeStep::Skip(skipped_example(name, notes_path))
    } else if examples.wants_more() {
        IncludeStep::Read
    } else {
        IncludeStep::Pass
    }
}

/// The message for a notes directory without examples to read.
pub open spec fn no_examples_message_of(include_given: bool) -> Seq<char> {
    if include_given {
        "None of the files listed in notes_include were found in the notes directory."@
    } else {
        "No .md files found in the notes directory."@
    }
}

/// The message for a notes directory without examples to read.
pub fn no_examples_message(include_given: bool) -> (res: &'static str)
    ensures
        res@ == no_examples_message_of(include_given),
{
    if include_given {
        "None of the files listed in notes_include were found in the notes directory."
    } else {
        "No .md files found in the notes directory."
    }
}

// How `format!("{:?}", Path::new(s))` writes a path: quoted, with escapes, a function of
// the path alone.
pub uninterp spec fn debug_path(s: Seq<char>) -> Seq<char>;

/// Writes a path as `Path`'s `Debug` does. The contract names the result and does not
/// spell out the escaping rules.
#[verifier::external_body]
fn path_debug(s: &str) -> (res: String)
    ensures
        res@ == debug_path(s@),
{
    format!("{:?}", std::path::Path::new(s))
}

/// `prefix`, then `middle`, then `suffix`.
pub fn framed(prefix: &str, middle: &str, suffix: &str) -> (res: String)
    ensures
        res@ == prefix@ + middle@ + suffix@,
{
    let mut s = to_owned_string(prefix);
    s.append(middle);
    s.append(suffix);
    s
}

/// The message for a notes directory that is not there.
pub fn notes_dir_missing(path: &str) -> (res: String)
    ensures
        res@ == "Notes directory does not exist or is not a directory: "@ + debug_path(path@),
{
    let d = path_debug(path);
    let mut s = String::from_str("Notes directory does not exist or is not a directory: ");
    s.append(d.as_str());
    s
}

/// The message for a notes directory that cannot be listed.
pub fn notes_dir_unreadable(path: &str, error: &str) -> (res: String)
    ensures
        res@ == "Failed to read notes directory "@ + debug_path(path@) + ": "@ + error@,
{
    let d = path_debug(path);
    let mut s = framed("Failed to read notes directory ", d.as_str(), ": ");
    s.append(error);
    s
}

/// The warning for a listed example file that is not in the notes directory.
pub fn skipped_example(name: &str, notes_path: &str) -> (res: String)
    ensures
        res@ == "Warning: skipped "@ + name@ + " — not found in "@ + debug_path(notes_path@),
{
    let d = path_debug(notes_path);
    let mut s = framed("Warning: skipped ", name, " — not found in ");
    s.append(d.as_str());
    s
}

/// The message for a missing configuration file.
pub fn config_missing(path: &str) -> (res: String)
    ensures
        res@ == "config.toml not found. Place it at: "@ + debug_path(path@)
            + ". Or create it based on config.toml.example"@,
{
    let d = path_debug(path);
    framed("config.toml not found. Place it at: ", d.as_str(), ". Or create it based on config.toml.example")
}

/// The message for a configuration file that does not parse.
pub fn config_unparsable(error: &str) -> (res: String)
    ensures
        res@ == "config parse error: "@ + error@,
{
    let mut s = String::from_str("config parse error: ");
    s.append(error);
    s
}

/// The message for a skill file that cannot be read.
pub fn skill_unreadable(path: &str, error: &str) -> (res: String)
    ensures
        res@ == "failed to read skill file "@ + path@ + ": "@ + error@,
{
    let mut s = framed("failed to read skill file ", path, ": ");
    s.append(error);
    s
}

/// The message for an HTTP client that cannot be set up.
pub fn client_unavailable(error: &str) -> (res: String)
    ensures
        res@ == "failed to build HTTP client: "@ + error@,
{
    let mut s = String::from_str("failed to build HTTP client: ");
    s.append(error);
    s
}

} // verus!
