//! What a note request asks for, and how a topic becomes a file name.
use vstd::prelude::*;
use crate::text::{
    decimal, decimal_string, find_from, is_ws, lemma_find_from, occurs_at,
    ascii_upper, ascii_upper_char, chars_of, find, find_exec, slice_chars, str_equal,
    string_from_chars, trim, trim_end_by, trim_end_exec, trim_exec, CharClass,
};

verus! {

/// The size rule that a prompt states for a note size.
pub open spec fn size_instruction_of(size: Seq<char>) -> Seq<char> {
    if size == "small"@ {
        "SMALL — HARD LIMIT: EXACTLY 25-30 LINES.\nLINE BUDGET: 25-30 lines total. One idea per line, compact. Count lines as you write. Stop at 30 even if unfinished. Key points only, no fluff."@
    } else if size == "mid"@ {
        "MID — HARD LIMIT: 45-68 LINES.\nLINE BUDGET: 45-68 lines total. One idea per line, compact but covering the topic well. Count lines as you write. Stop at 68 even if unfinished."@
    } else {
        "BIG — comprehensive and detailed. Full coverage of the topic."@
    }
}

/// The reminder that closes a prompt for a note size.
pub open spec fn size_reminder_of(size: Seq<char>) -> Seq<char> {
    if size == "small"@ {
        "REMINDER: 25-30 LINES ONLY. VERIFY COUNT BEFORE OUTPUT."@
    } else if size == "mid"@ {
        "REMINDER: 45-68 LINES ONLY. VERIFY COUNT BEFORE OUTPUT."@
    } else {
        ""@
    }
}

/// The expected range of non-blank lines of a note size; `(0, 0)` where none is checked.
pub open spec fn size_line_bounds_of(size: Seq<char>) -> (u32, u32) {
    if size == "small"@ {
        (25, 30)
    } else if size == "mid"@ {
        (45, 68)
    } else {
        (0, 0)
    }
}

/// The token cap of a note size.
pub open spec fn max_tokens_of(size: Seq<char>) -> u32 {
    if size == "big"@ {
        8192
    } else if size == "mid"@ {
        6144
    } else {
        4096
    }
}

/// The size rule that a prompt states for a note size.
pub fn size_instruction(size: &str) -> (res: &'static str)
    ensures
        res@ == size_instruction_of(size@),
{
    if str_equal(size, "small") {
        "SMALL — HARD LIMIT: EXACTLY 25-30 LINES.\nLINE BUDGET: 25-30 lines total. One idea per line, compact. Count lines as you write. Stop at 30 even if unfinished. Key points only, no fluff."
    } else if str_equal(size, "mid") {
        "MID — HARD LIMIT: 45-68 LINES.\nLINE BUDGET: 45-68 lines total. One idea per line, compact but covering the topic well. Count lines as you write. Stop at 68 even if unfinished."
    } else {
        "BIG — comprehensive and detailed. Full coverage of the topic."
    }
}

/// The reminder that closes a prompt for a note size.
pub fn size_reminder(size: &str) -> (res: &'static str)
    ensures
        res@ == size_reminder_of(size@),
{
    if str_equal(size, "small") {
        "REMINDER: 25-30 LINES ONLY. VERIFY COUNT BEFORE OUTPUT."
    } else if str_equal(size, "mid") {
        "REMINDER: 45-68 LINES ONLY. VERIFY COUNT BEFORE OUTPUT."
    } else {
        ""
    }
}

/// The expected range of non-blank lines of a note size; `(0, 0)` where none is checked.
pub fn size_line_bounds(size: &str) -> (res: (u32, u32))
    ensures
        res == size_line_bounds_of(size@),
{
    if str_equal(size, "small") {
        (25, 30)
    } else if str_equal(size, "mid") {
        (45, 68)
    } else {
        (0, 0)
    }
}

/// The token cap of a note size.
pub fn max_tokens_for(note_size: &str) -> (res: u32)
    ensures
        res == max_tokens_of(note_size@),
{
    if str_equal(note_size, "big") {
        8192
    } else if str_equal(note_size, "mid") {
        6144
    } else {
        4096
    }
}

/// Whether a character cannot stand in a file name.
pub open spec fn is_unsafe_char(c: char) -> bool {
    c == ' ' || c == '/' || c == '\\' || c == ':' || c == '*' || c == '?' || c == '"' || c == '<'
        || c == '>' || c == '|'
}

pub open spec fn safe_char(c: char) -> char {
    if is_unsafe_char(c) { '_' } else { c }
}

/// The device names that Windows reserves.
pub open spec fn reserved_names() -> Seq<Seq<char>> {
    seq![
        "CON"@, "PRN"@, "AUX"@, "NUL"@, "COM1"@, "COM2"@, "COM3"@, "COM4"@, "COM5"@, "COM6"@,
        "COM7"@, "COM8"@, "COM9"@, "LPT1"@, "LPT2"@, "LPT3"@, "LPT4"@, "LPT5"@, "LPT6"@, "LPT7"@,
        "LPT8"@, "LPT9"@,
    ]
}

/// The part of `s` before its first `.`.
pub open spec fn stem_of(s: Seq<char>) -> Seq<char> {
    match find(s, seq!['.']) {
        Some(i) => s.take(i),
        None => s,
    }
}

/// The file name (without extension) for a topic: trailing dots and spaces go,
/// characters that cannot stand in a file name become `_`, an empty name becomes `_`,
/// and a name whose stem is a reserved device name gets a leading `_`.
pub open spec fn sanitized(topic: Seq<char>) -> Seq<char> {
    let name = trim_end_by(topic, CharClass::DotOrSpace).map_values(|c: char| safe_char(c));
    if name.len() == 0 {
        "_"@
    } else if reserved_names().contains(ascii_upper(stem_of(name))) {
        "_"@ + name
    } else {
        name
    }
}

fn reserved_name(i: usize) -> (s: &'static str)
    requires
        i < 22,
    ensures
        s@ == reserved_names()[i as int],
{
    if i == 0 { "CON" }
    else if i == 1 { "PRN" }
    else if i == 2 { "AUX" }
    else if i == 3 { "NUL" }
    else if i == 4 { "COM1" }
    else if i == 5 { "COM2" }
    else if i == 6 { "COM3" }
    else if i == 7 { "COM4" }
    else if i == 8 { "COM5" }
    else if i == 9 { "COM6" }
    else if i == 10 { "COM7" }
    else if i == 11 { "COM8" }
    else if i == 12 { "COM9" }
    else if i == 13 { "LPT1" }
    else if i == 14 { "LPT2" }
    else if i == 15 { "LPT3" }
    else if i == 16 { "LPT4" }
    else if i == 17 { "LPT5" }
    else if i == 18 { "LPT6" }
    else if i == 19 { "LPT7" }
    else if i == 20 { "LPT8" }
    else { "LPT9" }
}

fn is_reserved(v: &Vec<char>) -> (res: bool)
    ensures
        res == reserved_names().contains(v@),
{
    let ghost names = reserved_names();
    let mut i: usize = 0;
    while i < 22
        invariant
            i <= 22,
            names == reserved_names(),
            names.len() == 22,
            forall|j: int| 0 <= j < i ==> names[j] != v@,
        decreases 22 - i,
    {
        let n = chars_of(reserved_name(i));
        if crate::text::chars_equal(&n, v) {
            assert(names[i as int] == v@);
            return true;
        }
        i = i + 1;
    }
    false
}

fn upper_char(c: char) -> (res: char)
    ensures
        res == ascii_upper_char(c),
{
    if 'a' <= c && c <= 'z' {
        let b: u8 = (c as u8) - 32;
        b as char
    } else {
        c
    }
}

fn upper_chars(v: &Vec<char>) -> (res: Vec<char>)
    ensures
        res@ == ascii_upper(v@),
{
    let mut res: Vec<char> = Vec::new();
    let mut i: usize = 0;
    while i < v.len()
        invariant
            i <= v.len(),
            res@ == v@.take(i as int).map_values(|c: char| ascii_upper_char(c)),
        decreases v.len() - i,
    {
        res.push(upper_char(v[i]));
        assert(v@.take(i + 1) =~= v@.take(i as int).push(v@[i as int]));
        i = i + 1;
    }
    assert(v@.take(v.len() as int) =~= v@);
    res
}

/// The file name (without extension) for a topic.
pub fn sanitize_filename(topic: &str) -> (res: String)
    ensures
        res@ == sanitized(topic@),
        is_safe_name(res@),
{
    proof {
        lemma_sanitized_is_safe(topic@);
    }
    let t = chars_of(topic);
    let trimmed = trim_end_exec(&t, CharClass::DotOrSpace);
    let mut name: Vec<char> = Vec::new();
    let mut i: usize = 0;
    while i < trimmed.len()
        invariant
            i <= trimmed.len(),
            name@ == trimmed@.take(i as int).map_values(|c: char| safe_char(c)),
        decreases trimmed.len() - i,
    {
        let c = trimmed[i];
        let safe = if c == ' ' || c == '/' || c == '\\' || c == ':' || c == '*' || c == '?'
            || c == '"' || c == '<' || c == '>' || c == '|' {
            '_'
        } else {
            c
        };
        name.push(safe);
        assert(trimmed@.take(i + 1) =~= trimmed@.take(i as int).push(trimmed@[i as int]));
        i = i + 1;
    }
    assert(trimmed@.take(trimmed.len() as int) =~= trimmed@);
    if name.len() == 0 {
        return String::from_str("_");
    }
    let mut dot: Vec<char> = Vec::new();
    dot.push('.');
    assert(dot@ =~= seq!['.']);
    let stem = match find_exec(&name, &dot) {
        Some(k) => slice_chars(&name, 0, k),
        None => slice_chars(&name, 0, name.len()),
    };
    assert(stem@ == stem_of(name@));
    let upper = upper_chars(&stem);
    let body = string_from_chars(&name);
    if is_reserved(&upper) {
        let mut res = String::from_str("_");
        res.append(body.as_str());
        res
    } else {
        body
    }
}

/// How many `(` exceed `)` in `s`.
pub open spec fn paren_balance(s: Seq<char>) -> int
    decreases s.len(),
{
    if s.len() == 0 {
        0
    } else {
        paren_balance(s.drop_last()) + if s.last() == '(' {
            1int
        } else if s.last() == ')' {
            -1int
        } else {
            0int
        }
    }
}

/// The first index `k` at or after `from` where the parenthesis opened at `open` closes.
pub open spec fn close_from(s: Seq<char>, open: int, from: int) -> Option<int>
    decreases s.len() - from,
{
    if from < 0 || from >= s.len() {
        None
    } else if paren_balance(s.subrange(open, from + 1)) == 0 {
        Some(from)
    } else {
        close_from(s, open, from + 1)
    }
}

/// A topic split into its text and the hint in its first balanced parenthesis group,
/// both trimmed; the topic unchanged and no hint where no group closes.
pub open spec fn parse_hint_of(s: Seq<char>) -> (Seq<char>, Option<Seq<char>>) {
    match find(s, seq!['(']) {
        Some(o) => match close_from(s, o, o + 1) {
            Some(e) => (trim(s.take(o)), Some(trim(s.subrange(o + 1, e)))),
            None => (s, None),
        },
        None => (s, None),
    }
}

proof fn lemma_close_from(s: Seq<char>, open: int, from: int)
    ensures
        close_from(s, open, from) matches Some(e) ==> from <= e < s.len(),
    decreases s.len() - from,
{
    if 0 <= from < s.len() && paren_balance(s.subrange(open, from + 1)) != 0 {
        lemma_close_from(s, open, from + 1);
    }
}

fn find_close(v: &Vec<char>, open: usize) -> (res: Option<usize>)
    requires
        open < v.len(),
        v@[open as int] == '(',
    ensures
        match res { Some(e) => Some(e as int), None => None } == close_from(v@, open as int, open + 1),
{
    let mut depth: usize = 1;
    let mut k: usize = open + 1;
    assert(v@.subrange(open as int, open + 1).drop_last() =~= Seq::<char>::empty());
    assert(v@.subrange(open as int, open + 1).last() == '(');
    assert(paren_balance(Seq::<char>::empty()) == 0);
    while k < v.len()
        invariant
            open < k <= v.len(),
            v@[open as int] == '(',
            depth as int == paren_balance(v@.subrange(open as int, k as int)),
            0 < depth <= k - open,
            close_from(v@, open as int, open + 1) == close_from(v@, open as int, k as int),
        decreases v.len() - k,
    {
        assert(v@.subrange(open as int, k + 1).drop_last() =~= v@.subrange(open as int, k as int));
        let c = v[k];
        if c == '(' {
            depth = depth + 1;
        } else if c == ')' {
            depth = depth - 1;
            if depth == 0 {
                return Some(k);
            }
        }
        k = k + 1;
    }
    None
}

/// A topic and the hint given in parentheses after it: `"Closures (skip FnOnce)"` is
/// the topic `Closures` with the hint `skip FnOnce`.
pub fn parse_hint(topic: &str) -> (res: (String, Option<String>))
    ensures
        res.0@ == parse_hint_of(topic@).0,
        match res.1 { Some(h) => Some(h@), None => None } == parse_hint_of(topic@).1,
{
    let v = chars_of(topic);
    let mut open_paren: Vec<char> = Vec::new();
    open_paren.push('(');
    assert(open_paren@ =~= seq!['(']);
    match find_exec(&v, &open_paren) {
        Some(o) => {
            assert(v@.subrange(o as int, o + 1) == seq!['(']);
            assert(v@[o as int] == v@.subrange(o as int, o + 1)[0]);
            match find_close(&v, o) {
                Some(e) => {
                    proof {
                        lemma_close_from(v@, o as int, o + 1);
                    }
                    let before = slice_chars(&v, 0, o);
                    assert(before@ == v@.take(o as int));
                    let inside = slice_chars(&v, o + 1, e);
                    let t = trim_exec(&before);
                    let h = trim_exec(&inside);
                    (string_from_chars(&t), Some(string_from_chars(&h)))
                },
                None => (topic.to_owned(), None),
            }
        },
        None => (topic.to_owned(), None),
    }
}

/// Whether `s` has a character that is not whitespace.
pub open spec fn has_text(s: Seq<char>) -> bool {
    exists|j: int| 0 <= j < s.len() && !is_ws(#[trigger] s[j])
}

/// The number of non-blank lines of `s` from index `start` on, lines being separated
/// by `\n`. (A trailing `\r` or an empty last line, which `str::lines` treats apart,
/// is blank either way.)
pub open spec fn non_blank_lines_from(s: Seq<char>, start: int) -> nat
    decreases s.len() - start,
{
    if start < 0 || start > s.len() {
        0
    } else {
        match find_from(s, seq!['\n'], start) {
            Some(i) => {
                proof {
                    lemma_find_from(s, seq!['\n'], start);
                }
                (if has_text(s.subrange(start, i)) { 1nat } else { 0nat }) + non_blank_lines_from(s, i + 1)
            },
            None => if has_text(s.subrange(start, s.len() as int)) { 1 } else { 0 },
        }
    }
}

/// The number of non-blank lines of `s`.
pub open spec fn non_blank_lines(s: Seq<char>) -> nat {
    non_blank_lines_from(s, 0)
}

fn find_newline_from(v: &Vec<char>, from: usize) -> (res: Option<usize>)
    requires
        from <= v.len(),
    ensures
        match res { Some(i) => Some(i as int), None => None } == find_from(v@, seq!['\n'], from as int),
{
    let mut i = from;
    while i < v.len()
        invariant
            from <= i <= v.len(),
            find_from(v@, seq!['\n'], from as int) == find_from(v@, seq!['\n'], i as int),
        decreases v.len() - i,
    {
        if v[i] == '\n' {
            assert(v@.subrange(i as int, i + 1) =~= seq!['\n']);
            return Some(i);
        }
        assert(!occurs_at(v@, seq!['\n'], i as int)) by {
            if occurs_at(v@, seq!['\n'], i as int) {
                assert(v@.subrange(i as int, i + 1)[0] == v@[i as int]);
            }
        }
        i = i + 1;
    }
    assert(!occurs_at(v@, seq!['\n'], v.len() as int));
    assert(find_from(v@, seq!['\n'], v.len() + 1) is None);
    None
}

fn range_has_text(v: &Vec<char>, a: usize, b: usize) -> (res: bool)
    requires
        a <= b <= v.len(),
    ensures
        res == has_text(v@.subrange(a as int, b as int)),
{
    let mut k = a;
    while k < b
        invariant
            a <= k <= b <= v.len(),
            forall|j: int| a <= j < k ==> is_ws(#[trigger] v@[j]),
        decreases b - k,
    {
        if !crate::text::class_has(CharClass::Whitespace, v[k]) {
            assert(v@.subrange(a as int, b as int)[k - a] == v@[k as int]);
            return true;
        }
        k = k + 1;
    }
    assert forall|j: int| 0 <= j < b - a implies is_ws(#[trigger] v@.subrange(a as int, b as int)[j]) by {
        assert(v@.subrange(a as int, b as int)[j] == v@[a + j]);
    }
    false
}

/// The number of non-blank lines of a note.
pub fn count_non_blank_lines(text: &str) -> (res: usize)
    ensures
        res as nat == non_blank_lines(text@),
{
    let v = chars_of(text);
    let mut count: usize = 0;
    let mut start: usize = 0;
    loop
        invariant
            start <= v.len(),
            v@ == text@,
            count <= start,
            non_blank_lines(text@) == count + non_blank_lines_from(v@, start as int),
        decreases v.len() - start,
    {
        match find_newline_from(&v, start) {
            Some(i) => {
                proof {
                    lemma_find_from(v@, seq!['\n'], start as int);
                }
                if range_has_text(&v, start, i) {
                    count = count + 1;
                }
                start = i + 1;
            },
            None => {
                if range_has_text(&v, start, v.len()) {
                    count = count + 1;
                }
                return count;
            },
        }
    }
}

/// The warning for a note whose non-blank line count is outside the range of its size,
/// for the sizes that have one.
pub open spec fn line_count_warning_of(topic: Seq<char>, text: Seq<char>, size: Seq<char>) -> Option<Seq<char>> {
    let (lo, hi) = size_line_bounds_of(size);
    let n = non_blank_lines(text) as u32;
    if hi > 0 && !(lo <= n && n <= hi) {
        Some(
            "Warning: \""@ + topic + "\" has "@ + decimal(n as nat) + " lines (expected "@
                + decimal(lo as nat) + "-"@ + decimal(hi as nat) + "). Model exceeded limit."@,
        )
    } else {
        None
    }
}

/// The warning for a note whose length misses its size's line range, if it does.
pub fn line_count_warning(topic: &str, text: &str, size: &str) -> (res: Option<String>)
    ensures
        match res { Some(w) => Some(w@), None => None } == line_count_warning_of(topic@, text@, size@),
{
    let (lo, hi) = size_line_bounds(size);
    let n = count_non_blank_lines(text) as u32;
    if hi > 0 && !(lo <= n && n <= hi) {
        let mut w = String::from_str("Warning: \"");
        w.append(topic);
        w.append("\" has ");
        w.append(decimal_string(n as u128).as_str());
        w.append(" lines (expected ");
        w.append(decimal_string(lo as u128).as_str());
        w.append("-");
        w.append(decimal_string(hi as u128).as_str());
        w.append("). Model exceeded limit.");
        Some(w)
    } else {
        None
    }
}

// What `str::to_lowercase` makes of a string: the Unicode lower-case mapping of each
// character, which depends on the string alone.
pub uninterp spec fn lowercase(s: Seq<char>) -> Seq<char>;

/// Lower-cases a string with `str::to_lowercase`. The contract names the result and
/// does not spell out the Unicode case tables.
#[verifier::external_body]
fn to_lowercase(s: &str) -> (res: String)
    ensures
        res@ == lowercase(s@),
{
    s.to_lowercase()
}

/// The key under which a written note is remembered: the path, lower-cased where the
/// file system ignores case (Windows and macOS).
pub fn canonical_write_key(path: &str, case_insensitive: bool) -> (res: String)
    ensures
        res@ == if case_insensitive { lowercase(path@) } else { path@ },
{
    if case_insensitive {
        to_lowercase(path)
    } else {
        path.to_owned()
    }
}

/// Whether `name` can stand as a file name as it is: not empty, without characters
/// that file systems refuse, not ending in `.` or ` `, and with a stem that is no
/// reserved device name.
pub open spec fn is_safe_name(name: Seq<char>) -> bool {
    &&& name.len() > 0
    &&& forall|i: int| 0 <= i < name.len() ==> !is_unsafe_char(#[trigger] name[i])
    &&& name.last() != '.'
    &&& name.last() != ' '
    &&& !reserved_names().contains(ascii_upper(stem_of(name)))
}

proof fn lemma_trim_end_last(s: Seq<char>, k: CharClass)
    ensures
        trim_end_by(s, k).len() > 0 ==> !crate::text::in_class(k, trim_end_by(s, k).last()),
        trim_end_by(s, k).len() <= s.len(),
        forall|i: int| 0 <= i < trim_end_by(s, k).len() ==> #[trigger] trim_end_by(s, k)[i] == s[i],
    decreases s.len(),
{
    if s.len() > 0 && crate::text::in_class(k, s.last()) {
        lemma_trim_end_last(s.drop_last(), k);
    }
}

proof fn lemma_stem_starts(s: Seq<char>)
    requires
        s.len() > 0,
        s[0] != '.',
    ensures
        stem_of(s).len() > 0,
        stem_of(s)[0] == s[0],
{
    crate::text::lemma_find_from(s, seq!['.'], 0);
    match find(s, seq!['.']) {
        Some(i) => {
            assert(s.subrange(i, i + 1)[0] == s[i]);
            assert(i != 0);
        },
        None => {},
    }
}

proof fn lemma_underscore_not_reserved(s: Seq<char>)
    requires
        s.len() > 0,
        s[0] == '_',
    ensures
        !reserved_names().contains(ascii_upper(stem_of(s))),
{
    lemma_stem_starts(s);
    let u = ascii_upper(stem_of(s));
    assert(u[0] == '_');
    if reserved_names().contains(u) {
        let k = choose|k: int| 0 <= k < reserved_names().len() && reserved_names()[k] == u;
        reveal_strlit("CON");
        reveal_strlit("PRN");
        reveal_strlit("AUX");
        reveal_strlit("NUL");
        reveal_strlit("COM1");
        reveal_strlit("COM2");
        reveal_strlit("COM3");
        reveal_strlit("COM4");
        reveal_strlit("COM5");
        reveal_strlit("COM6");
        reveal_strlit("COM7");
        reveal_strlit("COM8");
        reveal_strlit("COM9");
        reveal_strlit("LPT1");
        reveal_strlit("LPT2");
        reveal_strlit("LPT3");
        reveal_strlit("LPT4");
        reveal_strlit("LPT5");
        reveal_strlit("LPT6");
        reveal_strlit("LPT7");
        reveal_strlit("LPT8");
        reveal_strlit("LPT9");
        assert(reserved_names()[k][0] != '_');
    }
}

/// What `sanitize_filename` makes of a topic can stand as a file name as it is.
pub proof fn lemma_sanitized_is_safe(topic: Seq<char>)
    ensures
        is_safe_name(sanitized(topic)),
{
    let t = trim_end_by(topic, CharClass::DotOrSpace);
    let name = t.map_values(|c: char| safe_char(c));
    lemma_trim_end_last(topic, CharClass::DotOrSpace);
    reveal_strlit("_");
    if name.len() == 0 {
        let r = sanitized(topic);
        assert(r == "_"@);
        assert(r[0] == '_');
        lemma_underscore_not_reserved(r);
    } else {
        assert(name.last() == safe_char(t.last()));
        if reserved_names().contains(ascii_upper(stem_of(name))) {
            let r = "_"@ + name;
            assert(r[0] == '_');
            assert(r.last() == name.last());
            lemma_underscore_not_reserved(r);
            assert forall|i: int| 0 <= i < r.len() implies !is_unsafe_char(#[trigger] r[i]) by {
                if i > 0 {
                    assert(r[i] == name[i - 1]);
                }
            }
        }
    }
}

/// A safe file name is left as it is, so sanitizing twice is sanitizing once.
pub proof fn lemma_safe_name_unchanged(name: Seq<char>)
    requires
        is_safe_name(name),
    ensures
        sanitized(name) == name,
{
    assert(trim_end_by(name, CharClass::DotOrSpace) == name);
    assert(name.map_values(|c: char| safe_char(c)) =~= name);
}

/// Sanitizing a topic's file name again changes nothing.
pub proof fn lemma_sanitize_idempotent(topic: Seq<char>)
    ensures
        sanitized(sanitized(topic)) == sanitized(topic),
{
    lemma_sanitized_is_safe(topic);
    lemma_safe_name_unchanged(sanitized(topic));
}

} // verus!
