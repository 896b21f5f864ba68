//! The link that files an issue about an error.
use vstd::prelude::*;
use crate::text::{chars_of, slice_chars, string_from_chars, trim, trim_exec};

verus! {

/// The bytes that `urlencoding` leaves as they are: ASCII letters, digits, `-`, `.`,
/// `_` and `~`.
pub open spec fn is_unreserved(b: u8) -> bool {
    (48 <= b <= 57) || (65 <= b <= 90) || (97 <= b <= 122) || b == 45 || b == 46 || b == 95
        || b == 126
}

/// The upper-case hexadecimal digit for `d < 16`.
pub open spec fn hex_digit(d: u8) -> char {
    if d < 10 {
        (48 + d) as char
    } else {
        (55 + d) as char
    }
}

/// Bytes percent-encoded: unreserved bytes as themselves, every other byte as `%`
/// and two upper-case hex digits.
pub open spec fn percent_encoded(bytes: Seq<u8>) -> Seq<char>
    decreases bytes.len(),
{
    if bytes.len() == 0 {
        Seq::empty()
    } else {
        let b = bytes[0];
        (if is_unreserved(b) {
            seq![b as char]
        } else {
            seq!['%', hex_digit(b / 16), hex_digit(b % 16)]
        }) + percent_encoded(bytes.drop_first())
    }
}

/// Percent-encodes the UTF-8 bytes of `s` with `urlencoding::encode`, which keeps
/// ASCII letters, digits and `-._~` and writes every other byte as `%XX`.
#[verifier::external_body]
fn url_encode(s: &str) -> (res: String)
    ensures
        res@ == percent_encoded(vstd::utf8::encode_utf8(s@)),
{
    urlencoding::encode(s).into_owned()
}

/// The first 800 characters of `s` (all of it where it is shorter).
pub open spec fn issue_excerpt(s: Seq<char>) -> Seq<char> {
    if s.len() <= 800 {
        s
    } else {
        s.take(800)
    }
}

/// The body of an issue about an error.
pub open spec fn issue_body_of(excerpt: Seq<char>, os: Seq<char>) -> Seq<char> {
    "## Error\n\n"@ + excerpt + "\n\n## Environment\n\n- OS: "@ + os + "\n"@
}

/// The link that opens a new issue with the encoded title and body.
pub open spec fn issue_link_of(title: Seq<char>, body: Seq<char>) -> Seq<char> {
    "https://github.com/xmb03/Genote/issues/new?title="@ + title + "&body="@ + body
}

/// The link for an error: the first 800 characters of the message as the title, and
/// a body with the message and the operating system, both percent-encoded.
pub open spec fn issue_url_of(ctx: Seq<char>, os: Seq<char>) -> Seq<char> {
    issue_link_of(
        percent_encoded(vstd::utf8::encode_utf8(issue_excerpt(ctx))),
        percent_encoded(vstd::utf8::encode_utf8(issue_body_of(issue_excerpt(ctx), os))),
    )
}

/// The link that opens a new issue with an encoded title and body.
pub fn issue_link(title: &str, body: &str) -> (res: String)
    ensures
        res@ == issue_link_of(title@, body@),
{
    let mut s = String::from_str("https://github.com/xmb03/Genote/issues/new?title=");
    s.append(title);
    s.append("&body=");
    s.append(body);
    s
}

/// The link that files an issue about the error `ctx` on the operating system `os`.
pub fn issue_url(ctx: &str, os: &str) -> (res: String)
    ensures
        res@ == issue_url_of(ctx@, os@),
{
    let c = chars_of(ctx);
    let short_v = if c.len() <= 800 { slice_chars(&c, 0, c.len()) } else { slice_chars(&c, 0, 800) };
    assert(short_v@ == issue_excerpt(ctx@));
    let short = string_from_chars(&short_v);
    let title = url_encode(short.as_str());
    let mut body_text = String::from_str("## Error\n\n");
    body_text.append(short.as_str());
    body_text.append("\n\n## Environment\n\n- OS: ");
    body_text.append(os);
    body_text.append("\n");
    let body = url_encode(body_text.as_str());
    issue_link(title.as_str(), body.as_str())
}

/// Whether an answer to the question is a yes: `y` or `Y`, surrounding whitespace
/// aside.
pub open spec fn is_yes(input: Seq<char>) -> bool {
    trim(input) == seq!['y'] || trim(input) == seq!['Y']
}

/// Whether an answer to the question is a yes.
pub fn answer_is_yes(input: &str) -> (res: bool)
    ensures
        res == is_yes(input@),
{
    let c = chars_of(input);
    let t = trim_exec(&c);
    if t.len() == 1 && (t[0] == 'y' || t[0] == 'Y') {
        assert(t@ =~= seq![t@[0]]);
        true
    } else {
        false
    }
}

/// Whether to offer an issue: only on a terminal, only once, and not where the user
/// turned the offer off.
pub fn offers_issue(turned_off: bool, on_terminal: bool, already_offered: bool) -> (res: bool)
    ensures
        res == (!turned_off && on_terminal && !already_offered),
{
    !turned_off && on_terminal && !already_offered
}

} // verus!
