//! The shape of a serialized URL: where its scheme ends, where its path lies,
//! and whether that path still holds a relative segment.

use vstd::prelude::*;
use vstd::string::*;
use vstd::utf8::*;

verus! {

/// The delimiters at which a scan over a serialized URL stops.
#[derive(Clone, Copy, Debug, PartialEq, Eq, Structural)]
pub enum Stop {
    /// The first character that cannot belong to a scheme.
    SchemeEnd,
    /// The first of `/`, `?` and `#`: the end of an authority.
    AuthorityEnd,
    /// The first of `?` and `#`: the end of a path.
    PathEnd,
}

/// A character that a serialized scheme is made of.
pub open spec fn is_scheme_char(c: char) -> bool {
    ('a' <= c <= 'z') || ('0' <= c <= '9') || c == '+' || c == '-' || c == '.'
}

/// Whether a scan of the given kind stops at `c`.
pub open spec fn stops_at(stop: Stop, c: char) -> bool {
    match stop {
        Stop::SchemeEnd => !is_scheme_char(c),
        Stop::AuthorityEnd => c == '/' || c == '?' || c == '#',
        Stop::PathEnd => c == '?' || c == '#',
    }
}

/// The first index at or after `from` at which a scan of the given kind
/// stops; the length of `text` where it never does.
pub open spec fn scan(text: Seq<char>, from: int, stop: Stop) -> int
    decreases text.len() - from,
{
    if 0 <= from < text.len() && !stops_at(stop, text[from]) {
        scan(text, from + 1, stop)
    } else {
        from
    }
}

/// The number of scheme characters that `text` begins with.
pub open spec fn scheme_end(text: Seq<char>) -> int {
    scan(text, 0, Stop::SchemeEnd)
}

/// `text` begins with a scheme and a colon.
pub open spec fn is_scheme_qualified(text: Seq<char>) -> bool {
    let end = scheme_end(text);
    &&& 0 < end < text.len()
    &&& 'a' <= text[0] <= 'z'
    &&& text[end] == ':'
}

/// The scheme of a scheme-qualified text, without the colon.
pub open spec fn scheme_of(text: Seq<char>) -> Seq<char> {
    text.take(scheme_end(text))
}

/// A URL without authority whose path begins with an empty segment is
/// written with `/.` between the colon and the path, so that the two slashes
/// of the path are not taken for the start of an authority. This says
/// whether that mark stands at `after`: `/.` followed by `//`.
pub open spec fn has_path_mark(text: Seq<char>, after: int) -> bool {
    &&& after + 3 < text.len()
    &&& text[after] == '/'
    &&& text[after + 1] == '.'
    &&& text[after + 2] == '/'
    &&& text[after + 3] == '/'
}

/// Where the path of a scheme-qualified text begins: behind the authority
/// where `//` follows the colon, behind the mark of a path with an empty
/// first segment where there is one, directly behind the colon otherwise.
pub open spec fn path_start(text: Seq<char>) -> int {
    let after = scheme_end(text) + 1;
    if after + 1 < text.len() && text[after] == '/' && text[after + 1] == '/' {
        scan(text, after + 2, Stop::AuthorityEnd)
    } else if has_path_mark(text, after) {
        after + 2
    } else {
        after
    }
}

/// Where the path of a scheme-qualified text ends: at the query, at the
/// fragment, or at the end of the text.
pub open spec fn path_end(text: Seq<char>) -> int {
    scan(text, path_start(text), Stop::PathEnd)
}

/// The segment that begins at `at` and ends before `end` is `.` or `..`.
pub open spec fn is_dot_segment(text: Seq<char>, at: int, end: int) -> bool {
    ||| at < end && text[at] == '.' && (at + 1 == end || text[at + 1] == '/')
    ||| at + 1 < end && text[at] == '.' && text[at + 1] == '.' && (at + 2 == end || text[at + 2]
        == '/')
}

/// Some slash in `from..end` is followed by a segment that is `.` or `..`.
pub open spec fn has_dot_segment(text: Seq<char>, from: int, end: int) -> bool
    decreases end - from,
{
    if from >= end {
        false
    } else {
        (text[from] == '/' && is_dot_segment(text, from + 1, end)) || has_dot_segment(
            text,
            from + 1,
            end,
        )
    }
}

/// The path of a scheme-qualified text is made of segments and one of them is
/// `.` or `..`. A path that does not begin with a slash has no segments.
pub open spec fn has_relative_segment(text: Seq<char>) -> bool {
    let start = path_start(text);
    let end = path_end(text);
    start < end && text[start] == '/' && has_dot_segment(text, start, end)
}

/// What makes a text a fully resolved locator: it is ASCII, begins with a
/// scheme, and no segment of its path is relative.
pub open spec fn is_fully_resolved(text: Seq<char>) -> bool {
    is_ascii_chars(text) && is_scheme_qualified(text) && !has_relative_segment(text)
}

const LOWER_A: u8 = 0x61;

const LOWER_Z: u8 = 0x7a;

const DIGIT_0: u8 = 0x30;

const DIGIT_9: u8 = 0x39;

const PLUS: u8 = 0x2b;

const MINUS: u8 = 0x2d;

const DOT: u8 = 0x2e;

const SLASH: u8 = 0x2f;

const COLON: u8 = 0x3a;

const QUESTION: u8 = 0x3f;

const HASH: u8 = 0x23;

fn is_stop_byte(stop: Stop, b: u8) -> (stops: bool)
    requires
        b < 128,
    ensures
        stops == stops_at(stop, b as char),
{
    match stop {
        Stop::SchemeEnd => !((b >= LOWER_A && b <= LOWER_Z) || (b >= DIGIT_0 && b <= DIGIT_9) || b == PLUS
            || b == MINUS || b == DOT),
        Stop::AuthorityEnd => b == SLASH || b == QUESTION || b == HASH,
        Stop::PathEnd => b == QUESTION || b == HASH,
    }
}

/// The bytes of an ASCII text are its characters, one for one.
spec fn bytes_match(bytes: Seq<u8>, text: Seq<char>) -> bool {
    &&& bytes.len() == text.len()
    &&& forall|i: int| 0 <= i < text.len() ==> #[trigger] bytes[i] < 128 && bytes[i] as char == text[i]
}

fn scan_bytes(bytes: &[u8], Ghost(text): Ghost<Seq<char>>, from: usize, stop: Stop) -> (at: usize)
    requires
        bytes_match(bytes@, text),
        from <= bytes.len(),
    ensures
        at == scan(text, from as int, stop),
        from <= at <= bytes.len(),
{
    let mut i: usize = from;
    while i < bytes.len() && !is_stop_byte(stop, bytes[i])
        invariant
            bytes_match(bytes@, text),
            from <= i <= bytes.len(),
            scan(text, from as int, stop) == scan(text, i as int, stop),
        decreases bytes.len() - i,
    {
        i = i + 1;
    }
    i
}

fn is_dot_segment_bytes(bytes: &[u8], Ghost(text): Ghost<Seq<char>>, at: usize, end: usize) -> (dot:
    bool)
    requires
        bytes_match(bytes@, text),
        at <= end <= bytes.len(),
    ensures
        dot == is_dot_segment(text, at as int, end as int),
{
    if at < end && bytes[at] == DOT {
        if at + 1 == end || bytes[at + 1] == SLASH {
            true
        } else {
            bytes[at + 1] == DOT && (at + 2 == end || bytes[at + 2] == SLASH)
        }
    } else {
        false
    }
}

fn has_dot_segment_bytes(bytes: &[u8], Ghost(text): Ghost<Seq<char>>, from: usize, end: usize) -> (found:
    bool)
    requires
        bytes_match(bytes@, text),
        from <= end <= bytes.len(),
    ensures
        found == has_dot_segment(text, from as int, end as int),
{
    let mut i: usize = from;
    while i < end
        invariant
            bytes_match(bytes@, text),
            from <= i <= end <= bytes.len(),
            has_dot_segment(text, from as int, end as int) == has_dot_segment(
                text,
                i as int,
                end as int,
            ),
        decreases end - i,
    {
        if bytes[i] == SLASH && is_dot_segment_bytes(bytes, Ghost(text), i + 1, end) {
            return true;
        }
        i = i + 1;
    }
    false
}

/// The bytes of an ASCII text stand for its characters.
proof fn lemma_ascii_bytes_match(text: &str)
    requires
        is_ascii(text),
    ensures
        bytes_match(text.spec_bytes(), text@),
{
    is_ascii_spec_bytes(text);
    assert forall|i: int| 0 <= i < text@.len() implies #[trigger] text.spec_bytes()[i] < 128
        && text.spec_bytes()[i] as char == text@[i] by {
        assert('\0' <= text@[i] <= '\u{7f}');
    }
}

/// Decides whether `text` is a fully resolved locator.
pub fn check_fully_resolved(text: &str) -> (resolved: bool)
    ensures
        resolved == is_fully_resolved(text@),
{
    if !text.is_ascii() {
        return false;
    }
    let bytes = text.as_bytes();
    proof {
        lemma_ascii_bytes_match(text);
    }
    let ghost chars = text@;
    let colon = scan_bytes(bytes, Ghost(chars), 0, Stop::SchemeEnd);
    if colon == 0 || colon >= bytes.len() || bytes[colon] != COLON || bytes[0] < LOWER_A || bytes[0]
        > LOWER_Z {
        return false;
    }
    let after = colon + 1;
    let start = if bytes.len() - after > 1 && bytes[after] == SLASH && bytes[after + 1] == SLASH {
        scan_bytes(bytes, Ghost(chars), after + 2, Stop::AuthorityEnd)
    } else if bytes.len() - after > 3 && bytes[after] == SLASH && bytes[after + 1] == DOT
        && bytes[after + 2] == SLASH && bytes[after + 3] == SLASH {
        after + 2
    } else {
        after
    };
    let end = scan_bytes(bytes, Ghost(chars), start, Stop::PathEnd);
    !(start < end && bytes[start] == SLASH && has_dot_segment_bytes(bytes, Ghost(chars), start, end))
}

/// Compares a text with an expected one.
pub(crate) fn same_text(text: &String, expected: &str) -> (same: bool)
    ensures
        same == (text@ == expected@),
{
    *text == String::from_str(expected)
}

/// Reads the scheme of a fully resolved locator.
pub(crate) fn read_scheme(text: &str) -> (scheme: String)
    requires
        is_fully_resolved(text@),
    ensures
        scheme@ == scheme_of(text@),
{
    let bytes = text.as_bytes();
    proof {
        lemma_ascii_bytes_match(text);
    }
    let end = scan_bytes(bytes, Ghost(text@), 0, Stop::SchemeEnd);
    String::from_str(text.substring_ascii(0, end))
}

} // verus!
