//! The transpiler adapter: typed and markup-flavoured source goes through the
//! transpiler, everything else is handed on as it came.

use crate::media::SourceKind;
use crate::specifier::ModuleSpecifier;
use vstd::prelude::*;
use vstd::string::*;
use vstd::utf8::encode_utf8;

verus! {

/// The text that `String::from_utf8_lossy` reads from bytes.
pub uninterp spec fn lossy_text(bytes: Seq<u8>) -> Seq<char>;

/// What the transpiler makes of a module's text: `deno_ast::parse_module` on
/// the text, under the URL that `url::Url::parse` makes of `href` and the
/// media type that `deno_ast::MediaType::from_specifier` reads from it, then
/// `transpile` with default options. `Ok` holds the emitted text, `Err` the
/// message of the first step that failed.
pub uninterp spec fn transpiled(href: Seq<char>, source: Seq<char>) -> Result<Seq<char>, Seq<char>>;

/// `text` begins with a byte-order mark.
pub open spec fn begins_with_mark(text: Seq<char>) -> bool {
    text.len() > 0 && text[0] == '\u{feff}'
}

/// The first index at or after `from` that holds no byte-order mark.
pub open spec fn marks_end(text: Seq<char>, from: int) -> int
    decreases text.len() - from,
{
    if 0 <= from < text.len() && text[from] == '\u{feff}' {
        marks_end(text, from + 1)
    } else {
        from
    }
}

/// `text` without the byte-order marks that it begins with.
pub open spec fn without_marks(text: Seq<char>) -> Seq<char> {
    text.skip(marks_end(text, 0))
}

/// The marks end within the text, and at something that is no mark.
proof fn lemma_marks_end(text: Seq<char>, from: int)
    requires
        0 <= from <= text.len(),
    ensures
        from <= marks_end(text, from) <= text.len(),
        marks_end(text, from) < text.len() ==> text[marks_end(text, from)] != '\u{feff}',
    decreases text.len() - from,
{
    if from < text.len() && text[from] == '\u{feff}' {
        lemma_marks_end(text, from + 1);
    }
}

/// What is left when the leading marks are gone begins with none.
pub proof fn lemma_without_marks_begins_with_none(text: Seq<char>)
    ensures
        !begins_with_mark(without_marks(text)),
{
    lemma_marks_end(text, 0);
}

/// Takes the byte-order marks off the front of a text.
pub fn strip_marks(text: &str) -> (stripped: &str)
    ensures
        stripped@ == without_marks(text@),
{
    let len = text.unicode_len();
    let mut i: usize = 0;
    while i < len && text.get_char(i) == '\u{feff}'
        invariant
            i <= len,
            len == text@.len(),
            marks_end(text@, 0) == marks_end(text@, i as int),
        decreases len - i,
    {
        i = i + 1;
    }
    text.substring_char(i, len)
}

/// Calls `String::from_utf8_lossy`.
#[verifier::external_body]
fn decode_lossy(bytes: &[u8]) -> (text: String)
    ensures
        text@ == lossy_text(bytes@),
{
    String::from_utf8_lossy(bytes).into_owned()
}

/// Parses `source` with `deno_ast::parse_module` and emits it with
/// `deno_ast::ParsedSource::transpile`, all options at their defaults. The
/// parser may panic on a text that begins with a byte-order mark, so such a
/// text is not handed to it. The result depends on the two texts alone;
/// nothing else is claimed of it.
#[verifier::external_body]
fn transpile_module(href: &str, source: &str) -> (emitted: Result<String, String>)
    requires
        !begins_with_mark(source@),
    ensures
        match emitted {
            Ok(text) => transpiled(href@, source@) == Ok::<Seq<char>, Seq<char>>(text@),
            Err(message) => transpiled(href@, source@) == Err::<Seq<char>, Seq<char>>(message@),
        },
{
    let specifier = url::Url::parse(href).map_err(|e| e.to_string())?;
    let media_type = deno_ast::MediaType::from_specifier(&specifier);
    let text = source.into();
    let parsed = deno_ast::parse_module(deno_ast::ParseParams {
        specifier, text, media_type, capture_tokens: false, scope_analysis: false, maybe_syntax: None,
    }).map_err(|e| e.to_string())?;
    let defaults = (Default::default(), Default::default(), Default::default());
    let emitted = parsed.transpile(&defaults.0, &defaults.1, &defaults.2).map_err(|e| e.to_string())?;
    Ok(emitted.into_source().text)
}

/// The bytes that the guest runtime is given for a module of the given kind:
/// for typed and markup-flavoured source, what the transpiler emits for the
/// text of the fetched bytes without its leading byte-order marks; for the
/// rest, the fetched bytes themselves. `Err` holds the transpiler's message.
pub open spec fn executable_source(href: Seq<char>, kind: SourceKind, bytes: Seq<u8>) -> Result<
    Seq<u8>,
    Seq<char>,
> {
    if kind.requires_transpile() {
        match transpiled(href, without_marks(lossy_text(bytes))) {
            Ok(text) => Ok(encode_utf8(text)),
            Err(message) => Err(message),
        }
    } else {
        Ok(bytes)
    }
}

/// The bytes of what the transpiler emitted, or its message.
pub fn emitted_bytes(emitted: Result<String, String>) -> (source: Result<Vec<u8>, String>)
    ensures
        match source {
            Ok(bytes) => emitted matches Ok(text) && bytes@ == encode_utf8(text@),
            Err(message) => emitted matches Err(reason) && message@ == reason@,
        },
{
    match emitted {
        Ok(text) => Ok(text.as_str().as_bytes_vec()),
        Err(message) => Err(message),
    }
}

/// Makes the fetched bytes of a module executable.
pub fn make_executable(specifier: &ModuleSpecifier, kind: SourceKind, bytes: Vec<u8>) -> (source:
    Result<Vec<u8>, String>)
    ensures
        match source {
            Ok(made) => executable_source(specifier@, kind, bytes@) == Ok::<Seq<u8>, Seq<char>>(
                made@,
            ),
            Err(message) => executable_source(specifier@, kind, bytes@) == Err::<
                Seq<u8>,
                Seq<char>,
            >(message@),
        },
{
    if kind.requires_transpile() {
        let text = decode_lossy(bytes.as_slice());
        let source = strip_marks(text.as_str());
        proof {
            lemma_without_marks_begins_with_none(text@);
        }
        emitted_bytes(transpile_module(specifier.as_str(), source))
    } else {
        Ok(bytes)
    }
}

/// Source that needs no transpiling is handed on untouched: for plain
/// script and for structured data the executable source is the fetched bytes.
pub proof fn lemma_plain_source_is_untouched(href: Seq<char>, kind: SourceKind, bytes: Seq<u8>)
    requires
        kind == SourceKind::PlainScript || kind == SourceKind::StructuredData,
    ensures
        executable_source(href, kind, bytes) == Ok::<Seq<u8>, Seq<char>>(bytes),
{
}

} // verus!
