//! Module specifiers: absolute, scheme-qualified locators, and the rule by
//! which an import string becomes one.

use crate::text::{
    check_fully_resolved, has_relative_segment, is_fully_resolved, is_scheme_qualified, read_scheme,
    scheme_of,
};
use std::path::PathBuf;
use vstd::prelude::*;
use vstd::string::*;

verus! {

/// Why a text could not be read as an absolute URL.
#[derive(Clone, Copy, Debug, PartialEq, Eq, Structural)]
pub enum ParseFailure {
    /// The text is a relative reference, and there is no base to read it against.
    RelativeWithoutBase,
    /// The text is not a URL for any other reason.
    Invalid,
}

/// Why a reference could not be read against a base.
#[derive(Clone, Copy, Debug, PartialEq, Eq, Structural)]
pub enum JoinFailure {
    /// The base is not an absolute URL.
    InvalidBase,
    /// The base is one, and the reference cannot be read against it.
    InvalidReference,
}

/// Why an import string and its referrer give no module specifier.
#[derive(Clone, Copy, Debug, PartialEq, Eq, Structural)]
pub enum ResolutionError {
    /// The import string is relative and begins with none of `/`, `./`, `../`.
    ImportPrefixMissing,
    /// The referrer is not an absolute URL.
    InvalidBaseUrl,
    /// The import string is not a URL, alone or against the referrer.
    InvalidUrl,
    /// The resolved text is no fully resolved locator.
    NotFullyResolved,
    /// The reference is a path, and no file URL stands for it: it is not
    /// absolute, and neither is the directory that it is taken from.
    InvalidPath,
}

/// What `url::Url::parse` makes of a text: the serialization of the parsed
/// URL, or the reason why there is none.
pub uninterp spec fn parsed_url(text: Seq<char>) -> Result<Seq<char>, ParseFailure>;

/// What `url::Url::join` makes of a reference, called on the URL that
/// `url::Url::parse` makes of the base: the serialization of the joined URL,
/// or the reason why there is none.
pub uninterp spec fn joined_url(base: Seq<char>, reference: Seq<char>) -> Result<
    Seq<char>,
    JoinFailure,
>;

/// Calls `url::Url::parse` on `text`. The result is the serialization of the
/// URL that the parser built; of the parser's errors, only the one for a
/// relative reference without a base is told apart from the rest.
#[verifier::external_body]
fn parse_url(text: &str) -> (parsed: Result<String, ParseFailure>)
    ensures
        match parsed {
            Ok(href) => parsed_url(text@) == Ok::<Seq<char>, ParseFailure>(href@),
            Err(failure) => parsed_url(text@) == Err::<Seq<char>, ParseFailure>(failure),
        },
{
    match url::Url::parse(text) {
        Ok(parsed) => Ok(String::from(parsed)),
        Err(url::ParseError::RelativeUrlWithoutBase) => Err(ParseFailure::RelativeWithoutBase),
        Err(_) => Err(ParseFailure::Invalid),
    }
}

/// Calls `url::Url::join` with `reference` on the URL that `url::Url::parse`
/// makes of `base`. The result is the serialization of the joined URL; a base
/// that does not parse and a reference that does not join are told apart.
#[verifier::external_body]
fn join_url(base: &str, reference: &str) -> (joined: Result<String, JoinFailure>)
    ensures
        match joined {
            Ok(href) => joined_url(base@, reference@) == Ok::<Seq<char>, JoinFailure>(href@),
            Err(failure) => joined_url(base@, reference@) == Err::<Seq<char>, JoinFailure>(failure),
        },
{
    match url::Url::parse(base) {
        Ok(base) => match base.join(reference) {
            Ok(joined) => Ok(String::from(joined)),
            Err(_) => Err(JoinFailure::InvalidReference),
        },
        Err(_) => Err(JoinFailure::InvalidBase),
    }
}

/// Calls `std::path::Path::join` on the directory with the path. What a
/// path is made of depends on the platform, so nothing is claimed of the
/// result.
#[verifier::external_body]
fn join_path(directory: &str, path: &str) -> (joined: PathBuf) {
    std::path::Path::new(directory).join(path)
}

/// Calls `url::Url::from_file_path` and hands back the serialization of the
/// URL it built. Which paths have one depends on the platform, so nothing is
/// claimed of the result.
#[verifier::external_body]
fn file_url(path: &PathBuf) -> (url: Option<String>) {
    match url::Url::from_file_path(path) {
        Ok(url) => Some(String::from(url)),
        Err(_) => None,
    }
}

/// An absolute, scheme-qualified locator of one module.
///
/// Every value is fully resolved: ASCII, beginning with a scheme, and with no
/// `.` or `..` segment left in its path.
#[derive(Debug, PartialEq, Eq)]
pub struct ModuleSpecifier {
    href: String,
}

impl View for ModuleSpecifier {
    type V = Seq<char>;

    closed spec fn view(&self) -> Seq<char> {
        self.href@
    }
}

impl Clone for ModuleSpecifier {
    fn clone(&self) -> (copy: Self)
        ensures
            copy@ == self@,
    {
        proof {
            use_type_invariant(self);
        }
        ModuleSpecifier { href: self.href.clone() }
    }
}

impl ModuleSpecifier {
    #[verifier::type_invariant]
    spec fn fully_resolved(self) -> bool {
        is_fully_resolved(self.href@)
    }

    /// Takes a serialized URL as a module specifier, if it is fully resolved.
    pub fn from_serialization(href: String) -> (made: Result<ModuleSpecifier, ResolutionError>)
        ensures
            match made {
                Ok(specifier) => is_fully_resolved(href@) && specifier@ == href@,
                Err(error) => !is_fully_resolved(href@) && error == ResolutionError::NotFullyResolved,
            },
    {
        if check_fully_resolved(href.as_str()) {
            Ok(ModuleSpecifier { href })
        } else {
            Err(ResolutionError::NotFullyResolved)
        }
    }

    /// The serialization of this specifier.
    pub fn as_str(&self) -> (href: &str)
        ensures
            href@ == self@,
            is_fully_resolved(href@),
    {
        proof {
            use_type_invariant(self);
        }
        self.href.as_str()
    }

    /// The scheme of this specifier, without the colon.
    pub fn scheme(&self) -> (scheme: String)
        ensures
            scheme@ == scheme_of(self@),
    {
        proof {
            use_type_invariant(self);
        }
        read_scheme(self.href.as_str())
    }

    /// Whether two specifiers name the same module.
    pub fn same_as(&self, other: &ModuleSpecifier) -> (same: bool)
        ensures
            same == (self@ == other@),
    {
        self.href == other.href
    }
}

/// `text` begins with `/`, `./` or `../`.
pub open spec fn has_import_prefix(text: Seq<char>) -> bool {
    ||| text.len() >= 1 && text[0] == '/'
    ||| text.len() >= 2 && text[0] == '.' && text[1] == '/'
    ||| text.len() >= 3 && text[0] == '.' && text[1] == '.' && text[2] == '/'
}

/// Decides whether an import string begins with `/`, `./` or `../`.
pub fn begins_with_import_prefix(text: &str) -> (prefixed: bool)
    ensures
        prefixed == has_import_prefix(text@),
{
    let len = text.unicode_len();
    if len == 0 {
        return false;
    }
    let first = text.get_char(0);
    if first == '/' {
        return true;
    }
    if first != '.' || len < 2 {
        return false;
    }
    let second = text.get_char(1);
    if second == '/' {
        return true;
    }
    second == '.' && len >= 3 && text.get_char(2) == '/'
}

/// The URL that an import string stands for, given what the URL parser makes
/// of the string alone (`direct`) and of the string against its referrer
/// (`joined`): the string itself where it is an absolute URL; the joined URL
/// where it is a relative reference that begins with `/`, `./` or `../`.
pub open spec fn resolved_url(
    specifier: Seq<char>,
    direct: Result<Seq<char>, ParseFailure>,
    joined: Result<Seq<char>, JoinFailure>,
) -> Result<Seq<char>, ResolutionError> {
    match direct {
        Ok(href) => Ok(href),
        Err(ParseFailure::Invalid) => Err(ResolutionError::InvalidUrl),
        Err(ParseFailure::RelativeWithoutBase) => if !has_import_prefix(specifier) {
            Err(ResolutionError::ImportPrefixMissing)
        } else {
            match joined {
                Ok(href) => Ok(href),
                Err(JoinFailure::InvalidBase) => Err(ResolutionError::InvalidBaseUrl),
                Err(JoinFailure::InvalidReference) => Err(ResolutionError::InvalidUrl),
            }
        },
    }
}

/// The module specifier that an import string stands for: the URL of
/// `resolved_url`, which has to be fully resolved.
pub open spec fn resolution(
    specifier: Seq<char>,
    direct: Result<Seq<char>, ParseFailure>,
    joined: Result<Seq<char>, JoinFailure>,
) -> Result<Seq<char>, ResolutionError> {
    match resolved_url(specifier, direct, joined) {
        Ok(href) => if is_fully_resolved(href) {
            Ok(href)
        } else {
            Err(ResolutionError::NotFullyResolved)
        },
        Err(error) => Err(error),
    }
}

/// The module specifier that `specifier`, imported from `referrer`, stands for.
pub open spec fn resolution_of(specifier: Seq<char>, referrer: Seq<char>) -> Result<
    Seq<char>,
    ResolutionError,
> {
    resolution(specifier, parsed_url(specifier), joined_url(referrer, specifier))
}

/// The view of a parser result.
pub open spec fn text_of<E>(result: Result<String, E>) -> Result<Seq<char>, E> {
    match result {
        Ok(href) => Ok(href@),
        Err(error) => Err(error),
    }
}

/// The view of a resolution.
pub open spec fn specifier_of(result: Result<ModuleSpecifier, ResolutionError>) -> Result<
    Seq<char>,
    ResolutionError,
> {
    match result {
        Ok(specifier) => Ok(specifier@),
        Err(error) => Err(error),
    }
}

/// Resolves an import string from what the URL parser made of it: `direct`
/// for the string alone, `joined` for the string against its referrer.
pub fn resolve_from(
    specifier: &str,
    direct: Result<String, ParseFailure>,
    joined: Result<String, JoinFailure>,
) -> (resolved: Result<ModuleSpecifier, ResolutionError>)
    ensures
        specifier_of(resolved) == resolution(specifier@, text_of(direct), text_of(joined)),
{
    match direct {
        Ok(href) => ModuleSpecifier::from_serialization(href),
        Err(ParseFailure::Invalid) => Err(ResolutionError::InvalidUrl),
        Err(ParseFailure::RelativeWithoutBase) => {
            if !begins_with_import_prefix(specifier) {
                Err(ResolutionError::ImportPrefixMissing)
            } else {
                match joined {
                    Ok(href) => ModuleSpecifier::from_serialization(href),
                    Err(JoinFailure::InvalidBase) => Err(ResolutionError::InvalidBaseUrl),
                    Err(JoinFailure::InvalidReference) => Err(ResolutionError::InvalidUrl),
                }
            }
        },
    }
}

/// Resolves an import string against the specifier of the module that holds
/// the import. No I/O is done: the result depends on the two texts alone.
pub fn resolve_import(specifier: &str, referrer: &str) -> (resolved: Result<
    ModuleSpecifier,
    ResolutionError,
>)
    ensures
        specifier_of(resolved) == resolution_of(specifier@, referrer@),
        resolved matches Ok(found) ==> is_fully_resolved(found@),
{
    let direct = parse_url(specifier);
    let needs_referrer = match &direct {
        Err(ParseFailure::RelativeWithoutBase) => begins_with_import_prefix(specifier),
        _ => false,
    };
    if needs_referrer {
        let joined = join_url(referrer, specifier);
        resolve_from(specifier, direct, joined)
    } else {
        resolve_from(specifier, direct, Err(JoinFailure::InvalidBase))
    }
}

/// The module specifier that an absolute URL stands for.
pub open spec fn absolute_resolution(text: Seq<char>) -> Result<Seq<char>, ResolutionError> {
    match parsed_url(text) {
        Ok(href) => if is_fully_resolved(href) {
            Ok(href)
        } else {
            Err(ResolutionError::NotFullyResolved)
        },
        Err(_) => Err(ResolutionError::InvalidUrl),
    }
}

impl ModuleSpecifier {
    /// Reads an absolute URL as a module specifier.
    pub fn parse(text: &str) -> (parsed: Result<ModuleSpecifier, ResolutionError>)
        ensures
            specifier_of(parsed) == absolute_resolution(text@),
    {
        match parse_url(text) {
            Ok(href) => ModuleSpecifier::from_serialization(href),
            Err(_) => Err(ResolutionError::InvalidUrl),
        }
    }
}

/// The view of an optional text.
pub open spec fn optional_text(text: Option<String>) -> Option<Seq<char>> {
    match text {
        Some(held) => Some(held@),
        None => None,
    }
}

/// The module specifier that a function reference stands for, given what
/// the URL parser makes of the reference (`direct`) and the file URL of the
/// path that the reference names from the working directory (`local`): the
/// reference itself where it is an absolute URL, and otherwise that file
/// URL, read by the URL parser so that no `.` or `..` segment stays.
pub open spec fn entry_resolution(
    direct: Result<Seq<char>, ParseFailure>,
    local: Option<Seq<char>>,
) -> Result<Seq<char>, ResolutionError> {
    match direct {
        Ok(href) => if is_fully_resolved(href) {
            Ok(href)
        } else {
            Err(ResolutionError::NotFullyResolved)
        },
        Err(_) => match local {
            Some(url) => absolute_resolution(url),
            None => Err(ResolutionError::InvalidPath),
        },
    }
}

/// Resolves a function reference from what the URL parser made of it and
/// from the file URL of the path that it names, if there is one.
pub fn resolve_entry_from(direct: Result<String, ParseFailure>, local: Option<String>) -> (resolved:
    Result<ModuleSpecifier, ResolutionError>)
    ensures
        specifier_of(resolved) == entry_resolution(text_of(direct), optional_text(local)),
{
    match direct {
        Ok(href) => ModuleSpecifier::from_serialization(href),
        Err(_) => match local {
            Some(url) => ModuleSpecifier::parse(url.as_str()),
            None => Err(ResolutionError::InvalidPath),
        },
    }
}

/// Resolves a function reference against the working directory of the
/// process. A reference that the URL parser takes for an absolute URL is
/// that URL. Any other reference is a local path: it is joined to the
/// working directory as a path, so that `#`, `?` and `%` in it are part of
/// a file's name. Which file URL a path has is the platform's to say; what
/// follows from it is `entry_resolution`.
pub fn resolve_entry(reference: &str, working_directory: &str) -> (resolved: Result<
    ModuleSpecifier,
    ResolutionError,
>)
    ensures
        exists|local: Option<Seq<char>>|
            specifier_of(resolved) == #[trigger] entry_resolution(parsed_url(reference@), local),
        parsed_url(reference@) is Ok ==> specifier_of(resolved) == absolute_resolution(
            reference@,
        ),
        resolved matches Ok(found) ==> is_fully_resolved(found@),
{
    let direct = parse_url(reference);
    let local = if direct.is_ok() {
        None
    } else {
        file_url(&join_path(working_directory, reference))
    };
    let ghost local_view = optional_text(local);
    let resolved = resolve_entry_from(direct, local);
    assert(specifier_of(resolved) == entry_resolution(parsed_url(reference@), local_view));
    resolved
}

/// Resolution is a function of the import string and its referrer: two
/// resolutions of the same pair give the same result.
pub proof fn lemma_resolution_is_deterministic(
    specifier: Seq<char>,
    referrer: Seq<char>,
    again_specifier: Seq<char>,
    again_referrer: Seq<char>,
)
    requires
        specifier == again_specifier,
        referrer == again_referrer,
    ensures
        resolution_of(specifier, referrer) == resolution_of(again_specifier, again_referrer),
{
}

/// What resolution yields is fully resolved: it begins with a scheme, and
/// its path holds no `.` and no `..` segment.
pub proof fn lemma_resolution_leaves_no_relative_segment(
    specifier: Seq<char>,
    referrer: Seq<char>,
)
    ensures
        resolution_of(specifier, referrer) matches Ok(href) ==> is_scheme_qualified(href)
            && !has_relative_segment(href),
{
}

} // verus!
