//! Media classification: from a specifier to the kind of source behind it.

use crate::specifier::ModuleSpecifier;
use crate::text::same_text;
use vstd::prelude::*;
use vstd::string::*;

verus! {

/// How a module's source has to be treated before the guest runtime can take it.
#[derive(Clone, Copy, Debug, PartialEq, Eq, Structural)]
pub enum SourceKind {
    /// Directly executable script. Every media type that is none of the
    /// others counts as this one.
    PlainScript,
    /// Typed script, including its declaration variants.
    TypedScript,
    /// Script with embedded markup.
    MarkupScript,
    /// A structured-data document, loaded verbatim and never executed.
    StructuredData,
}

/// The name under which `deno_ast::MediaType` displays the media type that
/// `deno_ast::MediaType::from_specifier` reads from the URL that
/// `url::Url::parse` makes of `href`; `None` where `href` is no URL.
pub uninterp spec fn media_type_name(href: Seq<char>) -> Option<Seq<char>>;

/// Calls `deno_ast::MediaType::from_specifier` on the URL that
/// `url::Url::parse` makes of `href`, and hands back the media type's
/// display name. Nothing is claimed of the name but that it depends on
/// `href` alone.
#[verifier::external_body]
fn read_media_type_name(href: &str) -> (name: Option<String>)
    ensures
        match name {
            Some(text) => media_type_name(href@) == Some(text@),
            None => media_type_name(href@) is None,
        },
{
    match url::Url::parse(href) {
        Ok(specifier) => Some(deno_ast::MediaType::from_specifier(&specifier).to_string()),
        Err(_) => None,
    }
}

/// The source kind that goes with a media type's display name: markup for
/// `JSX`; typed script for `TypeScript`, `Mts`, `Cts`, the three
/// declaration variants and `TSX`; structured data for `Json`; plain script
/// for every other name.
pub open spec fn kind_of_name(name: Seq<char>) -> SourceKind {
    if name == "JSX"@ {
        SourceKind::MarkupScript
    } else if name == "TypeScript"@ || name == "Mts"@ || name == "Cts"@ || name == "Dts"@ || name
        == "Dmts"@ || name == "Dcts"@ || name == "TSX"@ {
        SourceKind::TypedScript
    } else if name == "Json"@ {
        SourceKind::StructuredData
    } else {
        SourceKind::PlainScript
    }
}

/// The source kind of a module, given the display name of its media type;
/// a module without one is plain script.
pub open spec fn kind_of(name: Option<Seq<char>>) -> SourceKind {
    match name {
        Some(text) => kind_of_name(text),
        None => SourceKind::PlainScript,
    }
}

impl SourceKind {
    /// Whether source of this kind goes through the transpiler before use.
    pub open spec fn spec_requires_transpile(self) -> bool {
        self == SourceKind::TypedScript || self == SourceKind::MarkupScript
    }

    /// Whether source of this kind goes through the transpiler before use.
    #[verifier::when_used_as_spec(spec_requires_transpile)]
    pub fn requires_transpile(self) -> (needed: bool)
        ensures
            needed == self.spec_requires_transpile(),
    {
        match self {
            SourceKind::TypedScript | SourceKind::MarkupScript => true,
            SourceKind::PlainScript | SourceKind::StructuredData => false,
        }
    }

    /// The source kind that goes with the display name of a media type.
    pub fn from_media_type_name(name: Option<String>) -> (kind: SourceKind)
        ensures
            kind == kind_of(
                match name {
                    Some(text) => Some(text@),
                    None => None,
                },
            ),
    {
        match name {
            None => SourceKind::PlainScript,
            Some(text) => {
                if same_text(&text, "JSX") {
                    SourceKind::MarkupScript
                } else if same_text(&text, "TypeScript") || same_text(&text, "Mts") || same_text(
                    &text,
                    "Cts",
                ) || same_text(&text, "Dts") || same_text(&text, "Dmts") || same_text(
                    &text,
                    "Dcts",
                ) || same_text(&text, "TSX") {
                    SourceKind::TypedScript
                } else if same_text(&text, "Json") {
                    SourceKind::StructuredData
                } else {
                    SourceKind::PlainScript
                }
            },
        }
    }

    /// Classifies the module that a specifier names.
    pub fn of_specifier(specifier: &ModuleSpecifier) -> (kind: SourceKind)
        ensures
            kind == kind_of(media_type_name(specifier@)),
    {
        SourceKind::from_media_type_name(read_media_type_name(specifier.as_str()))
    }
}

} // verus!
