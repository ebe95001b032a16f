//! The syntax-tree values this crate carries through, and what it knows of them.
//!
//! Identifiers, paths, generics and attributes stay the values that `syn` and
//! `proc_macro2` built. Verified code never looks inside one; it sees them
//! through the views declared here, and every function in this module that
//! touches one is a thin call into the crate that owns the type.

use vstd::prelude::*;

use proc_macro2::{Ident, Span};
use syn::{Attribute, Generics, Path};

use crate::tokens::{printed_path, shapes, type_generics_tokens, where_clause_tokens, Shape};

verus! {

#[verifier::external_type_specification]
#[verifier::external_body]
pub struct ExSpan(proc_macro2::Span);

#[verifier::external_type_specification]
#[verifier::external_body]
pub struct ExIdent(proc_macro2::Ident);

#[verifier::external_type_specification]
#[verifier::external_body]
pub struct ExPath(syn::Path);

#[verifier::external_type_specification]
#[verifier::external_body]
pub struct ExGenerics(syn::Generics);

#[verifier::external_type_specification]
#[verifier::external_body]
pub struct ExAttribute(syn::Attribute);

#[verifier::external_type_specification]
#[verifier::external_body]
pub struct ExSynError(syn::Error);

/// The characters of an identifier, as `Ident::to_string` gives them.
pub uninterp spec fn ident_text(ident: Ident) -> Seq<char>;

/// The location an identifier carries, as `Ident::span` gives it.
pub uninterp spec fn ident_span(ident: Ident) -> Span;

/// One segment of a path: its identifier, whether it stands without generic
/// arguments, and the two locations of the `::` that follows it, if one does.
pub struct SegmentView {
    pub text: Seq<char>,
    pub span: Span,
    pub bare: bool,
    pub separator: Option<(Span, Span)>,
}

/// What this crate reads of a path: the two locations of a leading `::`, if
/// there is one, and the segments in order.
pub struct PathView {
    pub leading_colon: Option<(Span, Span)>,
    pub segments: Seq<SegmentView>,
}

/// A bound on a type parameter: a plain trait path, or anything else.
pub enum BoundView {
    Trait(PathView),
    Other,
}

/// One generic parameter: its kind and, for a type parameter, its bounds in
/// order.
pub enum ParamView {
    Lifetime,
    Type { bounds: Seq<BoundView> },
    Const,
}

/// One segment of a path without its locations.
pub struct SegmentName {
    pub text: Seq<char>,
    pub bare: bool,
}

/// What a path names, wherever it stands: whether it starts with `::`, and
/// its segments in order.
pub struct PathName {
    pub global: bool,
    pub segments: Seq<SegmentName>,
}

/// The view of a path (`Path::leading_colon`, `Path::segments`).
pub uninterp spec fn path_view(path: Path) -> PathView;

/// A path as it is read from a text, without the locations that reading
/// gives it: what it names, and the tokens it prints.
pub struct ParsedPath {
    pub name: PathName,
    pub tokens: Seq<Shape>,
}

/// The path that `syn` reads the text as (`syn::parse_str::<Path>`), or
/// nothing where `syn` reads no path.
pub uninterp spec fn parsed_path(text: Seq<char>) -> Option<ParsedPath>;

/// Whether `syn` reads the text as a path.
pub open spec fn parses_as_path(text: Seq<char>) -> bool {
    parsed_path(text) is Some
}

/// What the path names that `syn` reads the text as.
pub open spec fn parsed_name(text: Seq<char>) -> PathName {
    parsed_path(text)->0.name
}

/// The path without its locations.
pub open spec fn unlocated(path: Path) -> ParsedPath {
    ParsedPath { name: path_name(path_view(path)), tokens: shapes(printed_path(path)) }
}

/// What stays of generics when the bounds of their type parameters are left
/// aside: every parameter's name, attributes and default, the lifetimes'
/// bounds, the const parameters' types, the angle brackets and the `where`
/// clause.
pub uninterp spec fn sans_bounds(generics: Generics) -> Generics;

/// What a path names.
pub open spec fn path_name(path: PathView) -> PathName {
    PathName {
        global: path.leading_colon is Some,
        segments: Seq::new(
            path.segments.len(),
            |i: int| SegmentName { text: path.segments[i].text, bare: path.segments[i].bare },
        ),
    }
}

/// No segment of the path has generic arguments.
pub open spec fn all_bare(path: PathView) -> bool {
    forall|i: int| 0 <= i < path.segments.len() ==> (#[trigger] path.segments[i]).bare
}

/// The segment with `::` after it, both colons at `span`.
pub open spec fn followed(segment: SegmentView, span: Span) -> SegmentView {
    SegmentView { separator: Some((span, span)), ..segment }
}

/// The parameters that a `Generics` holds (`Generics::params`), in order.
pub uninterp spec fn generics_params(generics: Generics) -> Seq<ParamView>;

/// The view of an attribute's path (`Attribute::path`): `allow` in
/// `#[allow(dead_code)]`.
pub uninterp spec fn attribute_path(attribute: Attribute) -> PathView;

/// The path is one identifier with this text: no leading `::`, one segment,
/// no arguments.
pub open spec fn is_single_ident(path: PathView, text: Seq<char>) -> bool {
    &&& path.leading_colon is None
    &&& path.segments.len() == 1
    &&& path.segments[0].bare
    &&& path.segments[0].text == text
}

/// The segment that an identifier alone makes.
pub open spec fn bare_segment(ident: Ident) -> SegmentView {
    SegmentView {
        text: ident_text(ident),
        span: ident_span(ident),
        bare: true,
        separator: None,
    }
}

pub open spec fn is_ascii_letter(c: char) -> bool {
    ('a' <= c && c <= 'z') || ('A' <= c && c <= 'Z')
}

pub open spec fn is_ascii_word_char(c: char) -> bool {
    is_ascii_letter(c) || ('0' <= c && c <= '9') || c == '_'
}

/// Text that is certainly accepted as an identifier: an ASCII letter, then
/// ASCII letters, digits and underscores.
pub open spec fn is_ident_text(text: Seq<char>) -> bool {
    &&& text.len() > 0
    &&& is_ascii_letter(text[0])
    &&& forall|i: int| 0 < i < text.len() ==> is_ascii_word_char(#[trigger] text[i])
}

/// Calls `syn::parse_str::<syn::Path>`. Whether the text parses, what the
/// path names that comes of it and which tokens it prints depend on the text
/// alone. The path's locations do not, so nothing is claimed of them.
#[verifier::external_body]
pub(crate) fn parse_path(value: &str) -> (parsed: Result<Path, syn::Error>)
    ensures
        match parsed {
            Ok(path) => parsed_path(value@) == Some(unlocated(path)),
            Err(_) => parsed_path(value@) is None,
        },
{
    syn::parse_str::<Path>(value)
}

/// Calls `proc_macro2::Ident::new`, which panics on text that is no
/// identifier; the text asked for here always is one. The identifier holds
/// the text and the location it was made with.
#[verifier::external_body]
pub(crate) fn new_ident(text: &str, span: Span) -> (ident: Ident)
    requires
        is_ident_text(text@),
    ensures
        ident_text(ident) == text@,
        ident_span(ident) == span,
{
    Ident::new(text, span)
}

/// Makes the path `::first` with `Path::from` and a `syn::token::PathSep` whose
/// two locations are `span`.
#[verifier::external_body]
pub(crate) fn rooted_path(first: Ident, span: Span) -> (path: Path)
    ensures
        path_view(path) == (PathView {
            leading_colon: Some((span, span)),
            segments: seq![bare_segment(first)],
        }),
{
    let mut path = Path::from(first);
    path.leading_colon = Some(syn::token::PathSep { spans: [span, span] });
    path
}

/// Calls `Punctuated::push_punct` on `Path::segments` with a
/// `syn::token::PathSep` whose two locations are `span`, then
/// `Punctuated::push_value` with the segment that `PathSegment::from` makes of
/// the identifier. The first panics on a path that has no segment or ends in
/// `::`. The last segment gains the `::` after it, and one more segment,
/// without arguments, stands at the end; the rest of the path stays.
#[verifier::external_body]
pub(crate) fn push_segment_at(path: &mut Path, ident: Ident, span: Span)
    requires
        path_view(*old(path)).segments.len() > 0,
        path_view(*old(path)).segments.last().separator is None,
    ensures
        path_view(*final(path)) == (PathView {
            leading_colon: path_view(*old(path)).leading_colon,
            segments: path_view(*old(path)).segments.drop_last().push(
                followed(path_view(*old(path)).segments.last(), span),
            ).push(bare_segment(ident)),
        }),
{
    path.segments.push_punct(syn::token::PathSep { spans: [span, span] });
    path.segments.push_value(syn::PathSegment::from(ident));
}

/// Calls `Path::is_ident` on `Attribute::path`: whether the attribute's path
/// is the one identifier `name`.
#[verifier::external_body]
pub(crate) fn attribute_is(attribute: &Attribute, name: &str) -> (is_named: bool)
    ensures
        is_named == is_single_ident(attribute_path(*attribute), name@),
{
    attribute.path().is_ident(name)
}

/// Calls `Punctuated::len` on `Generics::params`.
#[verifier::external_body]
pub(crate) fn param_count(generics: &Generics) -> (count: usize)
    ensures
        count == generics_params(*generics).len(),
{
    generics.params.len()
}

/// Indexes `Generics::params` and tells whether the parameter there is a
/// `GenericParam::Type`.
#[verifier::external_body]
pub(crate) fn is_type_param(generics: &Generics, index: usize) -> (is_type: bool)
    requires
        index < generics_params(*generics).len(),
    ensures
        is_type == (generics_params(*generics)[index as int] is Type),
{
    match generics.params[index] {
        syn::GenericParam::Type(_) => true,
        syn::GenericParam::Lifetime(_) => false,
        syn::GenericParam::Const(_) => false,
    }
}

/// Calls `Punctuated::push` on the `bounds` of the type parameter at `index`
/// with a `TraitBound` that holds a copy of `bound` and nothing else (no
/// parentheses, no modifier, no lifetimes). That parameter gains the bound at
/// the end of its list; every other parameter stays as it was, and nothing
/// but that list of bounds is touched. The tokens after a type's name hold
/// the parameters' names alone, so they and the `where` clause print as
/// before.
#[verifier::external_body]
pub(crate) fn push_bound(generics: &mut Generics, index: usize, bound: &Path)
    requires
        index < generics_params(*old(generics)).len(),
        generics_params(*old(generics))[index as int] is Type,
    ensures
        generics_params(*final(generics)) == generics_params(*old(generics)).update(
            index as int,
            with_bound(generics_params(*old(generics))[index as int], path_view(*bound)),
        ),
        sans_bounds(*final(generics)) == sans_bounds(*old(generics)),
        type_generics_tokens(*final(generics)) == type_generics_tokens(*old(generics)),
        where_clause_tokens(*final(generics)) == where_clause_tokens(*old(generics)),
{
    if let syn::GenericParam::Type(param) = &mut generics.params[index] {
        param.bounds.push(syn::TypeParamBound::Trait(syn::TraitBound {
            paren_token: None,
            modifier: syn::TraitBoundModifier::None,
            lifetimes: None,
            path: bound.clone(),
        }));
    }
}

/// Calls `Generics::clone`, which `syn` derives field by field.
#[verifier::external_body]
pub(crate) fn clone_generics(generics: &Generics) -> (copy: Generics)
    ensures
        copy == *generics,
{
    generics.clone()
}

/// Calls `Span::call_site`. The location depends on where the macro was
/// invoked, so nothing is claimed of it.
#[verifier::external_body]
pub(crate) fn call_site() -> (span: Span) {
    Span::call_site()
}

/// A parameter with one more trait bound at the end of its list, if it is a
/// type parameter; any other parameter as it is.
pub open spec fn with_bound(param: ParamView, bound: PathView) -> ParamView {
    match param {
        ParamView::Type { bounds } => ParamView::Type {
            bounds: bounds.push(BoundView::Trait(bound)),
        },
        other => other,
    }
}

} // verus!
