//! Token streams: what one holds, and the calls that add to one.

use vstd::prelude::*;

use proc_macro2::{Ident, Span, TokenStream};
use quote::{ToTokens, TokenStreamExt};
use syn::{Attribute, Generics, Path};

use crate::syntax::{
    all_bare, ident_span, ident_text, is_ident_text, new_ident, path_view, PathView, SegmentView,
};

verus! {

#[verifier::external_type_specification]
#[verifier::external_body]
pub struct ExTokenStream(proc_macro2::TokenStream);

/// What encloses a group of tokens: a pair of brackets, or nothing that
/// shows.
#[derive(Clone, Copy, Debug, PartialEq, Eq)]
pub enum Delimiter {
    Parenthesis,
    Brace,
    Bracket,
    Invisible,
}

/// One token tree, with the location it carries: an identifier or keyword, a
/// punctuation character (`joint` where the next token continues the
/// operator), a group with the tokens inside it, or a literal.
pub enum Token {
    Word { text: Seq<char>, span: Span },
    Punct { ch: char, joint: bool, span: Span },
    Group { delimiter: Delimiter, inner: Seq<Token>, span: Span },
    Literal { text: Seq<char>, span: Span },
}

/// One token tree without its locations.
pub enum Shape {
    Word { text: Seq<char> },
    Punct { ch: char, joint: bool },
    Group { delimiter: Delimiter, inner: Seq<Shape> },
    Literal { text: Seq<char> },
}

/// A token tree without its locations.
pub open spec fn shape(token: Token) -> Shape
    decreases token,
{
    match token {
        Token::Word { text, span } => Shape::Word { text },
        Token::Punct { ch, joint, span } => Shape::Punct { ch, joint },
        Token::Group { delimiter, inner, span } => Shape::Group { delimiter, inner: shapes(inner) },
        Token::Literal { text, span } => Shape::Literal { text },
    }
}

/// Token trees without their locations.
pub open spec fn shapes(tokens: Seq<Token>) -> Seq<Shape>
    decreases tokens,
{
    if tokens.len() == 0 {
        Seq::empty()
    } else {
        shapes(tokens.subrange(0, tokens.len() - 1)).push(shape(tokens[tokens.len() - 1]))
    }
}

/// The token trees of a stream, in order.
pub uninterp spec fn stream_tokens(stream: TokenStream) -> Seq<Token>;

/// The tokens that `syn` prints for a path.
pub uninterp spec fn path_tokens(path: Path) -> Seq<Token>;

/// The tokens that `syn` prints for an attribute.
pub uninterp spec fn attribute_tokens(attribute: Attribute) -> Seq<Token>;

/// The tokens that `syn` prints for generics after `impl`: the parameters
/// with their bounds, without defaults.
pub uninterp spec fn impl_generics_tokens(generics: Generics) -> Seq<Token>;

/// The tokens that `syn` prints for generics after a type's name: the
/// parameters' names alone.
pub uninterp spec fn type_generics_tokens(generics: Generics) -> Seq<Token>;

/// The tokens that `syn` prints for the `where` clause of generics; none where
/// there is no clause.
pub uninterp spec fn where_clause_tokens(generics: Generics) -> Seq<Token>;

/// The characters that can make a punctuation token.
pub open spec fn is_punct_char(ch: char) -> bool {
    ch == '!' || ch == '#' || ch == '$' || ch == '%' || ch == '&' || ch == '\'' || ch == '*'
        || ch == '+' || ch == ',' || ch == '-' || ch == '.' || ch == '/' || ch == ':' || ch == ';'
        || ch == '<' || ch == '=' || ch == '>' || ch == '?' || ch == '@' || ch == '^' || ch == '|'
        || ch == '~'
}

pub open spec fn word(text: Seq<char>, span: Span) -> Token {
    Token::Word { text, span }
}

pub open spec fn punct(ch: char, joint: bool, span: Span) -> Token {
    Token::Punct { ch, joint, span }
}

pub open spec fn group(delimiter: Delimiter, inner: Seq<Token>, span: Span) -> Token {
    Token::Group { delimiter, inner, span }
}

/// The two tokens of `::`, or none where there is no `::`.
pub open spec fn colons_tokens(colons: Option<(Span, Span)>) -> Seq<Token> {
    match colons {
        Some((first, second)) => seq![punct(':', true, first), punct(':', false, second)],
        None => Seq::empty(),
    }
}

/// The tokens of segments without arguments: each one's identifier and the
/// `::` after it.
pub open spec fn segments_tokens(segments: Seq<SegmentView>) -> Seq<Token>
    decreases segments.len(),
{
    if segments.len() == 0 {
        Seq::empty()
    } else {
        segments_tokens(segments.drop_last()) + seq![
            word(segments.last().text, segments.last().span),
        ] + colons_tokens(segments.last().separator)
    }
}

/// The tokens of a path whose segments have no arguments.
pub open spec fn bare_path_tokens(path: PathView) -> Seq<Token> {
    colons_tokens(path.leading_colon) + segments_tokens(path.segments)
}

/// The tokens that a path prints: for a path without arguments its
/// identifiers and colons, for any other path what `syn` prints.
pub open spec fn printed_path(path: Path) -> Seq<Token> {
    if all_bare(path_view(path)) {
        bare_path_tokens(path_view(path))
    } else {
        path_tokens(path)
    }
}

/// Calls `TokenStream::new`: a stream with no token.
#[verifier::external_body]
pub(crate) fn new_stream() -> (stream: TokenStream)
    ensures
        stream_tokens(stream) == Seq::<Token>::empty(),
{
    TokenStream::new()
}

/// Calls `ToTokens::to_tokens` of `Ident`, which appends a copy of the
/// identifier: one word with its text and location.
#[verifier::external_body]
pub(crate) fn append_ident(tokens: &mut TokenStream, ident: &Ident)
    ensures
        stream_tokens(*final(tokens)) == stream_tokens(*old(tokens)).push(
            word(ident_text(*ident), ident_span(*ident)),
        ),
{
    ident.to_tokens(tokens);
}

/// Makes a `Punct` with `Punct::new`, which panics on a character that is no
/// punctuation, gives it the location with `Punct::set_span` and appends it
/// with `TokenStreamExt::append`.
#[verifier::external_body]
pub(crate) fn push_punct(tokens: &mut TokenStream, ch: char, joint: bool, span: Span)
    requires
        is_punct_char(ch),
    ensures
        stream_tokens(*final(tokens)) == stream_tokens(*old(tokens)).push(punct(ch, joint, span)),
{
    let spacing = if joint { proc_macro2::Spacing::Joint } else { proc_macro2::Spacing::Alone };
    let mut token = proc_macro2::Punct::new(ch, spacing);
    token.set_span(span);
    tokens.append(token);
}

/// Makes a `Group` of the inner stream with `Group::new`, gives it the
/// location with `Group::set_span` and appends it with
/// `TokenStreamExt::append`.
#[verifier::external_body]
pub(crate) fn push_group(
    tokens: &mut TokenStream,
    delimiter: Delimiter,
    inner: TokenStream,
    span: Span,
)
    ensures
        stream_tokens(*final(tokens)) == stream_tokens(*old(tokens)).push(
            group(delimiter, stream_tokens(inner), span),
        ),
{
    let outside = match delimiter {
        Delimiter::Parenthesis => proc_macro2::Delimiter::Parenthesis,
        Delimiter::Brace => proc_macro2::Delimiter::Brace,
        Delimiter::Bracket => proc_macro2::Delimiter::Bracket,
        Delimiter::Invisible => proc_macro2::Delimiter::None,
    };
    let mut token = proc_macro2::Group::new(outside, inner);
    token.set_span(span);
    tokens.append(token);
}

/// Calls `ToTokens::to_tokens` of `Path`: the stream gains the path's tokens.
/// Where no segment has arguments these are the leading `::`, if there is
/// one, and each segment's identifier with the `::` after it.
#[verifier::external_body]
pub(crate) fn append_path(tokens: &mut TokenStream, path: &Path)
    ensures
        stream_tokens(*final(tokens)) == stream_tokens(*old(tokens)) + path_tokens(*path),
        all_bare(path_view(*path)) ==> stream_tokens(*final(tokens)) == stream_tokens(
            *old(tokens),
        ) + bare_path_tokens(path_view(*path)),
{
    path.to_tokens(tokens);
}

/// Calls `ToTokens::to_tokens` of `Attribute`: the stream gains the
/// attribute's tokens.
#[verifier::external_body]
pub(crate) fn append_attribute(tokens: &mut TokenStream, attribute: &Attribute)
    ensures
        stream_tokens(*final(tokens)) == stream_tokens(*old(tokens)) + attribute_tokens(
            *attribute,
        ),
{
    attribute.to_tokens(tokens);
}

/// Calls `Generics::split_for_impl` and `ToTokens::to_tokens` of the first
/// part, `ImplGenerics`.
#[verifier::external_body]
pub(crate) fn append_impl_generics(tokens: &mut TokenStream, generics: &Generics)
    ensures
        stream_tokens(*final(tokens)) == stream_tokens(*old(tokens)) + impl_generics_tokens(
            *generics,
        ),
{
    generics.split_for_impl().0.to_tokens(tokens);
}

/// Calls `Generics::split_for_impl` and `ToTokens::to_tokens` of the second
/// part, `TypeGenerics`.
#[verifier::external_body]
pub(crate) fn append_type_generics(tokens: &mut TokenStream, generics: &Generics)
    ensures
        stream_tokens(*final(tokens)) == stream_tokens(*old(tokens)) + type_generics_tokens(
            *generics,
        ),
{
    generics.split_for_impl().1.to_tokens(tokens);
}

/// Calls `Generics::split_for_impl` and `ToTokens::to_tokens` of the third
/// part, the `where` clause if there is one.
#[verifier::external_body]
pub(crate) fn append_where_clause(tokens: &mut TokenStream, generics: &Generics)
    ensures
        stream_tokens(*final(tokens)) == stream_tokens(*old(tokens)) + where_clause_tokens(
            *generics,
        ),
{
    generics.split_for_impl().2.to_tokens(tokens);
}

/// Appends the word `text` at `span`.
pub(crate) fn push_word(tokens: &mut TokenStream, text: &str, span: Span)
    requires
        is_ident_text(text@),
    ensures
        stream_tokens(*final(tokens)) == stream_tokens(*old(tokens)).push(word(text@, span)),
{
    let ident = new_ident(text, span);
    append_ident(tokens, &ident);
}

} // verus!
