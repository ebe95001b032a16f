//! The path of the `Default` trait, as generated code names it.

use vstd::prelude::*;

use proc_macro2::Span;
use syn::Path;

use crate::syntax::{
    all_bare, is_ident_text, new_ident, path_view, push_segment_at, rooted_path, PathView,
    SegmentView,
};

verus! {

/// A segment without arguments, with `::` after it where `separator` says
/// so.
pub open spec fn segment(
    text: Seq<char>,
    span: Span,
    separator: Option<(Span, Span)>,
) -> SegmentView {
    SegmentView { text, span, bare: true, separator }
}

/// The view of `::std::default::Default` with every token at `span`.
pub open spec fn trait_path_view(span: Span) -> PathView {
    PathView {
        leading_colon: Some((span, span)),
        segments: seq![
            segment("std"@, span, Some((span, span))),
            segment("default"@, span, Some((span, span))),
            segment("Default"@, span, None),
        ],
    }
}

/// The three names of the trait's path are identifiers.
pub proof fn lemma_trait_path_names()
    ensures
        is_ident_text("std"@),
        is_ident_text("default"@),
        is_ident_text("Default"@),
{
    reveal_strlit("std");
    reveal_strlit("default");
    reveal_strlit("Default");
}

/// The path to the `Default` trait to use in generated code, every token of
/// it located at `span`.
pub fn trait_path(span: Span) -> (path: Path)
    ensures
        path_view(path) == trait_path_view(span),
        all_bare(path_view(path)),
{
    proof {
        lemma_trait_path_names();
    }
    let mut path = rooted_path(new_ident("std", span), span);
    push_segment_at(&mut path, new_ident("default", span), span);
    push_segment_at(&mut path, new_ident("Default", span), span);
    assert(path_view(path).segments =~= trait_path_view(span).segments);
    path
}

} // verus!
