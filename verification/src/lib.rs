//! Generate a `Default` impl based on field-level defaults in `serde` attributes.
//!
//! A struct's fields may carry `#[serde(default)]` or
//! `#[serde(default = "path::to::function")]`. [`options::Options::extract`]
//! reads a declaration and resolves what stands at each field; from that
//! [`codegen::TraitImpl`] holds the parts of `impl Default`, and
//! [`derive_default`] prints them as tokens: every field is initialized by a
//! call of the function named for it, or of `Default::default` where none is
//! named, and every type parameter is required to implement `Default`.
//!
//! The contracts speak of the declaration and of the impl through the types
//! in [`model`], and [`laws`] states what holds of every generated impl.

pub mod codegen;
pub mod laws;
pub mod model;
pub mod options;
pub mod syntax;
pub mod tokens;
pub mod util;

use vstd::prelude::*;

use proc_macro2::{Span, TokenStream};
use syn::Generics;

use crate::codegen::TraitImpl;
use crate::options::{DeriveError, Options};
use crate::tokens::{new_stream, stream_tokens};

verus! {

/// Generate a `Default` impl based on defaults in `serde` attributes.
///
/// Only structs are supported: an enum, or a struct whose fields' naming does
/// not fit its layout, gives an error and no tokens. The tokens are those of
/// the impl generated for the declaration, printed where the macro was
/// invoked.
pub fn derive_default<'a>(options: &'a Options) -> (derived: Result<TokenStream, DeriveError>)
    ensures
        derived is Ok <==> options.wf(),
        derived matches Err(error) ==> options.refused_with(error),
        derived matches Ok(tokens) ==> exists|
            generated: TraitImpl<'a>,
            site: Span,
            bounded: Generics,
        |
            generated.generated_from(*options) && #[trigger] generated.bounded_at(bounded, site)
                && stream_tokens(tokens) == generated.tokens_at(bounded, site),
{
    match TraitImpl::checked(options) {
        Ok(code) => {
            let mut tokens = new_stream();
            code.to_tokens(&mut tokens);
            Ok(tokens)
        },
        Err(error) => Err(error),
    }
}

} // verus!
