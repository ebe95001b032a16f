//! The generated impl: its parts, and the tokens they print.

use vstd::prelude::*;

use proc_macro2::{Ident, Span, TokenStream};
use syn::{Attribute, Generics, Path};

use crate::model::{
    add_bound_to_all, any_type_param, default_fn_view, forwarded, GeneratedImplementation,
    Initializer,
};
use crate::options::{DefaultDeclaration, FieldOptions, Fields, Options};
use crate::syntax::{
    call_site, clone_generics, generics_params, ident_span, ident_text, is_ident_text,
    is_type_param, new_ident, param_count, path_name, path_view, push_bound, push_segment_at,
    sans_bounds, with_bound,
};
use crate::tokens::{
    append_attribute, append_ident, append_impl_generics, append_path, append_type_generics,
    append_where_clause, attribute_tokens, bare_path_tokens, group, impl_generics_tokens,
    new_stream, printed_path, punct, push_group, push_punct, push_word, stream_tokens,
    type_generics_tokens, where_clause_tokens, word, Delimiter, Token,
};
use crate::util::{lemma_trait_path_names, trait_path, trait_path_view};

verus! {

/// A path that a field either shares with the declaration or owns.
pub enum FieldPath<'a> {
    Borrowed(&'a Path),
    Owned(Path),
}

/// State required to generate initializer code for a struct field inside the
/// body of `Default::default`.
pub struct Field<'a> {
    /// The position of this field in the input source; this is used to place
    /// errors in case the generated code has incorrect types.
    pub span: Span,
    /// The field identifier. This can be `None` for newtype and tuple struct
    /// fields.
    pub ident: Option<&'a Ident>,
    /// The path of the zero-argument function to invoke for the field's
    /// default value.
    pub path: FieldPath<'a>,
}

/// Receiver for trait impl; this gets the struct ident and the fields in the
/// struct.
pub struct TraitImpl<'a> {
    pub ident: &'a Ident,
    /// The attributes of the struct that the impl carries too.
    pub attrs: Vec<&'a Attribute>,
    /// The generics on the input struct. In keeping with Rust's own
    /// implementation of `derive(Debug)` et al, each type parameter is
    /// required to implement `Default` for the emitted impl to apply.
    pub generics: &'a Generics,
    pub fields: Fields<Field<'a>>,
}

impl<'a> FieldPath<'a> {
    pub open spec fn path(self) -> Path {
        match self {
            FieldPath::Borrowed(path) => *path,
            FieldPath::Owned(path) => path,
        }
    }

    /// The path, wherever it is held.
    pub fn get(&self) -> (path: &Path)
        ensures
            *path == self.path(),
    {
        match self {
            FieldPath::Borrowed(path) => path,
            FieldPath::Owned(path) => path,
        }
    }
}

/// The tokens of `name :` for a named field, none for a positional one.
pub open spec fn label_tokens(ident: Option<&Ident>, span: Span) -> Seq<Token> {
    match ident {
        Some(ident) => seq![word(ident_text(*ident), ident_span(*ident)), punct(':', false, span)],
        None => Seq::empty(),
    }
}

/// The tokens of the fields' initializers, with a comma between two of them.
pub open spec fn separated(fields: Seq<Field>, site: Span) -> Seq<Token>
    decreases fields.len(),
{
    if fields.len() == 0 {
        Seq::empty()
    } else if fields.len() == 1 {
        fields[0].tokens()
    } else {
        separated(fields.drop_last(), site) + seq![punct(',', false, site)] + fields.last().tokens()
    }
}

/// The values that the references stand for.
pub open spec fn referents(attrs: Seq<&Attribute>) -> Seq<Attribute> {
    Seq::new(attrs.len(), |i: int| *attrs[i])
}

/// The tokens of the attributes, one after the other.
pub open spec fn attributes_tokens(attrs: Seq<Attribute>) -> Seq<Token>
    decreases attrs.len(),
{
    if attrs.len() == 0 {
        Seq::empty()
    } else {
        attributes_tokens(attrs.drop_last()) + attribute_tokens(attrs.last())
    }
}

/// The words that the generated impl is written with are identifiers.
pub proof fn lemma_impl_words()
    ensures
        is_ident_text("automatically_derived"@),
        is_ident_text("impl"@),
        is_ident_text("for"@),
        is_ident_text("fn"@),
        is_ident_text("default"@),
        is_ident_text("Self"@),
{
    reveal_strlit("automatically_derived");
    reveal_strlit("impl");
    reveal_strlit("for");
    reveal_strlit("fn");
    reveal_strlit("default");
    reveal_strlit("Self");
}

impl<'a> Field<'a> {
    pub open spec fn name(self) -> Option<Ident> {
        match self.ident {
            Some(ident) => Some(*ident),
            None => None,
        }
    }

    /// The field was made for `options`: it has its name and location, and
    /// either shares the path given for its default or owns the path of
    /// `Default::default`. That path is located at the field, but for the
    /// `::` before its last segment, which is located at `site`.
    pub open spec fn initializes_at(self, options: FieldOptions, site: Span) -> bool {
        &&& self.span == options.span
        &&& self.name() == options.ident
        &&& match options.default {
            Some(DefaultDeclaration::Path(path)) => self.path == FieldPath::Borrowed(&path),
            _ => self.path is Owned && path_view(self.path.path()) == default_fn_view(
                options.span,
                site,
            ),
        }
    }

    /// The field was made for `options`, wherever the macro was invoked.
    pub open spec fn initializes(self, options: FieldOptions) -> bool {
        exists|site: Span| self.initializes_at(options, site)
    }

    /// The initializer of one field: its name and location, and the path
    /// given for its default or, where none is given, the path of
    /// `Default::default`: the trait's path located at the field, and
    /// `default` located there too, after a `::` located at `site`.
    pub fn at(options: &'a FieldOptions, site: Span) -> (field: Field<'a>)
        ensures
            field.initializes_at(*options, site),
    {
        Field {
            span: options.span,
            ident: options.ident.as_ref(),
            path: match options.default.as_ref() {
                Some(DefaultDeclaration::Path(path)) => FieldPath::Borrowed(path),
                Some(DefaultDeclaration::Trait) | None => {
                    proof {
                        lemma_trait_path_names();
                    }
                    let mut trait_path = trait_path(options.span);
                    push_segment_at(&mut trait_path, new_ident("default", options.span), site);
                    FieldPath::Owned(trait_path)
                },
            },
        }
    }

    /// The tokens of the initializer: `name: path()` for a named field,
    /// `path()` for a positional one. The colon and the parentheses are
    /// located at the field.
    pub open spec fn tokens(self) -> Seq<Token> {
        label_tokens(self.ident, self.span) + printed_path(self.path.path()) + seq![
            group(Delimiter::Parenthesis, Seq::empty(), self.span),
        ]
    }

    /// Appends the initializer's tokens.
    pub fn to_tokens(&self, tokens: &mut TokenStream)
        ensures
            stream_tokens(*final(tokens)) == stream_tokens(*old(tokens)) + self.tokens(),
    {
        if let Some(ident) = self.ident {
            append_ident(tokens, ident);
            push_punct(tokens, ':', false, self.span);
        }
        append_path(tokens, self.path.get());
        push_group(tokens, Delimiter::Parenthesis, new_stream(), self.span);
    }
}

impl<'a> View for Field<'a> {
    type V = Initializer;

    open spec fn view(&self) -> Initializer {
        Initializer {
            name: self.name(),
            callee: path_name(path_view(self.path.path())),
            location: self.span,
        }
    }
}

/// Checks if a set of generics has type parameters.
pub fn has_type_params(generics: &Generics) -> (found: bool)
    ensures
        found == any_type_param(generics_params(*generics)),
{
    let count = param_count(generics);
    let mut i: usize = 0;
    while i < count
        invariant
            i <= count,
            count == generics_params(*generics).len(),
            forall|j: int| 0 <= j < i ==> !(#[trigger] generics_params(*generics)[j] is Type),
        decreases count - i,
    {
        if is_type_param(generics, i) {
            return true;
        }
        i += 1;
    }
    false
}

/// The generics are `given` with `bound` added at the end of the bounds of
/// every type parameter, and nothing else changed.
pub open spec fn bounds_added(bounded: Generics, given: Generics, bound: Path) -> bool {
    &&& generics_params(bounded) == add_bound_to_all(generics_params(given), path_view(bound))
    &&& sans_bounds(bounded) == sans_bounds(given)
    &&& type_generics_tokens(bounded) == type_generics_tokens(given)
    &&& where_clause_tokens(bounded) == where_clause_tokens(given)
    &&& !any_type_param(generics_params(given)) ==> bounded == given
}

/// Adds `bound` to every type parameter of the generics. Generics without a
/// type parameter come back as they are.
pub fn compute_impl_bounds(bound: Path, generics: Generics) -> (bounded: Generics)
    ensures
        bounds_added(bounded, generics, bound),
{
    let ghost start = generics;
    let ghost given = generics_params(generics);
    let ghost added = path_view(bound);
    if !has_type_params(&generics) {
        assert(add_bound_to_all(given, added) =~= given);
        return generics;
    }
    let mut generics = generics;
    let count = param_count(&generics);
    let mut i: usize = 0;
    while i < count
        invariant
            i <= count,
            count == given.len(),
            added == path_view(bound),
            generics_params(generics) =~= Seq::new(
                given.len(),
                |j: int|
                    if j < i {
                        with_bound(given[j], added)
                    } else {
                        given[j]
                    },
            ),
            sans_bounds(generics) == sans_bounds(start),
            type_generics_tokens(generics) == type_generics_tokens(start),
            where_clause_tokens(generics) == where_clause_tokens(start),
        decreases count - i,
    {
        if is_type_param(&generics, i) {
            push_bound(&mut generics, i, &bound);
        }
        i += 1;
    }
    assert(generics_params(generics) =~= add_bound_to_all(given, added));
    generics
}

impl<'a> TraitImpl<'a> {
    /// The impl was generated for `options`: it has its name and generics as
    /// they are, those of its attributes that an impl carries too, and an
    /// initializer for each of its fields, in order.
    pub open spec fn generated_from(self, options: Options) -> bool {
        &&& options.data is Struct
        &&& *self.ident == options.ident
        &&& referents(self.attrs@) == forwarded(options.attrs@)
        &&& *self.generics == options.generics
        &&& self.fields.style == options.fields().style
        &&& self.fields.fields@.len() == options.fields().fields@.len()
        &&& forall|i: int|
            0 <= i < self.fields.fields@.len() ==> (#[trigger] self.fields.fields@[i]).initializes(
                options.fields().fields@[i],
            )
    }

    /// The generics that the impl is printed with, where the macro was
    /// invoked at `site`: the struct's, with the `Default` trait, located at
    /// `site`, added to the bounds of every type parameter.
    pub open spec fn bounded_at(self, bounded: Generics, site: Span) -> bool {
        &&& generics_params(bounded) == add_bound_to_all(
            generics_params(*self.generics),
            trait_path_view(site),
        )
        &&& sans_bounds(bounded) == sans_bounds(*self.generics)
        &&& type_generics_tokens(bounded) == type_generics_tokens(*self.generics)
        &&& where_clause_tokens(bounded) == where_clause_tokens(*self.generics)
        &&& !any_type_param(generics_params(*self.generics)) ==> bounded == *self.generics
    }

    /// The impl as it is printed where the macro was invoked at `site`.
    pub open spec fn implementation(self, site: Span) -> GeneratedImplementation {
        GeneratedImplementation {
            name: *self.ident,
            carried_attributes: referents(self.attrs@),
            target_generics: add_bound_to_all(
                generics_params(*self.generics),
                trait_path_view(site),
            ),
            shape: self.fields.style,
            body: Seq::new(self.fields.fields@.len(), |i: int| self.fields.fields@[i]@),
        }
    }

    /// The tokens of the expression that builds the value: `Self { .. }` with
    /// named fields, the type's name and `( .. )` else.
    pub open spec fn body_tokens(self, site: Span) -> Seq<Token> {
        if self.fields.style.is_struct() {
            seq![
                word("Self"@, site),
                group(Delimiter::Brace, separated(self.fields.fields@, site), site),
            ]
        } else {
            seq![
                word(ident_text(*self.ident), ident_span(*self.ident)),
                group(Delimiter::Parenthesis, separated(self.fields.fields@, site), site),
            ]
        }
    }

    /// The tokens of `fn default() -> Self { .. }`.
    pub open spec fn fn_tokens(self, site: Span) -> Seq<Token> {
        seq![
            word("fn"@, site),
            word("default"@, site),
            group(Delimiter::Parenthesis, Seq::empty(), site),
            punct('-', true, site),
            punct('>', false, site),
            word("Self"@, site),
            group(Delimiter::Brace, self.body_tokens(site), site),
        ]
    }

    /// The tokens of `impl<..> ::std::default::Default for Name<..> where ..`.
    pub open spec fn header_tokens(self, bounded: Generics, site: Span) -> Seq<Token> {
        seq![word("impl"@, site)] + impl_generics_tokens(bounded) + bare_path_tokens(
            trait_path_view(site),
        ) + seq![word("for"@, site), word(ident_text(*self.ident), ident_span(*self.ident))]
            + type_generics_tokens(bounded) + where_clause_tokens(bounded)
    }

    /// The tokens of the whole impl with `bounded` for its generics:
    /// `#[automatically_derived]`, the carried attributes, the header and the
    /// function in braces. What no field gives a location is located at
    /// `site`.
    pub open spec fn tokens_at(self, bounded: Generics, site: Span) -> Seq<Token> {
        seq![
            punct('#', false, site),
            group(Delimiter::Bracket, seq![word("automatically_derived"@, site)], site),
        ] + attributes_tokens(referents(self.attrs@)) + self.header_tokens(bounded, site) + seq![
            group(Delimiter::Brace, self.fn_tokens(site), site),
        ]
    }

    /// The fields' initializers, with a comma between two of them.
    fn initializers(&self, site: Span) -> (inner: TokenStream)
        ensures
            stream_tokens(inner) == separated(self.fields.fields@, site),
    {
        let mut inner = new_stream();
        let mut i: usize = 0;
        while i < self.fields.fields.len()
            invariant
                i <= self.fields.fields@.len(),
                stream_tokens(inner) == separated(self.fields.fields@.take(i as int), site),
            decreases self.fields.fields@.len() - i,
        {
            let ghost before = self.fields.fields@.take(i as int);
            let ghost after = self.fields.fields@.take(i + 1);
            assert(after.drop_last() =~= before);
            if i > 0 {
                push_punct(&mut inner, ',', false, site);
            }
            self.fields.fields[i].to_tokens(&mut inner);
            i += 1;
        }
        assert(self.fields.fields@.take(i as int) =~= self.fields.fields@);
        inner
    }

    /// The expression that builds the value, with what no field gives a
    /// location located at `site`.
    pub fn body_at(&self, site: Span) -> (body: TokenStream)
        ensures
            stream_tokens(body) == self.body_tokens(site),
    {
        proof {
            lemma_impl_words();
        }
        let mut body = new_stream();
        if self.fields.style.is_struct() {
            push_word(&mut body, "Self", site);
            push_group(&mut body, Delimiter::Brace, self.initializers(site), site);
        } else {
            append_ident(&mut body, self.ident);
            push_group(&mut body, Delimiter::Parenthesis, self.initializers(site), site);
        }
        body
    }

    /// The expression that builds the value, located where the macro was
    /// invoked.
    pub fn body(&self) -> (body: TokenStream)
        ensures
            exists|site: Span| stream_tokens(body) == #[trigger] self.body_tokens(site),
    {
        self.body_at(call_site())
    }

    /// Appends the carried attributes.
    fn attributes_to_tokens(&self, tokens: &mut TokenStream)
        ensures
            stream_tokens(*final(tokens)) == stream_tokens(*old(tokens)) + attributes_tokens(
                referents(self.attrs@),
            ),
    {
        let mut i: usize = 0;
        let ghost attrs = referents(self.attrs@);
        while i < self.attrs.len()
            invariant
                i <= self.attrs@.len(),
                attrs == referents(self.attrs@),
                stream_tokens(*tokens) == stream_tokens(*old(tokens)) + attributes_tokens(
                    attrs.take(i as int),
                ),
            decreases self.attrs@.len() - i,
        {
            let ghost after = attrs.take(i + 1);
            assert(after.drop_last() =~= attrs.take(i as int));
            append_attribute(tokens, self.attrs[i]);
            i += 1;
        }
        assert(attrs.take(i as int) =~= attrs);
    }

    /// Appends the impl with `bounded` for its generics and with what no
    /// field gives a location located at `site`.
    pub fn to_tokens_at(&self, bounded: &Generics, site: Span, tokens: &mut TokenStream)
        ensures
            stream_tokens(*final(tokens)) == stream_tokens(*old(tokens)) + self.tokens_at(
                *bounded,
                site,
            ),
    {
        proof {
            lemma_impl_words();
        }
        let body = self.body_at(site);
        let trait_path = trait_path(site);

        // The "automatically_derived" attribute keeps the compiler from
        // warning about unused code in the impl.
        let mut marker = new_stream();
        push_word(&mut marker, "automatically_derived", site);
        push_punct(tokens, '#', false, site);
        push_group(tokens, Delimiter::Bracket, marker, site);
        self.attributes_to_tokens(tokens);

        push_word(tokens, "impl", site);
        append_impl_generics(tokens, bounded);
        append_path(tokens, &trait_path);
        push_word(tokens, "for", site);
        append_ident(tokens, self.ident);
        append_type_generics(tokens, bounded);
        append_where_clause(tokens, bounded);

        let mut function = new_stream();
        push_word(&mut function, "fn", site);
        push_word(&mut function, "default", site);
        push_group(&mut function, Delimiter::Parenthesis, new_stream(), site);
        push_punct(&mut function, '-', true, site);
        push_punct(&mut function, '>', false, site);
        push_word(&mut function, "Self", site);
        push_group(&mut function, Delimiter::Brace, body, site);
        assert(stream_tokens(function) =~= self.fn_tokens(site));
        push_group(tokens, Delimiter::Brace, function, site);
    }

    /// Appends the impl. Where the struct has a type parameter, every type
    /// parameter is printed with the `Default` trait at the end of its
    /// bounds; what no field gives a location is located where the macro was
    /// invoked.
    pub fn to_tokens(&self, tokens: &mut TokenStream)
        ensures
            exists|site: Span, bounded: Generics| #[trigger]
                self.bounded_at(bounded, site) && stream_tokens(*final(tokens)) == stream_tokens(
                    *old(tokens),
                ) + self.tokens_at(bounded, site),
    {
        let site = call_site();
        if has_type_params(self.generics) {
            let bounded = compute_impl_bounds(trait_path(site), clone_generics(self.generics));
            self.to_tokens_at(&bounded, site, tokens);
            assert(self.bounded_at(bounded, site));
        } else {
            self.to_tokens_at(self.generics, site, tokens);
            assert(add_bound_to_all(generics_params(*self.generics), trait_path_view(site))
                =~= generics_params(*self.generics));
            assert(self.bounded_at(*self.generics, site));
        }
    }
}

} // verus!
