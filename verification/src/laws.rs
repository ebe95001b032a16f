//! What holds of every generated impl.

use vstd::prelude::*;

use proc_macro2::{Ident, Span};
use syn::Generics;

use crate::codegen::{separated, Field, TraitImpl};
use crate::model::{
    any_type_param, construct, default_fn_name, default_fn_view, initializer, synthesize,
    DefaultSpec, Initializer, RecordDeclaration,
};
use crate::options::{Annotation, DeriveError, FieldInput, Fields, Options};
use crate::syntax::{
    all_bare, generics_params, parsed_path, path_name, path_view, BoundView, ParamView, PathName,
};
use crate::tokens::{printed_path, shapes};
use crate::util::trait_path_view;

verus! {

/// What is read from a well-formed struct is a well-formed record.
pub proof fn lemma_well_formed_options(options: Options)
    requires
        options.wf(),
    ensures
        options@.wf(),
{
}

/// What reaches the generation of an impl is never an enum: a well-formed
/// declaration is a struct, and for an enum no error but the one that says
/// so is given.
pub proof fn lemma_enum_is_refused(options: Options)
    ensures
        options.wf() ==> options.data is Struct,
        options.data is Enum ==> !options.wf(),
        options.data is Enum ==> forall|position: usize|
            !options.refused_with(DeriveError::FieldMismatch { position }),
{
}

/// The impl that was generated for a declaration is, where it is printed,
/// the implementation that the declaration's model gives.
pub proof fn lemma_generated_implementation(generated: TraitImpl, options: Options, site: Span)
    requires
        generated.generated_from(options),
    ensures
        generated.implementation(site) == synthesize(options@, site),
{
    let fields = generated.fields.fields@;
    let declared = options.fields().fields@;
    assert forall|i: int| 0 <= i < fields.len() implies fields[i]@ == initializer(
        options@.fields[i],
    ) by {
        assert(fields[i].initializes(declared[i]));
        let at = choose|at: Span| fields[i].initializes_at(declared[i], at);
        lemma_default_fn_name(declared[i].span, at);
    }
    assert(generated.implementation(site).body =~= synthesize(options@, site).body);
}

/// The path of `Default::default` that a field owns names that function,
/// wherever its tokens are located.
pub proof fn lemma_default_fn_name(span: Span, site: Span)
    ensures
        path_name(default_fn_view(span, site)) == default_fn_name(),
        all_bare(default_fn_view(span, site)),
{
    assert(path_name(default_fn_view(span, site)).segments =~= default_fn_name().segments);
}

/// What stands at a field for `default` decides what its initializer calls:
/// the impl generated for a declaration that was read calls, for each field,
/// what the field's annotation names, and the generated constructor gives
/// the field the value of that call. The initializer carries the field's
/// name and location, and where the annotation is a string, the path it
/// calls prints the tokens that the string is read as.
pub proof fn lemma_annotation_decides_the_callee<V>(
    generated: TraitImpl,
    options: Options,
    declared: Fields<FieldInput>,
    site: Span,
    invoke: spec_fn(PathName, int) -> V,
    position: int,
)
    requires
        generated.generated_from(options),
        options.fields().resolves(declared),
        0 <= position < declared.fields@.len(),
    ensures
        generated.implementation(site).body.len() == declared.fields@.len(),
        generated.implementation(site).body[position] == (Initializer {
            name: declared.fields@[position].ident,
            callee: declared.fields@[position].annotation.callee(),
            location: declared.fields@[position].span,
        }),
        construct(generated.implementation(site), invoke)[position] == (
            declared.fields@[position].ident,
            invoke(declared.fields@[position].annotation.callee(), position),
        ),
        declared.fields@[position].annotation matches Annotation::Text(text) ==> shapes(
            printed_path(generated.fields.fields@[position].path.path()),
        ) == parsed_path(text@)->0.tokens,
{
    let field = generated.fields.fields@[position];
    let resolved = options.fields().fields@[position];
    assert(field.initializes(resolved));
    assert(resolved.resolves(declared.fields@[position]));
    let at = choose|at: Span| field.initializes_at(resolved, at);
    lemma_default_fn_name(resolved.span, at);
}

/// For a record with named fields and no `default` annotation, the generated
/// constructor builds the record of its fields' names, in order, each with
/// the value that `Default::default` gives where that field expects one.
pub proof fn lemma_unannotated_named_record<V>(
    declaration: RecordDeclaration,
    site: Span,
    invoke: spec_fn(PathName, int) -> V,
)
    requires
        declaration.wf(),
        declaration.shape is Struct,
        forall|i: int|
            0 <= i < declaration.fields.len()
                ==> (#[trigger] declaration.fields[i]).default_spec is Unspecified,
    ensures
        synthesize(declaration, site).shape is Struct,
        construct(synthesize(declaration, site), invoke) == Seq::new(
            declaration.fields.len(),
            |i: int| (declaration.fields[i].name, invoke(default_fn_name(), i)),
        ),
        forall|i: int|
            0 <= i < declaration.fields.len() ==> (#[trigger] construct(
                synthesize(declaration, site),
                invoke,
            )[i]).0.is_some(),
{
}

/// For a positional record with no `default` annotation, the generated
/// constructor builds the tuple of the values that `Default::default` gives
/// where each field expects one, in order, and names no field.
pub proof fn lemma_unannotated_positional_record<V>(
    declaration: RecordDeclaration,
    site: Span,
    invoke: spec_fn(PathName, int) -> V,
)
    requires
        declaration.wf(),
        declaration.shape is Tuple,
        forall|i: int|
            0 <= i < declaration.fields.len()
                ==> (#[trigger] declaration.fields[i]).default_spec is Unspecified,
    ensures
        synthesize(declaration, site).shape is Tuple,
        construct(synthesize(declaration, site), invoke) == Seq::new(
            declaration.fields.len(),
            |i: int| (None::<Ident>, invoke(default_fn_name(), i)),
        ),
{
}

/// A field for which a function is named gets the value that a call of that
/// function gives, whatever the record's layout and its other fields.
pub proof fn lemma_named_function_field<V>(
    declaration: RecordDeclaration,
    site: Span,
    invoke: spec_fn(PathName, int) -> V,
    position: int,
    path: PathName,
)
    requires
        0 <= position < declaration.fields.len(),
        declaration.fields[position].default_spec == DefaultSpec::UseNamedFunction(path),
    ensures
        construct(synthesize(declaration, site), invoke).len() == declaration.fields.len(),
        construct(synthesize(declaration, site), invoke)[position] == (
            declaration.fields[position].name,
            invoke(path, position),
        ),
{
}

/// A field's initializer depends on that field alone: two declarations that
/// agree on the field at a position give it the same value, whatever else
/// they hold and wherever the macro was invoked.
pub proof fn lemma_initializers_are_independent<V>(
    first: RecordDeclaration,
    second: RecordDeclaration,
    first_site: Span,
    second_site: Span,
    invoke: spec_fn(PathName, int) -> V,
    position: int,
)
    requires
        0 <= position < first.fields.len(),
        0 <= position < second.fields.len(),
        first.fields[position] == second.fields[position],
    ensures
        synthesize(first, first_site).body[position] == synthesize(
            second,
            second_site,
        ).body[position],
        construct(synthesize(first, first_site), invoke)[position] == construct(
            synthesize(second, second_site),
            invoke,
        )[position],
{
}

/// A bare `default` stands for no annotation: the two give the same
/// initializer.
pub proof fn lemma_bare_keyword_is_unspecified(
    first: RecordDeclaration,
    second: RecordDeclaration,
    site: Span,
    position: int,
)
    requires
        0 <= position < first.fields.len(),
        0 <= position < second.fields.len(),
        first.fields[position].name == second.fields[position].name,
        first.fields[position].source_location == second.fields[position].source_location,
        first.fields[position].default_spec is Unspecified,
        second.fields[position].default_spec is UseGenericDefault,
    ensures
        synthesize(first, site).body[position] == synthesize(second, site).body[position],
{
}

/// Generation is a function of the declaration: two impls generated for one
/// declaration are, printed at one place, the same implementation, and
/// printed at different places they differ in nothing but the location of
/// the bound that the type parameters gain.
pub proof fn lemma_generation_is_a_function(
    first: TraitImpl,
    second: TraitImpl,
    options: Options,
    first_site: Span,
    second_site: Span,
)
    requires
        first.generated_from(options),
        second.generated_from(options),
    ensures
        first_site == second_site ==> first.implementation(first_site) == second.implementation(
            second_site,
        ),
        first.implementation(first_site).name == second.implementation(second_site).name,
        first.implementation(first_site).carried_attributes == second.implementation(
            second_site,
        ).carried_attributes,
        first.implementation(first_site).shape == second.implementation(second_site).shape,
        first.implementation(first_site).body == second.implementation(second_site).body,
{
    lemma_generated_implementation(first, options, first_site);
    lemma_generated_implementation(second, options, second_site);
}

/// Fields that print the same tokens one by one print the same tokens in a
/// row.
pub proof fn lemma_separated(first: Seq<Field>, second: Seq<Field>, site: Span)
    requires
        first.len() == second.len(),
        forall|i: int|
            0 <= i < first.len() ==> (#[trigger] first[i]).tokens() == second[i].tokens(),
    ensures
        separated(first, site) == separated(second, site),
    decreases first.len(),
{
    if first.len() > 1 {
        lemma_separated(first.drop_last(), second.drop_last(), site);
    }
}

/// Generation is a function of the declaration, token for token: two impls
/// generated for one declaration, their paths located alike, print the same
/// tokens when they are printed at one place with the same generics.
pub proof fn lemma_same_declaration_same_tokens(
    first: TraitImpl,
    second: TraitImpl,
    options: Options,
    bounded: Generics,
    site: Span,
)
    requires
        first.generated_from(options),
        second.generated_from(options),
        forall|i: int|
            0 <= i < first.fields.fields@.len() ==> path_view(
                (#[trigger] first.fields.fields@[i]).path.path(),
            ) == path_view(second.fields.fields@[i].path.path()),
    ensures
        first.tokens_at(bounded, site) == second.tokens_at(bounded, site),
{
    let declared = options.fields().fields@;
    assert forall|i: int| 0 <= i < first.fields.fields@.len() implies (
    #[trigger] first.fields.fields@[i]).tokens() == second.fields.fields@[i].tokens() by {
        let one = first.fields.fields@[i];
        assert(one.initializes(declared[i]));
        let at = choose|at: Span| one.initializes_at(declared[i], at);
        lemma_default_fn_name(declared[i].span, at);
    }
    lemma_separated(first.fields.fields@, second.fields.fields@, site);
}

/// Where a declaration has a type parameter, every type parameter of the
/// generated impl has the `Default` bound at the end of its bounds, whether a
/// field uses the parameter or not; its other bounds, and the parameters
/// that are no type parameters, stay.
pub proof fn lemma_every_type_parameter_is_bound(
    declaration: RecordDeclaration,
    site: Span,
    position: int,
)
    requires
        any_type_param(declaration.generic_parameters),
        0 <= position < declaration.generic_parameters.len(),
    ensures
        synthesize(declaration, site).target_generics.len()
            == declaration.generic_parameters.len(),
        declaration.generic_parameters[position] matches ParamView::Type { bounds: given }
            ==> synthesize(declaration, site).target_generics[position] == (ParamView::Type {
            bounds: given.push(BoundView::Trait(trait_path_view(site))),
        }),
        !(declaration.generic_parameters[position] is Type) ==> synthesize(
            declaration,
            site,
        ).target_generics[position] == declaration.generic_parameters[position],
{
}

/// The generics that an impl is printed with hold, for every type parameter
/// of the struct, that parameter's bounds and the `Default` bound after
/// them, whoever made the impl.
pub proof fn lemma_printed_bounds(
    printed: TraitImpl,
    bounded: Generics,
    site: Span,
    position: int,
)
    requires
        printed.bounded_at(bounded, site),
        0 <= position < generics_params(*printed.generics).len(),
        generics_params(*printed.generics)[position] is Type,
    ensures
        generics_params(bounded) == printed.implementation(site).target_generics,
        generics_params(bounded)[position] == (ParamView::Type {
            bounds: generics_params(*printed.generics)[position]->bounds.push(
                BoundView::Trait(trait_path_view(site)),
            ),
        }),
{
}

/// Generics without a type parameter pass through unchanged.
pub proof fn lemma_no_type_parameter_no_bound(declaration: RecordDeclaration, site: Span)
    requires
        !any_type_param(declaration.generic_parameters),
    ensures
        synthesize(declaration, site).target_generics == declaration.generic_parameters,
{
}

} // verus!
