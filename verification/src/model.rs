//! The mathematical model: a record declaration, the implementation generated
//! for it, and the value that the generated constructor builds.

use vstd::prelude::*;

use proc_macro2::{Ident, Span};
use syn::Attribute;

use crate::syntax::{
    attribute_path, followed, is_single_ident, with_bound, ParamView, PathName, PathView,
    SegmentName,
};
use crate::util::{segment, trait_path_view};

verus! {

/// How a record lays out its fields.
#[derive(Clone, Copy, Debug, PartialEq, Eq, Structural)]
pub enum Style {
    /// Fields identified by position only.
    Tuple,
    /// Fields identified by name.
    Struct,
    /// No fields at all.
    Unit,
}

impl Style {
    pub open spec fn spec_is_struct(self) -> bool {
        self is Struct
    }

    pub open spec fn spec_admits(self, named: bool) -> bool {
        match self {
            Style::Struct => named,
            Style::Tuple => !named,
            Style::Unit => false,
        }
    }

    /// Whether a record of this layout can have a field that is named, or
    /// one that is not: named fields only in a struct with named fields,
    /// unnamed ones only in a tuple struct, and none in a unit struct.
    #[verifier::when_used_as_spec(spec_admits)]
    pub fn admits(self, named: bool) -> (fitting: bool)
        ensures
            fitting == self.spec_admits(named),
    {
        match self {
            Style::Struct => named,
            Style::Tuple => !named,
            Style::Unit => false,
        }
    }

    /// Whether the fields are identified by name.
    #[verifier::when_used_as_spec(spec_is_struct)]
    pub fn is_struct(self) -> (named: bool)
        ensures
            named == (self is Struct),
    {
        match self {
            Style::Struct => true,
            _ => false,
        }
    }
}

/// The policy for producing one field's default value.
pub enum DefaultSpec {
    /// No annotation; treated as `UseGenericDefault`.
    Unspecified,
    /// The bare keyword: the value comes from the type's own `Default`.
    UseGenericDefault,
    /// The value comes from calling the zero-argument function that this
    /// path names.
    UseNamedFunction(PathName),
}

/// One field of a record.
pub struct FieldDeclaration {
    pub name: Option<Ident>,
    pub source_location: Span,
    pub default_spec: DefaultSpec,
}

/// A record declaration, normalized.
pub struct RecordDeclaration {
    pub name: Ident,
    /// The attributes of the record that its impl carries too.
    pub pass_through_attributes: Seq<Attribute>,
    pub generic_parameters: Seq<ParamView>,
    pub shape: Style,
    pub fields: Seq<FieldDeclaration>,
}

/// One field's initializer in the generated constructor: the field's name, if
/// it has one, the function that is called with no argument, and the
/// location that the initializer carries.
pub struct Initializer {
    pub name: Option<Ident>,
    pub callee: PathName,
    pub location: Span,
}

/// The implementation generated for a record.
pub struct GeneratedImplementation {
    pub name: Ident,
    pub carried_attributes: Seq<Attribute>,
    pub target_generics: Seq<ParamView>,
    pub shape: Style,
    pub body: Seq<Initializer>,
}

/// Whether a field's naming fits the record's layout.
pub open spec fn fits(shape: Style, name: Option<Ident>) -> bool {
    shape.admits(name.is_some())
}

impl RecordDeclaration {
    /// Every field is named in a record with named fields, none is in a
    /// positional one, and a unit record has no field.
    pub open spec fn wf(self) -> bool {
        forall|i: int|
            0 <= i < self.fields.len() ==> fits(self.shape, #[trigger] self.fields[i].name)
    }
}

/// Whether an attribute of the record is carried over to the impl: `allow`
/// and `cfg` are, so that lints and conditions on the record hold for its
/// impl too; any other attribute is passed over.
pub open spec fn forwards(attribute: Attribute) -> bool {
    is_single_ident(attribute_path(attribute), "allow"@) || is_single_ident(
        attribute_path(attribute),
        "cfg"@,
    )
}

/// The attributes that are carried over, in their order.
pub open spec fn forwarded(attributes: Seq<Attribute>) -> Seq<Attribute>
    decreases attributes.len(),
{
    if attributes.len() == 0 {
        Seq::empty()
    } else if forwards(attributes.last()) {
        forwarded(attributes.drop_last()).push(attributes.last())
    } else {
        forwarded(attributes.drop_last())
    }
}

/// Whether any of the parameters is a type parameter.
pub open spec fn any_type_param(params: Seq<ParamView>) -> bool {
    exists|i: int| 0 <= i < params.len() && #[trigger] params[i] is Type
}

/// The parameters with `bound` added at the end of the bounds of every type
/// parameter.
pub open spec fn add_bound_to_all(params: Seq<ParamView>, bound: PathView) -> Seq<ParamView> {
    Seq::new(params.len(), |i: int| with_bound(params[i], bound))
}

/// What `::std::default::Default::default` names.
pub open spec fn default_fn_name() -> PathName {
    PathName {
        global: true,
        segments: seq![
            SegmentName { text: "std"@, bare: true },
            SegmentName { text: "default"@, bare: true },
            SegmentName { text: "Default"@, bare: true },
            SegmentName { text: "default"@, bare: true },
        ],
    }
}

/// The view of `::std::default::Default::default` for a field at `span`: the
/// trait's path located at the field, and one more segment located there
/// too, after a `::` located at `site`.
pub open spec fn default_fn_view(span: Span, site: Span) -> PathView {
    PathView {
        leading_colon: trait_path_view(span).leading_colon,
        segments: trait_path_view(span).segments.drop_last().push(
            followed(trait_path_view(span).segments.last(), site),
        ).push(segment("default"@, span, None)),
    }
}

/// The function that a field's initializer calls.
pub open spec fn callee(field: FieldDeclaration) -> PathName {
    match field.default_spec {
        DefaultSpec::UseNamedFunction(path) => path,
        DefaultSpec::UseGenericDefault => default_fn_name(),
        DefaultSpec::Unspecified => default_fn_name(),
    }
}

/// The initializer generated for one field.
pub open spec fn initializer(field: FieldDeclaration) -> Initializer {
    Initializer { name: field.name, callee: callee(field), location: field.source_location }
}

/// The implementation generated for a declaration, where the bound that the
/// type parameters gain is located at `site`.
pub open spec fn synthesize(declaration: RecordDeclaration, site: Span) -> GeneratedImplementation {
    GeneratedImplementation {
        name: declaration.name,
        carried_attributes: declaration.pass_through_attributes,
        target_generics: add_bound_to_all(
            declaration.generic_parameters,
            trait_path_view(site),
        ),
        shape: declaration.shape,
        body: Seq::new(declaration.fields.len(), |i: int| initializer(declaration.fields[i])),
    }
}

/// The value that the generated constructor builds: for each field, in
/// order, its name and what calling its initializer's function gives.
/// `invoke(path, position)` is the value that a call of the function that
/// `path` names yields where the field at `position` expects one.
pub open spec fn construct<V>(
    implementation: GeneratedImplementation,
    invoke: spec_fn(PathName, int) -> V,
) -> Seq<(Option<Ident>, V)> {
    Seq::new(
        implementation.body.len(),
        |i: int| (implementation.body[i].name, invoke(implementation.body[i].callee, i)),
    )
}

} // verus!
