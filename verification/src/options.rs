//! What is read from a declaration, and how it is turned into the parts of
//! the generated impl.

use vstd::prelude::*;

use proc_macro2::{Ident, Span};
use syn::{Attribute, Generics, Path};

use crate::codegen::{referents, Field, TraitImpl};
use crate::model::{
    default_fn_name, fits, forwarded, forwards, DefaultSpec, FieldDeclaration, RecordDeclaration,
    Style,
};
use crate::syntax::{
    attribute_is, call_site, generics_params, parse_path, parsed_name, parsed_path,
    parses_as_path, path_name, path_view, unlocated, PathName,
};

verus! {

/// Why a declaration yields no impl.
#[derive(Debug)]
pub enum DeriveError {
    /// The declaration is an enum: only structs are supported.
    UnsupportedShape,
    /// The naming of the field at `position` does not fit the struct's
    /// layout.
    FieldMismatch { position: usize },
    /// The string given for `default` is no path to a function. `span` is
    /// the location of the field it was given for, once that is known.
    UnknownValue { value: String, span: Option<Span> },
}

/// What stands at a field for `default`.
pub enum Annotation {
    /// No `default` at all.
    Absent,
    /// Just the word `default`.
    Word,
    /// `default = ".."`, with the string's text.
    Text(String),
}

/// One field as it is declared: its name, what stands at it for `default`,
/// and where it stands in the source.
pub struct FieldInput {
    pub ident: Option<Ident>,
    pub annotation: Annotation,
    pub span: Span,
}

/// A declaration of the `default` attribute.
pub enum DefaultDeclaration {
    /// Just the word `default`, which means "use the `Default` trait".
    Trait,
    /// A key-value pair, in which case the value is the path of the zero-arg
    /// function.
    Path(Path),
}

/// What is read from one field: its name, its `default` attribute and where
/// it stands in the source.
pub struct FieldOptions {
    pub ident: Option<Ident>,
    pub default: Option<DefaultDeclaration>,
    pub span: Span,
}

/// The fields of a struct, with its layout.
pub struct Fields<T> {
    pub style: Style,
    pub fields: Vec<T>,
}

/// The body of the deriving type.
pub enum Data<T> {
    Enum,
    Struct(Fields<T>),
}

/// Struct-level information about the deriving type.
pub struct Options {
    /// The name of the deriving type.
    pub ident: Ident,
    /// The attributes of the deriving type. Those that apply to the emitted
    /// trait impl too are picked from them.
    pub attrs: Vec<Attribute>,
    /// The body of the deriving type.
    pub data: Data<FieldOptions>,
    /// The generics of the deriving type.
    pub generics: Generics,
}

impl DefaultDeclaration {
    /// What a field's `default` attribute, or its absence, asks for.
    pub open spec fn spec(declaration: Option<DefaultDeclaration>) -> DefaultSpec {
        match declaration {
            None => DefaultSpec::Unspecified,
            Some(DefaultDeclaration::Trait) => DefaultSpec::UseGenericDefault,
            Some(DefaultDeclaration::Path(path)) => DefaultSpec::UseNamedFunction(
                path_name(path_view(path)),
            ),
        }
    }

    /// The declaration is the path that the text is read as: but for its
    /// locations, it names what the text names and prints the text's tokens.
    pub open spec fn reads(self, text: Seq<char>) -> bool {
        self matches DefaultDeclaration::Path(path) && parsed_path(text) == Some(unlocated(path))
    }

    /// The declaration that the bare word makes.
    pub fn from_word() -> (declaration: Result<DefaultDeclaration, DeriveError>)
        ensures
            declaration == Ok::<DefaultDeclaration, DeriveError>(DefaultDeclaration::Trait),
    {
        Ok(DefaultDeclaration::Trait)
    }

    /// The declaration that a parsed string makes: the path it parsed to, or
    /// the error that names the string.
    pub fn from_parsed(value: &str, parsed: Result<Path, syn::Error>) -> (declaration: Result<
        DefaultDeclaration,
        DeriveError,
    >)
        ensures
            match parsed {
                Ok(path) => declaration == Ok::<DefaultDeclaration, DeriveError>(
                    DefaultDeclaration::Path(path),
                ),
                Err(_) => declaration matches Err(DeriveError::UnknownValue { value: named, span })
                    && named@ == value@ && span is None,
            },
    {
        match parsed {
            Ok(path) => Ok(DefaultDeclaration::Path(path)),
            Err(_) => Err(DeriveError::UnknownValue { value: String::from_str(value), span: None }),
        }
    }

    /// The declaration that a string makes: where the string parses as a
    /// path, that path, else the error that names the string.
    pub fn from_string(value: &str) -> (declaration: Result<DefaultDeclaration, DeriveError>)
        ensures
            declaration is Ok <==> parses_as_path(value@),
            match declaration {
                Ok(made) => made.reads(value@),
                Err(error) => error matches DeriveError::UnknownValue { value: named, span }
                    && named@ == value@ && span is None,
            },
    {
        DefaultDeclaration::from_parsed(value, parse_path(value))
    }
}

impl DeriveError {
    /// The error that names a string that is no path, for the field at
    /// `span`.
    pub open spec fn is_unknown_value(self, text: Seq<char>, span: Span) -> bool {
        self matches DeriveError::UnknownValue { value, span: location } && value@ == text
            && location == Some(span)
    }

    /// The error with `span` for its location, where it has one to give and
    /// none was given yet.
    pub fn located(self, span: Span) -> (located: DeriveError)
        ensures
            match self {
                DeriveError::UnknownValue { value, span: None } => located
                    == (DeriveError::UnknownValue { value, span: Some(span) }),
                _ => located == self,
            },
    {
        match self {
            DeriveError::UnknownValue { value, span: None } => DeriveError::UnknownValue {
                value,
                span: Some(span),
            },
            other => other,
        }
    }
}

impl Annotation {
    /// What the function names that the annotation asks to be called:
    /// `Default::default` for the bare word and for no annotation, else what
    /// the string names.
    pub open spec fn callee(self) -> PathName {
        match self {
            Annotation::Absent => default_fn_name(),
            Annotation::Word => default_fn_name(),
            Annotation::Text(text) => parsed_name(text@),
        }
    }
}

impl FieldInput {
    /// The field is annotated with a string that is no path.
    pub open spec fn fails(self) -> bool {
        self.annotation matches Annotation::Text(text) && !parses_as_path(text@)
    }

    /// The field is annotated with a string, and the error names that string
    /// and the field's location.
    pub open spec fn fails_with(self, error: DeriveError) -> bool {
        self.annotation matches Annotation::Text(text) && error.is_unknown_value(text@, self.span)
    }
}

impl FieldOptions {
    /// The field holds what `input` declares: its name and location, and for
    /// its default nothing, the trait, or the path that the annotation's
    /// string is read as.
    pub open spec fn resolves(self, input: FieldInput) -> bool {
        &&& self.ident == input.ident
        &&& self.span == input.span
        &&& match input.annotation {
            Annotation::Absent => self.default is None,
            Annotation::Word => self.default == Some(DefaultDeclaration::Trait),
            Annotation::Text(text) => self.default matches Some(declared) && declared.reads(
                text@,
            ),
        }
    }

    /// Resolves what stands at a field for `default`. Only a string can fail
    /// to resolve: where it is no path, the error names it and the field's
    /// location.
    pub fn resolve(input: FieldInput) -> (resolved: Result<FieldOptions, DeriveError>)
        ensures
            resolved is Err <==> input.fails(),
            match resolved {
                Ok(field) => field.resolves(input),
                Err(error) => input.fails_with(error),
            },
    {
        let declared = match &input.annotation {
            Annotation::Absent => None,
            Annotation::Word => Some(DefaultDeclaration::from_word()),
            Annotation::Text(text) => Some(DefaultDeclaration::from_string(text.as_str())),
        };
        match declared {
            None => Ok(FieldOptions { ident: input.ident, default: None, span: input.span }),
            Some(Ok(default)) => Ok(
                FieldOptions { ident: input.ident, default: Some(default), span: input.span },
            ),
            Some(Err(error)) => Err(error.located(input.span)),
        }
    }
}

/// Something that has a name, or has none.
pub trait Named {
    spec fn name(&self) -> Option<Ident>;

    /// Whether there is a name.
    fn is_named(&self) -> (named: bool)
        ensures
            named == self.name().is_some(),
    ;
}

impl Named for FieldInput {
    open spec fn name(&self) -> Option<Ident> {
        self.ident
    }

    fn is_named(&self) -> (named: bool) {
        self.ident.is_some()
    }
}

impl Named for FieldOptions {
    open spec fn name(&self) -> Option<Ident> {
        self.ident
    }

    fn is_named(&self) -> (named: bool) {
        self.ident.is_some()
    }
}

impl<T: Named> Fields<T> {
    /// Every field's naming fits the layout.
    pub open spec fn wf(self) -> bool {
        forall|i: int|
            0 <= i < self.fields@.len() ==> fits(self.style, (#[trigger] self.fields@[i]).name())
    }

    /// The position of the first field whose naming does not fit the layout.
    pub open spec fn first_mismatch(self, position: int) -> bool {
        &&& 0 <= position < self.fields@.len()
        &&& !fits(self.style, self.fields@[position].name())
        &&& forall|i: int|
            0 <= i < position ==> fits(self.style, (#[trigger] self.fields@[i]).name())
    }

    /// Finds the first field whose naming does not fit the layout.
    pub fn check(&self) -> (mismatch: Option<usize>)
        ensures
            match mismatch {
                None => self.wf(),
                Some(position) => self.first_mismatch(position as int),
            },
    {
        let mut i: usize = 0;
        while i < self.fields.len()
            invariant
                i <= self.fields@.len(),
                forall|j: int|
                    0 <= j < i ==> fits(self.style, (#[trigger] self.fields@[j]).name()),
            decreases self.fields@.len() - i,
        {
            if !self.style.admits(self.fields[i].is_named()) {
                return Some(i);
            }
            i += 1;
        }
        None
    }
}

impl Fields<FieldInput> {
    /// Every field's annotation resolves.
    pub open spec fn all_resolve(self) -> bool {
        forall|i: int| 0 <= i < self.fields@.len() ==> !(#[trigger] self.fields@[i]).fails()
    }

    /// The position of the first field whose annotation does not resolve.
    pub open spec fn first_failure(self, position: int) -> bool {
        &&& 0 <= position < self.fields@.len()
        &&& self.fields@[position].fails()
        &&& forall|i: int| 0 <= i < position ==> !(#[trigger] self.fields@[i]).fails()
    }
}

impl Fields<FieldOptions> {
    /// The fields hold what `input` declares, field by field.
    pub open spec fn resolves(self, input: Fields<FieldInput>) -> bool {
        &&& self.style == input.style
        &&& self.fields@.len() == input.fields@.len()
        &&& forall|i: int|
            0 <= i < self.fields@.len() ==> (#[trigger] self.fields@[i]).resolves(input.fields@[i])
    }
}

impl View for FieldOptions {
    type V = FieldDeclaration;

    open spec fn view(&self) -> FieldDeclaration {
        FieldDeclaration {
            name: self.ident,
            source_location: self.span,
            default_spec: DefaultDeclaration::spec(self.default),
        }
    }
}

impl Fields<FieldOptions> {
    /// The fields' declarations, in order.
    pub open spec fn declarations(self) -> Seq<FieldDeclaration> {
        Seq::new(self.fields@.len(), |i: int| self.fields@[i]@)
    }
}

/// Whether an attribute of the deriving type applies to the emitted impl too.
pub fn is_forwarded(attribute: &Attribute) -> (kept: bool)
    ensures
        kept == forwards(*attribute),
{
    attribute_is(attribute, "allow") || attribute_is(attribute, "cfg")
}

impl Options {
    /// The attributes that apply to the emitted impl too, in their order.
    pub fn forwarded_attrs(&self) -> (kept: Vec<&Attribute>)
        ensures
            referents(kept@) == forwarded(self.attrs@),
    {
        let mut kept: Vec<&Attribute> = Vec::new();
        let mut i: usize = 0;
        while i < self.attrs.len()
            invariant
                i <= self.attrs@.len(),
                referents(kept@) == forwarded(self.attrs@.take(i as int)),
            decreases self.attrs@.len() - i,
        {
            let ghost seen = self.attrs@.take(i + 1);
            assert(seen.drop_last() =~= self.attrs@.take(i as int));
            if is_forwarded(&self.attrs[i]) {
                kept.push(&self.attrs[i]);
            }
            i += 1;
        }
        assert(self.attrs@.take(i as int) =~= self.attrs@);
        kept
    }

    /// The declaration is a struct whose fields' naming fits its layout.
    pub open spec fn wf(self) -> bool {
        self.data matches Data::Struct(fields) && fields.wf()
    }

    /// Reads a declaration: its name, attributes and generics as they are,
    /// and its fields resolved in order.
    ///
    /// An enum is refused, and so is a struct with a field whose naming does
    /// not fit its layout. After that only a string that is no path can make
    /// a field fail, and the first such field ends the reading.
    #[verifier::loop_isolation(false)]
    pub fn extract(
        ident: Ident,
        attrs: Vec<Attribute>,
        data: Data<FieldInput>,
        generics: Generics,
    ) -> (extracted: Result<Options, DeriveError>)
        ensures
            extracted is Ok <==> (data is Struct && data->Struct_0.wf()
                && data->Struct_0.all_resolve()),
            extracted == Err::<Options, DeriveError>(DeriveError::UnsupportedShape)
                <==> data is Enum,
            forall|position: usize|
                extracted == Err::<Options, DeriveError>(DeriveError::FieldMismatch { position })
                    <==> (data is Struct && data->Struct_0.first_mismatch(position as int)),
            match extracted {
                Ok(options) => {
                    &&& options.wf()
                    &&& options.ident == ident
                    &&& options.attrs == attrs
                    &&& options.generics == generics
                    &&& options.fields().resolves(data->Struct_0)
                },
                Err(error) => error is UnknownValue ==> {
                    &&& data is Struct
                    &&& data->Struct_0.wf()
                    &&& exists|i: int|
                        data->Struct_0.first_failure(i) && (
                        #[trigger] data->Struct_0.fields@[i]).fails_with(error)
                },
            },
    {
        match data {
            Data::Enum => Err(DeriveError::UnsupportedShape),
            Data::Struct(fields) => {
                if let Some(position) = fields.check() {
                    return Err(DeriveError::FieldMismatch { position });
                }
                let style = fields.style;
                let ghost inputs = fields.fields@;
                let mut resolved: Vec<FieldOptions> = Vec::new();
                for input in iter: fields.fields
                    invariant
                        iter.seq() == inputs,
                        resolved@.len() == iter.index(),
                        forall|j: int|
                            0 <= j < resolved@.len() ==> (#[trigger] resolved@[j]).resolves(
                                inputs[j],
                            ),
                        forall|j: int| 0 <= j < resolved@.len() ==> !(#[trigger] inputs[j]).fails(),
                {
                    match FieldOptions::resolve(input) {
                        Ok(field) => resolved.push(field),
                        Err(error) => {
                            return Err(error);
                        },
                    }
                }
                Ok(
                    Options {
                        ident,
                        attrs,
                        data: Data::Struct(Fields { style, fields: resolved }),
                        generics,
                    },
                )
            },
        }
    }

    /// The fields of a struct.
    pub open spec fn fields(self) -> Fields<FieldOptions>
        recommends
            self.data is Struct,
    {
        self.data->Struct_0
    }

    /// The error that says what is wrong with the declaration: that it is an
    /// enum, or which is the first field whose naming does not fit the
    /// struct's layout.
    pub open spec fn refused_with(self, error: DeriveError) -> bool {
        match error {
            DeriveError::UnsupportedShape => self.data is Enum,
            DeriveError::FieldMismatch { position } => self.data is Struct
                && self.fields().first_mismatch(position as int),
            DeriveError::UnknownValue { .. } => false,
        }
    }

    /// Checks that an impl can be generated: `Ok` for a well-formed struct,
    /// else the error that says what is wrong.
    pub fn validate(&self) -> (checked: Result<(), DeriveError>)
        ensures
            checked is Ok <==> self.wf(),
            checked matches Err(error) ==> self.refused_with(error),
    {
        match &self.data {
            Data::Enum => Err(DeriveError::UnsupportedShape),
            Data::Struct(fields) => match fields.check() {
                None => Ok(()),
                Some(position) => Err(DeriveError::FieldMismatch { position }),
            },
        }
    }
}

impl View for Options {
    type V = RecordDeclaration;

    open spec fn view(&self) -> RecordDeclaration {
        RecordDeclaration {
            name: self.ident,
            pass_through_attributes: forwarded(self.attrs@),
            generic_parameters: generics_params(self.generics),
            shape: self.fields().style,
            fields: self.fields().declarations(),
        }
    }
}

impl<'a> Field<'a> {
    /// The initializer of one field: its name and location, and the path
    /// given for its default or, where none is given, the path of
    /// `Default::default` located at the field.
    pub fn from(options: &'a FieldOptions) -> (field: Field<'a>)
        ensures
            field.initializes(*options),
    {
        Field::at(options, call_site())
    }
}

impl<'a> TraitImpl<'a> {
    /// The impl for a struct: its name and generics as they are, those of
    /// its attributes that apply to an impl too, and one initializer for
    /// each field, in order.
    pub fn from(options: &'a Options) -> (generated: TraitImpl<'a>)
        requires
            options.wf(),
        ensures
            generated.generated_from(*options),
    {
        match &options.data {
            Data::Struct(declared) => {
                let mut fields: Vec<Field<'a>> = Vec::new();
                let mut i: usize = 0;
                while i < declared.fields.len()
                    invariant
                        i <= declared.fields@.len(),
                        fields@.len() == i,
                        forall|j: int|
                            0 <= j < i ==> (#[trigger] fields@[j]).initializes(declared.fields@[j]),
                    decreases declared.fields@.len() - i,
                {
                    fields.push(Field::from(&declared.fields[i]));
                    i += 1;
                }
                TraitImpl {
                    ident: &options.ident,
                    attrs: options.forwarded_attrs(),
                    generics: &options.generics,
                    fields: Fields { style: declared.style, fields },
                }
            },
            Data::Enum => vstd::pervasive::unreached(),
        }
    }

    /// The impl for a declaration, or why there is none: an enum has no
    /// impl, nor has a struct with a field whose naming does not fit its
    /// layout.
    pub fn checked(options: &'a Options) -> (generated: Result<TraitImpl<'a>, DeriveError>)
        ensures
            generated is Ok <==> options.wf(),
            generated matches Ok(made) ==> made.generated_from(*options),
            generated matches Err(error) ==> options.refused_with(error),
    {
        match options.validate() {
            Ok(()) => Ok(TraitImpl::from(options)),
            Err(error) => Err(error),
        }
    }
}

} // verus!
