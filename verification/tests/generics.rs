use proc_macro2::{Span, TokenStream};
use quote::ToTokens;
use serde_default::codegen::{compute_impl_bounds, has_type_params, TraitImpl};
use serde_default::derive_default;
use serde_default::model::Style;
use serde_default::options::{
    Annotation, Data, DefaultDeclaration, DeriveError, FieldInput, FieldOptions, Fields, Options,
};
use serde_default::util::trait_path;

const DEFAULT_FN: &str = ":: std :: default :: Default :: default";

fn field(name: Option<&str>, default: Option<DefaultDeclaration>) -> FieldOptions {
    FieldOptions {
        ident: name.map(|name| proc_macro2::Ident::new(name, Span::call_site())),
        default,
        span: Span::call_site(),
    }
}

fn word() -> Option<DefaultDeclaration> {
    Some(DefaultDeclaration::from_word().unwrap())
}

fn named(path: &str) -> Option<DefaultDeclaration> {
    Some(DefaultDeclaration::from_string(path).unwrap())
}

fn options(name: &str, generics: &str, style: Style, fields: Vec<FieldOptions>) -> Options {
    Options {
        ident: proc_macro2::Ident::new(name, Span::call_site()),
        attrs: Vec::new(),
        data: Data::Struct(Fields { style, fields }),
        generics: syn::parse_str(generics).unwrap(),
    }
}

/// What stands for `default` among the keys of a field's `serde` attributes.
fn annotation(field: &syn::Field) -> Annotation {
    let mut found = Annotation::Absent;
    for attribute in &field.attrs {
        if !attribute.path().is_ident("serde") {
            continue;
        }
        attribute
            .parse_nested_meta(|meta| {
                let value = meta.value().and_then(|value| value.parse::<syn::LitStr>());
                if meta.path.is_ident("default") {
                    found = match value {
                        Ok(text) => Annotation::Text(text.value()),
                        Err(_) => Annotation::Word,
                    };
                }
                Ok(())
            })
            .unwrap();
    }
    found
}

/// Reads a declaration from its source, `serde` attributes included.
fn read(source: &str) -> Result<Options, DeriveError> {
    let input: syn::DeriveInput = syn::parse_str(source).unwrap();
    let data = match input.data {
        syn::Data::Struct(data) => {
            let style = match data.fields {
                syn::Fields::Named(_) => Style::Struct,
                syn::Fields::Unnamed(_) => Style::Tuple,
                syn::Fields::Unit => Style::Unit,
            };
            let fields = data
                .fields
                .into_iter()
                .map(|field| FieldInput {
                    annotation: annotation(&field),
                    span: Span::call_site(),
                    ident: field.ident,
                })
                .collect();
            Data::Struct(Fields { style, fields })
        }
        _ => Data::Enum,
    };
    Options::extract(input.ident, input.attrs, data, input.generics)
}

fn generics(source: &str) -> syn::Generics {
    syn::parse_str(source).unwrap()
}

/// The text of the tokens without the blanks between them.
fn text(tokens: &TokenStream) -> String {
    tokens.to_string().chars().filter(|c| !c.is_whitespace()).collect()
}

fn normal(source: &str) -> String {
    text(&source.parse::<TokenStream>().unwrap())
}

fn callee(generated: &TraitImpl, position: usize) -> String {
    generated.fields.fields[position].path.get().to_token_stream().to_string()
}

fn impl_generics(generics: &syn::Generics) -> String {
    text(&generics.split_for_impl().0.to_token_stream())
}

#[derive(Debug, PartialEq, Eq)]
pub struct MyStruct<T> {
    name: String,
    field2: T,
    field3: Vec<T>,
}

impl<T: Default> MyStruct<T> {
    pub fn new(name: impl Into<String>) -> Self {
        Self { name: name.into(), field2: T::default(), field3: Vec::new() }
    }
}

#[derive(Debug, PartialEq, Eq)]
pub struct MyTupleStruct<'a, T, U: ::std::fmt::Debug>(T, U, &'a str);

/// What a call of the function at `path` gives where a `V` is expected.
fn call<V: Default>(path: &str) -> V {
    match path {
        DEFAULT_FN => V::default(),
        other => panic!("no function {}", other),
    }
}

fn call_vec<T>(path: &str) -> Vec<T> {
    match path {
        "Vec :: new" => Vec::new(),
        DEFAULT_FN => Vec::default(),
        other => panic!("no function {}", other),
    }
}

fn my_struct() -> Options {
    read(
        "pub struct MyStruct<T> {
             #[serde(default)]
             name: String,
             #[serde(default)]
             field2: T,
             #[serde(default=\"Vec::new\")]
             field3: Vec<T>,
         }",
    )
    .unwrap()
}

// Here we test the tuple behavior with generics, as well as ensuring that
// additional trait bounds are not lost.
fn my_tuple_struct() -> Options {
    read(
        "#[allow(dead_code)]
         pub struct MyTupleStruct<'a, T, U: ::std::fmt::Debug>(
             #[serde(default)] T,
             #[serde(default)] U,
             #[serde(default)] &'a str,
         );",
    )
    .unwrap()
}

#[test]
fn with_string() {
    let options = my_struct();
    let generated = TraitImpl::from(&options);
    assert!(generated.fields.style.is_struct());
    assert_eq!(generated.fields.fields[0].ident.unwrap().to_string(), "name");
    assert_eq!(generated.fields.fields[1].ident.unwrap().to_string(), "field2");
    assert_eq!(generated.fields.fields[2].ident.unwrap().to_string(), "field3");
    let built: MyStruct<String> = MyStruct {
        name: call(&callee(&generated, 0)),
        field2: call(&callee(&generated, 1)),
        field3: call_vec(&callee(&generated, 2)),
    };
    assert_eq!(built, MyStruct::new(""));
}

#[test]
fn with_u16() {
    let options = my_tuple_struct();
    let generated = TraitImpl::from(&options);
    assert!(!generated.fields.style.is_struct());
    assert!(generated.fields.fields.iter().all(|field| field.ident.is_none()));
    let built: MyTupleStruct<u16, u16> = MyTupleStruct(
        call(&callee(&generated, 0)),
        call(&callee(&generated, 1)),
        call(&callee(&generated, 2)),
    );
    assert_eq!(MyTupleStruct(0, 0, ""), built);
}

#[test]
fn type_parameter_is_bound_though_no_field_has_its_type() {
    let options = options(
        "Holder",
        "<T>",
        Style::Struct,
        vec![field(Some("items"), named("Vec::new"))],
    );
    let generated = TraitImpl::from(&options);
    assert_eq!(impl_generics(generated.generics), normal("<T>"));
    let mut tokens = TokenStream::new();
    generated.to_tokens(&mut tokens);
    assert!(text(&tokens).contains(&normal(
        "impl<T: ::std::default::Default> ::std::default::Default for Holder<T>"
    )));
}

#[test]
fn from_keeps_the_generics_as_they_are() {
    let options = my_tuple_struct();
    let generated = TraitImpl::from(&options);
    assert_eq!(*generated.generics, options.generics);
    assert_eq!(impl_generics(generated.generics), normal("<'a, T, U: ::std::fmt::Debug>"));
}

#[test]
fn impl_built_by_hand_is_printed_with_the_bound() {
    let ident = proc_macro2::Ident::new("S", Span::call_site());
    let given = generics("<T>");
    let built = TraitImpl {
        ident: &ident,
        attrs: Vec::new(),
        generics: &given,
        fields: Fields { style: Style::Unit, fields: Vec::new() },
    };
    let mut tokens = TokenStream::new();
    built.to_tokens(&mut tokens);
    assert_eq!(
        text(&tokens),
        normal(
            "#[automatically_derived]
             impl<T: ::std::default::Default> ::std::default::Default for S<T> {
                 fn default() -> Self {
                     S()
                 }
             }"
        )
    );
    assert_eq!(given, generics("<T>"));
}

#[test]
fn printing_with_given_generics_adds_no_bound() {
    let options = my_struct();
    let generated = TraitImpl::from(&options);
    let mut tokens = TokenStream::new();
    generated.to_tokens_at(&generics("<X: Marker>"), Span::call_site(), &mut tokens);
    assert!(text(&tokens)
        .starts_with(&normal("#[automatically_derived] impl<X: Marker> ::std::default::Default for MyStruct<X>")));
}

#[test]
fn generic_struct_tokens() {
    let options = my_struct();
    let tokens = derive_default(&options).unwrap();
    assert_eq!(
        text(&tokens),
        normal(
            "#[automatically_derived]
             impl<T: ::std::default::Default> ::std::default::Default for MyStruct<T> {
                 fn default() -> Self {
                     Self {
                         name: ::std::default::Default::default(),
                         field2: ::std::default::Default::default(),
                         field3: Vec::new()
                     }
                 }
             }"
        )
    );
}

#[test]
fn generic_tuple_struct_tokens() {
    let options = my_tuple_struct();
    let tokens = derive_default(&options).unwrap();
    assert_eq!(
        text(&tokens),
        normal(
            "#[automatically_derived]
             #[allow(dead_code)]
             impl<'a, T: ::std::default::Default, U: ::std::fmt::Debug + ::std::default::Default>
                 ::std::default::Default for MyTupleStruct<'a, T, U> {
                 fn default() -> Self {
                     MyTupleStruct(
                         ::std::default::Default::default(),
                         ::std::default::Default::default(),
                         ::std::default::Default::default()
                     )
                 }
             }"
        )
    );
}

#[test]
fn where_clause_is_kept() {
    let mut options = options(
        "Guarded",
        "<T>",
        Style::Tuple,
        vec![field(None, None)],
    );
    options.generics.where_clause = Some(syn::parse_str("where T: Clone").unwrap());
    let tokens = derive_default(&options).unwrap();
    assert_eq!(
        text(&tokens),
        normal(
            "#[automatically_derived]
             impl<T: ::std::default::Default> ::std::default::Default for Guarded<T>
             where T: Clone {
                 fn default() -> Self {
                     Guarded(::std::default::Default::default())
                 }
             }"
        )
    );
}

#[test]
fn finds_type_parameters() {
    assert!(has_type_params(&generics("<T>")));
    assert!(has_type_params(&generics("<'a, const N: usize, T>")));
    assert!(!has_type_params(&generics("")));
    assert!(!has_type_params(&generics("<'a>")));
    assert!(!has_type_params(&generics("<'a, const N: usize>")));
}

#[test]
fn bounds_every_type_parameter() {
    let bound: syn::Path = syn::parse_str("Marker").unwrap();
    let bounded = compute_impl_bounds(bound, generics("<'a, T, const N: usize, U: Clone + Copy>"));
    assert_eq!(
        impl_generics(&bounded),
        normal("<'a, T: Marker, const N: usize, U: Clone + Copy + Marker>")
    );
    assert_eq!(bounded.params.len(), 4);
}

#[test]
fn bounds_are_all_that_changes() {
    let bound: syn::Path = syn::parse_str("Marker").unwrap();
    let mut given =
        generics("<'a: 'b, 'b, #[cfg(all())] T: ?Sized = u8, const N: usize = 3, U>");
    given.where_clause = Some(syn::parse_str("where U: Copy").unwrap());
    let mut bounded = compute_impl_bounds(bound, given.clone());
    assert_ne!(bounded, given);
    // with the added bounds taken away again, nothing differs
    for param in bounded.params.iter_mut() {
        if let syn::GenericParam::Type(param) = param {
            assert!(param.bounds.pop().is_some());
            param.bounds.pop_punct();
        }
    }
    assert_eq!(bounded, given);
}

#[test]
fn generics_without_type_parameter_stay() {
    let bound: syn::Path = syn::parse_str("Marker").unwrap();
    let given = generics("<'a, 'b: 'a, const N: usize>");
    assert_eq!(compute_impl_bounds(bound.clone(), given.clone()), given);
    assert_eq!(compute_impl_bounds(bound, generics("")), generics(""));
}

#[test]
fn lifetime_only_generics_get_no_bound() {
    let options = options("Borrowed", "<'a>", Style::Tuple, vec![field(None, word())]);
    let tokens = derive_default(&options).unwrap();
    assert!(text(&tokens).contains(&normal("impl<'a> ::std::default::Default for Borrowed<'a>")));
}

#[test]
fn trait_path_names_default() {
    let path = trait_path(Span::call_site());
    assert_eq!(path, syn::parse_str::<syn::Path>("::std::default::Default").unwrap());
    assert_eq!(text(&path.to_token_stream()), normal("::std::default::Default"));
}

#[test]
fn default_function_path() {
    let options = options("One", "", Style::Tuple, vec![field(None, None)]);
    let generated = TraitImpl::from(&options);
    assert_eq!(
        *generated.fields.fields[0].path.get(),
        syn::parse_str::<syn::Path>("::std::default::Default::default").unwrap()
    );
}
