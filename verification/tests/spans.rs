use proc_macro2::{LineColumn, Span, TokenStream, TokenTree};
use quote::ToTokens;
use serde_default::codegen::{Field, TraitImpl};
use serde_default::model::Style;
use serde_default::options::{
    Annotation, Data, DefaultDeclaration, DeriveError, FieldInput, FieldOptions, Fields, Options,
};
use serde_default::util::trait_path;
use syn::spanned::Spanned;

const SOURCE: &str = "struct Located {
    first: u16,
        second: String,
}";

/// The struct above, each field with the location of its name.
fn located() -> Options {
    let input: syn::DeriveInput = syn::parse_str(SOURCE).unwrap();
    let fields = match input.data {
        syn::Data::Struct(data) => data
            .fields
            .into_iter()
            .enumerate()
            .map(|(position, field)| FieldOptions {
                span: field.ident.span(),
                ident: field.ident,
                default: if position == 0 {
                    Some(DefaultDeclaration::from_string("make_first").unwrap())
                } else {
                    None
                },
            })
            .collect(),
        _ => panic!("expected a struct"),
    };
    Options {
        ident: input.ident,
        attrs: input.attrs,
        data: Data::Struct(Fields { style: Style::Struct, fields }),
        generics: input.generics,
    }
}

/// The location of the second field.
fn located_span() -> Span {
    match &located().data {
        Data::Struct(fields) => fields.fields[1].span,
        Data::Enum => panic!("expected a struct"),
    }
}

fn start(span: Span) -> (usize, usize) {
    let LineColumn { line, column } = span.start();
    (line, column)
}

fn tokens_of(field: &Field) -> Vec<TokenTree> {
    let mut tokens = TokenStream::new();
    field.to_tokens(&mut tokens);
    tokens.into_iter().collect()
}

#[test]
fn fields_have_distinct_locations() {
    let options = located();
    let generated = TraitImpl::from(&options);
    assert_eq!(start(generated.fields.fields[0].span), (2, 4));
    assert_eq!(start(generated.fields.fields[1].span), (3, 8));
}

#[test]
fn named_function_initializer_is_located_at_the_field() {
    let options = located();
    let generated = TraitImpl::from(&options);
    let tokens = tokens_of(&generated.fields.fields[0]);
    // first : make_first ( )
    assert_eq!(tokens.len(), 4);
    assert_eq!(tokens[0].to_string(), "first");
    assert_eq!(start(tokens[0].span()), (2, 4));
    assert!(matches!(&tokens[1], TokenTree::Punct(colon) if colon.as_char() == ':'));
    assert_eq!(start(tokens[1].span()), (2, 4));
    assert_eq!(tokens[2].to_string(), "make_first");
    assert!(matches!(&tokens[3], TokenTree::Group(call) if call.stream().is_empty()));
    assert_eq!(start(tokens[3].span()), (2, 4));
}

#[test]
fn default_initializer_is_located_at_the_field() {
    let options = located();
    let generated = TraitImpl::from(&options);
    let tokens = tokens_of(&generated.fields.fields[1]);
    // second : :: std :: default :: Default :: default ( )
    assert_eq!(tokens.len(), 15);
    assert_eq!(tokens[0].to_string(), "second");
    for position in [1, 2, 3, 4, 5, 6, 7, 8, 9, 10, 13, 14] {
        assert_eq!(start(tokens[position].span()), (3, 8), "token {}", position);
    }
    // the `::` before the last segment is located where the macro was invoked
    for position in [11, 12] {
        assert_eq!(start(tokens[position].span()), start(Span::call_site()), "token {}", position);
    }
    let words: Vec<String> =
        [4, 7, 10, 13].iter().map(|&position| tokens[position].to_string()).collect();
    assert_eq!(words, vec!["std", "default", "Default", "default"]);
}

#[test]
fn trait_path_is_located_where_asked() {
    let options = located();
    let span = match &options.data {
        Data::Struct(fields) => fields.fields[1].span,
        Data::Enum => panic!("expected a struct"),
    };
    let path = trait_path(span);
    assert_eq!(path.segments.len(), 3);
    assert!(path.segments.iter().all(|segment| segment.arguments.is_none()));
    assert!(path.segments.iter().all(|segment| start(segment.ident.span()) == (3, 8)));
    let colon = path.leading_colon.unwrap();
    assert_eq!(start(colon.spans[0]), (3, 8));
    assert_eq!(start(colon.spans[1]), (3, 8));
    let printed: Vec<TokenTree> = path.to_token_stream().into_iter().collect();
    // :: std :: default :: Default
    assert_eq!(printed.len(), 9);
    assert!(printed.iter().all(|token| start(token.span()) == (3, 8)));
}

#[test]
fn default_path_is_located_as_asked() {
    let options = located();
    let span = located_span();
    let fields = match &options.data {
        Data::Struct(fields) => fields,
        Data::Enum => panic!("expected a struct"),
    };
    let site = fields.fields[0].span;
    let field = Field::at(&fields.fields[1], site);
    let tokens = tokens_of(&field);
    assert_eq!(tokens.len(), 15);
    for position in [1, 2, 3, 4, 5, 6, 7, 8, 9, 10, 13, 14] {
        assert_eq!(start(tokens[position].span()), start(span), "token {}", position);
    }
    for position in [11, 12] {
        assert_eq!(start(tokens[position].span()), start(site), "token {}", position);
    }
}

#[test]
fn impl_is_located_where_asked() {
    let options = located();
    let site = located_span();
    let generated = TraitImpl::from(&options);
    let mut tokens = TokenStream::new();
    generated.to_tokens_at(generated.generics, site, &mut tokens);
    let printed: Vec<TokenTree> = tokens.into_iter().collect();
    // # [automatically_derived] impl :: std :: default :: Default for Located { .. }
    assert_eq!(printed.len(), 15);
    for position in [0, 1, 2, 3, 4, 5, 6, 7, 8, 9, 10, 11, 12, 14] {
        assert_eq!(start(printed[position].span()), start(site), "token {}", position);
    }
    assert_eq!(printed[13].to_string(), "Located");
    assert_eq!(start(printed[13].span()), (1, 7));
}

#[test]
fn body_words_are_located_where_asked() {
    let options = located();
    let generated = TraitImpl::from(&options);
    let site = located_span();
    let tokens: Vec<TokenTree> = generated.body_at(site).into_iter().collect();
    // Self { .. }
    assert_eq!(tokens.len(), 2);
    assert_eq!(tokens[0].to_string(), "Self");
    assert_eq!(start(tokens[0].span()), start(site));
    assert_eq!(start(tokens[1].span()), start(site));
    match &tokens[1] {
        TokenTree::Group(fields) => {
            let inner: Vec<TokenTree> = fields.stream().into_iter().collect();
            // first : make_first ( ) , second : ..
            assert!(matches!(&inner[4], TokenTree::Punct(comma) if comma.as_char() == ','));
            assert_eq!(start(inner[4].span()), start(site));
            assert_eq!(inner[5].to_string(), "second");
        }
        _ => panic!("expected a group"),
    }
}

/// The struct above as it is declared, with the given annotations.
fn declared(annotations: Vec<Annotation>) -> (syn::DeriveInput, Data<FieldInput>) {
    let input: syn::DeriveInput = syn::parse_str(SOURCE).unwrap();
    let fields = match &input.data {
        syn::Data::Struct(data) => data
            .fields
            .iter()
            .zip(annotations)
            .map(|(field, annotation)| FieldInput {
                span: field.ident.span(),
                ident: field.ident.clone(),
                annotation,
            })
            .collect(),
        _ => panic!("expected a struct"),
    };
    (input, Data::Struct(Fields { style: Style::Struct, fields }))
}

fn extract(annotations: Vec<Annotation>) -> Result<Options, DeriveError> {
    let (input, data) = declared(annotations);
    Options::extract(input.ident, input.attrs, data, input.generics)
}

#[test]
fn extract_resolves_each_field() {
    let options = extract(vec![Annotation::Text("a::b".to_string()), Annotation::Word]).unwrap();
    assert_eq!(options.ident.to_string(), "Located");
    assert!(options.validate().is_ok());
    match &options.data {
        Data::Struct(fields) => {
            assert_eq!(fields.style, Style::Struct);
            assert_eq!(fields.fields.len(), 2);
            assert_eq!(fields.fields[0].ident.as_ref().unwrap().to_string(), "first");
            assert_eq!(start(fields.fields[0].span), (2, 4));
            assert!(matches!(&fields.fields[0].default, Some(DefaultDeclaration::Path(path))
                if path.segments.len() == 2));
            assert_eq!(fields.fields[1].ident.as_ref().unwrap().to_string(), "second");
            assert_eq!(start(fields.fields[1].span), (3, 8));
            assert!(matches!(&fields.fields[1].default, Some(DefaultDeclaration::Trait)));
        }
        Data::Enum => panic!("expected a struct"),
    }
}

#[test]
fn extract_leaves_absent_annotations_absent() {
    let options = extract(vec![Annotation::Absent, Annotation::Absent]).unwrap();
    match &options.data {
        Data::Struct(fields) => assert!(fields.fields.iter().all(|field| field.default.is_none())),
        Data::Enum => panic!("expected a struct"),
    }
}

#[test]
fn unknown_value_is_located_at_its_field() {
    match extract(vec![Annotation::Word, Annotation::Text("not a path".to_string())]) {
        Err(DeriveError::UnknownValue { value, span: Some(span) }) => {
            assert_eq!(value, "not a path");
            assert_eq!(start(span), (3, 8));
        }
        _ => panic!("expected UnknownValue with a location"),
    }
}

#[test]
fn first_unknown_value_ends_the_reading() {
    match extract(vec![Annotation::Text("1st".to_string()), Annotation::Text("2nd".to_string())])
    {
        Err(DeriveError::UnknownValue { value, span: Some(span) }) => {
            assert_eq!(value, "1st");
            assert_eq!(start(span), (2, 4));
        }
        _ => panic!("expected UnknownValue with a location"),
    }
}

#[test]
fn resolve_locates_the_error() {
    let span = located_span();
    let input = FieldInput { ident: None, annotation: Annotation::Text("?".to_string()), span };
    match FieldOptions::resolve(input) {
        Err(DeriveError::UnknownValue { value, span: Some(span) }) => {
            assert_eq!(value, "?");
            assert_eq!(start(span), (3, 8));
        }
        _ => panic!("expected UnknownValue with a location"),
    }
}

#[test]
fn located_keeps_a_location_already_given() {
    let span = located_span();
    let error = DeriveError::UnknownValue { value: "x".to_string(), span: None };
    let once = error.located(span);
    let twice = once.located(Span::call_site());
    match twice {
        DeriveError::UnknownValue { span: Some(kept), .. } => assert_eq!(start(kept), (3, 8)),
        _ => panic!("expected UnknownValue with a location"),
    }
    assert!(matches!(
        DeriveError::UnsupportedShape.located(span),
        DeriveError::UnsupportedShape
    ));
    assert!(matches!(
        DeriveError::FieldMismatch { position: 4 }.located(span),
        DeriveError::FieldMismatch { position: 4 }
    ));
}

#[test]
fn extract_rejects_an_enum_before_its_annotations() {
    let input: syn::DeriveInput = syn::parse_str("enum Choice { Left, Right }").unwrap();
    let extracted = Options::extract(input.ident, input.attrs, Data::Enum, input.generics);
    assert!(matches!(extracted, Err(DeriveError::UnsupportedShape)));
}

#[test]
fn extract_rejects_a_mismatch_before_an_unknown_value() {
    let (input, mut data) =
        declared(vec![Annotation::Text("?".to_string()), Annotation::Word]);
    if let Data::Struct(fields) = &mut data {
        fields.fields[1].ident = None;
    }
    let extracted = Options::extract(input.ident, input.attrs, data, input.generics);
    assert!(matches!(extracted, Err(DeriveError::FieldMismatch { position: 1 })));
}

/// Every token tree with its kind, its text and, for punctuation, whether
/// the next token continues it.
fn outline(tokens: TokenStream) -> Vec<String> {
    let mut lines = Vec::new();
    for token in tokens {
        match token {
            TokenTree::Ident(word) => lines.push(format!("word {}", word)),
            TokenTree::Punct(punct) => lines.push(format!(
                "punct {} {}",
                punct.as_char(),
                matches!(punct.spacing(), proc_macro2::Spacing::Joint)
            )),
            TokenTree::Literal(literal) => lines.push(format!("literal {}", literal)),
            TokenTree::Group(group) => {
                lines.push(format!("open {:?}", group.delimiter()));
                lines.extend(outline(group.stream()));
                lines.push(format!("close {:?}", group.delimiter()));
            }
        }
    }
    lines
}

#[test]
fn impl_has_the_token_trees_of_its_source() {
    let options = located();
    let tokens = serde_default::derive_default(&options).unwrap();
    let written: TokenStream = "#[automatically_derived]
        impl ::std::default::Default for Located {
            fn default() -> Self {
                Self {
                    first: make_first(),
                    second: ::std::default::Default::default()
                }
            }
        }"
    .parse()
    .unwrap();
    assert_eq!(outline(tokens), outline(written));
}

#[test]
fn tuple_body_has_the_token_trees_of_its_source() {
    let mut options = located();
    if let Data::Struct(fields) = &mut options.data {
        fields.style = Style::Tuple;
        for field in fields.fields.iter_mut() {
            field.ident = None;
        }
    }
    let generated = TraitImpl::from(&options);
    let written: TokenStream =
        "Located(make_first(), ::std::default::Default::default())".parse().unwrap();
    assert_eq!(outline(generated.body()), outline(written));
}

#[test]
fn layouts_admit_their_fields() {
    assert!(Style::Struct.admits(true));
    assert!(!Style::Struct.admits(false));
    assert!(Style::Tuple.admits(false));
    assert!(!Style::Tuple.admits(true));
    assert!(!Style::Unit.admits(true));
    assert!(!Style::Unit.admits(false));
    assert!(Style::Struct.is_struct());
    assert!(!Style::Tuple.is_struct());
    assert!(!Style::Unit.is_struct());
}
