use rest_errors::args::{RestErrorMacroArguments, RestErrorVariantArguments, StatusExpression};
use rest_errors::attr_rest_error::{rest_error_macro, DebugImpl, DerivedTrait};
use rest_errors::decl::{
    Attribute, AttributeArguments, ErrorValue, Fields, TypeBody, TypeDeclaration, Variant,
};
use rest_errors::derive_rest_error::{
    derive_rest_error_macro, generate_response_error_impl, generate_rest_error_impl,
    generate_serialize_impl, generate_to_schema_impl, FieldPattern, SerializedField,
};
use rest_errors::error::GenerationError;
use rest_errors::token::{Delimiter, Span, Token};
use rest_errors::{derive_rest_error, rest_error, MacroOutput};

const GENERIC: &str = "internal server error, check server logs for more information";

fn at(start: u64, end: u64) -> Span {
    Span { start, end }
}

fn word(name: &str) -> Token {
    Token::Ident { name: name.to_string(), span: at(0, name.len() as u64) }
}

fn colon(joint: bool) -> Token {
    Token::Punct { ch: ':', joint, span: at(0, 1) }
}

fn status(name: &str) -> Vec<Token> {
    vec![word("StatusCode"), colon(true), colon(false), word(name)]
}

fn rest_attr(name: &str) -> Attribute {
    let mut tokens = vec![word("status_code"), Token::Punct { ch: '=', joint: false, span: at(0, 1) }];
    tokens.extend(status(name));
    Attribute {
        name: "rest".to_string(),
        arguments: AttributeArguments::Delimited {
            delimiter: Delimiter::Parenthesis,
            tokens,
            span: at(50, 60),
        },
        span: at(40, 61),
    }
}

fn error_attr(text: &str) -> Attribute {
    Attribute {
        name: "error".to_string(),
        arguments: AttributeArguments::Delimited {
            delimiter: Delimiter::Parenthesis,
            tokens: vec![Token::Literal { text: text.to_string(), span: at(0, 1) }],
            span: at(70, 80),
        },
        span: at(65, 81),
    }
}

fn variant(name: &str, fields: Fields, attrs: Vec<Attribute>, line: u64) -> Variant {
    Variant { name: name.to_string(), fields, attrs, synthetic: None, span: at(line, line + 1) }
}

fn endpoint_variants() -> Vec<Variant> {
    vec![
        variant("FooError", Fields::Unit, vec![rest_attr("OK"), error_attr("\"error foo\"")], 100),
        variant(
            "BarError",
            Fields::Named { names: vec!["reason".to_string()] },
            vec![error_attr("\"error bar\""), rest_attr("OK")],
            200,
        ),
    ]
}

fn endpoint_enum() -> TypeDeclaration {
    TypeDeclaration {
        name: "MyEndpointError".to_string(),
        span: at(10, 25),
        body: TypeBody::Enum(endpoint_variants()),
    }
}

fn internal_error_request(status_code: StatusExpression) -> RestErrorMacroArguments {
    RestErrorMacroArguments { internal_error: Some(RestErrorVariantArguments { status_code }) }
}

fn value(variant: usize, text: &str, causes: &[&str]) -> ErrorValue {
    ErrorValue {
        variant,
        display_text: text.to_string(),
        causes: causes.iter().map(|c| c.to_string()).collect(),
    }
}

fn field(name: &str, value: &str) -> SerializedField {
    SerializedField { name: name.to_string(), value: value.to_string() }
}

#[test]
fn attribute_on_struct_is_not_an_enum() {
    let input =
        TypeDeclaration { name: "Plain".to_string(), span: at(3, 8), body: TypeBody::Struct };
    let result = rest_error_macro(internal_error_request(StatusExpression::InternalServerError), input);
    assert_eq!(result, Err(GenerationError::NotAnEnum { location: at(3, 8) }));
}

#[test]
fn attribute_on_union_is_not_an_enum() {
    let input = TypeDeclaration { name: "Raw".to_string(), span: at(3, 6), body: TypeBody::Union };
    let result = rest_error_macro(RestErrorMacroArguments { internal_error: None }, input);
    assert_eq!(result, Err(GenerationError::NotAnEnum { location: at(3, 6) }));
}

#[test]
fn attribute_without_request_keeps_declaration() {
    let result = rest_error_macro(RestErrorMacroArguments { internal_error: None }, endpoint_enum())
        .unwrap();
    assert_eq!(result.declaration, endpoint_enum());
    assert_eq!(
        result.derives,
        vec![DerivedTrait::RestError, DerivedTrait::AsRefStr, DerivedTrait::Error]
    );
    assert_eq!(result.debug, DebugImpl { enum_name: "MyEndpointError".to_string() });
}

#[test]
fn attribute_appends_internal_error_variant() {
    let result =
        rest_error_macro(internal_error_request(StatusExpression::Verbatim(status("BAD_GATEWAY"))), endpoint_enum())
            .unwrap();
    let mut expected = endpoint_variants();
    expected.push(Variant {
        name: "InternalError".to_string(),
        fields: Fields::Positional { count: 1 },
        attrs: vec![],
        synthetic: Some(StatusExpression::Verbatim(status("BAD_GATEWAY"))),
        span: at(10, 25),
    });
    assert_eq!(result.declaration.name, "MyEndpointError");
    assert_eq!(result.declaration.span, at(10, 25));
    assert_eq!(result.declaration.body, TypeBody::Enum(expected));
}

#[test]
fn derive_on_struct_is_not_an_enum() {
    let input =
        TypeDeclaration { name: "Plain".to_string(), span: at(3, 8), body: TypeBody::Struct };
    assert_eq!(
        derive_rest_error_macro(input),
        Err(GenerationError::NotAnEnum { location: at(3, 8) })
    );
}

#[test]
fn derive_reports_variant_without_annotation() {
    let mut variants = endpoint_variants();
    variants.push(variant("Bare", Fields::Unit, vec![error_attr("\"bare\"")], 300));
    variants.push(variant("AlsoBare", Fields::Unit, vec![], 400));
    let input =
        TypeDeclaration { name: "E".to_string(), span: at(0, 1), body: TypeBody::Enum(variants) };
    assert_eq!(
        derive_rest_error_macro(input),
        Err(GenerationError::MissingAnnotationOnVariant {
            variant: "Bare".to_string(),
            location: at(300, 301)
        })
    );
}

#[test]
fn derive_stops_at_first_invalid_variant() {
    let broken = Attribute {
        name: "rest".to_string(),
        arguments: AttributeArguments::Delimited {
            delimiter: Delimiter::Parenthesis,
            tokens: vec![],
            span: at(51, 53),
        },
        span: at(46, 54),
    };
    let variants = vec![
        variant("First", Fields::Unit, vec![broken], 100),
        variant("Second", Fields::Unit, vec![], 200),
    ];
    assert_eq!(
        generate_rest_error_impl("E".to_string(), variants),
        Err(GenerationError::MissingRequiredKey {
            key: "status_code".to_string(),
            location: at(51, 53)
        })
    );
}

#[test]
fn derive_rejects_unknown_variant_key() {
    let odd = Attribute {
        name: "rest".to_string(),
        arguments: AttributeArguments::Delimited {
            delimiter: Delimiter::Brace,
            tokens: vec![Token::Ident { name: "status".to_string(), span: at(52, 58) }],
            span: at(51, 60),
        },
        span: at(46, 61),
    };
    let variants = vec![variant("First", Fields::Unit, vec![odd], 100)];
    assert_eq!(
        generate_rest_error_impl("E".to_string(), variants),
        Err(GenerationError::UnsupportedAttributeKey {
            key: "status".to_string(),
            location: at(52, 58)
        })
    );
}

#[test]
fn rest_attribute_needs_an_argument_list() {
    let bare =
        Attribute { name: "rest".to_string(), arguments: AttributeArguments::Absent, span: at(46, 50) };
    let result =
        generate_rest_error_impl("E".to_string(), vec![variant("First", Fields::Unit, vec![bare], 1)]);
    assert_eq!(result, Err(GenerationError::ExpectedDelimiter { location: at(46, 50) }));

    let valued = Attribute {
        name: "rest".to_string(),
        arguments: AttributeArguments::NameValue { value: status("OK") },
        span: at(46, 70),
    };
    let result = generate_rest_error_impl(
        "E".to_string(),
        vec![variant("First", Fields::Unit, vec![valued, rest_attr("OK")], 1)],
    );
    assert_eq!(result, Err(GenerationError::ExpectedDelimiter { location: at(46, 70) }));
}

#[test]
fn first_rest_attribute_decides() {
    let variants =
        vec![variant("Twice", Fields::Unit, vec![rest_attr("OK"), rest_attr("CONFLICT")], 1)];
    let mapping = generate_rest_error_impl("E".to_string(), variants).unwrap();
    assert_eq!(mapping.arms[0].status_code, StatusExpression::Verbatim(status("OK")));
}

#[test]
fn status_arms_follow_the_variants() {
    let mut variants = endpoint_variants();
    variants.push(variant(
        "Wrapped",
        Fields::Positional { count: 2 },
        vec![rest_attr("CONFLICT")],
        300,
    ));
    let mapping = generate_rest_error_impl("MyEndpointError".to_string(), variants).unwrap();
    assert_eq!(mapping.enum_name, "MyEndpointError");
    assert_eq!(mapping.arms.len(), 3);
    assert_eq!(mapping.arms[0].variant, "FooError");
    assert_eq!(mapping.arms[0].pattern, FieldPattern::Unit);
    assert_eq!(mapping.arms[0].span, at(100, 101));
    assert_eq!(mapping.arms[1].variant, "BarError");
    assert_eq!(mapping.arms[1].pattern, FieldPattern::Struct);
    assert_eq!(mapping.arms[1].status_code, StatusExpression::Verbatim(status("OK")));
    assert_eq!(mapping.arms[2].variant, "Wrapped");
    assert_eq!(mapping.arms[2].pattern, FieldPattern::Tuple);
    assert_eq!(mapping.arms[2].status_code, StatusExpression::Verbatim(status("CONFLICT")));
}

#[test]
fn status_ignores_everything_but_the_variant() {
    let mapping = generate_rest_error_impl("E".to_string(), endpoint_variants()).unwrap();
    let a = value(1, "error bar", &[]);
    let b = value(1, "something else", &["disk full"]);
    assert_eq!(mapping.status_code(&a), mapping.status_code(&b));
    assert_eq!(mapping.status_code(&a), Some(&StatusExpression::Verbatim(status("OK"))));
    assert_eq!(mapping.status_code(&value(2, "x", &[])), None);
}

#[test]
fn endpoint_error_with_internal_variant() {
    let expansion = rest_error_macro(
        internal_error_request(StatusExpression::InternalServerError),
        endpoint_enum(),
    )
    .unwrap();
    let generated = derive_rest_error_macro(expansion.declaration).unwrap();

    let bar = value(1, "error bar", &[]);
    assert_eq!(
        generated.rest_error.status_code(&bar),
        Some(&StatusExpression::Verbatim(status("OK")))
    );
    assert_eq!(
        generated.serialize.serialize(&bar),
        Some(vec![field("error_code", "BarError"), field("error_message", "error bar")])
    );

    let internal = value(2, "unexpected path params: baz", &["connection reset"]);
    assert_eq!(
        generated.rest_error.status_code(&internal),
        Some(&StatusExpression::InternalServerError)
    );
    assert_eq!(
        generated.serialize.serialize(&internal),
        Some(vec![field("error_code", "InternalError"), field("error_message", GENERIC)])
    );
    let response = generated.error_response(&internal).unwrap();
    assert_eq!(response.status, &StatusExpression::InternalServerError);
    assert_eq!(
        response.body,
        vec![field("error_code", "InternalError"), field("error_message", GENERIC)]
    );
    assert_eq!(generated.response_error.enum_name, "MyEndpointError");
    assert_eq!(generated.error_response(&value(3, "", &[])), None);
}

#[test]
fn opaque_message_ignores_the_cause() {
    let expansion = rest_error_macro(
        internal_error_request(StatusExpression::InternalServerError),
        endpoint_enum(),
    )
    .unwrap();
    let generated = derive_rest_error_macro(expansion.declaration).unwrap();
    let one = generated.serialize.serialize(&value(2, "first cause", &[])).unwrap();
    let two = generated.serialize.serialize(&value(2, "second cause", &["deeper"])).unwrap();
    assert_eq!(one, two);
    assert_eq!(one[1].value, GENERIC);
}

#[test]
fn declared_variant_named_internal_error_shows_its_text() {
    let variants = vec![variant(
        "InternalError",
        Fields::Positional { count: 1 },
        vec![rest_attr("INTERNAL_SERVER_ERROR")],
        1,
    )];
    let serialize = generate_serialize_impl("E".to_string(), &variants);
    assert_eq!(
        serialize.serialize(&value(0, "database is down", &[])),
        Some(vec![field("error_code", "InternalError"), field("error_message", "database is down")])
    );
}

#[test]
fn serialization_always_has_two_fields() {
    let serialize = generate_serialize_impl("E".to_string(), &endpoint_variants());
    for index in 0..2 {
        let body = serialize.serialize(&value(index, "text", &["cause"])).unwrap();
        assert_eq!(body.len(), 2);
        assert_eq!(body[0].name, "error_code");
        assert_eq!(body[1].name, "error_message");
        assert_eq!(body[1].value, "text");
    }
    assert_eq!(serialize.serialize(&value(2, "text", &[])), None);
}

#[test]
fn schema_lists_all_variant_names() {
    let expansion = rest_error_macro(
        internal_error_request(StatusExpression::InternalServerError),
        endpoint_enum(),
    )
    .unwrap();
    let variants = match expansion.declaration.body {
        TypeBody::Enum(variants) => variants,
        _ => unreachable!(),
    };
    let schema = generate_to_schema_impl("MyEndpointError".to_string(), &variants);
    assert_eq!(schema.enum_name, "MyEndpointError");
    assert_eq!(schema.properties.len(), 2);
    assert_eq!(schema.properties[0].name, "error_code");
    assert_eq!(
        schema.properties[0].enum_values,
        Some(vec!["FooError".to_string(), "BarError".to_string(), "InternalError".to_string()])
    );
    assert_eq!(schema.properties[1].name, "error_message");
    assert_eq!(schema.properties[1].enum_values, None);
    assert_eq!(schema.required, vec!["error_code".to_string(), "error_message".to_string()]);
}

#[test]
fn schema_of_empty_enum_allows_no_code() {
    let schema = generate_to_schema_impl("Never".to_string(), &vec![]);
    assert_eq!(schema.properties[0].enum_values, Some(vec![]));
    let mapping = generate_rest_error_impl("Never".to_string(), vec![]).unwrap();
    assert_eq!(mapping.arms.len(), 0);
}

#[test]
fn response_conversion_names_the_enum() {
    assert_eq!(generate_response_error_impl("MyEndpointError".to_string()).enum_name, "MyEndpointError");
}

#[test]
fn debug_without_cause_is_one_line() {
    let debug = DebugImpl { enum_name: "E".to_string() };
    assert_eq!(debug.fmt(&value(0, "error foo", &[])), vec!["error foo".to_string()]);
}

#[test]
fn debug_lists_causes_in_order() {
    let debug = DebugImpl { enum_name: "E".to_string() };
    let lines = debug.fmt(&value(2, "request failed", &["query failed", "connection reset", "timeout"]));
    assert_eq!(
        lines,
        vec![
            "request failed".to_string(),
            "Caused by: query failed".to_string(),
            "Caused by: connection reset".to_string(),
            "Caused by: timeout".to_string(),
        ]
    );
}

#[test]
fn entry_point_parses_then_expands() {
    let output = rest_error(vec![word("internal_error")], endpoint_enum());
    match output {
        MacroOutput::Expanded(expansion) => match expansion.declaration.body {
            TypeBody::Enum(variants) => {
                assert_eq!(variants.len(), 3);
                assert_eq!(variants[2].name, "InternalError");
                assert_eq!(variants[2].synthetic, Some(StatusExpression::InternalServerError));
            }
            _ => panic!("an enum stays an enum"),
        },
        MacroOutput::CompileError(e) => panic!("unexpected diagnostic {:?}", e),
    }
}

#[test]
fn entry_point_reports_argument_errors_first() {
    let input = TypeDeclaration { name: "S".to_string(), span: at(1, 2), body: TypeBody::Struct };
    let output = rest_error(vec![word("unknown")], input);
    assert_eq!(
        output,
        MacroOutput::CompileError(GenerationError::UnsupportedAttributeKey {
            key: "unknown".to_string(),
            location: at(0, 7)
        })
    );
    let input = TypeDeclaration { name: "S".to_string(), span: at(1, 2), body: TypeBody::Struct };
    assert_eq!(
        rest_error(vec![], input),
        MacroOutput::CompileError(GenerationError::NotAnEnum { location: at(1, 2) })
    );
}

#[test]
fn derive_entry_point_gives_all_or_nothing() {
    match derive_rest_error(endpoint_enum()) {
        MacroOutput::Expanded(generated) => {
            assert_eq!(generated.rest_error.arms.len(), 2);
            assert_eq!(generated.serialize.tags.len(), 2);
            assert!(!generated.serialize.tags[0].opaque);
            assert_eq!(generated.to_schema.enum_name, "MyEndpointError");
        }
        MacroOutput::CompileError(e) => panic!("unexpected diagnostic {:?}", e),
    }
    let input = TypeDeclaration {
        name: "E".to_string(),
        span: at(0, 1),
        body: TypeBody::Enum(vec![variant("Lonely", Fields::Unit, vec![], 9)]),
    };
    assert_eq!(
        derive_rest_error(input),
        MacroOutput::CompileError(GenerationError::MissingAnnotationOnVariant {
            variant: "Lonely".to_string(),
            location: at(9, 10)
        })
    );
}
