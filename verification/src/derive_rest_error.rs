//! The behaviours generated for a finished enum: the status mapping, the
//! response conversion, the serialization and the schema description.

use vstd::prelude::*;
use vstd::string::*;
use crate::args::{variant_args_spec, RestErrorVariantArguments, StatusExpression, StatusExpressionView};
use crate::decl::{
    variant_names, Attribute, AttributeArguments, ErrorValue, Fields, TypeBody, TypeDeclaration,
    Variant,
};
use crate::error::{GenerationError, GenerationErrorView};
use crate::token::Span;

verus! {

/// How an arm of the status mapping matches a variant while ignoring its fields.
#[derive(Clone, Copy, Debug, PartialEq, Eq, Structural)]
pub enum FieldPattern {
    /// `Name`
    Unit,
    /// `Name(..)`
    Tuple,
    /// `Name { .. }`
    Struct,
}

/// One arm of the status mapping.
#[derive(Debug, PartialEq, Eq)]
pub struct StatusArm {
    pub variant: String,
    pub pattern: FieldPattern,
    pub status_code: StatusExpression,
    pub span: Span,
}

/// The status mapping: one arm per variant, in declaration order.
#[derive(Debug, PartialEq, Eq)]
pub struct RestErrorImpl {
    pub enum_name: String,
    pub arms: Vec<StatusArm>,
}

/// The response conversion: status from the status mapping, body from the
/// serialization.
#[derive(Debug, PartialEq, Eq)]
pub struct ResponseErrorImpl {
    pub enum_name: String,
}

/// The tag of one variant, and whether its display text is withheld.
#[derive(Debug, PartialEq, Eq)]
pub struct SerializedTag {
    pub tag: String,
    pub opaque: bool,
}

/// The serialization: a structure of two fields, with one tag per variant, in
/// declaration order.
#[derive(Debug, PartialEq, Eq)]
pub struct SerializeImpl {
    pub enum_name: String,
    pub tags: Vec<SerializedTag>,
}

/// One string property of the schema, with the values it is limited to, if any.
#[derive(Debug, PartialEq, Eq)]
pub struct SchemaProperty {
    pub name: String,
    pub enum_values: Option<Vec<String>>,
}

/// The schema description: an object of string properties, some of them required.
#[derive(Debug, PartialEq, Eq)]
pub struct ToSchemaImpl {
    pub enum_name: String,
    pub properties: Vec<SchemaProperty>,
    pub required: Vec<String>,
}

/// Everything that is derived for one enum.
#[derive(Debug, PartialEq, Eq)]
pub struct GeneratedImpls {
    pub rest_error: RestErrorImpl,
    pub response_error: ResponseErrorImpl,
    pub serialize: SerializeImpl,
    pub to_schema: ToSchemaImpl,
}

/// One field of a serialized error.
#[derive(Debug, PartialEq, Eq)]
pub struct SerializedField {
    pub name: String,
    pub value: String,
}

/// A response: its status and its body.
#[derive(Debug, PartialEq, Eq)]
pub struct ErrorResponse<'a> {
    pub status: &'a StatusExpression,
    pub body: Vec<SerializedField>,
}

/// The first attribute named `rest`, if there is one.
pub open spec fn first_rest_attribute(attrs: Seq<Attribute>) -> Option<Attribute>
    decreases attrs.len(),
{
    if attrs.len() == 0 {
        None
    } else if attrs[0].name@ == "rest"@ {
        Some(attrs[0])
    } else {
        first_rest_attribute(attrs.subrange(1, attrs.len() as int))
    }
}

/// The status that a `rest` attribute declares.
pub open spec fn attribute_status_spec(attr: Attribute) -> Result<
    StatusExpressionView,
    GenerationErrorView,
> {
    match attr.arguments {
        AttributeArguments::Delimited { tokens, span, .. } => variant_args_spec(tokens@, span),
        _ => Err(GenerationErrorView::ExpectedDelimiter { location: attr.span }),
    }
}

/// The status of a variant: the resolved one of a synthesized variant, else
/// the one that its first `rest` attribute declares.
pub open spec fn variant_status_spec(variant: Variant) -> Result<
    StatusExpressionView,
    GenerationErrorView,
> {
    match variant.synthetic {
        Some(status) => Ok(status@),
        None => match first_rest_attribute(variant.attrs@) {
            Some(attr) => attribute_status_spec(attr),
            None => Err(
                GenerationErrorView::MissingAnnotationOnVariant {
                    variant: variant.name@,
                    location: variant.span,
                },
            ),
        },
    }
}

/// The pattern that matches a variant of the given arity.
pub open spec fn field_pattern_spec(fields: Fields) -> FieldPattern {
    match fields {
        Fields::Unit => FieldPattern::Unit,
        Fields::Positional { .. } => FieldPattern::Tuple,
        Fields::Named { .. } => FieldPattern::Struct,
    }
}

/// Whether `arm` is the arm of `variant`.
pub open spec fn arm_matches(arm: StatusArm, variant: Variant) -> bool {
    &&& arm.variant == variant.name
    &&& arm.pattern == field_pattern_spec(variant.fields)
    &&& variant_status_spec(variant) == Ok::<StatusExpressionView, GenerationErrorView>(
        arm.status_code@,
    )
    &&& arm.span == variant.span
}

/// Whether `variants[i]` is the first variant without a valid status, and
/// `error` is what is wrong with it.
pub open spec fn first_invalid_at(variants: Seq<Variant>, i: int, error: GenerationErrorView) -> bool {
    &&& 0 <= i < variants.len()
    &&& variant_status_spec(variants[i]) == Err::<StatusExpressionView, GenerationErrorView>(error)
    &&& forall|j: int| 0 <= j < i ==> (#[trigger] variant_status_spec(variants[j])) is Ok
}

/// Whether `mapping` is the status mapping of an enum `name` with `variants`.
pub open spec fn is_status_mapping(mapping: RestErrorImpl, name: String, variants: Seq<Variant>) -> bool {
    &&& mapping.enum_name == name
    &&& mapping.arms@.len() == variants.len()
    &&& forall|i: int| 0 <= i < variants.len() ==> arm_matches(#[trigger] mapping.arms@[i], variants[i])
}

/// Whether `serialize` is the serialization of an enum `name` with `variants`.
pub open spec fn is_serialization(serialize: SerializeImpl, name: String, variants: Seq<Variant>) -> bool {
    &&& serialize.enum_name == name
    &&& serialize.tags@.len() == variants.len()
    &&& forall|i: int|
        0 <= i < variants.len() ==> {
            &&& (#[trigger] serialize.tags@[i]).tag == variants[i].name
            &&& serialize.tags@[i].opaque == (variants[i].synthetic is Some)
        }
}

/// The texts of `strings`.
pub open spec fn texts(strings: Seq<String>) -> Seq<Seq<char>> {
    Seq::new(strings.len(), |i: int| strings[i]@)
}

/// Whether `schema` is the schema of an enum `name` with `variants`: an
/// `error_code` limited to the variants' names and a free `error_message`,
/// both required.
pub open spec fn is_schema(schema: ToSchemaImpl, name: String, variants: Seq<Variant>) -> bool {
    &&& schema.enum_name == name
    &&& schema.properties@.len() == 2
    &&& schema.properties@[0].name@ == "error_code"@
    &&& schema.properties@[0].enum_values is Some
    &&& texts(schema.properties@[0].enum_values.unwrap()@) == variant_names(variants)
    &&& schema.properties@[1].name@ == "error_message"@
    &&& schema.properties@[1].enum_values is None
    &&& texts(schema.required@) == seq!["error_code"@, "error_message"@]
}

/// Builds the arm of one variant, or says what is wrong with its annotation.
fn status_arm(variant: Variant) -> (result: Result<StatusArm, GenerationError>)
    ensures
        match result {
            Ok(arm) => arm_matches(arm, variant),
            Err(e) => variant_status_spec(variant) == Err::<
                StatusExpressionView,
                GenerationErrorView,
            >(e@),
        },
{
    let Variant { name, fields, attrs, synthetic, span } = variant;
    let pattern = match &fields {
        Fields::Unit => FieldPattern::Unit,
        Fields::Positional { .. } => FieldPattern::Tuple,
        Fields::Named { .. } => FieldPattern::Struct,
    };
    match synthetic {
        Some(status) => {
            return Ok(StatusArm { variant: name, pattern, status_code: status, span });
        },
        None => {},
    }
    let mut rest = attrs;
    let wanted = String::from_str("rest");
    while rest.len() > 0
        invariant
            wanted@ == "rest"@,
            variant == (Variant { name, fields, attrs, synthetic, span }),
            synthetic is None,
            pattern == field_pattern_spec(fields),
            first_rest_attribute(rest@) == first_rest_attribute(attrs@),
        decreases rest.len(),
    {
        let ghost before = rest@;
        let attr = rest.remove(0);
        assert(rest@ =~= before.subrange(1, before.len() as int));
        if attr.name == wanted {
            match attr.arguments {
                AttributeArguments::Delimited { tokens, span: list_span, .. } => {
                    match RestErrorVariantArguments::parse(tokens, list_span) {
                        Ok(args) => {
                            return Ok(
                                StatusArm {
                                    variant: name,
                                    pattern,
                                    status_code: args.status_code,
                                    span,
                                },
                            );
                        },
                        Err(e) => {
                            return Err(e);
                        },
                    }
                },
                _ => {
                    return Err(GenerationError::ExpectedDelimiter { location: attr.span });
                },
            }
        }
    }
    Err(GenerationError::MissingAnnotationOnVariant { variant: name, location: span })
}

/// Generates the status mapping of the enum `enum_name`: one arm per variant,
/// matching on the variant alone. The first variant without a valid status
/// annotation stops generation with its diagnostic.
pub fn generate_rest_error_impl(enum_name: String, variants: Vec<Variant>) -> (result: Result<
    RestErrorImpl,
    GenerationError,
>)
    ensures
        match result {
            Ok(mapping) => is_status_mapping(mapping, enum_name, variants@),
            Err(e) => exists|i: int| first_invalid_at(variants@, i, e@),
        },
{
    let mut rest = variants;
    let mut arms: Vec<StatusArm> = Vec::new();
    while rest.len() > 0
        invariant
            arms@.len() + rest@.len() == variants@.len(),
            rest@ =~= variants@.subrange(arms@.len() as int, variants@.len() as int),
            forall|i: int| 0 <= i < arms@.len() ==> arm_matches(#[trigger] arms@[i], variants@[i]),
        decreases rest.len(),
    {
        let ghost done = arms@.len() as int;
        let variant = rest.remove(0);
        assert(variant == variants@[done]);
        match status_arm(variant) {
            Ok(arm) => {
                arms.push(arm);
            },
            Err(e) => {
                assert forall|j: int| 0 <= j < done implies (#[trigger] variant_status_spec(
                    variants@[j],
                )) is Ok by {
                    assert(arm_matches(arms@[j], variants@[j]));
                }
                assert(first_invalid_at(variants@, done, e@));
                return Err(e);
            },
        }
    }
    Ok(RestErrorImpl { enum_name, arms })
}

/// Generates the response conversion of the enum `name`.
pub fn generate_response_error_impl(name: String) -> (result: ResponseErrorImpl)
    ensures
        result.enum_name == name,
{
    ResponseErrorImpl { enum_name: name }
}

/// Generates the serialization of the enum `name`: for each variant its name
/// as tag, and whether it is the opaque internal-error variant.
pub fn generate_serialize_impl(name: String, variants: &Vec<Variant>) -> (result: SerializeImpl)
    ensures
        is_serialization(result, name, variants@),
{
    let mut tags: Vec<SerializedTag> = Vec::new();
    let mut i: usize = 0;
    while i < variants.len()
        invariant
            i <= variants.len(),
            tags@.len() == i,
            forall|k: int|
                0 <= k < i ==> {
                    &&& (#[trigger] tags@[k]).tag == variants@[k].name
                    &&& tags@[k].opaque == (variants@[k].synthetic is Some)
                },
        decreases variants.len() - i,
    {
        let opaque = variants[i].synthetic.is_some();
        tags.push(SerializedTag { tag: variants[i].name.clone(), opaque });
        i += 1;
    }
    SerializeImpl { enum_name: name, tags }
}

/// Generates the schema description of the enum `name`.
pub fn generate_to_schema_impl(name: String, variants: &Vec<Variant>) -> (result: ToSchemaImpl)
    ensures
        is_schema(result, name, variants@),
{
    let mut values: Vec<String> = Vec::new();
    let mut i: usize = 0;
    while i < variants.len()
        invariant
            i <= variants.len(),
            values@.len() == i,
            forall|k: int| 0 <= k < i ==> (#[trigger] values@[k]) == variants@[k].name,
        decreases variants.len() - i,
    {
        values.push(variants[i].name.clone());
        i += 1;
    }
    assert(texts(values@) =~= variant_names(variants@));
    let mut properties: Vec<SchemaProperty> = Vec::new();
    properties.push(
        SchemaProperty { name: String::from_str("error_code"), enum_values: Some(values) },
    );
    properties.push(SchemaProperty { name: String::from_str("error_message"), enum_values: None });
    let mut required: Vec<String> = Vec::new();
    required.push(String::from_str("error_code"));
    required.push(String::from_str("error_message"));
    assert(texts(required@) =~= seq!["error_code"@, "error_message"@]);
    ToSchemaImpl { enum_name: name, properties, required }
}

/// Whether `generated` is what is derived for an enum `name` with `variants`.
pub open spec fn is_generated_for(generated: GeneratedImpls, name: String, variants: Seq<Variant>) -> bool {
    &&& is_status_mapping(generated.rest_error, name, variants)
    &&& generated.response_error.enum_name == name
    &&& is_serialization(generated.serialize, name, variants)
    &&& is_schema(generated.to_schema, name, variants)
}

/// The relation between the input of [`derive_rest_error_macro`] and its result.
pub open spec fn derive_spec(input: TypeDeclaration, result: Result<GeneratedImpls, GenerationError>) -> bool {
    match result {
        Ok(generated) => {
            &&& input.spec_variants() is Some
            &&& is_generated_for(generated, input.name, input.spec_variants().unwrap())
        },
        Err(e) => if input.spec_variants() is None {
            e == (GenerationError::NotAnEnum { location: input.span })
        } else {
            exists|i: int| first_invalid_at(input.spec_variants().unwrap(), i, e@)
        },
    }
}

/// Derives all behaviours for `input`, or none: anything but an enum is
/// refused, and so is an enum with a variant whose status annotation is
/// missing or malformed, with the diagnostic of the first such variant.
pub fn derive_rest_error_macro(input: TypeDeclaration) -> (result: Result<
    GeneratedImpls,
    GenerationError,
>)
    ensures
        derive_spec(input, result),
{
    let TypeDeclaration { name, span, body } = input;
    let variants = match body {
        TypeBody::Enum(variants) => variants,
        _ => {
            return Err(GenerationError::NotAnEnum { location: span });
        },
    };
    let ghost declared = variants@;
    assert(input.spec_variants() == Some(declared));
    let serialize = generate_serialize_impl(name.clone(), &variants);
    let to_schema = generate_to_schema_impl(name.clone(), &variants);
    let response_error = generate_response_error_impl(name.clone());
    let rest_error = match generate_rest_error_impl(name, variants) {
        Ok(mapping) => mapping,
        Err(e) => {
            let ghost at = choose|i: int| first_invalid_at(declared, i, e@);
            assert(first_invalid_at(input.spec_variants().unwrap(), at, e@));
            return Err(e);
        },
    };
    Ok(GeneratedImpls { rest_error, response_error, serialize, to_schema })
}

} // verus!
