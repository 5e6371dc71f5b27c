//! What the generated behaviours do with a constructed value.

use vstd::prelude::*;
use vstd::string::*;
use crate::args::{RestErrorMacroArguments, StatusExpression, StatusExpressionView};
use crate::attr_rest_error::augmented_variants;
use crate::decl::{variant_names, ErrorValue, TypeDeclaration, Variant};
use crate::derive_rest_error::{
    arm_matches, derive_spec, first_invalid_at, first_rest_attribute, is_generated_for, is_schema,
    is_serialization, is_status_mapping, texts, variant_status_spec, ErrorResponse, GeneratedImpls,
    RestErrorImpl, SerializeImpl, SerializedField, ToSchemaImpl,
};
use crate::error::{GenerationError, GenerationErrorView};
use crate::token::Span;

verus! {

/// The message serialized in place of the display text of the opaque
/// internal-error variant.
pub open spec fn opaque_message() -> Seq<char> {
    "internal server error, check server logs for more information"@
}

/// The names and values of `fields`.
pub open spec fn field_views(fields: Seq<SerializedField>) -> Seq<(Seq<char>, Seq<char>)> {
    Seq::new(fields.len(), |i: int| (fields[i].name@, fields[i].value@))
}

/// The fields of `body`, if there is one.
pub open spec fn body_view(body: Option<Vec<SerializedField>>) -> Option<
    Seq<(Seq<char>, Seq<char>)>,
> {
    match body {
        Some(fields) => Some(field_views(fields@)),
        None => None,
    }
}

impl RestErrorImpl {
    /// The status of `value`: that of the arm at the value's variant, whatever
    /// else the value holds. There is none where the mapping has no such arm.
    pub open spec fn spec_status_code(self, value: ErrorValue) -> Option<StatusExpression> {
        if value.variant < self.arms@.len() {
            Some(self.arms@[value.variant as int].status_code)
        } else {
            None
        }
    }

    /// Looks up the status of `value`.
    pub fn status_code<'a>(&'a self, value: &ErrorValue) -> (status: Option<&'a StatusExpression>)
        ensures
            self.spec_status_code(*value) == match status {
                Some(s) => Some(*s),
                None => None,
            },
    {
        if value.variant < self.arms.len() {
            Some(&self.arms[value.variant].status_code)
        } else {
            None
        }
    }
}

impl SerializeImpl {
    /// The message of `value`: the fixed text for the opaque variant, else the
    /// value's display text, without its causes.
    pub open spec fn spec_error_message(self, value: ErrorValue) -> Seq<char>
        recommends
            value.variant < self.tags@.len(),
    {
        if self.tags@[value.variant as int].opaque {
            opaque_message()
        } else {
            value.display_text@
        }
    }

    /// The serialized form of `value`: `error_code` with the variant's tag,
    /// then `error_message`. There is none where the value's variant has no tag.
    pub open spec fn spec_serialize(self, value: ErrorValue) -> Option<Seq<(Seq<char>, Seq<char>)>> {
        if value.variant < self.tags@.len() {
            Some(
                seq![
                    ("error_code"@, self.tags@[value.variant as int].tag@),
                    ("error_message"@, self.spec_error_message(value)),
                ],
            )
        } else {
            None
        }
    }

    /// Serializes `value` as its two fields.
    pub fn serialize(&self, value: &ErrorValue) -> (body: Option<Vec<SerializedField>>)
        ensures
            body_view(body) == self.spec_serialize(*value),
    {
        if value.variant >= self.tags.len() {
            return None;
        }
        let tag = &self.tags[value.variant];
        let message = if tag.opaque {
            String::from_str("internal server error, check server logs for more information")
        } else {
            value.display_text.clone()
        };
        let mut fields: Vec<SerializedField> = Vec::new();
        fields.push(SerializedField { name: String::from_str("error_code"), value: tag.tag.clone() });
        fields.push(SerializedField { name: String::from_str("error_message"), value: message });
        assert(field_views(fields@) =~= self.spec_serialize(*value).unwrap());
        Some(fields)
    }
}

impl GeneratedImpls {
    /// Converts `value` into a response: its status is the one that the status
    /// mapping gives, its body the serialization. There is no response where
    /// either of the two has none for the value's variant.
    pub fn error_response<'a>(&'a self, value: &ErrorValue) -> (response: Option<ErrorResponse<'a>>)
        ensures
            match response {
                Some(r) => {
                    &&& self.rest_error.spec_status_code(*value) == Some(*r.status)
                    &&& self.serialize.spec_serialize(*value) == Some(field_views(r.body@))
                },
                None => {
                    ||| self.rest_error.spec_status_code(*value) is None
                    ||| self.serialize.spec_serialize(*value) is None
                },
            },
    {
        let status = match self.rest_error.status_code(value) {
            Some(status) => status,
            None => {
                return None;
            },
        };
        match self.serialize.serialize(value) {
            Some(body) => Some(ErrorResponse { status, body }),
            None => None,
        }
    }
}

/// The status mapping is total: for a value of any variant of the enum it
/// gives that variant's declared status.
pub proof fn status_mapping_is_total(
    mapping: RestErrorImpl,
    name: String,
    variants: Seq<Variant>,
    value: ErrorValue,
)
    requires
        is_status_mapping(mapping, name, variants),
        value.variant < variants.len(),
    ensures
        mapping.spec_status_code(value) is Some,
        variant_status_spec(variants[value.variant as int]) == Ok::<
            StatusExpressionView,
            GenerationErrorView,
        >(mapping.spec_status_code(value).unwrap()@),
{
    assert(arm_matches(mapping.arms@[value.variant as int], variants[value.variant as int]));
}

/// The status of a value depends on its variant alone.
pub proof fn status_depends_on_variant_alone(mapping: RestErrorImpl, a: ErrorValue, b: ErrorValue)
    requires
        a.variant == b.variant,
    ensures
        mapping.spec_status_code(a) == mapping.spec_status_code(b),
{
}

/// Every variant of the enum serializes to exactly two fields, `error_code`
/// with the variant's name and then `error_message`, which is the fixed text
/// for the synthesized variant and the display text for every other.
pub proof fn serialization_has_two_fields(
    serialize: SerializeImpl,
    name: String,
    variants: Seq<Variant>,
    value: ErrorValue,
)
    requires
        is_serialization(serialize, name, variants),
        value.variant < variants.len(),
    ensures
        serialize.spec_serialize(value) is Some,
        serialize.spec_serialize(value).unwrap().len() == 2,
        serialize.spec_serialize(value).unwrap()[0] == ("error_code"@, variants[value.variant as int].name@),
        serialize.spec_serialize(value).unwrap()[1].0 == "error_message"@,
        variants[value.variant as int].synthetic is Some ==> serialize.spec_serialize(
            value,
        ).unwrap()[1].1 == opaque_message(),
        variants[value.variant as int].synthetic is None ==> serialize.spec_serialize(
            value,
        ).unwrap()[1].1 == value.display_text@,
{
    let tag = serialize.tags@[value.variant as int];
    assert(tag.tag == variants[value.variant as int].name);
}

/// Whether no two of `variants` share a name.
pub open spec fn names_are_distinct(variants: Seq<Variant>) -> bool {
    forall|i: int, j: int|
        0 <= i < j < variants.len() ==> (#[trigger] variants[i]).name@ != (#[trigger] variants[j]).name@
}

/// Appending the internal-error variant keeps the variants' names distinct,
/// provided that no declared variant is itself named `InternalError`.
pub proof fn expansion_keeps_names_distinct(
    args: RestErrorMacroArguments,
    declared: Seq<Variant>,
    span: Span,
    augmented: Seq<Variant>,
)
    requires
        augmented_variants(args, declared, span, augmented),
        names_are_distinct(declared),
        forall|i: int| 0 <= i < declared.len() ==> (#[trigger] declared[i]).name@ != "InternalError"@,
    ensures
        names_are_distinct(augmented),
{
    if args.internal_error is Some {
        let n = declared.len() as int;
        assert forall|i: int, j: int| 0 <= i < j < augmented.len() implies (#[trigger] augmented[i]).name@
            != (#[trigger] augmented[j]).name@ by {
            assert(augmented.subrange(0, n)[i] == declared[i]);
            if j < n {
                assert(augmented.subrange(0, n)[j] == declared[j]);
            }
        }
    }
}

/// The values that the schema allows for `error_code` are the names of the
/// variants, each of them once and nothing else, provided that the variants'
/// names differ from each other.
pub proof fn schema_lists_each_variant_once(schema: ToSchemaImpl, name: String, variants: Seq<Variant>)
    requires
        is_schema(schema, name, variants),
        names_are_distinct(variants),
    ensures
        texts(schema.properties@[0].enum_values.unwrap()@).len() == variants.len(),
        texts(schema.properties@[0].enum_values.unwrap()@).no_duplicates(),
        forall|i: int|
            0 <= i < variants.len() ==> texts(schema.properties@[0].enum_values.unwrap()@).contains(
                (#[trigger] variants[i]).name@,
            ),
        forall|text: Seq<char>|
            texts(schema.properties@[0].enum_values.unwrap()@).contains(text) ==> exists|i: int|
                0 <= i < variants.len() && (#[trigger] variants[i]).name@ == text,
{
    let values = texts(schema.properties@[0].enum_values.unwrap()@);
    assert(values == variant_names(variants));
    assert forall|i: int| 0 <= i < variants.len() implies values.contains(
        (#[trigger] variants[i]).name@,
    ) by {
        assert(values[i] == variants[i].name@);
    }
    assert forall|text: Seq<char>| values.contains(text) implies exists|i: int|
        0 <= i < variants.len() && (#[trigger] variants[i]).name@ == text by {
        let k = choose|k: int| 0 <= k < values.len() && values[k] == text;
        assert(variants[k].name@ == text);
    }
    assert forall|i: int, j: int| 0 <= i < values.len() && 0 <= j < values.len() && i != j implies values[i] != values[j] by {
        if i < j {
            assert(variants[i].name@ != variants[j].name@);
        } else {
            assert(variants[j].name@ != variants[i].name@);
        }
    }
}

/// Where the first variant without a valid status has no `rest` attribute at
/// all, nothing is generated for the type, and the diagnostic names that variant.
pub proof fn missing_annotation_is_reported(
    input: TypeDeclaration,
    result: Result<GeneratedImpls, GenerationError>,
    i: int,
)
    requires
        derive_spec(input, result),
        input.spec_variants() is Some,
        0 <= i < input.spec_variants().unwrap().len(),
        forall|j: int| 0 <= j < i ==> (#[trigger] variant_status_spec(input.spec_variants().unwrap()[j])) is Ok,
        input.spec_variants().unwrap()[i].synthetic is None,
        first_rest_attribute(input.spec_variants().unwrap()[i].attrs@) is None,
    ensures
        result is Err,
        result.unwrap_err()@ == (GenerationErrorView::MissingAnnotationOnVariant {
            variant: input.spec_variants().unwrap()[i].name@,
            location: input.spec_variants().unwrap()[i].span,
        }),
{
    let variants = input.spec_variants().unwrap();
    assert(variant_status_spec(variants[i]) is Err);
    match result {
        Ok(generated) => {
            assert(is_generated_for(generated, input.name, variants));
            assert(arm_matches(generated.rest_error.arms@[i], variants[i]));
        },
        Err(e) => {
            let k = choose|k: int| first_invalid_at(variants, k, e@);
            assert(first_invalid_at(variants, k, e@));
            if k < i {
                assert(variant_status_spec(variants[k]) is Ok);
            } else if k > i {
                assert(variant_status_spec(variants[i]) is Ok);
            }
        },
    }
}

} // verus!
