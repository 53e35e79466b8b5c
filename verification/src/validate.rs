//! The schema check of an offset date-time value: which outcome the value's schema leads to.

use vstd::prelude::*;

use crate::order::{contains_text, texts};

verus! {

/// The type that a schema asks of a value (of a `oneOf`, `anyOf` or `allOf`, only that it
/// is one), or the type of a value.
#[derive(Debug, Clone, Copy, PartialEq, Eq, Structural)]
pub enum SchemaValueType {
    Null,
    Boolean,
    Integer,
    Float,
    String,
    OffsetDateTime,
    LocalDateTime,
    LocalDate,
    LocalTime,
    Array,
    Table,
    OneOf,
    AnyOf,
    AllOf,
}

/// The shape of the value schema.
#[derive(Debug, Clone)]
pub enum ValueSchemaKind {
    /// An offset date-time schema, with the values it admits where it lists them.
    OffsetDateTime { enumerate: Option<Vec<String>> },
    OneOf,
    AnyOf,
    AllOf,
    Other,
}

/// What checking an offset date-time against its schema comes to.
#[derive(Debug, Clone, Copy, PartialEq, Eq, Structural)]
pub enum OffsetDateTimeCheck {
    /// The value is valid.
    Valid,
    /// The schema asks for the type `expected`; the value is of the type `actual`.
    TypeMismatch { expected: SchemaValueType, actual: SchemaValueType },
    /// The value is checked against each of the schemas of a `oneOf`.
    ValidateOneOf,
    /// The value is checked against each of the schemas of an `anyOf`.
    ValidateAnyOf,
    /// The value is checked against each of the schemas of an `allOf`.
    ValidateAllOf,
    /// The schema lists the admitted values and this one is not among them.
    NotEnumerated,
}

/// Whether a schema type is one that the check goes on with.
pub open spec fn proceeds(value_type: SchemaValueType) -> bool {
    value_type == SchemaValueType::OffsetDateTime || value_type == SchemaValueType::OneOf || value_type
        == SchemaValueType::AnyOf || value_type == SchemaValueType::AllOf
}

/// The outcome of checking an offset date-time, written `value_text`, against its schema
/// (none: any value is valid).
pub open spec fn offset_date_time_check(schema: Option<(SchemaValueType, ValueSchemaKind)>, value_text: Seq<char>) -> OffsetDateTimeCheck {
    match schema {
        None => OffsetDateTimeCheck::Valid,
        Some((value_type, kind)) => if value_type == SchemaValueType::Null {
            OffsetDateTimeCheck::Valid
        } else if !proceeds(value_type) {
            OffsetDateTimeCheck::TypeMismatch { expected: value_type, actual: SchemaValueType::OffsetDateTime }
        } else {
            match kind {
                ValueSchemaKind::OneOf => OffsetDateTimeCheck::ValidateOneOf,
                ValueSchemaKind::AnyOf => OffsetDateTimeCheck::ValidateAnyOf,
                ValueSchemaKind::AllOf => OffsetDateTimeCheck::ValidateAllOf,
                ValueSchemaKind::OffsetDateTime { enumerate } => match enumerate {
                    Some(values) => if texts(values@).contains(value_text) {
                        OffsetDateTimeCheck::Valid
                    } else {
                        OffsetDateTimeCheck::NotEnumerated
                    },
                    None => OffsetDateTimeCheck::Valid,
                },
                ValueSchemaKind::Other => OffsetDateTimeCheck::Valid,
            }
        },
    }
}

/// Checks an offset date-time, written `value_text`, against its schema. A schema whose
/// type lets the check go on has an offset date-time, `oneOf`, `anyOf` or `allOf` shape.
pub fn validate_offset_date_time(schema: Option<&(SchemaValueType, ValueSchemaKind)>, value_text: &str) -> (r: OffsetDateTimeCheck)
    requires
        match schema {
            Some(s) => proceeds(s.0) ==> !(s.1 is Other),
            None => true,
        },
    ensures
        r == offset_date_time_check(
            match schema {
                Some(s) => Some(*s),
                None => None,
            },
            value_text@,
        ),
{
    let (value_type, kind) = match schema {
        None => return OffsetDateTimeCheck::Valid,
        Some(s) => (s.0, &s.1),
    };
    match value_type {
        SchemaValueType::Null => return OffsetDateTimeCheck::Valid,
        SchemaValueType::OffsetDateTime | SchemaValueType::OneOf | SchemaValueType::AnyOf | SchemaValueType::AllOf => {},
        _ => {
            return OffsetDateTimeCheck::TypeMismatch { expected: value_type, actual: SchemaValueType::OffsetDateTime };
        },
    }
    match kind {
        ValueSchemaKind::OneOf => OffsetDateTimeCheck::ValidateOneOf,
        ValueSchemaKind::AnyOf => OffsetDateTimeCheck::ValidateAnyOf,
        ValueSchemaKind::AllOf => OffsetDateTimeCheck::ValidateAllOf,
        ValueSchemaKind::OffsetDateTime { enumerate } => match enumerate {
            Some(values) => if contains_text(values, value_text) {
                OffsetDateTimeCheck::Valid
            } else {
                OffsetDateTimeCheck::NotEnumerated
            },
            None => OffsetDateTimeCheck::Valid,
        },
        ValueSchemaKind::Other => OffsetDateTimeCheck::Valid,
    }
}

} // verus!
