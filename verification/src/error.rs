//! What can be wrong with the declaration of an entity type.

use vstd::prelude::*;
use vstd::string::StringExecFns;

verus! {

/// A fault in the declaration of an entity type or of its rules. It is found
/// when the plan is built, before any entity is validated.
#[derive(Debug, PartialEq, Eq)]
pub enum DefinitionError {
    /// The entity type is an enum or a union.
    EnumOrUnion,
    /// The entity type is a struct without field names.
    TupleStruct,
    /// The entity type is a struct without fields.
    UnitStruct,
    /// An attribute of a field is not a list of rules.
    NotAList,
    /// An attribute of a field is a list under another name than `validate`.
    NotValidate,
    /// An item in a list of rules is neither a name nor a name with arguments.
    Malformed,
    /// The catalog has no rule of this name.
    UnknownRule(String),
    /// The rule of this name needs an argument and has none.
    MissingArgument(String),
    /// The rule of this name has an argument that it cannot take.
    ArgumentMismatch(String),
    /// No predicate of this name was handed in.
    UnknownPredicate(String),
    /// The rule cannot stand on a field of the kind that the field has.
    TypeMismatch { field: String, rule: String },
}

/// A `DefinitionError` as the contracts see it.
pub enum DefinitionErrorView {
    EnumOrUnion,
    TupleStruct,
    UnitStruct,
    NotAList,
    NotValidate,
    Malformed,
    UnknownRule(Seq<char>),
    MissingArgument(Seq<char>),
    ArgumentMismatch(Seq<char>),
    UnknownPredicate(Seq<char>),
    TypeMismatch { field: Seq<char>, rule: Seq<char> },
}

impl View for DefinitionError {
    type V = DefinitionErrorView;

    open spec fn view(&self) -> DefinitionErrorView {
        match self {
            DefinitionError::EnumOrUnion => DefinitionErrorView::EnumOrUnion,
            DefinitionError::TupleStruct => DefinitionErrorView::TupleStruct,
            DefinitionError::UnitStruct => DefinitionErrorView::UnitStruct,
            DefinitionError::NotAList => DefinitionErrorView::NotAList,
            DefinitionError::NotValidate => DefinitionErrorView::NotValidate,
            DefinitionError::Malformed => DefinitionErrorView::Malformed,
            DefinitionError::UnknownRule(name) => DefinitionErrorView::UnknownRule(name@),
            DefinitionError::MissingArgument(name) => DefinitionErrorView::MissingArgument(name@),
            DefinitionError::ArgumentMismatch(name) => DefinitionErrorView::ArgumentMismatch(name@),
            DefinitionError::UnknownPredicate(name) => DefinitionErrorView::UnknownPredicate(name@),
            DefinitionError::TypeMismatch { field, rule } => DefinitionErrorView::TypeMismatch {
                field: field@,
                rule: rule@,
            },
        }
    }
}

impl DefinitionErrorView {
    /// The error in words.
    pub open spec fn message(self) -> Seq<char> {
        match self {
            DefinitionErrorView::EnumOrUnion => "enums and unions are not supported"@,
            DefinitionErrorView::TupleStruct => "can't validate a tuple struct"@,
            DefinitionErrorView::UnitStruct => "can't validate a unit struct"@,
            DefinitionErrorView::NotAList => "validations not formatted correctly"@,
            DefinitionErrorView::NotValidate => "validations must start with #[validate]"@,
            DefinitionErrorView::Malformed => "malformed validation"@,
            DefinitionErrorView::UnknownRule(name) => "unrecognised attribute: "@ + name,
            DefinitionErrorView::MissingArgument(name) => "missing argument: "@ + name,
            DefinitionErrorView::ArgumentMismatch(name) => "mismatched argument: "@ + name,
            DefinitionErrorView::UnknownPredicate(name) => "unrecognised function: "@ + name,
            DefinitionErrorView::TypeMismatch { field, rule } => "mismatched types: "@ + rule
                + " on "@ + field,
        }
    }
}

impl DefinitionError {
    /// The error in words.
    pub fn message(&self) -> (message: String)
        ensures
            message@ == self@.message(),
    {
        match self {
            DefinitionError::EnumOrUnion => String::from_str("enums and unions are not supported"),
            DefinitionError::TupleStruct => String::from_str("can't validate a tuple struct"),
            DefinitionError::UnitStruct => String::from_str("can't validate a unit struct"),
            DefinitionError::NotAList => String::from_str("validations not formatted correctly"),
            DefinitionError::NotValidate => String::from_str(
                "validations must start with #[validate]",
            ),
            DefinitionError::Malformed => String::from_str("malformed validation"),
            DefinitionError::UnknownRule(name) => String::from_str(
                "unrecognised attribute: ",
            ).concat(name.as_str()),
            DefinitionError::MissingArgument(name) => String::from_str("missing argument: ").concat(
                name.as_str(),
            ),
            DefinitionError::ArgumentMismatch(name) => String::from_str(
                "mismatched argument: ",
            ).concat(name.as_str()),
            DefinitionError::UnknownPredicate(name) => String::from_str(
                "unrecognised function: ",
            ).concat(name.as_str()),
            DefinitionError::TypeMismatch { field, rule } => String::from_str(
                "mismatched types: ",
            ).concat(rule.as_str()).concat(" on ").concat(field.as_str()),
        }
    }
}

} // verus!
