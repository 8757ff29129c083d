//! The declaration of an entity type as a front end hands it in: the fields,
//! and on each field the attributes that list its rules. This module reads
//! the rules off the attributes and rejects what is not a list of rules.

use vstd::prelude::*;
use crate::error::{DefinitionError, DefinitionErrorView};
use crate::gather::{first_error_stays, first_error_stays_flat, gathered, gathered_flat};
use crate::text::same_text;
use crate::value::{Value, ValueKind, ValueView};

verus! {

/// What stands between the parentheses of a rule: a literal, or the name of
/// a function.
#[derive(Debug, PartialEq, Eq)]
pub enum Content {
    Literal(Value),
    Path(String),
}

/// A `Content` as the contracts see it.
pub enum ContentView {
    Literal(ValueView),
    Path(Seq<char>),
}

impl View for Content {
    type V = ContentView;

    open spec fn view(&self) -> ContentView {
        match self {
            Content::Literal(value) => ContentView::Literal(value@),
            Content::Path(name) => ContentView::Path(name@),
        }
    }
}

/// The argument of a rule as the contracts see it.
pub open spec fn content_view(content: Option<Content>) -> Option<ContentView> {
    match content {
        Some(content) => Some(content@),
        None => None,
    }
}

/// One item of a list of rules.
#[derive(Debug, PartialEq, Eq)]
pub enum NestedMeta {
    /// A name with arguments in parentheses, as in `gt(10)`.
    List { name: String, nested: Vec<Content> },
    /// A bare name, as in `trim`.
    Path { name: String },
    /// Anything else: a literal, or a name with `=` and a value.
    Other,
}

/// A `NestedMeta` as the contracts see it.
pub enum NestedMetaView {
    List { name: Seq<char>, nested: Seq<ContentView> },
    Path { name: Seq<char> },
    Other,
}

pub open spec fn content_views(contents: Seq<Content>) -> Seq<ContentView> {
    contents.map_values(|content: Content| content@)
}

impl View for NestedMeta {
    type V = NestedMetaView;

    open spec fn view(&self) -> NestedMetaView {
        match self {
            NestedMeta::List { name, nested } => NestedMetaView::List {
                name: name@,
                nested: content_views(nested@),
            },
            NestedMeta::Path { name } => NestedMetaView::Path { name: name@ },
            NestedMeta::Other => NestedMetaView::Other,
        }
    }
}

/// One attribute of a field.
#[derive(Debug, PartialEq, Eq)]
pub enum Meta {
    /// A bare name, as in `#[validate]`.
    Path,
    /// A name with `=` and a value, as in `#[doc = "..."]`.
    NameValue,
    /// A name with a list in parentheses, as in `#[validate(trim, len_lt(10))]`.
    /// `ident` is the name where it is a single identifier.
    List { ident: Option<String>, nested: Vec<NestedMeta> },
}

/// A `Meta` as the contracts see it.
pub enum MetaView {
    Path,
    NameValue,
    List { ident: Option<Seq<char>>, nested: Seq<NestedMetaView> },
}

pub open spec fn nested_views(items: Seq<NestedMeta>) -> Seq<NestedMetaView> {
    items.map_values(|item: NestedMeta| item@)
}

impl View for Meta {
    type V = MetaView;

    open spec fn view(&self) -> MetaView {
        match self {
            Meta::Path => MetaView::Path,
            Meta::NameValue => MetaView::NameValue,
            Meta::List { ident, nested } => MetaView::List {
                ident: match ident {
                    Some(name) => Some(name@),
                    None => None,
                },
                nested: nested_views(nested@),
            },
        }
    }
}

/// One field of an entity type: its name, the kind of its values, and its
/// attributes.
#[derive(Debug, PartialEq, Eq)]
pub struct Field {
    pub name: String,
    pub kind: ValueKind,
    pub attrs: Vec<Meta>,
}

/// A `Field` as the contracts see it.
pub struct FieldView {
    pub name: Seq<char>,
    pub kind: ValueKind,
    pub attrs: Seq<MetaView>,
}

pub open spec fn meta_views(attrs: Seq<Meta>) -> Seq<MetaView> {
    attrs.map_values(|attr: Meta| attr@)
}

impl View for Field {
    type V = FieldView;

    open spec fn view(&self) -> FieldView {
        FieldView { name: self.name@, kind: self.kind, attrs: meta_views(self.attrs@) }
    }
}

/// The shape of an entity type.
#[derive(Debug, PartialEq, Eq)]
pub enum Data {
    /// A struct with named fields, in the order of their declaration.
    Named(Vec<Field>),
    /// A struct with fields without names.
    Tuple,
    /// A struct without fields.
    Unit,
    Enum,
    Union,
}

/// A `Data` as the contracts see it.
pub enum DataView {
    Named(Seq<FieldView>),
    Tuple,
    Unit,
    Enum,
    Union,
}

pub open spec fn field_views(fields: Seq<Field>) -> Seq<FieldView> {
    fields.map_values(|field: Field| field@)
}

impl View for Data {
    type V = DataView;

    open spec fn view(&self) -> DataView {
        match self {
            Data::Named(fields) => DataView::Named(field_views(fields@)),
            Data::Tuple => DataView::Tuple,
            Data::Unit => DataView::Unit,
            Data::Enum => DataView::Enum,
            Data::Union => DataView::Union,
        }
    }
}

/// The declaration of an entity type.
#[derive(Debug, PartialEq, Eq)]
pub struct DeriveInput {
    pub name: String,
    pub data: Data,
}

/// A `DeriveInput` as the contracts see it.
pub struct DeriveInputView {
    pub name: Seq<char>,
    pub data: DataView,
}

impl View for DeriveInput {
    type V = DeriveInputView;

    open spec fn view(&self) -> DeriveInputView {
        DeriveInputView { name: self.name@, data: self.data@ }
    }
}

/// A rule as it was written: its name and, where it has one, its argument.
#[derive(Debug, PartialEq, Eq)]
pub struct Condition {
    pub name: String,
    pub content: Option<Content>,
}

/// A `Condition` as the contracts see it.
pub struct ConditionView {
    pub name: Seq<char>,
    pub content: Option<ContentView>,
}

impl View for Condition {
    type V = ConditionView;

    open spec fn view(&self) -> ConditionView {
        ConditionView { name: self.name@, content: content_view(self.content) }
    }
}

pub open spec fn condition_views(conditions: Seq<Condition>) -> Seq<ConditionView> {
    conditions.map_values(|condition: Condition| condition@)
}

/// The rules of one field as they were written, in the order in which they
/// were written.
#[derive(Debug, PartialEq, Eq)]
pub struct FieldValidation {
    pub name: String,
    pub kind: ValueKind,
    pub conditions: Vec<Condition>,
}

/// A `FieldValidation` as the contracts see it.
pub struct FieldValidationView {
    pub name: Seq<char>,
    pub kind: ValueKind,
    pub conditions: Seq<ConditionView>,
}

impl View for FieldValidation {
    type V = FieldValidationView;

    open spec fn view(&self) -> FieldValidationView {
        FieldValidationView {
            name: self.name@,
            kind: self.kind,
            conditions: condition_views(self.conditions@),
        }
    }
}

pub open spec fn validation_views(validations: Seq<FieldValidation>) -> Seq<FieldValidationView> {
    validations.map_values(|validation: FieldValidation| validation@)
}

/// The rules of an entity type as they were written, field by field.
#[derive(Debug, PartialEq, Eq)]
pub struct Validator {
    pub name: String,
    pub validations: Vec<FieldValidation>,
}

/// A `Validator` as the contracts see it.
pub struct ValidatorView {
    pub name: Seq<char>,
    pub validations: Seq<FieldValidationView>,
}

impl View for Validator {
    type V = ValidatorView;

    open spec fn view(&self) -> ValidatorView {
        ValidatorView { name: self.name@, validations: validation_views(self.validations@) }
    }
}

impl NestedMetaView {
    /// The rule that this item writes down. A name in parentheses takes the
    /// last thing between them as its argument, and must have one; a bare
    /// name has no argument; nothing else is a rule.
    pub open spec fn condition(self) -> Result<ConditionView, DefinitionErrorView> {
        match self {
            NestedMetaView::List { name, nested } => if nested.len() == 0 {
                Err(DefinitionErrorView::MissingArgument(name))
            } else {
                Ok(ConditionView { name, content: Some(nested.last()) })
            },
            NestedMetaView::Path { name } => Ok(ConditionView { name, content: None }),
            NestedMetaView::Other => Err(DefinitionErrorView::Malformed),
        }
    }
}

/// What each item of a list of rules writes down.
pub open spec fn item_conditions(items: Seq<NestedMetaView>) -> Seq<
    Result<ConditionView, DefinitionErrorView>,
> {
    Seq::new(items.len(), |k: int| items[k].condition())
}

impl MetaView {
    /// The rules that this attribute lists, in their order. The attribute
    /// must be a list named `validate`; the first item that is no rule
    /// decides the error.
    pub open spec fn conditions(self) -> Result<Seq<ConditionView>, DefinitionErrorView> {
        match self {
            MetaView::Path => Err(DefinitionErrorView::NotAList),
            MetaView::NameValue => Err(DefinitionErrorView::NotAList),
            MetaView::List { ident, nested } => if ident == Some("validate"@) {
                gathered(item_conditions(nested), nested.len() as int)
            } else {
                Err(DefinitionErrorView::NotValidate)
            },
        }
    }
}

/// What each attribute of a field lists.
pub open spec fn attribute_conditions(attrs: Seq<MetaView>) -> Seq<
    Result<Seq<ConditionView>, DefinitionErrorView>,
> {
    Seq::new(attrs.len(), |k: int| attrs[k].conditions())
}

impl FieldView {
    /// The rules of this field: those of its attributes, one attribute after
    /// the other. The first attribute that is at fault decides the error.
    pub open spec fn validation(self) -> Result<FieldValidationView, DefinitionErrorView> {
        match gathered_flat(attribute_conditions(self.attrs), self.attrs.len() as int) {
            Ok(conditions) => Ok(
                FieldValidationView { name: self.name, kind: self.kind, conditions },
            ),
            Err(error) => Err(error),
        }
    }
}

/// What each field of an entity type declares.
pub open spec fn field_validations(fields: Seq<FieldView>) -> Seq<
    Result<FieldValidationView, DefinitionErrorView>,
> {
    Seq::new(fields.len(), |k: int| fields[k].validation())
}

impl DeriveInputView {
    /// The rules of this entity type, field by field. Only a struct with
    /// named fields can be validated; the first field that is at fault
    /// decides the error.
    pub open spec fn validator(self) -> Result<ValidatorView, DefinitionErrorView> {
        match self.data {
            DataView::Enum => Err(DefinitionErrorView::EnumOrUnion),
            DataView::Union => Err(DefinitionErrorView::EnumOrUnion),
            DataView::Tuple => Err(DefinitionErrorView::TupleStruct),
            DataView::Unit => Err(DefinitionErrorView::UnitStruct),
            DataView::Named(fields) => match gathered(
                field_validations(fields),
                fields.len() as int,
            ) {
                Ok(validations) => Ok(ValidatorView { name: self.name, validations }),
                Err(error) => Err(error),
            },
        }
    }
}

impl NestedMeta {
    /// Reads the rule that this item writes down.
    pub fn condition(self) -> (result: Result<Condition, DefinitionError>)
        ensures
            match self@.condition() {
                Ok(condition) => result matches Ok(read) && read@ == condition,
                Err(error) => result matches Err(found) && found@ == error,
            },
    {
        match self {
            NestedMeta::List { name, nested } => {
                let mut nested = nested;
                match nested.pop() {
                    Some(content) => Ok(Condition { name, content: Some(content) }),
                    None => Err(DefinitionError::MissingArgument(name)),
                }
            },
            NestedMeta::Path { name } => Ok(Condition { name, content: None }),
            NestedMeta::Other => Err(DefinitionError::Malformed),
        }
    }
}

impl Condition {
    /// Reads the rules off one attribute of a field.
    pub fn parse(attribute: Meta) -> (result: Result<Vec<Condition>, DefinitionError>)
        ensures
            match attribute@.conditions() {
                Ok(conditions) => result matches Ok(read) && condition_views(read@) == conditions,
                Err(error) => result matches Err(found) && found@ == error,
            },
    {
        match attribute {
            Meta::Path => Err(DefinitionError::NotAList),
            Meta::NameValue => Err(DefinitionError::NotAList),
            Meta::List { ident, nested } => {
                let named = match &ident {
                    Some(name) => same_text(name.as_str(), "validate"),
                    None => false,
                };
                if !named {
                    return Err(DefinitionError::NotValidate);
                }
                let ghost items = nested_views(nested@);
                let ghost results = item_conditions(items);
                let mut conditions: Vec<Condition> = Vec::new();
                for item in it: nested
                    invariant
                        items == nested_views(it.seq()),
                        results == item_conditions(items),
                        attribute@.conditions() == gathered(results, items.len() as int),
                        gathered(results, it.index() as int) matches Ok(read)
                            && read =~= condition_views(conditions@),
                {
                    let ghost read = condition_views(conditions@);
                    let ghost at = it.index() as int;
                    assert(results[at] == item@.condition());
                    match item.condition() {
                        Ok(condition) => {
                            conditions.push(condition);
                            assert(condition_views(conditions@) == read.push(condition@));
                        },
                        Err(error) => {
                            proof {
                                assert(gathered(results, at + 1) is Err);
                                first_error_stays(results, at + 1, items.len() as int);
                            }
                            return Err(error);
                        },
                    }
                }
                Ok(conditions)
            },
        }
    }
}

impl FieldValidation {
    /// Reads the rules of one field off its attributes.
    pub fn parse(field: Field) -> (result: Result<FieldValidation, DefinitionError>)
        ensures
            match field@.validation() {
                Ok(validation) => result matches Ok(read) && read@ == validation,
                Err(error) => result matches Err(found) && found@ == error,
            },
    {
        let Field { name, kind, attrs } = field;
        let ghost items = meta_views(attrs@);
        let ghost results = attribute_conditions(items);
        let mut conditions: Vec<Condition> = Vec::new();
        for attr in it: attrs
            invariant
                items == meta_views(it.seq()),
                results == attribute_conditions(items),
                field@ == (FieldView { name: name@, kind, attrs: items }),
                gathered_flat(results, it.index() as int) matches Ok(read)
                    && read =~= condition_views(conditions@),
        {
            let ghost read = condition_views(conditions@);
            let ghost at = it.index() as int;
            assert(results[at] == attr@.conditions());
            match Condition::parse(attr) {
                Ok(more) => {
                    let mut more = more;
                    let ghost added = condition_views(more@);
                    conditions.append(&mut more);
                    assert(condition_views(conditions@) == read + added);
                },
                Err(error) => {
                    proof {
                        assert(gathered_flat(results, at + 1) is Err);
                        first_error_stays_flat(results, at + 1, items.len() as int);
                    }
                    return Err(error);
                },
            }
        }
        Ok(FieldValidation { name, kind, conditions })
    }
}

impl Validator {
    /// Reads the rules of an entity type off its declaration.
    pub fn parse(input: DeriveInput) -> (result: Result<Validator, DefinitionError>)
        ensures
            match input@.validator() {
                Ok(validator) => result matches Ok(read) && read@ == validator,
                Err(error) => result matches Err(found) && found@ == error,
            },
    {
        let DeriveInput { name, data } = input;
        let fields = match data {
            Data::Named(fields) => fields,
            Data::Tuple => {
                return Err(DefinitionError::TupleStruct);
            },
            Data::Unit => {
                return Err(DefinitionError::UnitStruct);
            },
            Data::Enum => {
                return Err(DefinitionError::EnumOrUnion);
            },
            Data::Union => {
                return Err(DefinitionError::EnumOrUnion);
            },
        };
        let ghost items = field_views(fields@);
        let ghost results = field_validations(items);
        let mut validations: Vec<FieldValidation> = Vec::new();
        for field in it: fields
            invariant
                items == field_views(it.seq()),
                results == field_validations(items),
                input@ == (DeriveInputView { name: name@, data: DataView::Named(items) }),
                gathered(results, it.index() as int) matches Ok(read)
                    && read =~= validation_views(validations@),
        {
            let ghost read = validation_views(validations@);
            let ghost at = it.index() as int;
            assert(results[at] == field@.validation());
            match FieldValidation::parse(field) {
                Ok(validation) => {
                    validations.push(validation);
                    assert(validation_views(validations@) == read.push(validation@));
                },
                Err(error) => {
                    proof {
                        assert(gathered(results, at + 1) is Err);
                        first_error_stays(results, at + 1, items.len() as int);
                    }
                    return Err(error);
                },
            }
        }
        Ok(Validator { name, validations })
    }
}

} // verus!
