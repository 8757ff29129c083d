use vale::catalog::RuleKind;
use vale::compile::Predicate;
use vale::declaration::{
    Condition, Content, Data, DeriveInput, Field, FieldValidation, Meta, NestedMeta, Validator,
};
use vale::derive_validator;
use vale::error::DefinitionError;
use vale::plan::FieldRule;
use vale::value::{Value, ValueKind};

type Test = fn(Value) -> (bool, Value);

fn always(value: Value) -> (bool, Value) {
    (true, value)
}

fn never(value: Value) -> (bool, Value) {
    (false, value)
}

fn predicates() -> Vec<Predicate<Test>> {
    vec![
        Predicate { name: "always".to_string(), test: always as Test },
        Predicate { name: "never".to_string(), test: never as Test },
    ]
}

fn call(name: &str, literal: Value) -> NestedMeta {
    NestedMeta::List { name: name.to_string(), nested: vec![Content::Literal(literal)] }
}

fn with(function: &str) -> NestedMeta {
    NestedMeta::List {
        name: "with".to_string(),
        nested: vec![Content::Path(function.to_string())],
    }
}

fn word(name: &str) -> NestedMeta {
    NestedMeta::Path { name: name.to_string() }
}

fn validate(rules: Vec<NestedMeta>) -> Meta {
    Meta::List { ident: Some("validate".to_string()), nested: rules }
}

fn field(name: &str, kind: ValueKind, attrs: Vec<Meta>) -> Field {
    Field { name: name.to_string(), kind, attrs }
}

fn entity(fields: Vec<Field>) -> DeriveInput {
    DeriveInput { name: "Entity".to_string(), data: Data::Named(fields) }
}

fn error_of(input: DeriveInput) -> DefinitionError {
    match derive_validator(input, predicates()) {
        Ok(_) => panic!("the declaration should have been rejected"),
        Err(error) => error,
    }
}

fn shape(data: Data) -> DeriveInput {
    DeriveInput { name: "Entity".to_string(), data }
}

#[test]
fn only_a_struct_with_named_fields_can_be_validated() {
    assert_eq!(error_of(shape(Data::Enum)), DefinitionError::EnumOrUnion);
    assert_eq!(error_of(shape(Data::Union)), DefinitionError::EnumOrUnion);
    assert_eq!(error_of(shape(Data::Tuple)), DefinitionError::TupleStruct);
    assert_eq!(error_of(shape(Data::Unit)), DefinitionError::UnitStruct);
    assert_eq!(Validator::parse(shape(Data::Unit)), Err(DefinitionError::UnitStruct));
}

#[test]
fn struct_without_fields_or_rules_has_an_empty_plan() {
    let plan = derive_validator(entity(vec![]), predicates()).unwrap();
    assert_eq!(plan.len(), 0);
    assert_eq!(plan.name(), "Entity");
    let mut values = Vec::new();
    assert_eq!(plan.validate(&mut values), Ok(()));

    let plan = derive_validator(entity(vec![field("id", ValueKind::Int, vec![])]), predicates()).unwrap();
    assert_eq!(plan.len(), 1);
    assert_eq!(
        plan.fields(),
        &vec![FieldRule { name: "id".to_string(), kind: ValueKind::Int, rules: vec![] }]
    );
    let mut values = vec![Value::Int(-3)];
    assert_eq!(plan.validate(&mut values), Ok(()));
    assert_eq!(values, vec![Value::Int(-3)]);
}

#[test]
fn attribute_must_be_a_list() {
    assert_eq!(Condition::parse(Meta::Path), Err(DefinitionError::NotAList));
    assert_eq!(Condition::parse(Meta::NameValue), Err(DefinitionError::NotAList));
    let input = entity(vec![field("id", ValueKind::Int, vec![Meta::NameValue])]);
    assert_eq!(error_of(input), DefinitionError::NotAList);
}

#[test]
fn attribute_must_be_named_validate() {
    let other = Meta::List { ident: Some("serde".to_string()), nested: vec![word("trim")] };
    assert_eq!(Condition::parse(other), Err(DefinitionError::NotValidate));
    let path = Meta::List { ident: None, nested: vec![] };
    assert_eq!(Condition::parse(path), Err(DefinitionError::NotValidate));
}

#[test]
fn item_must_be_a_name_or_a_name_with_arguments() {
    let attr = validate(vec![word("trim"), NestedMeta::Other, word("nonsense")]);
    assert_eq!(Condition::parse(attr), Err(DefinitionError::Malformed));
}

#[test]
fn empty_parentheses_hold_no_argument() {
    let attr = validate(vec![NestedMeta::List { name: "gt".to_string(), nested: vec![] }]);
    assert_eq!(Condition::parse(attr), Err(DefinitionError::MissingArgument("gt".to_string())));
}

#[test]
fn omitted_argument_fails_the_declaration() {
    for name in ["gt", "lt", "eq", "neq", "len_lt", "len_gt", "len_eq", "len_neq", "with"] {
        let input = entity(vec![field("id", ValueKind::Int, vec![validate(vec![word(name)])])]);
        assert_eq!(error_of(input), DefinitionError::MissingArgument(name.to_string()));
    }
}

#[test]
fn conditions_are_read_in_the_order_written() {
    let attr = validate(vec![
        word("trim"),
        call("len_lt", Value::Int(10)),
        NestedMeta::List {
            name: "eq".to_string(),
            nested: vec![Content::Literal(Value::Int(1)), Content::Literal(Value::Int(2))],
        },
    ]);
    assert_eq!(
        Condition::parse(attr),
        Ok(vec![
            Condition { name: "trim".to_string(), content: None },
            Condition { name: "len_lt".to_string(), content: Some(Content::Literal(Value::Int(10))) },
            Condition { name: "eq".to_string(), content: Some(Content::Literal(Value::Int(2))) },
        ])
    );
    assert_eq!(Condition::parse(validate(vec![])), Ok(vec![]));
}

#[test]
fn attributes_of_a_field_follow_each_other() {
    let parsed = FieldValidation::parse(field(
        "name",
        ValueKind::Text,
        vec![validate(vec![word("trim")]), validate(vec![]), validate(vec![word("to_lower_case")])],
    ));
    assert_eq!(
        parsed,
        Ok(FieldValidation {
            name: "name".to_string(),
            kind: ValueKind::Text,
            conditions: vec![
                Condition { name: "trim".to_string(), content: None },
                Condition { name: "to_lower_case".to_string(), content: None },
            ],
        })
    );
}

#[test]
fn unknown_rule_is_rejected() {
    let input = entity(vec![field("id", ValueKind::Int, vec![validate(vec![word("positive")])])]);
    assert_eq!(error_of(input), DefinitionError::UnknownRule("positive".to_string()));
}

#[test]
fn unknown_predicate_is_rejected() {
    let input = entity(vec![field("id", ValueKind::Int, vec![validate(vec![with("is_prime")])])]);
    assert_eq!(error_of(input), DefinitionError::UnknownPredicate("is_prime".to_string()));
}

#[test]
fn argument_that_a_rule_cannot_take_is_rejected() {
    let input = entity(vec![field(
        "id",
        ValueKind::Int,
        vec![validate(vec![call("with", Value::Int(3))])],
    )]);
    assert_eq!(error_of(input), DefinitionError::ArgumentMismatch("with".to_string()));
}

fn mismatch(field: &str, rule: &str) -> DefinitionError {
    DefinitionError::TypeMismatch { field: field.to_string(), rule: rule.to_string() }
}

#[test]
fn rule_must_fit_the_kind_of_its_field() {
    let one = |name: &str, kind: ValueKind, rule: NestedMeta| {
        error_of(entity(vec![field(name, kind, vec![validate(vec![rule])])]))
    };
    assert_eq!(one("id", ValueKind::Int, call("len_lt", Value::Int(3))), mismatch("id", "len_lt"));
    assert_eq!(one("ok", ValueKind::Bool, call("len_eq", Value::Int(3))), mismatch("ok", "len_eq"));
    assert_eq!(one("id", ValueKind::Int, word("trim")), mismatch("id", "trim"));
    assert_eq!(one("ids", ValueKind::List, word("to_lower_case")), mismatch("ids", "to_lower_case"));
    assert_eq!(
        one("id", ValueKind::Int, call("gt", Value::Text("10".to_string()))),
        mismatch("id", "gt")
    );
    assert_eq!(one("ok", ValueKind::Bool, call("eq", Value::Int(1))), mismatch("ok", "eq"));
    assert_eq!(
        one("name", ValueKind::Text, call("lt", Value::Text("m".to_string()))),
        mismatch("name", "lt")
    );
}

#[test]
fn fault_in_the_writing_comes_before_fault_in_the_rules() {
    let input = entity(vec![
        field("first", ValueKind::Int, vec![validate(vec![word("positive")])]),
        field("second", ValueKind::Int, vec![Meta::Path]),
    ]);
    assert_eq!(error_of(input), DefinitionError::NotAList);
}

#[test]
fn first_fault_in_order_is_reported() {
    let input = entity(vec![
        field("first", ValueKind::Int, vec![validate(vec![call("gt", Value::Int(1)), word("gt")])]),
        field("second", ValueKind::Int, vec![validate(vec![word("positive")])]),
    ]);
    assert_eq!(error_of(input), DefinitionError::MissingArgument("gt".to_string()));
    let input = entity(vec![
        field("first", ValueKind::Int, vec![validate(vec![NestedMeta::Other]), Meta::Path]),
        field("second", ValueKind::Int, vec![Meta::NameValue]),
    ]);
    assert_eq!(error_of(input), DefinitionError::Malformed);
}

#[test]
fn plan_holds_the_rules_in_the_order_of_the_declaration() {
    let input = entity(vec![
        field(
            "name",
            ValueKind::Text,
            vec![validate(vec![word("trim"), call("len_lt", Value::Int(10))]), validate(vec![with("never")])],
        ),
        field("id", ValueKind::Int, vec![validate(vec![call("neq", Value::Int(0)), with("always")])]),
    ]);
    let plan = derive_validator(input, predicates()).unwrap();
    assert_eq!(
        plan.fields(),
        &vec![
            FieldRule {
                name: "name".to_string(),
                kind: ValueKind::Text,
                rules: vec![RuleKind::Trim, RuleKind::LengthLessThan(10), RuleKind::With(1)],
            },
            FieldRule {
                name: "id".to_string(),
                kind: ValueKind::Int,
                rules: vec![RuleKind::NotEquals(Value::Int(0)), RuleKind::With(0)],
            },
        ]
    );
}

#[test]
fn every_error_has_its_message() {
    let name = || "x".to_string();
    let cases = vec![
        (DefinitionError::EnumOrUnion, "enums and unions are not supported"),
        (DefinitionError::TupleStruct, "can't validate a tuple struct"),
        (DefinitionError::UnitStruct, "can't validate a unit struct"),
        (DefinitionError::NotAList, "validations not formatted correctly"),
        (DefinitionError::NotValidate, "validations must start with #[validate]"),
        (DefinitionError::Malformed, "malformed validation"),
        (DefinitionError::UnknownRule(name()), "unrecognised attribute: x"),
        (DefinitionError::MissingArgument(name()), "missing argument: x"),
        (DefinitionError::ArgumentMismatch(name()), "mismatched argument: x"),
        (DefinitionError::UnknownPredicate(name()), "unrecognised function: x"),
        (mismatch("id", "trim"), "mismatched types: trim on id"),
    ];
    for (error, message) in cases {
        assert_eq!(error.message(), message);
    }
}

fn three_fields() -> DeriveInput {
    entity(vec![
        field(
            "id",
            ValueKind::Int,
            vec![validate(vec![call("gt", Value::Int(0)), call("lt", Value::Int(100)), with("never")])],
        ),
        field(
            "name",
            ValueKind::Text,
            vec![validate(vec![call("len_gt", Value::Int(3)), word("trim"), call("len_lt", Value::Int(6))])],
        ),
        field("tags", ValueKind::List, vec![validate(vec![call("len_eq", Value::Int(2))])]),
    ])
}

#[test]
fn every_failure_is_reported_in_the_order_of_fields_and_rules() {
    let plan = derive_validator(three_fields(), predicates()).unwrap();
    let mut values = vec![Value::Int(0), Value::Text(" a much too long name ".to_string()), Value::List(vec![])];
    assert_eq!(
        plan.validate(&mut values),
        Err(vec![
            "Failed to validate field `id`, value too low".to_string(),
            "Failed to validate field `id`, value did not pass test".to_string(),
            "Failed to validate field `name`, value too long".to_string(),
            "Failed to validate field `tags`, value of incorrect length".to_string(),
        ])
    );
    assert_eq!(values[1], Value::Text("a much too long name".to_string()));
    assert!(plan.describes(&values));
}

#[test]
fn single_failure_gives_a_single_message() {
    let input = entity(vec![
        field("id", ValueKind::Int, vec![validate(vec![call("gt", Value::Int(0)), with("always")])]),
        field("name", ValueKind::Text, vec![validate(vec![word("trim"), call("len_eq", Value::Int(2))])]),
    ]);
    let plan = derive_validator(input, predicates()).unwrap();
    let mut values = vec![Value::Int(4), Value::Text(" abc ".to_string())];
    assert_eq!(
        plan.validate(&mut values),
        Err(vec!["Failed to validate field `name`, value of incorrect length".to_string()])
    );
}

#[test]
fn passing_entity_holds_its_transformed_values() {
    let input = entity(vec![
        field("id", ValueKind::Int, vec![validate(vec![call("gt", Value::Int(0)), with("always")])]),
        field(
            "name",
            ValueKind::Text,
            vec![validate(vec![word("to_lower_case"), word("trim"), call("eq", Value::Text("ab".to_string()))])],
        ),
    ]);
    let plan = derive_validator(input, predicates()).unwrap();
    let mut values = vec![Value::Int(4), Value::Text("  AB ".to_string())];
    assert_eq!(plan.validate(&mut values), Ok(()));
    assert_eq!(values, vec![Value::Int(4), Value::Text("ab".to_string())]);
    assert_eq!(plan.validate(&mut values), Ok(()));
    assert_eq!(values, vec![Value::Int(4), Value::Text("ab".to_string())]);
}

#[test]
fn same_plan_gives_the_same_result_on_the_same_values() {
    let plan = derive_validator(three_fields(), predicates()).unwrap();
    let values = || vec![Value::Int(200), Value::Text("ab".to_string()), Value::List(vec![1, 2])];
    let mut one = values();
    let mut other = values();
    let first = plan.validate(&mut one);
    let second = plan.validate(&mut other);
    assert_eq!(first, second);
    assert_eq!(one, other);
    assert_eq!(
        first,
        Err(vec![
            "Failed to validate field `id`, value too high".to_string(),
            "Failed to validate field `id`, value did not pass test".to_string(),
            "Failed to validate field `name`, value too short".to_string(),
        ])
    );
}

#[test]
fn trimming_before_the_length_check_passes_and_after_it_fails() {
    let first_trim = entity(vec![field(
        "text",
        ValueKind::Text,
        vec![validate(vec![word("trim"), call("len_lt", Value::Int(10))])],
    )]);
    let plan = derive_validator(first_trim, predicates()).unwrap();
    let mut values = vec![Value::Text("     CAST ME       ".to_string())];
    assert_eq!(plan.validate(&mut values), Ok(()));
    assert_eq!(values, vec![Value::Text("CAST ME".to_string())]);

    let first_check = entity(vec![field(
        "text",
        ValueKind::Text,
        vec![validate(vec![call("len_lt", Value::Int(10)), word("trim")])],
    )]);
    let plan = derive_validator(first_check, predicates()).unwrap();
    let mut values = vec![Value::Text("     CAST ME       ".to_string())];
    assert_eq!(
        plan.validate(&mut values),
        Err(vec!["Failed to validate field `text`, value too long".to_string()])
    );
    assert_eq!(values, vec![Value::Text("CAST ME".to_string())]);
}
