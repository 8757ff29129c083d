use vale::compile::Predicate;
use vale::declaration::{Content, Data, DeriveInput, Field, Meta, NestedMeta};
use vale::derive_validator;
use vale::plan::ValidationPlan;
use vale::value::{Value, ValueKind};

type Test = fn(Value) -> (bool, Value);

const VALUE: usize = 0;
const STRING: usize = 1;
const BOOLEAN: usize = 2;
const EVEN_VALUE: usize = 3;
const TRANSFORMER: usize = 4;
const TRANSFAILER: usize = 5;

fn is_even(arg: Value) -> (bool, Value) {
    let even = match &arg {
        Value::Int(n) => n % 2 == 0,
        _ => false,
    };
    (even, arg)
}

fn call(name: &str, literal: Value) -> NestedMeta {
    NestedMeta::List { name: name.to_string(), nested: vec![Content::Literal(literal)] }
}

fn with(function: &str) -> NestedMeta {
    NestedMeta::List {
        name: "with".to_string(),
        nested: vec![Content::Path(function.to_string())],
    }
}

fn word(name: &str) -> NestedMeta {
    NestedMeta::Path { name: name.to_string() }
}

fn field(name: &str, kind: ValueKind, rules: Vec<NestedMeta>) -> Field {
    Field {
        name: name.to_string(),
        kind,
        attrs: vec![Meta::List { ident: Some("validate".to_string()), nested: rules }],
    }
}

fn plan() -> ValidationPlan<Test> {
    let input = DeriveInput {
        name: "Struct".to_string(),
        data: Data::Named(vec![
            field("value", ValueKind::Int, vec![call("gt", Value::Int(10))]),
            field("string", ValueKind::Text, vec![call("len_gt", Value::Int(3))]),
            field("boolean", ValueKind::Bool, vec![call("eq", Value::Bool(true))]),
            field("even_value", ValueKind::Int, vec![with("is_even")]),
            field(
                "transformer",
                ValueKind::Text,
                vec![word("trim"), call("len_lt", Value::Int(10)), word("to_lower_case")],
            ),
            field("transfailer", ValueKind::Text, vec![call("len_lt", Value::Int(10)), word("trim")]),
        ]),
    };
    let predicates = vec![Predicate { name: "is_even".to_string(), test: is_even as Test }];
    derive_validator(input, predicates).unwrap()
}

fn valid_struct() -> Vec<Value> {
    vec![
        Value::Int(12),
        Value::Text("String".to_string()),
        Value::Bool(true),
        Value::Int(2),
        Value::Text("hello".to_string()),
        Value::Text("hello".to_string()),
    ]
}

fn validate(s: &mut Vec<Value>) -> Result<(), Vec<String>> {
    let plan = plan();
    assert_eq!(plan.len(), s.len());
    plan.validate(s)
}

#[test]
fn basic_test_valid() {
    let mut s = valid_struct();
    validate(&mut s).unwrap();
}

#[test]
#[should_panic(expected = "[\"Failed to validate field `value`, value too low\"]")]
fn basic_test_too_small() {
    let mut s = valid_struct();
    s[VALUE] = Value::Int(8);
    validate(&mut s).unwrap();
}

#[test]
#[should_panic(expected = "[\"Failed to validate field `string`, value too short\"]")]
fn basic_test_too_short() {
    let mut s = valid_struct();
    s[STRING] = Value::Text("hi".to_string());
    validate(&mut s).unwrap();
}

#[test]
#[should_panic(expected = "[\"Failed to validate field `boolean`, value incorrect\"]")]
fn basic_test_too_false() {
    let mut s = valid_struct();
    s[BOOLEAN] = Value::Bool(false);
    validate(&mut s).unwrap();
}

#[test]
fn basic_transform() {
    let mut s = valid_struct();
    s[TRANSFORMER] = Value::Text("     CAST ME       ".to_string());
    validate(&mut s).unwrap();
    assert_eq!(s[TRANSFORMER], Value::Text("cast me".to_string()));
}

#[test]
#[should_panic(expected = "[\"Failed to validate field `transfailer`, value too long\"]")]
fn basic_transfail() {
    let mut s = valid_struct();
    s[TRANSFAILER] = Value::Text("     CAST ME       ".to_string());
    validate(&mut s).unwrap();
    assert_eq!(s[TRANSFORMER], Value::Text("cast me".to_string()));
}

#[test]
fn basic_test_not_even() {
    let mut s = valid_struct();
    s[EVEN_VALUE] = Value::Int(7);
    assert_eq!(
        validate(&mut s),
        Err(vec!["Failed to validate field `even_value`, value did not pass test".to_string()])
    );
    s[EVEN_VALUE] = Value::Int(2);
    assert_eq!(validate(&mut s), Ok(()));
}
