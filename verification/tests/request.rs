use std::ops::{Deref, DerefMut};

use vale::compile::Predicate;
use vale::declaration::{Content, Data, DeriveInput, Field, Meta, NestedMeta};
use vale::derive_validator;
use vale::entity::Entity;
use vale::plan::ValidationPlan;
use vale::valid::{Outcome, Status};
use vale::value::{Value, ValueKind};
use vale::{Valid, Validate, ValidationError};

type Test = fn(Value) -> (bool, Value);

const OK: u16 = 200;
const BAD_REQUEST: u16 = 400;
const NOT_FOUND: u16 = 404;

fn is_even(arg: Value) -> (bool, Value) {
    let even = match &arg {
        Value::Int(n) => n % 2 == 0,
        _ => false,
    };
    (even, arg)
}

fn call(name: &str, literal: Value) -> NestedMeta {
    NestedMeta::List { name: name.to_string(), nested: vec![Content::Literal(literal)] }
}

fn word(name: &str) -> NestedMeta {
    NestedMeta::Path { name: name.to_string() }
}

fn field(name: &str, kind: ValueKind, rules: Vec<NestedMeta>) -> Field {
    Field {
        name: name.to_string(),
        kind,
        attrs: vec![Meta::List { ident: Some("validate".to_string()), nested: rules }],
    }
}

fn plan() -> ValidationPlan<Test> {
    let input = DeriveInput {
        name: "Struct".to_string(),
        data: Data::Named(vec![
            field("value", ValueKind::Int, vec![call("gt", Value::Int(10))]),
            field("string", ValueKind::Text, vec![call("len_gt", Value::Int(3))]),
            field("boolean", ValueKind::Bool, vec![call("eq", Value::Bool(true))]),
            field(
                "even_value",
                ValueKind::Int,
                vec![NestedMeta::List {
                    name: "with".to_string(),
                    nested: vec![Content::Path("is_even".to_string())],
                }],
            ),
            field(
                "transformer",
                ValueKind::Text,
                vec![word("trim"), call("len_lt", Value::Int(10)), word("to_lower_case")],
            ),
            field("transfailer", ValueKind::Text, vec![call("len_lt", Value::Int(10)), word("trim")]),
        ]),
    };
    let predicates = vec![Predicate { name: "is_even".to_string(), test: is_even as Test }];
    derive_validator(input, predicates).unwrap()
}

fn valid_struct() -> Vec<Value> {
    vec![
        Value::Int(12),
        Value::Text("String".to_string()),
        Value::Bool(true),
        Value::Int(2),
        Value::Text("hello".to_string()),
        Value::Text("hello".to_string()),
    ]
}

/// The status that a client sees: the handler answers a valid entity with 200.
fn post(plan: &ValidationPlan<Test>, body: Vec<Value>) -> u16 {
    let extracted: Outcome<Entity<Test>, String, ()> = match Entity::new(plan, body) {
        Some(entity) => Outcome::Success(entity),
        None => Outcome::Failure(Status { code: 422 }, "unprocessable".to_string()),
    };
    match Valid::from_data(extracted) {
        Outcome::Success(_) => OK,
        Outcome::Failure(status, _) => status.code,
        Outcome::Forward(()) => NOT_FOUND,
    }
}

#[test]
fn rocket_test_valid() {
    let s = valid_struct();
    assert_eq!(post(&plan(), s), OK)
}

#[test]
fn rocket_test_too_small() {
    let mut s = valid_struct();
    s[0] = Value::Int(8);
    assert_eq!(post(&plan(), s), BAD_REQUEST)
}

#[test]
fn rocket_test_too_short() {
    let mut s = valid_struct();
    s[1] = Value::Text("hi".to_string());
    assert_eq!(post(&plan(), s), BAD_REQUEST)
}

#[test]
fn rocket_test_too_false() {
    let mut s = valid_struct();
    s[2] = Value::Bool(false);
    assert_eq!(post(&plan(), s), BAD_REQUEST)
}

#[test]
fn rocket_transform() {
    let mut s = valid_struct();
    s[4] = Value::Text("     CAST ME       ".to_string());
    assert_eq!(post(&plan(), s), OK)
}

#[test]
fn rocket_transfail() {
    let mut s = valid_struct();
    s[5] = Value::Text("     CAST ME       ".to_string());
    let plan = plan();
    let entity = Entity::new(&plan, s).unwrap();
    let extracted: Outcome<Entity<Test>, String, ()> = Outcome::Success(entity);
    match Valid::from_data(extracted) {
        Outcome::Failure(status, ValidationError::ValidationError(messages)) => {
            println!("{:?}", messages);
            assert_eq!(status.code, BAD_REQUEST);
            assert_eq!(
                messages,
                vec!["Failed to validate field `transfailer`, value too long".to_string()]
            );
        },
        _ => panic!("the entity should have been turned away"),
    }
}

#[test]
fn valid_entity_passes_through_transformed() {
    let mut s = valid_struct();
    s[4] = Value::Text("     CAST ME       ".to_string());
    let plan = plan();
    let entity = Entity::new(&plan, s).unwrap();
    let extracted: Outcome<Entity<Test>, String, ()> = Outcome::Success(entity);
    match Valid::from_data(extracted) {
        Outcome::Success(valid) => {
            assert_eq!(valid.deref().values()[4], Value::Text("cast me".to_string()));
            let values = valid.into_inner().into_values();
            assert_eq!(values[4], Value::Text("cast me".to_string()));
            assert_eq!(values[0], Value::Int(12));
        },
        _ => panic!("the entity should have passed"),
    }
}

#[test]
fn extractor_failure_is_passed_on_wrapped() {
    let extracted: Outcome<Entity<Test>, String, ()> =
        Outcome::Failure(Status { code: 413 }, "too large".to_string());
    assert!(matches!(
        Valid::from_data(extracted),
        Outcome::Failure(Status { code: 413 }, ValidationError::FromDataError(error)) if error == "too large"
    ));
}

#[test]
fn forwarded_data_is_handed_on() {
    let extracted: Outcome<Entity<Test>, String, u8> = Outcome::Forward(7);
    assert!(matches!(Valid::from_data(extracted), Outcome::Forward(7)));
}

#[test]
fn transform_wraps_and_transformed_unwraps() {
    let failure: Outcome<u8, String, ()> = Outcome::Failure(Status { code: 500 }, "broken".to_string());
    let wrapped = Valid::<Entity<Test>>::transform(failure);
    assert_eq!(
        wrapped,
        Outcome::Failure(Status { code: 500 }, ValidationError::FromDataError("broken".to_string()))
    );
    assert_eq!(
        Valid::<Entity<Test>>::transformed(wrapped),
        Outcome::Failure(Status { code: 500 }, "broken".to_string())
    );
    let success: Outcome<u8, String, ()> = Outcome::Success(3);
    assert_eq!(Valid::<Entity<Test>>::transform(success), Outcome::Success(3));
    let forward: Outcome<u8, String, u8> = Outcome::Forward(9);
    assert_eq!(Valid::<Entity<Test>>::transform(forward), Outcome::Forward(9));
}

#[test]
fn validation_error_wraps_and_unwraps() {
    let error = ValidationError::from_data_error(5u8);
    assert_eq!(error, ValidationError::FromDataError(5u8));
    assert_eq!(error.get_t(), 5u8);
    let error: ValidationError<u8> = ValidationError::from(vec!["no".to_string()]);
    assert_eq!(error, ValidationError::ValidationError(vec!["no".to_string()]));
}

#[test]
fn valid_wrapper_forwards_validation() {
    let plan = plan();
    let mut values = valid_struct();
    values[0] = Value::Int(1);
    let extracted: Outcome<Entity<Test>, String, ()> =
        Outcome::Success(Entity::new(&plan, valid_struct()).unwrap());
    let mut valid = match Valid::from_data(extracted) {
        Outcome::Success(valid) => valid,
        _ => panic!("the entity should have passed"),
    };
    assert_eq!(valid.validate(), Ok(()));
    *valid = Entity::new(&plan, values).unwrap();
    assert_eq!(
        valid.validate(),
        Err(vec!["Failed to validate field `value`, value too low".to_string()])
    );
    assert_eq!(valid.deref_mut().validate().is_err(), true);
    assert_eq!(valid.values()[0], Value::Int(1));
    let mut boxed = Box::new(valid);
    assert_eq!(boxed.validate().is_err(), true);
}

#[test]
fn entity_needs_one_value_of_the_right_kind_for_each_field() {
    let plan = plan();
    let mut short = valid_struct();
    short.pop();
    assert!(Entity::new(&plan, short).is_none());
    let mut wrong = valid_struct();
    wrong[0] = Value::Text("12".to_string());
    assert!(Entity::new(&plan, wrong).is_none());
    assert!(!plan.describes(&Vec::new()));
    assert!(plan.describes(&valid_struct()));
    assert!(Entity::new(&plan, valid_struct()).is_some());
}
