//! The plan compiler: from the rules as they were written to the plan that
//! runs. Each name is looked up in the catalog, each rule is bound to its
//! argument and held against the kind of its field. What is at fault is
//! reported here, so that no plan with a fault in it is ever run.

use vstd::prelude::*;
use crate::catalog::{position_is_first, resolve, RuleKind, RuleKindView};
use crate::declaration::{
    condition_views,
    validation_views,
    Condition,
    ConditionView,
    ContentView,
    DeriveInput,
    DeriveInputView,
    FieldValidation,
    FieldValidationView,
    Validator,
    ValidatorView,
};
use crate::error::{DefinitionError, DefinitionErrorView};
use crate::gather::{first_error_stays, gathered, gathered_values};
use crate::plan::{
    all_total,
    field_rule_views,
    rule_views,
    FieldRule,
    FieldRuleView,
    PlanView,
    ValidationPlan,
};
use crate::text::texts;
use crate::value::{Value, ValueKind};

verus! {

/// A function of the caller that a `with` rule can name: it is handed the
/// value of the field, and hands back whether the value passed and the value
/// as it has left it.
pub struct Predicate<F> {
    pub name: String,
    pub test: F,
}

/// The names of the predicates, in their order.
pub open spec fn predicate_names<F>(predicates: Seq<Predicate<F>>) -> Seq<Seq<char>> {
    Seq::new(predicates.len(), |k: int| predicates[k].name@)
}

/// The functions of the predicates, in their order.
pub open spec fn predicate_tests<F>(predicates: Seq<Predicate<F>>) -> Seq<F> {
    Seq::new(predicates.len(), |k: int| predicates[k].test)
}

impl ConditionView {
    /// The rule of the catalog that this condition stands for on a field of
    /// the given name and kind.
    pub open spec fn rule(self, field: Seq<char>, kind: ValueKind, predicates: Seq<Seq<char>>) -> Result<
        RuleKindView,
        DefinitionErrorView,
    > {
        match resolve(self.name, self.content, predicates) {
            Ok(rule) => if rule.fits(kind) {
                Ok(rule)
            } else {
                Err(DefinitionErrorView::TypeMismatch { field, rule: self.name })
            },
            Err(error) => Err(error),
        }
    }
}

/// What each condition of a field stands for.
pub open spec fn condition_rules(
    conditions: Seq<ConditionView>,
    field: Seq<char>,
    kind: ValueKind,
    predicates: Seq<Seq<char>>,
) -> Seq<Result<RuleKindView, DefinitionErrorView>> {
    Seq::new(conditions.len(), |k: int| conditions[k].rule(field, kind, predicates))
}

impl FieldValidationView {
    /// The rules of this field, in the order in which they were written.
    /// The first condition that is at fault decides the error.
    pub open spec fn field_rule(self, predicates: Seq<Seq<char>>) -> Result<
        FieldRuleView,
        DefinitionErrorView,
    > {
        match gathered(
            condition_rules(self.conditions, self.name, self.kind, predicates),
            self.conditions.len() as int,
        ) {
            Ok(rules) => Ok(FieldRuleView { name: self.name, kind: self.kind, rules }),
            Err(error) => Err(error),
        }
    }
}

/// What each field of an entity type compiles to.
pub open spec fn validation_rules(
    validations: Seq<FieldValidationView>,
    predicates: Seq<Seq<char>>,
) -> Seq<Result<FieldRuleView, DefinitionErrorView>> {
    Seq::new(validations.len(), |k: int| validations[k].field_rule(predicates))
}

impl ValidatorView {
    /// The fields of the plan, in the order of their declaration. The first
    /// field that is at fault decides the error.
    pub open spec fn fields(self, predicates: Seq<Seq<char>>) -> Result<
        Seq<FieldRuleView>,
        DefinitionErrorView,
    > {
        gathered(validation_rules(self.validations, predicates), self.validations.len() as int)
    }
}

impl DeriveInputView {
    /// The fields of the plan of this entity type. A fault in how the
    /// declaration is written comes before a fault in what its rules say.
    pub open spec fn compiled(self, predicates: Seq<Seq<char>>) -> Result<
        Seq<FieldRuleView>,
        DefinitionErrorView,
    > {
        match self.validator() {
            Ok(validator) => validator.fields(predicates),
            Err(error) => Err(error),
        }
    }
}

/// The rules of a field that compiles fit the kind of the field, and name
/// predicates that were handed in.
pub proof fn compiled_field_is_sound(validation: FieldValidationView, predicates: Seq<Seq<char>>)
    requires
        validation.field_rule(predicates) is Ok,
    ensures
        validation.field_rule(predicates)->Ok_0.well_typed(),
        validation.field_rule(predicates)->Ok_0.resolved(predicates.len()),
{
    let results = condition_rules(validation.conditions, validation.name, validation.kind, predicates);
    let field = validation.field_rule(predicates)->Ok_0;
    gathered_values(results, validation.conditions.len() as int);
    assert forall|j: int| 0 <= j < field.rules.len() implies (#[trigger] field.rules[j]).fits(
        field.kind,
    ) && (field.rules[j] matches RuleKindView::With(p) ==> p < predicates.len()) by {
        assert(results[j] == Ok::<RuleKindView, DefinitionErrorView>(field.rules[j]));
        if let Some(ContentView::Path(wanted)) = validation.conditions[j].content {
            position_is_first(predicates, wanted, 0);
        }
    }
}

impl Condition {
    /// Looks this condition up in the catalog, binds the rule to its
    /// argument, and holds it against the kind of the field.
    pub fn finish(self, field: &str, kind: ValueKind, predicates: &Vec<String>) -> (result: Result<
        RuleKind,
        DefinitionError,
    >)
        ensures
            match self@.rule(field@, kind, texts(predicates@)) {
                Ok(rule) => result matches Ok(read) && read@ == rule,
                Err(error) => result matches Err(found) && found@ == error,
            },
    {
        let Condition { name, content } = self;
        match RuleKind::parse(name.as_str(), content, predicates) {
            Ok(rule) => {
                if rule.fits(kind) {
                    Ok(rule)
                } else {
                    Err(DefinitionError::TypeMismatch { field: String::from_str(field), rule: name })
                }
            },
            Err(error) => Err(error),
        }
    }
}

impl FieldValidation {
    /// Compiles the rules of one field.
    pub fn finish(self, predicates: &Vec<String>) -> (result: Result<FieldRule, DefinitionError>)
        ensures
            match self@.field_rule(texts(predicates@)) {
                Ok(field) => result matches Ok(read) && read@ == field,
                Err(error) => result matches Err(found) && found@ == error,
            },
    {
        let FieldValidation { name, kind, conditions } = self;
        let ghost names = texts(predicates@);
        let ghost items = condition_views(conditions@);
        let ghost results = condition_rules(items, name@, kind, names);
        let mut rules: Vec<RuleKind> = Vec::new();
        for condition in it: conditions
            invariant
                items == condition_views(it.seq()),
                names == texts(predicates@),
                results == condition_rules(items, name@, kind, names),
                self@ == (FieldValidationView { name: name@, kind, conditions: items }),
                gathered(results, it.index() as int) matches Ok(read) && read =~= rule_views(rules@),
        {
            let ghost read = rule_views(rules@);
            let ghost at = it.index() as int;
            assert(results[at] == condition@.rule(name@, kind, names));
            match condition.finish(name.as_str(), kind, predicates) {
                Ok(rule) => {
                    rules.push(rule);
                    assert(rule_views(rules@) == read.push(rule@));
                },
                Err(error) => {
                    proof {
                        assert(gathered(results, at + 1) is Err);
                        first_error_stays(results, at + 1, items.len() as int);
                    }
                    return Err(error);
                },
            }
        }
        Ok(FieldRule { name, kind, rules })
    }
}

impl Validator {
    /// Compiles the rules of an entity type into its plan. `predicates` are
    /// the functions that the `with` rules can name.
    pub fn finish<F: Fn(Value) -> (bool, Value)>(self, predicates: Vec<Predicate<F>>) -> (result: Result<
        ValidationPlan<F>,
        DefinitionError,
    >)
        requires
            all_total(predicate_tests(predicates@)),
        ensures
            match self@.fields(predicate_names(predicates@)) {
                Ok(fields) => result matches Ok(plan) && plan@ == (PlanView {
                    name: self@.name,
                    fields,
                    predicates: predicate_tests(predicates@),
                }) && plan@.callable() && plan@.well_typed(),
                Err(error) => result matches Err(found) && found@ == error,
            },
    {
        let ghost wanted_names = predicate_names(predicates@);
        let ghost wanted_tests = predicate_tests(predicates@);
        let mut names: Vec<String> = Vec::new();
        let mut tests: Vec<F> = Vec::new();
        for predicate in it: predicates
            invariant
                wanted_names == predicate_names(it.seq()),
                wanted_tests == predicate_tests(it.seq()),
                names.len() == it.index(),
                tests.len() == it.index(),
                forall|k: int| 0 <= k < it.index() ==> (#[trigger] names[k])@ == wanted_names[k],
                forall|k: int| 0 <= k < it.index() ==> (#[trigger] tests[k]) == wanted_tests[k],
        {
            let Predicate { name, test } = predicate;
            names.push(name);
            tests.push(test);
        }
        assert(texts(names@) =~= wanted_names);
        assert(tests@ =~= wanted_tests);
        let Validator { name, validations } = self;
        let ghost items = validation_views(validations@);
        let ghost results = validation_rules(items, wanted_names);
        let mut fields: Vec<FieldRule> = Vec::new();
        for validation in it: validations
            invariant
                items == validation_views(it.seq()),
                wanted_names == texts(names@),
                wanted_names == predicate_names(predicates@),
                results == validation_rules(items, wanted_names),
                self@ == (ValidatorView { name: name@, validations: items }),
                gathered(results, it.index() as int) matches Ok(read) && read =~= field_rule_views(
                    fields@,
                ),
        {
            let ghost read = field_rule_views(fields@);
            let ghost at = it.index() as int;
            assert(results[at] == validation@.field_rule(wanted_names));
            match validation.finish(&names) {
                Ok(field) => {
                    fields.push(field);
                    assert(field_rule_views(fields@) == read.push(field@));
                },
                Err(error) => {
                    proof {
                        assert(gathered(results, at + 1) is Err);
                        first_error_stays(results, at + 1, items.len() as int);
                    }
                    return Err(error);
                },
            }
        }
        proof {
            gathered_values(results, items.len() as int);
            assert forall|i: int| 0 <= i < fields.len() implies (#[trigger] fields[i])@.resolved(
                tests@.len(),
            ) && fields[i]@.well_typed() by {
                assert(results[i] == Ok::<FieldRuleView, DefinitionErrorView>(fields[i]@));
                compiled_field_is_sound(items[i], wanted_names);
            }
        }
        Ok(ValidationPlan::new(name, fields, tests))
    }
}

/// Builds the validation plan of an entity type from its declaration.
/// `predicates` are the functions that the `with` rules of the declaration
/// can name. Every fault of the declaration is found here: an entity type
/// that is not a struct with named fields, an attribute that is no list of
/// rules, a rule that the catalog does not have, a missing argument, an
/// argument or a rule that does not fit.
pub fn derive_validator<F: Fn(Value) -> (bool, Value)>(
    input: DeriveInput,
    predicates: Vec<Predicate<F>>,
) -> (result: Result<ValidationPlan<F>, DefinitionError>)
    requires
        all_total(predicate_tests(predicates@)),
    ensures
        match input@.compiled(predicate_names(predicates@)) {
            Ok(fields) => result matches Ok(plan) && plan@ == (PlanView {
                name: input@.name,
                fields,
                predicates: predicate_tests(predicates@),
            }) && plan@.callable() && plan@.well_typed(),
            Err(error) => result matches Err(found) && found@ == error,
        },
{
    match Validator::parse(input) {
        Ok(validator) => validator.finish(predicates),
        Err(error) => Err(error),
    }
}

} // verus!
