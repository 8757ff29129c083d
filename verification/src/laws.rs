//! What holds of every run of a plan.

use vstd::prelude::*;
use crate::catalog::{admits, answers, resolve, RuleKindView, StepOutcome};
use crate::compile::{condition_rules, validation_rules};
use crate::declaration::{DeriveInputView, ValidatorView};
use crate::error::DefinitionErrorView;
use crate::gather::gathered_values;
use crate::plan::{value_after, value_before, values_after, FieldRuleView, PlanView};
use crate::ruleset::verdict;
use crate::text::trimmed_twice_is_trimmed;
use crate::value::{Value, ValueView};

verus! {

/// The value that the first `upto` rules make of `first` when each of them
/// rewrites what the one before it left.
pub open spec fn rewritten(rules: Seq<RuleKindView>, first: ValueView, upto: int) -> ValueView
    decreases upto,
{
    if upto <= 0 {
        first
    } else {
        rules[upto - 1].rewrite(rewritten(rules, first, upto - 1))
    }
}

/// No rule of the field is a predicate.
pub open spec fn without_predicates(field: FieldRuleView) -> bool {
    forall|j: int| 0 <= j < field.rules.len() ==> !(#[trigger] field.rules[j]).is_predicate()
}

/// Every step of the run passed.
pub open spec fn all_passed(trace: Seq<Seq<StepOutcome>>) -> bool {
    forall|i: int, j: int|
        0 <= i < trace.len() && 0 <= j < trace[i].len() ==> (#[trigger] trace[i][j]).passed
}

/// The number of messages that a run has left when it comes to step `j` of
/// field `i`.
pub open spec fn messages_before<F: Fn(Value) -> (bool, Value)>(
    plan: PlanView<F>,
    trace: Seq<Seq<StepOutcome>>,
    i: int,
    j: int,
) -> nat {
    plan.messages(trace, i).len() + plan.fields[i].messages(trace[i], j).len()
}

/// Step `j` of field `i` is a step of the run, and it failed.
pub open spec fn failed_at<F: Fn(Value) -> (bool, Value)>(
    plan: PlanView<F>,
    trace: Seq<Seq<StepOutcome>>,
    i: int,
    j: int,
) -> bool {
    &&& 0 <= i < plan.fields.len()
    &&& 0 <= j < plan.fields[i].rules.len()
    &&& !trace[i][j].passed
}

/// In a run of a field, a step that fails is a check or a predicate, and so
/// has a message.
proof fn failed_step_has_message<F: Fn(Value) -> (bool, Value)>(
    field: FieldRuleView,
    predicates: Seq<F>,
    first: ValueView,
    steps: Seq<StepOutcome>,
    j: int,
)
    requires
        field.runs(predicates, first, steps),
        0 <= j < steps.len(),
        !steps[j].passed,
    ensures
        field.rules[j].message(field.name) is Some,
{
}

/// The messages of a field grow step by step: those of the first `upto`
/// steps begin with those of the first `j`.
proof fn field_messages_grow(field: FieldRuleView, steps: Seq<StepOutcome>, j: int, upto: int)
    requires
        0 <= j <= upto,
    ensures
        field.messages(steps, j).len() <= field.messages(steps, upto).len(),
        forall|k: int|
            0 <= k < field.messages(steps, j).len() ==> field.messages(steps, upto)[k]
                == field.messages(steps, j)[k],
    decreases upto,
{
    if j < upto {
        field_messages_grow(field, steps, j, upto - 1);
    }
}

/// The messages of a plan grow field by field.
proof fn plan_messages_grow<F: Fn(Value) -> (bool, Value)>(
    plan: PlanView<F>,
    trace: Seq<Seq<StepOutcome>>,
    i: int,
    upto: int,
)
    requires
        0 <= i <= upto,
    ensures
        plan.messages(trace, i).len() <= plan.messages(trace, upto).len(),
        forall|k: int|
            0 <= k < plan.messages(trace, i).len() ==> plan.messages(trace, upto)[k]
                == plan.messages(trace, i)[k],
    decreases upto,
{
    if i < upto {
        plan_messages_grow(plan, trace, i, upto - 1);
    }
}

/// While every step passes, a field leaves no message.
proof fn passed_steps_leave_nothing(field: FieldRuleView, steps: Seq<StepOutcome>, upto: int)
    requires
        upto <= steps.len(),
        forall|j: int| 0 <= j < upto ==> (#[trigger] steps[j]).passed,
    ensures
        field.messages(steps, upto) == Seq::<Seq<char>>::empty(),
    decreases upto,
{
    if upto > 0 {
        passed_steps_leave_nothing(field, steps, upto - 1);
    }
}

/// While every step of every field passes, a plan leaves no message.
proof fn passed_fields_leave_nothing<F: Fn(Value) -> (bool, Value)>(
    plan: PlanView<F>,
    trace: Seq<Seq<StepOutcome>>,
    upto: int,
)
    requires
        upto <= trace.len(),
        forall|i: int, j: int|
            0 <= i < upto && 0 <= j < trace[i].len() ==> (#[trigger] trace[i][j]).passed,
    ensures
        plan.messages(trace, upto) == Seq::<Seq<char>>::empty(),
    decreases upto,
{
    if upto > 0 {
        passed_fields_leave_nothing(plan, trace, upto - 1);
        passed_steps_leave_nothing(plan.fields[upto - 1], trace[upto - 1], trace[upto - 1].len() as int);
    }
}

/// A field whose rules name no predicate ends with the value that its rules
/// make of its first value, each rewriting what the one before it left,
/// whether or not a check failed on the way.
pub proof fn transforms_apply_in_order<F: Fn(Value) -> (bool, Value)>(
    field: FieldRuleView,
    predicates: Seq<F>,
    first: ValueView,
    steps: Seq<StepOutcome>,
)
    requires
        field.runs(predicates, first, steps),
        without_predicates(field),
    ensures
        value_after(first, steps) == rewritten(field.rules, first, field.rules.len() as int),
{
    assert forall|j: int| 0 <= j <= steps.len() implies value_before(first, steps, j) == rewritten(
        field.rules,
        first,
        j,
    ) by {
        rewritten_so_far(field, predicates, first, steps, j);
    }
}

proof fn rewritten_so_far<F: Fn(Value) -> (bool, Value)>(
    field: FieldRuleView,
    predicates: Seq<F>,
    first: ValueView,
    steps: Seq<StepOutcome>,
    j: int,
)
    requires
        field.runs(predicates, first, steps),
        without_predicates(field),
        0 <= j <= steps.len(),
    ensures
        value_before(first, steps, j) == rewritten(field.rules, first, j),
    decreases j,
{
    if j > 0 {
        rewritten_so_far(field, predicates, first, steps, j - 1);
        assert(!field.rules[j - 1].is_predicate());
        assert(admits(
            field.rules[j - 1],
            predicates,
            value_before(first, steps, j - 1),
            steps[j - 1],
        ));
    }
}

/// In a run, a check leaves the value as it found it and passes it or not as
/// the catalog says, and a transform rewrites the value and passes it.
pub proof fn step_does_its_part<F: Fn(Value) -> (bool, Value)>(
    plan: PlanView<F>,
    first: Seq<ValueView>,
    trace: Seq<Seq<StepOutcome>>,
    i: int,
    j: int,
)
    requires
        plan.runs(first, trace),
        0 <= i < plan.fields.len(),
        0 <= j < plan.fields[i].rules.len(),
        !plan.fields[i].rules[j].is_predicate(),
    ensures
        trace[i][j].passed == plan.fields[i].rules[j].holds(value_before(first[i], trace[i], j)),
        trace[i][j].value == plan.fields[i].rules[j].rewrite(value_before(first[i], trace[i], j)),
        plan.fields[i].rules[j].is_transform() ==> trace[i][j].passed,
        !plan.fields[i].rules[j].is_transform() ==> trace[i][j].value == value_before(
            first[i],
            trace[i],
            j,
        ),
{
    let steps = trace[i];
    assert(plan.fields[i].runs(plan.predicates, first[i], steps));
    assert(admits(plan.fields[i].rules[j], plan.predicates, value_before(first[i], steps, j), steps[j]));
}

/// An entity of the plan's type is one still after a run in which every
/// predicate has left a value of the kind that it was given.
pub proof fn run_keeps_the_kinds<F: Fn(Value) -> (bool, Value)>(
    plan: PlanView<F>,
    first: Seq<ValueView>,
    trace: Seq<Seq<StepOutcome>>,
)
    requires
        plan.runs(first, trace),
        plan.describes(first),
        forall|i: int, j: int|
            0 <= i < plan.fields.len() && 0 <= j < plan.fields[i].rules.len()
                && plan.fields[i].rules[j].is_predicate() ==> (#[trigger] trace[i][j]).value.kind()
                == plan.fields[i].kind,
    ensures
        plan.describes(values_after(first, trace)),
{
    assert forall|i: int| 0 <= i < plan.fields.len() implies (#[trigger] values_after(
        first,
        trace,
    )[i]).kind() == plan.fields[i].kind by {
        let steps = trace[i];
        assert(plan.fields[i].runs(plan.predicates, first[i], steps));
        kinds_so_far(plan, first, trace, i, steps.len() as int);
    }
}

proof fn kinds_so_far<F: Fn(Value) -> (bool, Value)>(
    plan: PlanView<F>,
    first: Seq<ValueView>,
    trace: Seq<Seq<StepOutcome>>,
    i: int,
    j: int,
)
    requires
        plan.runs(first, trace),
        plan.describes(first),
        0 <= i < plan.fields.len(),
        0 <= j <= plan.fields[i].rules.len(),
        forall|i: int, j: int|
            0 <= i < plan.fields.len() && 0 <= j < plan.fields[i].rules.len()
                && plan.fields[i].rules[j].is_predicate() ==> (#[trigger] trace[i][j]).value.kind()
                == plan.fields[i].kind,
    ensures
        value_before(first[i], trace[i], j).kind() == plan.fields[i].kind,
    decreases j,
{
    if j > 0 {
        kinds_so_far(plan, first, trace, i, j - 1);
        let steps = trace[i];
        assert(plan.fields[i].runs(plan.predicates, first[i], steps));
        assert(admits(
            plan.fields[i].rules[j - 1],
            plan.predicates,
            value_before(first[i], steps, j - 1),
            steps[j - 1],
        ));
        assert(plan.fields[i].rules[j - 1].is_predicate() ==> trace[i][j - 1].value.kind()
            == plan.fields[i].kind);
    }
}

/// Each predicate is a function of the value: on one value it has one answer.
pub open spec fn all_functions<F: Fn(Value) -> (bool, Value)>(predicates: Seq<F>) -> bool {
    forall|p: int, input: ValueView, one: StepOutcome, other: StepOutcome|
        #![trigger answers(predicates[p], input, one), answers(predicates[p], input, other)]
        0 <= p < predicates.len() && answers(predicates[p], input, one) && answers(
            predicates[p],
            input,
            other,
        ) ==> one == other
}

proof fn same_value_same_steps<F: Fn(Value) -> (bool, Value)>(
    field: FieldRuleView,
    predicates: Seq<F>,
    first: ValueView,
    one: Seq<StepOutcome>,
    other: Seq<StepOutcome>,
    upto: int,
)
    requires
        all_functions(predicates),
        field.runs(predicates, first, one),
        field.runs(predicates, first, other),
        0 <= upto <= field.rules.len(),
    ensures
        forall|j: int| 0 <= j < upto ==> one[j] == other[j],
    decreases upto,
{
    if upto > 0 {
        same_value_same_steps(field, predicates, first, one, other, upto - 1);
        let j = upto - 1;
        let before = value_before(first, one, j);
        assert(before == value_before(first, other, j));
        assert(admits(field.rules[j], predicates, before, one[j]));
        assert(admits(field.rules[j], predicates, before, other[j]));
    }
}

/// Validating the same entity twice gives the same: where each predicate is
/// a function of the value, a plan has one run on an entity, and so one
/// result and one set of values that it leaves.
pub proof fn same_entity_same_run<F: Fn(Value) -> (bool, Value)>(
    plan: PlanView<F>,
    first: Seq<ValueView>,
    one: Seq<Seq<StepOutcome>>,
    other: Seq<Seq<StepOutcome>>,
)
    requires
        all_functions(plan.predicates),
        plan.runs(first, one),
        plan.runs(first, other),
    ensures
        one == other,
        values_after(first, one) == values_after(first, other),
        verdict(plan.all_messages(one)) == verdict(plan.all_messages(other)),
{
    assert forall|i: int| 0 <= i < plan.fields.len() implies one[i] == other[i] by {
        assert(plan.fields[i].runs(plan.predicates, first[i], one[i]));
        assert(plan.fields[i].runs(plan.predicates, first[i], other[i]));
        same_value_same_steps(
            plan.fields[i],
            plan.predicates,
            first[i],
            one[i],
            other[i],
            plan.fields[i].rules.len() as int,
        );
        assert(one[i] =~= other[i]);
    }
    assert(one =~= other);
}

/// To trim a value that has been trimmed changes nothing.
pub proof fn trim_changes_nothing_twice(value: ValueView)
    ensures
        RuleKindView::Trim.rewrite(RuleKindView::Trim.rewrite(value)) == RuleKindView::Trim.rewrite(
            value,
        ),
{
    if let ValueView::Text(text) = value {
        trimmed_twice_is_trimmed(text);
    }
}

/// Where the rules of a field, taken together, change nothing in what they
/// have once rewritten, a second run of the field leaves the value of the
/// first.
pub proof fn second_run_changes_nothing<F: Fn(Value) -> (bool, Value)>(
    field: FieldRuleView,
    predicates: Seq<F>,
    first: ValueView,
    steps: Seq<StepOutcome>,
    again: Seq<StepOutcome>,
)
    requires
        without_predicates(field),
        field.runs(predicates, first, steps),
        field.runs(predicates, value_after(first, steps), again),
        rewritten(
            field.rules,
            rewritten(field.rules, first, field.rules.len() as int),
            field.rules.len() as int,
        ) == rewritten(field.rules, first, field.rules.len() as int),
    ensures
        value_after(value_after(first, steps), again) == value_after(first, steps),
{
    transforms_apply_in_order(field, predicates, first, steps);
    transforms_apply_in_order(field, predicates, value_after(first, steps), again);
}

/// When every check and every predicate passes, the validation succeeds, and
/// each field whose rules name no predicate holds what its transforms, in
/// the order of their declaration, make of its first value.
pub proof fn passing_entity_succeeds<F: Fn(Value) -> (bool, Value)>(
    plan: PlanView<F>,
    first: Seq<ValueView>,
    trace: Seq<Seq<StepOutcome>>,
)
    requires
        plan.runs(first, trace),
        all_passed(trace),
    ensures
        verdict(plan.all_messages(trace)) == Ok::<(), Seq<Seq<char>>>(()),
        forall|i: int|
            0 <= i < plan.fields.len() && without_predicates(#[trigger] plan.fields[i])
                ==> values_after(first, trace)[i] == rewritten(
                plan.fields[i].rules,
                first[i],
                plan.fields[i].rules.len() as int,
            ),
{
    passed_fields_leave_nothing(plan, trace, plan.fields.len() as int);
    assert forall|i: int|
        0 <= i < plan.fields.len() && without_predicates(
            #[trigger] plan.fields[i],
        ) implies values_after(first, trace)[i] == rewritten(
        plan.fields[i].rules,
        first[i],
        plan.fields[i].rules.len() as int,
    ) by {
        assert(plan.fields[i].runs(plan.predicates, first[i], trace[i]));
        transforms_apply_in_order(plan.fields[i], plan.predicates, first[i], trace[i]);
    }
}

/// A step that fails leaves the message of its rule, with the name of its
/// field, at the place that the failures before it have left free.
pub proof fn failure_leaves_its_message<F: Fn(Value) -> (bool, Value)>(
    plan: PlanView<F>,
    first: Seq<ValueView>,
    trace: Seq<Seq<StepOutcome>>,
    i: int,
    j: int,
)
    requires
        plan.runs(first, trace),
        failed_at(plan, trace, i, j),
    ensures
        messages_before(plan, trace, i, j) < plan.all_messages(trace).len(),
        plan.fields[i].rules[j].message(plan.fields[i].name) == Some(
            plan.all_messages(trace)[messages_before(plan, trace, i, j) as int],
        ),
{
    let field = plan.fields[i];
    let steps = trace[i];
    let n = plan.fields.len() as int;
    assert(field.runs(plan.predicates, first[i], steps));
    failed_step_has_message(field, plan.predicates, first[i], steps, j);
    let here = field.messages(steps, j + 1);
    assert(here == field.messages(steps, j).push(field.rules[j].message(field.name)->0));
    field_messages_grow(field, steps, j + 1, steps.len() as int);
    let whole = field.messages(steps, steps.len() as int);
    assert(whole[field.messages(steps, j).len() as int] == here[field.messages(steps, j).len() as int]);
    assert(plan.messages(trace, i + 1) == plan.messages(trace, i) + whole);
    plan_messages_grow(plan, trace, i + 1, n);
    let k = messages_before(plan, trace, i, j) as int;
    assert(plan.messages(trace, i + 1)[k] == whole[k - plan.messages(trace, i).len()]);
}

/// Of two steps that fail, the one that runs first has its message first:
/// the messages stand in the order of the fields, and within a field in the
/// order of its rules.
pub proof fn messages_keep_order<F: Fn(Value) -> (bool, Value)>(
    plan: PlanView<F>,
    first: Seq<ValueView>,
    trace: Seq<Seq<StepOutcome>>,
    i: int,
    j: int,
    later_i: int,
    later_j: int,
)
    requires
        plan.runs(first, trace),
        failed_at(plan, trace, i, j),
        failed_at(plan, trace, later_i, later_j),
        i < later_i || (i == later_i && j < later_j),
    ensures
        messages_before(plan, trace, i, j) < messages_before(plan, trace, later_i, later_j),
{
    let field = plan.fields[i];
    let steps = trace[i];
    assert(field.runs(plan.predicates, first[i], steps));
    failed_step_has_message(field, plan.predicates, first[i], steps, j);
    assert(field.messages(steps, j + 1).len() == field.messages(steps, j).len() + 1);
    if i == later_i {
        field_messages_grow(field, steps, j + 1, later_j);
    } else {
        field_messages_grow(field, steps, j + 1, steps.len() as int);
        assert(plan.messages(trace, i + 1) == plan.messages(trace, i) + field.messages(
            steps,
            steps.len() as int,
        ));
        plan_messages_grow(plan, trace, i + 1, later_i);
    }
}

/// Every message of a field comes from a step of the field that failed.
proof fn field_message_has_its_failure<F: Fn(Value) -> (bool, Value)>(
    field: FieldRuleView,
    predicates: Seq<F>,
    first: ValueView,
    steps: Seq<StepOutcome>,
    upto: int,
    k: int,
) -> (j: int)
    requires
        field.runs(predicates, first, steps),
        0 <= upto <= steps.len(),
        0 <= k < field.messages(steps, upto).len(),
    ensures
        0 <= j < upto,
        !steps[j].passed,
        field.messages(steps, j).len() == k,
    decreases upto,
{
    if k < field.messages(steps, upto - 1).len() {
        field_message_has_its_failure(field, predicates, first, steps, upto - 1, k)
    } else {
        upto - 1
    }
}

/// Every message of a plan comes from a step that failed.
proof fn plan_message_has_its_failure<F: Fn(Value) -> (bool, Value)>(
    plan: PlanView<F>,
    first: Seq<ValueView>,
    trace: Seq<Seq<StepOutcome>>,
    upto: int,
    k: int,
) -> (at: (int, int))
    requires
        plan.runs(first, trace),
        0 <= upto <= plan.fields.len(),
        0 <= k < plan.messages(trace, upto).len(),
    ensures
        at.0 < upto,
        failed_at(plan, trace, at.0, at.1),
        messages_before(plan, trace, at.0, at.1) == k,
    decreases upto,
{
    let earlier = plan.messages(trace, upto - 1);
    if k < earlier.len() {
        plan_message_has_its_failure(plan, first, trace, upto - 1, k)
    } else {
        let field = plan.fields[upto - 1];
        let steps = trace[upto - 1];
        assert(field.runs(plan.predicates, first[upto - 1], steps));
        let j = field_message_has_its_failure(
            field,
            plan.predicates,
            first[upto - 1],
            steps,
            steps.len() as int,
            k - earlier.len(),
        );
        (upto - 1, j)
    }
}

/// There is one message for each step that fails and none besides: every
/// message of a run stands at the place of a step that failed.
pub proof fn every_message_has_its_failure<F: Fn(Value) -> (bool, Value)>(
    plan: PlanView<F>,
    first: Seq<ValueView>,
    trace: Seq<Seq<StepOutcome>>,
    k: int,
)
    requires
        plan.runs(first, trace),
        0 <= k < plan.all_messages(trace).len(),
    ensures
        exists|i: int, j: int|
            #[trigger] failed_at(plan, trace, i, j) && messages_before(plan, trace, i, j) == k,
{
    let at = plan_message_has_its_failure(plan, first, trace, plan.fields.len() as int, k);
    assert(failed_at(plan, trace, at.0, at.1));
}

/// When one step fails and every other step passes, the validation returns
/// one message: that of the failed rule, with the name of its field.
pub proof fn single_failure_single_message<F: Fn(Value) -> (bool, Value)>(
    plan: PlanView<F>,
    first: Seq<ValueView>,
    trace: Seq<Seq<StepOutcome>>,
    i: int,
    j: int,
)
    requires
        plan.runs(first, trace),
        failed_at(plan, trace, i, j),
        forall|a: int, b: int| failed_at(plan, trace, a, b) ==> a == i && b == j,
    ensures
        plan.fields[i].rules[j].message(plan.fields[i].name) matches Some(message) && verdict(
            plan.all_messages(trace),
        ) == Err::<(), Seq<Seq<char>>>(seq![message]),
{
    let all = plan.all_messages(trace);
    failure_leaves_its_message(plan, first, trace, i, j);
    if all.len() > 1 {
        let n = plan.fields.len() as int;
        let one = plan_message_has_its_failure(plan, first, trace, n, 0);
        let other = plan_message_has_its_failure(plan, first, trace, n, 1);
        assert(one == (i, j) && other == (i, j));
    }
    assert(all =~= seq![all[0]]);
}

/// The names of the rules that need an argument: all but the transforms.
pub open spec fn needs_argument(name: Seq<char>) -> bool {
    ||| name == "lt"@
    ||| name == "eq"@
    ||| name == "gt"@
    ||| name == "neq"@
    ||| name == "len_lt"@
    ||| name == "len_eq"@
    ||| name == "len_gt"@
    ||| name == "len_neq"@
    ||| name == "with"@
}

/// A rule that needs an argument and is written without one is no rule.
pub proof fn missing_argument_is_an_error(name: Seq<char>, predicates: Seq<Seq<char>>)
    requires
        needs_argument(name),
    ensures
        resolve(name, None, predicates) == Err::<RuleKindView, DefinitionErrorView>(
            DefinitionErrorView::MissingArgument(name),
        ),
{
}

/// A declaration in which a rule that needs an argument has none yields no
/// plan: the fault is found when the plan is built, and so before any entity
/// is validated.
pub proof fn missing_argument_yields_no_plan(
    input: DeriveInputView,
    validator: ValidatorView,
    predicates: Seq<Seq<char>>,
    i: int,
    j: int,
)
    requires
        input.validator() == Ok::<ValidatorView, DefinitionErrorView>(validator),
        0 <= i < validator.validations.len(),
        0 <= j < validator.validations[i].conditions.len(),
        needs_argument(validator.validations[i].conditions[j].name),
        validator.validations[i].conditions[j].content is None,
    ensures
        input.compiled(predicates) is Err,
{
    let validation = validator.validations[i];
    let fields = validation_rules(validator.validations, predicates);
    let rules = condition_rules(validation.conditions, validation.name, validation.kind, predicates);
    missing_argument_is_an_error(validation.conditions[j].name, predicates);
    assert(rules[j] is Err);
    if validator.fields(predicates) is Ok {
        gathered_values(fields, validator.validations.len() as int);
        assert(fields[i] is Ok);
        gathered_values(rules, validation.conditions.len() as int);
        assert(rules[j] is Ok);
    }
}

} // verus!
