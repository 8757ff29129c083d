//! The validation plan of an entity type and its execution: every rule of
//! every field, in the order of the declaration, none skipped.

use vstd::prelude::*;
use crate::catalog::{admits, total, RuleKind, RuleKindView, StepOutcome};
use crate::ruleset::{result_view, rule, verdict};
use crate::text::texts;
use crate::value::{views, Value, ValueKind, ValueView};

verus! {

/// The rules of one field, in the order in which they were declared.
#[derive(Debug, PartialEq, Eq)]
pub struct FieldRule {
    pub name: String,
    pub kind: ValueKind,
    pub rules: Vec<RuleKind>,
}

/// A list of rules as the contracts see it.
pub open spec fn rule_views(rules: Seq<RuleKind>) -> Seq<RuleKindView> {
    rules.map_values(|rule: RuleKind| rule@)
}

/// A list of fields with their rules as the contracts see it.
pub open spec fn field_rule_views(fields: Seq<FieldRule>) -> Seq<FieldRuleView> {
    fields.map_values(|field: FieldRule| field@)
}

/// A `FieldRule` as the contracts see it.
pub struct FieldRuleView {
    pub name: Seq<char>,
    pub kind: ValueKind,
    pub rules: Seq<RuleKindView>,
}

impl View for FieldRule {
    type V = FieldRuleView;

    open spec fn view(&self) -> FieldRuleView {
        FieldRuleView {
            name: self.name@,
            kind: self.kind,
            rules: rule_views(self.rules@),
        }
    }
}

/// Each of the predicates can be called on every value.
pub open spec fn all_total<F: Fn(Value) -> (bool, Value)>(predicates: Seq<F>) -> bool {
    forall|p: int| 0 <= p < predicates.len() ==> total(#[trigger] predicates[p])
}

/// The value that step `j` of a field finds: the field's first value for the
/// first step, for every other step what the step before it left.
pub open spec fn value_before(first: ValueView, steps: Seq<StepOutcome>, j: int) -> ValueView {
    if j <= 0 {
        first
    } else {
        steps[j - 1].value
    }
}

/// The value that the steps leave in a field that held `first`.
pub open spec fn value_after(first: ValueView, steps: Seq<StepOutcome>) -> ValueView {
    value_before(first, steps, steps.len() as int)
}

impl FieldRuleView {
    /// Every predicate that a rule of this field names is among the first
    /// `count` predicates.
    pub open spec fn resolved(self, count: nat) -> bool {
        forall|j: int|
            0 <= j < self.rules.len() ==> (#[trigger] self.rules[j] matches RuleKindView::With(p)
                ==> p < count)
    }

    /// Every rule of this field can stand on a field of its kind.
    pub open spec fn well_typed(self) -> bool {
        forall|j: int| 0 <= j < self.rules.len() ==> (#[trigger] self.rules[j]).fits(self.kind)
    }

    /// `steps` is a run of this field's rules on the value `first`: one
    /// outcome for each rule, each rule working on what the rule before it left.
    pub open spec fn runs<F: Fn(Value) -> (bool, Value)>(
        self,
        predicates: Seq<F>,
        first: ValueView,
        steps: Seq<StepOutcome>,
    ) -> bool {
        &&& steps.len() == self.rules.len()
        &&& forall|j: int|
            #![trigger steps[j]]
            0 <= j < self.rules.len() ==> admits(
                self.rules[j],
                predicates,
                value_before(first, steps, j),
                steps[j],
            )
    }

    /// The messages of the first `upto` steps: for each step that did not
    /// pass the message of its rule, in the order of the steps.
    pub open spec fn messages(self, steps: Seq<StepOutcome>, upto: int) -> Seq<Seq<char>>
        decreases upto,
    {
        if upto <= 0 {
            Seq::empty()
        } else {
            let earlier = self.messages(steps, upto - 1);
            match self.rules[upto - 1].message(self.name) {
                Some(message) if !steps[upto - 1].passed => earlier.push(message),
                _ => earlier,
            }
        }
    }

    /// The messages of a step depend on that step and the steps before it alone.
    pub proof fn messages_of_prefix(self, steps: Seq<StepOutcome>, longer: Seq<StepOutcome>, upto: int)
        requires
            upto <= steps.len() <= longer.len(),
            forall|j: int| 0 <= j < upto ==> steps[j] == longer[j],
        ensures
            self.messages(steps, upto) == self.messages(longer, upto),
        decreases upto,
    {
        if upto > 0 {
            self.messages_of_prefix(steps, longer, upto - 1);
        }
    }
}

impl FieldRule {
    /// Runs the rules of this field on `value`, one after the other, and
    /// appends to `errors` the message of each one that did not pass.
    /// Hands back the value as the last rule left it.
    pub fn apply<F: Fn(Value) -> (bool, Value)>(
        &self,
        predicates: &Vec<F>,
        value: Value,
        errors: &mut Vec<String>,
    ) -> (out: Value)
        requires
            self@.resolved(predicates@.len()),
            all_total(predicates@),
        ensures
            exists|steps: Seq<StepOutcome>|
                {
                    &&& #[trigger] self@.runs(predicates@, value@, steps)
                    &&& out@ == value_after(value@, steps)
                    &&& texts(final(errors)@) == texts(old(errors)@) + self@.messages(
                        steps,
                        steps.len() as int,
                    )
                },
    {
        let ghost first = value@;
        let ghost mut steps: Seq<StepOutcome> = Seq::empty();
        let mut current = value;
        let mut j: usize = 0;
        while j < self.rules.len()
            invariant
                j <= self.rules.len(),
                steps.len() == j,
                self@.resolved(predicates@.len()),
                all_total(predicates@),
                forall|k: int|
                    #![trigger steps[k]]
                    0 <= k < j ==> admits(
                        self@.rules[k],
                        predicates@,
                        value_before(first, steps, k),
                        steps[k],
                    ),
                current@ == value_before(first, steps, j as int),
                texts(errors@) == texts(old(errors)@) + self@.messages(steps, j as int),
            decreases self.rules.len() - j,
        {
            let step = &self.rules[j];
            assert(self@.rules[j as int] == step@);
            let ghost before = current@;
            let ghost earlier = steps;
            let (passed, next) = step.apply(predicates, current);
            current = next;
            proof {
                steps = earlier.push(StepOutcome { passed, value: current@ });
                self@.messages_of_prefix(earlier, steps, j as int);
                assert forall|k: int| #![trigger steps[k]] 0 <= k < j + 1 implies admits(
                    self@.rules[k],
                    predicates@,
                    value_before(first, steps, k),
                    steps[k],
                ) by {
                    if k < j {
                        assert(steps[k] == earlier[k]);
                        assert(value_before(first, steps, k) == value_before(first, earlier, k));
                    }
                }
            }
            if !passed {
                if let Some(message) = step.message(self.name.as_str()) {
                    rule(errors, passed, Some(message));
                }
            }
            j = j + 1;
        }
        assert(self@.runs(predicates@, first, steps));
        current
    }
}

/// The compiled rules of one entity type: the fields in the order of their
/// declaration, each with its rules, and the predicates that the rules name.
pub struct ValidationPlan<F: Fn(Value) -> (bool, Value)> {
    name: String,
    fields: Vec<FieldRule>,
    predicates: Vec<F>,
}

/// A `ValidationPlan` as the contracts see it.
pub struct PlanView<F> {
    pub name: Seq<char>,
    pub fields: Seq<FieldRuleView>,
    pub predicates: Seq<F>,
}

impl<F: Fn(Value) -> (bool, Value)> View for ValidationPlan<F> {
    type V = PlanView<F>;

    closed spec fn view(&self) -> PlanView<F> {
        PlanView {
            name: self.name@,
            fields: field_rule_views(self.fields@),
            predicates: self.predicates@,
        }
    }
}

impl<F: Fn(Value) -> (bool, Value)> PlanView<F> {
    /// Every predicate that a rule names is in the plan.
    pub open spec fn resolved(self) -> bool {
        forall|i: int|
            0 <= i < self.fields.len() ==> (#[trigger] self.fields[i]).resolved(self.predicates.len())
    }

    /// Every predicate that a rule names is in the plan, and each predicate
    /// of the plan can be called on every value.
    pub open spec fn callable(self) -> bool {
        self.resolved() && all_total(self.predicates)
    }

    /// Every rule can stand on a field of the kind of its field.
    pub open spec fn well_typed(self) -> bool {
        forall|i: int| 0 <= i < self.fields.len() ==> (#[trigger] self.fields[i]).well_typed()
    }

    /// The entity has one value for each field of the plan, of the field's kind.
    pub open spec fn describes(self, values: Seq<ValueView>) -> bool {
        &&& values.len() == self.fields.len()
        &&& forall|i: int| 0 <= i < self.fields.len() ==> (#[trigger] values[i]).kind() == self.fields[i].kind
    }

    /// `trace` is a run of the plan on an entity that held `first`: for each
    /// field a run of the field's rules on the field's value.
    pub open spec fn runs(self, first: Seq<ValueView>, trace: Seq<Seq<StepOutcome>>) -> bool {
        &&& first.len() == self.fields.len()
        &&& trace.len() == self.fields.len()
        &&& forall|i: int|
            #![trigger trace[i]]
            0 <= i < self.fields.len() ==> self.fields[i].runs(self.predicates, first[i], trace[i])
    }

    /// The messages of the first `upto` fields: those of each field in turn.
    pub open spec fn messages(self, trace: Seq<Seq<StepOutcome>>, upto: int) -> Seq<Seq<char>>
        decreases upto,
    {
        if upto <= 0 {
            Seq::empty()
        } else {
            self.messages(trace, upto - 1) + self.fields[upto - 1].messages(
                trace[upto - 1],
                trace[upto - 1].len() as int,
            )
        }
    }

    /// All the messages of a run.
    pub open spec fn all_messages(self, trace: Seq<Seq<StepOutcome>>) -> Seq<Seq<char>> {
        self.messages(trace, self.fields.len() as int)
    }

    /// The messages of a field depend on that field and the fields before it alone.
    pub proof fn messages_of_prefix(
        self,
        trace: Seq<Seq<StepOutcome>>,
        longer: Seq<Seq<StepOutcome>>,
        upto: int,
    )
        requires
            upto <= trace.len() <= longer.len(),
            forall|i: int| 0 <= i < upto ==> trace[i] == longer[i],
        ensures
            self.messages(trace, upto) == self.messages(longer, upto),
        decreases upto,
    {
        if upto > 0 {
            self.messages_of_prefix(trace, longer, upto - 1);
        }
    }
}

/// The values that a run leaves in an entity that held `first`.
pub open spec fn values_after(first: Seq<ValueView>, trace: Seq<Seq<StepOutcome>>) -> Seq<ValueView> {
    Seq::new(first.len(), |i: int| value_after(first[i], trace[i]))
}

impl<F: Fn(Value) -> (bool, Value)> ValidationPlan<F> {
    #[verifier::type_invariant]
    spec fn can_run(self) -> bool {
        self@.callable()
    }

    /// A plan from its parts.
    pub(crate) fn new(name: String, fields: Vec<FieldRule>, predicates: Vec<F>) -> (plan: Self)
        requires
            all_total(predicates@),
            forall|i: int|
                0 <= i < fields.len() ==> (#[trigger] fields[i])@.resolved(predicates@.len()),
        ensures
            plan@ == (PlanView {
                name: name@,
                fields: field_rule_views(fields@),
                predicates: predicates@,
            }),
    {
        ValidationPlan { name, fields, predicates }
    }

    /// The name of the entity type.
    pub fn name(&self) -> (name: &str)
        ensures
            name@ == self@.name,
    {
        self.name.as_str()
    }

    /// The fields of the entity type with their rules, in the order of the
    /// declaration.
    pub fn fields(&self) -> (fields: &Vec<FieldRule>)
        ensures
            field_rule_views(fields@) == self@.fields,
    {
        &self.fields
    }

    /// The number of fields of the entity type.
    pub fn len(&self) -> (n: usize)
        ensures
            n == self@.fields.len(),
    {
        self.fields.len()
    }

    /// Whether the entity has one value for each field, of the field's kind.
    pub fn describes(&self, values: &Vec<Value>) -> (fits: bool)
        ensures
            fits == self@.describes(views(values@)),
    {
        if values.len() != self.fields.len() {
            return false;
        }
        let mut i: usize = 0;
        while i < values.len()
            invariant
                i <= values.len(),
                values.len() == self.fields.len(),
                forall|k: int| 0 <= k < i ==> (#[trigger] views(values@)[k]).kind() == self@.fields[k].kind,
            decreases values.len() - i,
        {
            if values[i].kind() != self.fields[i].kind {
                assert(views(values@)[i as int].kind() != self@.fields[i as int].kind);
                return false;
            }
            i = i + 1;
        }
        true
    }

    /// Validates an entity: runs the rules of every field on the field's
    /// value, in the order of the declaration. A transform rewrites the value
    /// for the rules after it; a check that fails leaves its message and stops
    /// nothing. What the rules made of the values stays, whatever failed.
    /// Returns `Ok` when no rule failed, else every message, in the order in
    /// which the rules ran.
    pub fn validate(&self, values: &mut Vec<Value>) -> (result: Result<(), Vec<String>>)
        requires
            old(values).len() == self@.fields.len(),
        ensures
            final(values).len() == old(values).len(),
            exists|trace: Seq<Seq<StepOutcome>>|
                {
                    &&& #[trigger] self@.runs(views(old(values)@), trace)
                    &&& views(final(values)@) == values_after(views(old(values)@), trace)
                    &&& result_view(result) == verdict(self@.all_messages(trace))
                },
    {
        proof {
            use_type_invariant(self);
        }
        let ghost first = views(values@);
        let ghost mut trace: Seq<Seq<StepOutcome>> = Seq::empty();
        let mut errors: Vec<String> = Vec::new();
        let n: usize = self.fields.len();
        let mut i: usize = 0;
        while i < n
            invariant
                i <= n,
                n == self.fields.len(),
                values.len() == n,
                first.len() == n,
                trace.len() == i,
                self@.callable(),
                forall|k: int|
                    #![trigger trace[k]]
                    0 <= k < i ==> self@.fields[k].runs(self@.predicates, first[k], trace[k]),
                forall|k: int| 0 <= k < i ==> (#[trigger] values[k])@ == value_after(first[k], trace[k]),
                forall|k: int| i <= k < n ==> (#[trigger] values[k])@ == first[k],
                texts(errors@) == self@.messages(trace, i as int),
            decreases n - i,
        {
            let field = &self.fields[i];
            assert(self@.fields[i as int] == field@);
            let mut value = Value::Bool(false);
            core::mem::swap(&mut values[i], &mut value);
            let ghost listed = texts(errors@);
            let ghost earlier = trace;
            let value = field.apply(&self.predicates, value, &mut errors);
            values[i] = value;
            proof {
                let steps = choose|steps: Seq<StepOutcome>|
                    {
                        &&& #[trigger] field@.runs(self@.predicates, first[i as int], steps)
                        &&& value@ == value_after(first[i as int], steps)
                        &&& texts(errors@) == listed + field@.messages(steps, steps.len() as int)
                    };
                trace = earlier.push(steps);
                self@.messages_of_prefix(earlier, trace, i as int);
                assert forall|k: int| #![trigger trace[k]] 0 <= k < i + 1 implies self@.fields[k].runs(
                    self@.predicates,
                    first[k],
                    trace[k],
                ) by {
                    if k < i {
                        assert(trace[k] == earlier[k]);
                    }
                }
                assert forall|k: int| 0 <= k < i + 1 implies (#[trigger] values[k])@ == value_after(
                    first[k],
                    trace[k],
                ) by {
                    if k < i {
                        assert(trace[k] == earlier[k]);
                    }
                }
            }
            i = i + 1;
        }
        proof {
            assert(self@.runs(first, trace));
            assert(views(values@) =~= values_after(first, trace));
        }
        if errors.len() != 0 {
            Err(errors)
        } else {
            Ok(())
        }
    }
}

} // verus!
