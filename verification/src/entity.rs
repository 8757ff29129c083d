//! An entity: the values of its fields, together with the plan of its type.

use vstd::prelude::*;
use crate::catalog::StepOutcome;
use crate::plan::{values_after, PlanView, ValidationPlan};
use crate::ruleset::{result_view, verdict};
use crate::value::{views, Value, ValueView};
use crate::Validate;

verus! {

/// The values of one entity, bound to the plan of its type: one value for
/// each field of the plan, in the order of the fields.
pub struct Entity<'a, F: Fn(Value) -> (bool, Value)> {
    plan: &'a ValidationPlan<F>,
    values: Vec<Value>,
}

impl<'a, F: Fn(Value) -> (bool, Value)> View for Entity<'a, F> {
    type V = Seq<ValueView>;

    closed spec fn view(&self) -> Seq<ValueView> {
        views(self.values@)
    }
}

impl<'a, F: Fn(Value) -> (bool, Value)> Entity<'a, F> {
    #[verifier::type_invariant]
    spec fn bound_to_plan(self) -> bool {
        self.values@.len() == self.plan@.fields.len()
    }

    /// The plan of the entity's type.
    pub closed spec fn plan(self) -> PlanView<F> {
        self.plan@
    }

    /// Binds the values of an entity to the plan of its type. There is an
    /// entity only where there is one value for each field of the plan, of
    /// the kind of the field.
    pub fn new(plan: &'a ValidationPlan<F>, values: Vec<Value>) -> (entity: Option<Self>)
        ensures
            match entity {
                Some(entity) => plan@.describes(views(values@)) && entity@ == views(values@)
                    && entity.plan() == plan@,
                None => !plan@.describes(views(values@)),
            },
    {
        if plan.describes(&values) {
            Some(Entity { plan, values })
        } else {
            None
        }
    }

    /// The values of the fields, in the order of the fields.
    pub fn values(&self) -> (values: &Vec<Value>)
        ensures
            views(values@) == self@,
    {
        &self.values
    }

    /// Gives up the entity for the values of its fields.
    pub fn into_values(self) -> (values: Vec<Value>)
        ensures
            views(values@) == self@,
    {
        self.values
    }
}

impl<'a, F: Fn(Value) -> (bool, Value)> Validate for Entity<'a, F> {
    open spec fn validated(before: Self, after: Self, result: Result<(), Vec<String>>) -> bool {
        &&& after.plan() == before.plan()
        &&& exists|trace: Seq<Seq<StepOutcome>>|
            {
                &&& #[trigger] before.plan().runs(before@, trace)
                &&& after@ == values_after(before@, trace)
                &&& result_view(result) == verdict(before.plan().all_messages(trace))
            }
    }

    /// Runs the plan of the entity's type on its values, as
    /// `ValidationPlan::validate` does.
    fn validate(&mut self) -> (result: Result<(), Vec<String>>) {
        proof {
            use_type_invariant(&*self);
        }
        // The values leave the entity while the rules run, and blanks hold their places.
        let n: usize = self.values.len();
        let mut values: Vec<Value> = Vec::new();
        while values.len() < n
            invariant
                values.len() <= n,
            decreases n - values.len(),
        {
            values.push(Value::Bool(false));
        }
        core::mem::swap(&mut self.values, &mut values);
        let ghost first = views(values@);
        let result = self.plan.validate(&mut values);
        let ghost trace = choose|trace: Seq<Seq<StepOutcome>>|
            {
                &&& #[trigger] self.plan@.runs(first, trace)
                &&& views(values@) == values_after(first, trace)
                &&& result_view(result) == verdict(self.plan@.all_messages(trace))
            };
        core::mem::swap(&mut self.values, &mut values);
        assert(old(self).plan().runs(old(self)@, trace));
        result
    }
}

} // verus!
