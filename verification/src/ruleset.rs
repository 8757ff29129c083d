//! Validation written by hand: a list of failures that is opened, filled
//! rule by rule, and closed into the result of the validation.

use vstd::prelude::*;
use vstd::string::StringExecFns;
use crate::text::texts;

verus! {

/// What a validation hands back for a list of messages: success for the
/// empty list, else the list.
pub open spec fn verdict(messages: Seq<Seq<char>>) -> Result<(), Seq<Seq<char>>> {
    if messages.len() == 0 {
        Ok(())
    } else {
        Err(messages)
    }
}

/// A result of a validation as the contracts see it.
pub open spec fn result_view(result: Result<(), Vec<String>>) -> Result<(), Seq<Seq<char>>> {
    match result {
        Ok(()) => Ok(()),
        Err(errors) => Err(texts(errors@)),
    }
}

/// The message of a rule that failed and was given none.
pub open spec fn fallback_message() -> Seq<char> {
    "No message provided"@
}

/// The message that a rule leaves when it fails: its own where it has one,
/// else the fallback.
pub open spec fn message_or_fallback(message: Option<String>) -> Seq<char> {
    match message {
        Some(message) => message@,
        None => fallback_message(),
    }
}

/// One rule written by hand: a condition that has been evaluated, and the
/// message to leave if it did not hold.
#[derive(Debug, PartialEq, Eq)]
pub struct Rule {
    pub condition: bool,
    pub msg: String,
}

impl Rule {
    /// A rule from its condition and, where it has one, its message.
    pub fn new(condition: bool, message: Option<String>) -> (rule: Rule)
        ensures
            rule.condition == condition,
            rule.msg@ == message_or_fallback(message),
    {
        let msg = match message {
            Some(message) => message,
            None => String::from_str("No message provided"),
        };
        Rule { condition, msg }
    }

    /// Evaluates the rule: appends its message to `errors` if its condition
    /// did not hold, and does nothing if it did.
    pub fn finish(self, errors: &mut Vec<String>)
        ensures
            self.condition ==> *final(errors) == *old(errors),
            !self.condition ==> final(errors)@ == old(errors)@.push(self.msg),
    {
        if !self.condition {
            errors.push(self.msg);
        }
    }
}

/// Evaluates one rule: if `condition` is false, appends to `errors` the
/// message, or the fallback where there is none; if it is true, does nothing.
/// Nothing stops: the rules after this one are evaluated all the same.
pub fn rule(errors: &mut Vec<String>, condition: bool, message: Option<String>)
    ensures
        condition ==> *final(errors) == *old(errors),
        !condition ==> texts(final(errors)@) == texts(old(errors)@).push(message_or_fallback(message)),
{
    let ghost listed = errors@;
    let rule = Rule::new(condition, message);
    let ghost msg = rule.msg;
    rule.finish(errors);
    assert(!condition ==> texts(listed.push(msg)) =~= texts(listed).push(msg@));
}

/// The failures of a validation that is under way, in the order in which
/// they were found.
#[derive(Debug, PartialEq, Eq)]
pub struct Ruleset {
    pub errors: Vec<String>,
}

impl View for Ruleset {
    type V = Seq<Seq<char>>;

    open spec fn view(&self) -> Seq<Seq<char>> {
        texts(self.errors@)
    }
}

impl Ruleset {
    /// Opens a validation: no failure yet.
    pub fn new() -> (opened: Ruleset)
        ensures
            opened@ == Seq::<Seq<char>>::empty(),
    {
        let opened = Ruleset { errors: Vec::new() };
        assert(opened@ =~= Seq::<Seq<char>>::empty());
        opened
    }

    /// Evaluates one rule, as `rule` does, on the failures of this validation.
    pub fn rule(&mut self, condition: bool, message: Option<String>)
        ensures
            condition ==> *final(self) == *old(self),
            !condition ==> final(self)@ == old(self)@.push(message_or_fallback(message)),
    {
        rule(&mut self.errors, condition, message);
    }

    /// Closes the validation: success if no rule failed, else the messages of
    /// those that did, in the order in which they were evaluated.
    pub fn finish(self) -> (result: Result<(), Vec<String>>)
        ensures
            result_view(result) == verdict(self@),
            result matches Err(errors) ==> errors == self.errors,
    {
        if self.errors.len() != 0 {
            Err(self.errors)
        } else {
            Ok(())
        }
    }
}

/// Runs a validation written by hand: opens an empty list of failures, hands
/// it to `body`, which evaluates its rules on it and hands it back, and
/// closes it into the result.
pub fn ruleset<B: FnOnce(Ruleset) -> Ruleset>(body: B) -> (result: Result<(), Vec<String>>)
    requires
        forall|opened: Ruleset| opened@.len() == 0 ==> call_requires(body, (opened,)),
    ensures
        exists|opened: Ruleset, filled: Ruleset|
            opened@.len() == 0 && #[trigger] call_ensures(body, (opened,), filled) && result_view(
                result,
            ) == verdict(filled@),
{
    let opened = Ruleset::new();
    let filled = body(opened);
    assert(call_ensures(body, (opened,), filled));
    filled.finish()
}

} // verus!
