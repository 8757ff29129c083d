//! The rule catalog: the closed set of rule kinds, what each one does to a
//! value, and the message each check leaves when it fails.

use vstd::prelude::*;
use vstd::string::StringExecFns;
use crate::declaration::{content_view, Content, ContentView};
use crate::error::{DefinitionError, DefinitionErrorView};
use crate::text::{same_text, texts};
use crate::value::{Value, ValueKind, ValueView};

verus! {

/// One rule, bound to its argument.
#[derive(Debug, PartialEq, Eq)]
pub enum RuleKind {
    LessThan(Value),
    Equals(Value),
    GreaterThan(Value),
    NotEquals(Value),
    LengthLessThan(u64),
    LengthEquals(u64),
    LengthGreaterThan(u64),
    LengthNotEquals(u64),
    /// A predicate of the caller, by its place in the plan's list of predicates.
    With(usize),
    Trim,
    ToLowerCase,
}

/// A `RuleKind` as the contracts see it.
pub enum RuleKindView {
    LessThan(ValueView),
    Equals(ValueView),
    GreaterThan(ValueView),
    NotEquals(ValueView),
    LengthLessThan(nat),
    LengthEquals(nat),
    LengthGreaterThan(nat),
    LengthNotEquals(nat),
    With(nat),
    Trim,
    ToLowerCase,
}

impl View for RuleKind {
    type V = RuleKindView;

    open spec fn view(&self) -> RuleKindView {
        match self {
            RuleKind::LessThan(b) => RuleKindView::LessThan(b@),
            RuleKind::Equals(b) => RuleKindView::Equals(b@),
            RuleKind::GreaterThan(b) => RuleKindView::GreaterThan(b@),
            RuleKind::NotEquals(b) => RuleKindView::NotEquals(b@),
            RuleKind::LengthLessThan(n) => RuleKindView::LengthLessThan(*n as nat),
            RuleKind::LengthEquals(n) => RuleKindView::LengthEquals(*n as nat),
            RuleKind::LengthGreaterThan(n) => RuleKindView::LengthGreaterThan(*n as nat),
            RuleKind::LengthNotEquals(n) => RuleKindView::LengthNotEquals(*n as nat),
            RuleKind::With(p) => RuleKindView::With(*p as nat),
            RuleKind::Trim => RuleKindView::Trim,
            RuleKind::ToLowerCase => RuleKindView::ToLowerCase,
        }
    }
}

/// What one step of a run did: whether it passed, and the field's value after it.
pub struct StepOutcome {
    pub passed: bool,
    pub value: ValueView,
}

/// How every message of the catalog begins, up to the field's name.
pub open spec fn message_head() -> Seq<char> {
    "Failed to validate field `"@
}

impl RuleKindView {
    /// A transform rewrites the value and never fails.
    pub open spec fn is_transform(self) -> bool {
        self is Trim || self is ToLowerCase
    }

    /// A predicate is a function of the caller.
    pub open spec fn is_predicate(self) -> bool {
        self is With
    }

    /// Whether a value passes this rule. Transforms pass every value; of a
    /// predicate this function says nothing.
    pub open spec fn holds(self, value: ValueView) -> bool {
        match self {
            RuleKindView::LessThan(bound) => value.less_than(bound),
            RuleKindView::Equals(bound) => value == bound,
            RuleKindView::GreaterThan(bound) => bound.less_than(value),
            RuleKindView::NotEquals(bound) => value != bound,
            RuleKindView::LengthLessThan(bound) => value.length() matches Some(n) && n < bound,
            RuleKindView::LengthEquals(bound) => value.length() matches Some(n) && n == bound,
            RuleKindView::LengthGreaterThan(bound) => value.length() matches Some(n) && n > bound,
            RuleKindView::LengthNotEquals(bound) => value.length() matches Some(n) && n != bound,
            RuleKindView::With(_) => true,
            RuleKindView::Trim => true,
            RuleKindView::ToLowerCase => true,
        }
    }

    /// The value this rule leaves behind. Checks leave it as it is; of a
    /// predicate this function says nothing.
    pub open spec fn rewrite(self, value: ValueView) -> ValueView {
        match self {
            RuleKindView::Trim => value.trimmed(),
            RuleKindView::ToLowerCase => value.lowercased(),
            _ => value,
        }
    }

    /// How the message of a failed rule ends, after the field's name.
    /// Transforms have no message.
    pub open spec fn message_tail(self) -> Option<Seq<char>> {
        match self {
            RuleKindView::LessThan(_) => Some("`, value too high"@),
            RuleKindView::Equals(_) => Some("`, value incorrect"@),
            RuleKindView::GreaterThan(_) => Some("`, value too low"@),
            RuleKindView::NotEquals(_) => Some("`, value not allowed"@),
            RuleKindView::LengthLessThan(_) => Some("`, value too long"@),
            RuleKindView::LengthEquals(_) => Some("`, value of incorrect length"@),
            RuleKindView::LengthGreaterThan(_) => Some("`, value too short"@),
            RuleKindView::LengthNotEquals(_) => Some("`, value of disallowed length"@),
            RuleKindView::With(_) => Some("`, value did not pass test"@),
            RuleKindView::Trim => None,
            RuleKindView::ToLowerCase => None,
        }
    }

    /// The message that this rule leaves on `field` when it fails.
    pub open spec fn message(self, field: Seq<char>) -> Option<Seq<char>> {
        match self.message_tail() {
            Some(tail) => Some(message_head() + field + tail),
            None => None,
        }
    }

    /// Whether this rule can stand on a field of the given kind: an order
    /// needs an integer or a boolean and a bound of the same kind, an equality
    /// a bound of the field's kind, a length a text or a list, a transform a text.
    pub open spec fn fits(self, kind: ValueKind) -> bool {
        match self {
            RuleKindView::LessThan(bound) | RuleKindView::GreaterThan(bound) => {
                bound.kind() == kind && (kind == ValueKind::Int || kind == ValueKind::Bool)
            },
            RuleKindView::Equals(bound) | RuleKindView::NotEquals(bound) => bound.kind() == kind,
            RuleKindView::LengthLessThan(_)
            | RuleKindView::LengthEquals(_)
            | RuleKindView::LengthGreaterThan(_)
            | RuleKindView::LengthNotEquals(_) => kind == ValueKind::Text || kind == ValueKind::List,
            RuleKindView::With(_) => true,
            RuleKindView::Trim | RuleKindView::ToLowerCase => kind == ValueKind::Text,
        }
    }
}

/// The place of the first of `names`, from `from` on, that is `wanted`.
pub open spec fn position(names: Seq<Seq<char>>, wanted: Seq<char>, from: int) -> Option<nat>
    decreases names.len() - from,
{
    if from < 0 || from >= names.len() {
        None
    } else if names[from] == wanted {
        Some(from as nat)
    } else {
        position(names, wanted, from + 1)
    }
}

/// A name is found at the first place that holds it, and is not found only
/// where no place holds it.
pub proof fn position_is_first(names: Seq<Seq<char>>, wanted: Seq<char>, from: int)
    requires
        0 <= from,
    ensures
        match position(names, wanted, from) {
            Some(p) => from <= p < names.len() && names[p as int] == wanted && forall|k: int|
                from <= k < p ==> names[k] != wanted,
            None => forall|k: int| from <= k < names.len() ==> names[k] != wanted,
        },
    decreases names.len() - from,
{
    if from < names.len() && names[from] != wanted {
        position_is_first(names, wanted, from + 1);
    }
}

/// The bound of a comparison: the literal that the rule was written with.
pub open spec fn bound_of(name: Seq<char>, content: Option<ContentView>) -> Result<
    ValueView,
    DefinitionErrorView,
> {
    match content {
        None => Err(DefinitionErrorView::MissingArgument(name)),
        Some(ContentView::Literal(value)) => Ok(value),
        Some(ContentView::Path(_)) => Err(DefinitionErrorView::ArgumentMismatch(name)),
    }
}

/// The bound of a comparison of lengths: a literal integer that is not negative.
pub open spec fn length_of(name: Seq<char>, content: Option<ContentView>) -> Result<
    nat,
    DefinitionErrorView,
> {
    match content {
        None => Err(DefinitionErrorView::MissingArgument(name)),
        Some(ContentView::Literal(ValueView::Int(n))) if n >= 0 => Ok(n as nat),
        Some(_) => Err(DefinitionErrorView::ArgumentMismatch(name)),
    }
}

/// The predicate of a `with`: the place, among the predicates handed in, of
/// the first one that has the name the rule was written with.
pub open spec fn predicate_of(
    name: Seq<char>,
    content: Option<ContentView>,
    predicates: Seq<Seq<char>>,
) -> Result<nat, DefinitionErrorView> {
    match content {
        None => Err(DefinitionErrorView::MissingArgument(name)),
        Some(ContentView::Path(wanted)) => match position(predicates, wanted, 0) {
            Some(p) => Ok(p),
            None => Err(DefinitionErrorView::UnknownPredicate(wanted)),
        },
        Some(ContentView::Literal(_)) => Err(DefinitionErrorView::ArgumentMismatch(name)),
    }
}

/// The rule that the catalog has under `name`, bound to the argument
/// `content`. Every rule but the two transforms needs an argument; a
/// transform takes none into account. A name that the catalog does not have
/// is an error.
pub open spec fn resolve(
    name: Seq<char>,
    content: Option<ContentView>,
    predicates: Seq<Seq<char>>,
) -> Result<RuleKindView, DefinitionErrorView> {
    if name == "lt"@ {
        match bound_of(name, content) {
            Ok(bound) => Ok(RuleKindView::LessThan(bound)),
            Err(error) => Err(error),
        }
    } else if name == "eq"@ {
        match bound_of(name, content) {
            Ok(bound) => Ok(RuleKindView::Equals(bound)),
            Err(error) => Err(error),
        }
    } else if name == "gt"@ {
        match bound_of(name, content) {
            Ok(bound) => Ok(RuleKindView::GreaterThan(bound)),
            Err(error) => Err(error),
        }
    } else if name == "neq"@ {
        match bound_of(name, content) {
            Ok(bound) => Ok(RuleKindView::NotEquals(bound)),
            Err(error) => Err(error),
        }
    } else if name == "len_lt"@ {
        match length_of(name, content) {
            Ok(bound) => Ok(RuleKindView::LengthLessThan(bound)),
            Err(error) => Err(error),
        }
    } else if name == "len_eq"@ {
        match length_of(name, content) {
            Ok(bound) => Ok(RuleKindView::LengthEquals(bound)),
            Err(error) => Err(error),
        }
    } else if name == "len_gt"@ {
        match length_of(name, content) {
            Ok(bound) => Ok(RuleKindView::LengthGreaterThan(bound)),
            Err(error) => Err(error),
        }
    } else if name == "len_neq"@ {
        match length_of(name, content) {
            Ok(bound) => Ok(RuleKindView::LengthNotEquals(bound)),
            Err(error) => Err(error),
        }
    } else if name == "with"@ {
        match predicate_of(name, content, predicates) {
            Ok(p) => Ok(RuleKindView::With(p)),
            Err(error) => Err(error),
        }
    } else if name == "trim"@ {
        Ok(RuleKindView::Trim)
    } else if name == "to_lower_case"@ {
        Ok(RuleKindView::ToLowerCase)
    } else {
        Err(DefinitionErrorView::UnknownRule(name))
    }
}

/// Finds the first of `names` that is `wanted`.
pub fn find(names: &Vec<String>, wanted: &str) -> (found: Option<usize>)
    ensures
        match found {
            Some(p) => position(texts(names@), wanted@, 0) == Some(p as nat),
            None => position(texts(names@), wanted@, 0) is None,
        },
{
    let mut i: usize = 0;
    while i < names.len()
        invariant
            i <= names.len(),
            position(texts(names@), wanted@, 0) == position(texts(names@), wanted@, i as int),
        decreases names.len() - i,
    {
        if same_text(names[i].as_str(), wanted) {
            return Some(i);
        }
        i = i + 1;
    }
    None
}

fn bound(name: &str, content: Option<Content>) -> (result: Result<Value, DefinitionError>)
    ensures
        match bound_of(name@, content_view(content)) {
            Ok(value) => result matches Ok(read) && read@ == value,
            Err(error) => result matches Err(found) && found@ == error,
        },
{
    match content {
        None => Err(DefinitionError::MissingArgument(String::from_str(name))),
        Some(Content::Literal(value)) => Ok(value),
        Some(Content::Path(_)) => Err(DefinitionError::ArgumentMismatch(String::from_str(name))),
    }
}

fn length(name: &str, content: Option<Content>) -> (result: Result<u64, DefinitionError>)
    ensures
        match length_of(name@, content_view(content)) {
            Ok(value) => result matches Ok(read) && read as nat == value,
            Err(error) => result matches Err(found) && found@ == error,
        },
{
    match content {
        None => Err(DefinitionError::MissingArgument(String::from_str(name))),
        Some(Content::Literal(Value::Int(n))) => {
            if n >= 0 {
                Ok(n as u64)
            } else {
                Err(DefinitionError::ArgumentMismatch(String::from_str(name)))
            }
        },
        Some(_) => Err(DefinitionError::ArgumentMismatch(String::from_str(name))),
    }
}

fn predicate(name: &str, content: Option<Content>, predicates: &Vec<String>) -> (result: Result<
    usize,
    DefinitionError,
>)
    ensures
        match predicate_of(name@, content_view(content), texts(predicates@)) {
            Ok(value) => result matches Ok(read) && read as nat == value,
            Err(error) => result matches Err(found) && found@ == error,
        },
{
    match content {
        None => Err(DefinitionError::MissingArgument(String::from_str(name))),
        Some(Content::Path(wanted)) => match find(predicates, wanted.as_str()) {
            Some(p) => Ok(p),
            None => Err(DefinitionError::UnknownPredicate(wanted)),
        },
        Some(Content::Literal(_)) => Err(DefinitionError::ArgumentMismatch(String::from_str(name))),
    }
}

/// `outcome` is something that the predicate `f` can answer on `input`.
pub open spec fn answers<F: Fn(Value) -> (bool, Value)>(
    f: F,
    input: ValueView,
    outcome: StepOutcome,
) -> bool {
    exists|given: Value, left: Value|
        given@ == input && left@ == outcome.value && #[trigger] call_ensures(
            f,
            (given,),
            (outcome.passed, left),
        )
}

/// `f` can be called on every value.
pub open spec fn total<F: Fn(Value) -> (bool, Value)>(f: F) -> bool {
    forall|given: Value| #[trigger] call_requires(f, (given,))
}

/// `outcome` is what `rule` can make of the value `before`: for a check and a
/// transform the one outcome that the catalog fixes, for a predicate any
/// answer of the function it names.
pub open spec fn admits<F: Fn(Value) -> (bool, Value)>(
    rule: RuleKindView,
    predicates: Seq<F>,
    before: ValueView,
    outcome: StepOutcome,
) -> bool {
    match rule {
        RuleKindView::With(p) => p < predicates.len() && answers(predicates[p as int], before, outcome),
        _ => outcome.passed == rule.holds(before) && outcome.value == rule.rewrite(before),
    }
}

impl RuleKind {
    /// Looks `name` up in the catalog and binds the rule to its argument.
    pub fn parse(name: &str, content: Option<Content>, predicates: &Vec<String>) -> (result: Result<
        RuleKind,
        DefinitionError,
    >)
        ensures
            match resolve(name@, content_view(content), texts(predicates@)) {
                Ok(rule) => result matches Ok(read) && read@ == rule,
                Err(error) => result matches Err(found) && found@ == error,
            },
    {
        if same_text(name, "lt") {
            match bound(name, content) {
                Ok(value) => Ok(RuleKind::LessThan(value)),
                Err(error) => Err(error),
            }
        } else if same_text(name, "eq") {
            match bound(name, content) {
                Ok(value) => Ok(RuleKind::Equals(value)),
                Err(error) => Err(error),
            }
        } else if same_text(name, "gt") {
            match bound(name, content) {
                Ok(value) => Ok(RuleKind::GreaterThan(value)),
                Err(error) => Err(error),
            }
        } else if same_text(name, "neq") {
            match bound(name, content) {
                Ok(value) => Ok(RuleKind::NotEquals(value)),
                Err(error) => Err(error),
            }
        } else if same_text(name, "len_lt") {
            match length(name, content) {
                Ok(value) => Ok(RuleKind::LengthLessThan(value)),
                Err(error) => Err(error),
            }
        } else if same_text(name, "len_eq") {
            match length(name, content) {
                Ok(value) => Ok(RuleKind::LengthEquals(value)),
                Err(error) => Err(error),
            }
        } else if same_text(name, "len_gt") {
            match length(name, content) {
                Ok(value) => Ok(RuleKind::LengthGreaterThan(value)),
                Err(error) => Err(error),
            }
        } else if same_text(name, "len_neq") {
            match length(name, content) {
                Ok(value) => Ok(RuleKind::LengthNotEquals(value)),
                Err(error) => Err(error),
            }
        } else if same_text(name, "with") {
            match predicate(name, content, predicates) {
                Ok(p) => Ok(RuleKind::With(p)),
                Err(error) => Err(error),
            }
        } else if same_text(name, "trim") {
            Ok(RuleKind::Trim)
        } else if same_text(name, "to_lower_case") {
            Ok(RuleKind::ToLowerCase)
        } else {
            Err(DefinitionError::UnknownRule(String::from_str(name)))
        }
    }

    /// Whether this rule can stand on a field of the given kind.
    pub fn fits(&self, kind: ValueKind) -> (fits: bool)
        ensures
            fits == self@.fits(kind),
    {
        match self {
            RuleKind::LessThan(bound) | RuleKind::GreaterThan(bound) => bound.kind() == kind && (kind
                == ValueKind::Int || kind == ValueKind::Bool),
            RuleKind::Equals(bound) | RuleKind::NotEquals(bound) => bound.kind() == kind,
            RuleKind::LengthLessThan(_)
            | RuleKind::LengthEquals(_)
            | RuleKind::LengthGreaterThan(_)
            | RuleKind::LengthNotEquals(_) => kind == ValueKind::Text || kind == ValueKind::List,
            RuleKind::With(_) => true,
            RuleKind::Trim | RuleKind::ToLowerCase => kind == ValueKind::Text,
        }
    }

    /// Whether `value` passes this rule. A transform passes every value; a
    /// predicate is not asked.
    pub fn holds(&self, value: &Value) -> (holds: bool)
        ensures
            holds == self@.holds(value@),
    {
        match self {
            RuleKind::LessThan(bound) => value.less_than(bound),
            RuleKind::Equals(bound) => value.same(bound),
            RuleKind::GreaterThan(bound) => bound.less_than(value),
            RuleKind::NotEquals(bound) => !value.same(bound),
            RuleKind::LengthLessThan(bound) => match value.length() {
                Some(n) => (n as u64) < *bound,
                None => false,
            },
            RuleKind::LengthEquals(bound) => match value.length() {
                Some(n) => (n as u64) == *bound,
                None => false,
            },
            RuleKind::LengthGreaterThan(bound) => match value.length() {
                Some(n) => (n as u64) > *bound,
                None => false,
            },
            RuleKind::LengthNotEquals(bound) => match value.length() {
                Some(n) => (n as u64) != *bound,
                None => false,
            },
            RuleKind::With(_) => true,
            RuleKind::Trim => true,
            RuleKind::ToLowerCase => true,
        }
    }

    /// Runs this rule on `value`: hands back whether the value passed and the
    /// value as the rule left it. A check compares and leaves the value as it
    /// is, a transform rewrites it and passes it, a predicate does what the
    /// function does that it names.
    pub fn apply<F: Fn(Value) -> (bool, Value)>(&self, predicates: &Vec<F>, value: Value) -> (out: (
        bool,
        Value,
    ))
        requires
            self@ matches RuleKindView::With(p) ==> p < predicates.len() && total(
                predicates[p as int],
            ),
        ensures
            admits(self@, predicates@, value@, StepOutcome { passed: out.0, value: out.1@ }),
    {
        match self {
            RuleKind::With(p) => {
                let ghost before = value@;
                let f = &predicates[*p];
                let out = f(value);
                assert(answers(*f, before, StepOutcome { passed: out.0, value: out.1@ }));
                out
            },
            RuleKind::Trim => (true, value.trimmed()),
            RuleKind::ToLowerCase => (true, value.lowercased()),
            check => (check.holds(&value), value),
        }
    }

    /// The message that this rule leaves on `field` when it fails; a
    /// transform has none.
    pub fn message(&self, field: &str) -> (message: Option<String>)
        ensures
            match message {
                Some(m) => self@.message(field@) == Some(m@),
                None => self@.message(field@) is None,
            },
    {
        let tail = match self {
            RuleKind::LessThan(_) => "`, value too high",
            RuleKind::Equals(_) => "`, value incorrect",
            RuleKind::GreaterThan(_) => "`, value too low",
            RuleKind::NotEquals(_) => "`, value not allowed",
            RuleKind::LengthLessThan(_) => "`, value too long",
            RuleKind::LengthEquals(_) => "`, value of incorrect length",
            RuleKind::LengthGreaterThan(_) => "`, value too short",
            RuleKind::LengthNotEquals(_) => "`, value of disallowed length",
            RuleKind::With(_) => "`, value did not pass test",
            RuleKind::Trim => {
                return None;
            },
            RuleKind::ToLowerCase => {
                return None;
            },
        };
        Some(String::from_str("Failed to validate field `").concat(field).concat(tail))
    }
}

} // verus!
