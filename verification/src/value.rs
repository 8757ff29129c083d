//! The values a field can hold, and the comparisons the rules make on them.

use vstd::prelude::*;
use crate::text::{lowercased, same_text, to_lowercase, trim, trimmed};

verus! {

/// The type of a field.
#[derive(Clone, Copy, Debug, PartialEq, Eq, Structural)]
pub enum ValueKind {
    Int,
    Bool,
    Text,
    List,
}

impl ValueKind {
    /// The kind of the values of a field whose type has the given name: the
    /// integers that fit in 64 bits with a sign, `bool`, `String` and `Vec`.
    /// A type of any other name is none that a field can have.
    pub open spec fn of_type(name: Seq<char>) -> Option<ValueKind> {
        if name == "i8"@ || name == "i16"@ || name == "i32"@ || name == "i64"@ || name == "isize"@
            || name == "u8"@ || name == "u16"@ || name == "u32"@ {
            Some(ValueKind::Int)
        } else if name == "bool"@ {
            Some(ValueKind::Bool)
        } else if name == "String"@ {
            Some(ValueKind::Text)
        } else if name == "Vec"@ {
            Some(ValueKind::List)
        } else {
            None
        }
    }

    /// The kind of the values of a field whose type has the given name.
    pub fn parse(name: &str) -> (kind: Option<ValueKind>)
        ensures
            kind == ValueKind::of_type(name@),
    {
        if same_text(name, "i8") || same_text(name, "i16") || same_text(name, "i32") || same_text(
            name,
            "i64",
        ) || same_text(name, "isize") || same_text(name, "u8") || same_text(name, "u16")
            || same_text(name, "u32") {
            Some(ValueKind::Int)
        } else if same_text(name, "bool") {
            Some(ValueKind::Bool)
        } else if same_text(name, "String") {
            Some(ValueKind::Text)
        } else if same_text(name, "Vec") {
            Some(ValueKind::List)
        } else {
            None
        }
    }
}

/// The content of one field of an entity.
#[derive(Debug, PartialEq, Eq)]
pub enum Value {
    Int(i64),
    Bool(bool),
    Text(String),
    List(Vec<i64>),
}

/// A `Value` as the contracts see it.
pub enum ValueView {
    Int(i64),
    Bool(bool),
    Text(Seq<char>),
    List(Seq<i64>),
}

impl ValueView {
    /// The kind of the value.
    pub open spec fn kind(self) -> ValueKind {
        match self {
            ValueView::Int(_) => ValueKind::Int,
            ValueView::Bool(_) => ValueKind::Bool,
            ValueView::Text(_) => ValueKind::Text,
            ValueView::List(_) => ValueKind::List,
        }
    }

    /// The number of characters of a text, the number of elements of a list;
    /// the other kinds have no length.
    pub open spec fn length(self) -> Option<nat> {
        match self {
            ValueView::Text(s) => Some(s.len()),
            ValueView::List(l) => Some(l.len()),
            _ => None,
        }
    }

    /// `self < other`: on two integers their order, on two booleans `false < true`.
    /// Values of different kinds, texts and lists are not ordered.
    pub open spec fn less_than(self, other: ValueView) -> bool {
        match (self, other) {
            (ValueView::Int(a), ValueView::Int(b)) => a < b,
            (ValueView::Bool(a), ValueView::Bool(b)) => !a && b,
            _ => false,
        }
    }

    /// A text without the whitespace around it; any other value as it is.
    pub open spec fn trimmed(self) -> ValueView {
        match self {
            ValueView::Text(s) => ValueView::Text(trimmed(s)),
            _ => self,
        }
    }

    /// A text in lower case; any other value as it is.
    pub open spec fn lowercased(self) -> ValueView {
        match self {
            ValueView::Text(s) => ValueView::Text(lowercased(s)),
            _ => self,
        }
    }
}

impl View for Value {
    type V = ValueView;

    open spec fn view(&self) -> ValueView {
        match self {
            Value::Int(n) => ValueView::Int(*n),
            Value::Bool(b) => ValueView::Bool(*b),
            Value::Text(s) => ValueView::Text(s@),
            Value::List(l) => ValueView::List(l@),
        }
    }
}

/// The values of an entity as the contracts see them.
pub open spec fn views(values: Seq<Value>) -> Seq<ValueView> {
    values.map_values(|value: Value| value@)
}

impl Clone for Value {
    /// A value that holds the same.
    fn clone(&self) -> (out: Value)
        ensures
            out@ == self@,
    {
        match self {
            Value::Int(n) => Value::Int(*n),
            Value::Bool(b) => Value::Bool(*b),
            Value::Text(s) => Value::Text(s.clone()),
            Value::List(l) => Value::List(l.clone()),
        }
    }
}

impl Value {
    /// The kind of the value.
    pub fn kind(&self) -> (kind: ValueKind)
        ensures
            kind == self@.kind(),
    {
        match self {
            Value::Int(_) => ValueKind::Int,
            Value::Bool(_) => ValueKind::Bool,
            Value::Text(_) => ValueKind::Text,
            Value::List(_) => ValueKind::List,
        }
    }

    /// The number of characters of a text, the number of elements of a list;
    /// a value of another kind has no length.
    pub fn length(&self) -> (length: Option<usize>)
        ensures
            match length {
                Some(n) => self@.length() == Some(n as nat),
                None => self@.length() is None,
            },
    {
        match self {
            Value::Text(s) => Some(s.as_str().unicode_len()),
            Value::List(l) => Some(l.len()),
            _ => None,
        }
    }

    /// Whether this value comes before `other`: two integers in their order,
    /// two booleans with `false` before `true`. Nothing else is ordered.
    pub fn less_than(&self, other: &Value) -> (less: bool)
        ensures
            less == self@.less_than(other@),
    {
        match (self, other) {
            (Value::Int(a), Value::Int(b)) => *a < *b,
            (Value::Bool(a), Value::Bool(b)) => !*a && *b,
            _ => false,
        }
    }

    /// Whether two values are of one kind and hold the same.
    pub fn same(&self, other: &Value) -> (same: bool)
        ensures
            same == (self@ == other@),
    {
        match (self, other) {
            (Value::Int(a), Value::Int(b)) => *a == *b,
            (Value::Bool(a), Value::Bool(b)) => *a == *b,
            (Value::Text(a), Value::Text(b)) => *a == *b,
            (Value::List(a), Value::List(b)) => {
                let same = *a == *b;
                assert(same == (a@ == b@)) by {
                    assert(a@ == b@ <==> a@ =~= b@);
                }
                same
            },
            _ => false,
        }
    }

    /// A text without the whitespace around it; any other value as it is.
    pub fn trimmed(self) -> (out: Value)
        ensures
            out@ == self@.trimmed(),
    {
        match self {
            Value::Text(s) => Value::Text(trim(s.as_str())),
            other => other,
        }
    }

    /// A text in lower case; any other value as it is.
    pub fn lowercased(self) -> (out: Value)
        ensures
            out@ == self@.lowercased(),
    {
        match self {
            Value::Text(s) => Value::Text(to_lowercase(s.as_str())),
            other => other,
        }
    }
}

} // verus!
