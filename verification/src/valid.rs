//! Validation at the door of a request handler: what has been extracted from
//! a request is validated before the handler sees it, and turned away if it
//! is not valid.

use vstd::prelude::*;
use crate::Validate;

verus! {

/// The status code of a response.
#[derive(Clone, Copy, Debug, PartialEq, Eq, Structural)]
pub struct Status {
    pub code: u16,
}

impl Status {
    /// The status of a request that is turned away for what it holds: 400.
    pub fn bad_request() -> (status: Status)
        ensures
            status.code == 400,
    {
        Status { code: 400 }
    }
}

/// What the extraction of a value from a request ends in: the value, a
/// failure with its status, or the request's data handed on untouched.
#[derive(Debug, PartialEq, Eq)]
pub enum Outcome<S, E, D> {
    Success(S),
    Failure(Status, E),
    Forward(D),
}

/// Why no valid value came out of a request.
#[derive(Debug, PartialEq, Eq)]
pub enum ValidationError<T> {
    /// The value could not be extracted; this is the extractor's own error.
    FromDataError(T),
    /// The value was extracted and is not valid; these are the messages of
    /// the rules that it failed.
    ValidationError(Vec<String>),
}

impl<T> ValidationError<T> {
    /// Wraps the error of an extractor.
    pub fn from_data_error(t: T) -> (error: Self)
        ensures
            error == ValidationError::FromDataError(t),
    {
        ValidationError::FromDataError(t)
    }

    /// Unwraps the error of an extractor.
    pub fn get_t(self) -> (t: T)
        requires
            self is FromDataError,
        ensures
            self == ValidationError::FromDataError(t),
    {
        match self {
            ValidationError::FromDataError(t) => t,
            ValidationError::ValidationError(_) => vstd::pervasive::unreached(),
        }
    }
}

impl<T> From<Vec<String>> for ValidationError<T> {
    fn from(s: Vec<String>) -> (error: Self)
    {
        ValidationError::ValidationError(s)
    }
}

impl<T> vstd::std_specs::convert::FromSpecImpl<Vec<String>> for ValidationError<T> {
    open spec fn obeys_from_spec() -> bool {
        true
    }

    open spec fn from_spec(s: Vec<String>) -> Self {
        ValidationError::ValidationError(s)
    }
}

/// A value that has passed its validation: there is no way to one but
/// through `from_data`.
#[derive(Debug, PartialEq, Eq)]
pub struct Valid<T> {
    data: T,
}

impl<T> View for Valid<T> {
    type V = T;

    closed spec fn view(&self) -> T {
        self.data
    }
}

impl<T: Validate> Valid<T> {
    /// Wraps a value that has been validated.
    fn new(t: T) -> (valid: Self)
        ensures
            valid@ == t,
    {
        Valid { data: t }
    }

    /// Consumes the wrapper and returns the value in it.
    pub fn into_inner(self) -> (inner: T)
        ensures
            inner == self@,
    {
        self.data
    }

    /// An outcome of an extractor with the extractor's error wrapped.
    pub open spec fn transform_spec<O, E, D>(outcome: Outcome<O, E, D>) -> Outcome<
        O,
        ValidationError<E>,
        D,
    > {
        match outcome {
            Outcome::Success(value) => Outcome::Success(value),
            Outcome::Failure(status, error) => Outcome::Failure(
                status,
                ValidationError::FromDataError(error),
            ),
            Outcome::Forward(data) => Outcome::Forward(data),
        }
    }

    /// Passes on what an extractor made of a request before the value was
    /// built, with the extractor's error wrapped.
    pub fn transform<O, E, D>(outcome: Outcome<O, E, D>) -> (wrapped: Outcome<O, ValidationError<E>, D>)
        ensures
            wrapped == Self::transform_spec(outcome),
    {
        match outcome {
            Outcome::Success(value) => Outcome::Success(value),
            Outcome::Failure(status, error) => Outcome::Failure(
                status,
                ValidationError::from_data_error(error),
            ),
            Outcome::Forward(data) => Outcome::Forward(data),
        }
    }

    /// The reverse of `transform`: hands an extractor its own outcome back.
    pub fn transformed<O, E, D>(wrapped: Outcome<O, ValidationError<E>, D>) -> (outcome: Outcome<
        O,
        E,
        D,
    >)
        requires
            wrapped matches Outcome::Failure(_, error) ==> error is FromDataError,
        ensures
            Self::transform_spec(outcome) == wrapped,
    {
        match wrapped {
            Outcome::Success(value) => Outcome::Success(value),
            Outcome::Failure(status, error) => Outcome::Failure(status, error.get_t()),
            Outcome::Forward(data) => Outcome::Forward(data),
        }
    }

    /// `outcome` is what is decided on the value `inner` with the result
    /// `verdict` of its validation: the value in its wrapper if it is valid,
    /// else a bad request with the messages.
    pub open spec fn checked_spec<E, D>(
        inner: T,
        verdict: Result<(), Vec<String>>,
        outcome: Outcome<Valid<T>, ValidationError<E>, D>,
    ) -> bool {
        match verdict {
            Ok(()) => outcome matches Outcome::Success(valid) && valid@ == inner,
            Err(messages) => outcome matches Outcome::Failure(status, error) && status.code == 400
                && error == ValidationError::<E>::ValidationError(messages),
        }
    }

    /// Decides on a value that was extracted and validated: a valid value is
    /// passed through in its wrapper, one that is not valid is turned away as
    /// a bad request that carries the messages.
    fn checked<E, D>(inner: T, verdict: Result<(), Vec<String>>) -> (outcome: Outcome<
        Valid<T>,
        ValidationError<E>,
        D,
    >)
        ensures
            Self::checked_spec(inner, verdict, outcome),
    {
        match verdict {
            Ok(()) => Outcome::Success(Valid::new(inner)),
            Err(messages) => Outcome::Failure(Status::bad_request(), ValidationError::from(messages)),
        }
    }

    /// Validates what an extractor made of a request. A failure of the
    /// extractor is passed on with its status and its error wrapped, and data
    /// that the extractor handed on is handed on; neither is validated. A
    /// value is validated, and then decided on as `checked` does.
    pub fn from_data<E, D>(extracted: Outcome<T, E, D>) -> (outcome: Outcome<
        Valid<T>,
        ValidationError<E>,
        D,
    >)
        ensures
            match extracted {
                Outcome::Success(inner) => exists|after: T, verdict: Result<(), Vec<String>>|
                    #[trigger] T::validated(inner, after, verdict) && Self::checked_spec(
                        after,
                        verdict,
                        outcome,
                    ),
                Outcome::Failure(status, error) => outcome == Outcome::<
                    Valid<T>,
                    ValidationError<E>,
                    D,
                >::Failure(status, ValidationError::FromDataError(error)),
                Outcome::Forward(data) => outcome == Outcome::<
                    Valid<T>,
                    ValidationError<E>,
                    D,
                >::Forward(data),
            },
    {
        match extracted {
            Outcome::Success(inner) => {
                let ghost before = inner;
                let mut inner = inner;
                let verdict = inner.validate();
                assert(T::validated(before, inner, verdict));
                Self::checked(inner, verdict)
            },
            Outcome::Failure(status, error) => Outcome::Failure(
                status,
                ValidationError::from_data_error(error),
            ),
            Outcome::Forward(data) => Outcome::Forward(data),
        }
    }
}

impl<T: Validate> core::ops::Deref for Valid<T> {
    type Target = T;

    /// The value in the wrapper.
    fn deref(&self) -> (inner: &T)
        ensures
            *inner == self@,
    {
        &self.data
    }
}

impl<T: Validate> core::ops::DerefMut for Valid<T> {
    /// The value in the wrapper, to be changed in place.
    fn deref_mut(&mut self) -> (inner: &mut T)
        ensures
            *inner == old(self)@,
            final(self)@ == *final(inner),
    {
        &mut self.data
    }
}

impl<T: Validate, U: core::ops::Deref<Target = T> + core::ops::DerefMut> Validate for U {
    /// The result is one that the validation of an entity of the type that
    /// this value stands for can have. Which entity the value stands for is
    /// for its own `deref_mut` to say.
    open spec fn validated(before: Self, after: Self, result: Result<(), Vec<String>>) -> bool {
        exists|inner: T, left: T| #[trigger] T::validated(inner, left, result)
    }

    /// Validates the entity that this value stands for, and returns what
    /// the validation of that entity returns.
    fn validate(&mut self) -> (result: Result<(), Vec<String>>) {
        let t: &mut T = self.deref_mut();
        let ghost inner = *t;
        let result = t.validate();
        assert(T::validated(inner, *t, result));
        result
    }
}

} // verus!
