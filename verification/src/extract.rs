//! Deriving one typed argument of a handler from the request text and the
//! state that the handler was bound to.

use crate::format::{Describe, Fields, Format};
use core::convert::Infallible;
use core::fmt::Display;
use vstd::pervasive::cloned;
use vstd::prelude::*;
use vstd::string::*;

verus! {

/// `text` is how `value` shows itself.
pub open spec fn shown<T: Display>(value: T, text: String) -> bool {
    to_string_from_display_ensures::<T>(&value, text)
}

/// A value that can be derived from a request text and shared state.
pub trait FromContext<S>: Sized {
    /// Why a value could not be derived; it can be shown as text.
    type Failure: Display;

    /// What an implementation promises of its results. Unless an
    /// implementation says more, nothing is promised.
    open spec fn extracts(message: Seq<char>, state: S, r: Result<Self, Self::Failure>) -> bool {
        true
    }

    /// Derives the value, or says why it cannot be derived.
    fn from_context(message: &str, state: S) -> (r: Result<Self, Self::Failure>)
        ensures
            Self::extracts(message@, state, r),
    ;
}

/// An argument that is the bound state itself.
pub struct State<T>(pub T);

impl<S> FromContext<S> for State<S> {
    type Failure = Infallible;

    /// The state is handed through, whatever the request says.
    open spec fn extracts(message: Seq<char>, state: S, r: Result<Self, Self::Failure>) -> bool {
        r == Ok::<Self, Infallible>(State(state))
    }

    fn from_context(message: &str, state: S) -> (r: Result<Self, Self::Failure>) {
        Ok(State(state))
    }
}

impl<S, T1: FromContext<S>> FromContext<S> for (T1,) {
    type Failure = String;

    /// The one component, or what its failure shows.
    open spec fn extracts(message: Seq<char>, state: S, r: Result<Self, String>) -> bool {
        exists|x: Result<T1, T1::Failure>| #[trigger]
            T1::extracts(message, state, x) && match x {
                Ok(a) => r == Ok::<Self, String>((a,)),
                Err(e) => r matches Err(text) && shown(e, text),
            }
    }

    fn from_context(message: &str, state: S) -> (r: Result<Self, String>) {
        match T1::from_context(message, state) {
            Ok(a) => Ok((a,)),
            Err(e) => Err(e.to_string()),
        }
    }
}

impl<S: Clone, T1: FromContext<S>, T2: FromContext<S>> FromContext<S> for (T1, T2) {
    type Failure = String;

    /// The two components in order, each derived from the same text and
    /// from the state or a copy of it, or what the first failure shows.
    /// Nothing is derived behind a failure.
    open spec fn extracts(message: Seq<char>, state: S, r: Result<Self, String>) -> bool {
        exists|copy: S, x: Result<(T1,), String>|
            cloned(state, copy) && #[trigger] <(T1,) as FromContext<S>>::extracts(
                message,
                copy,
                x,
            ) && match x {
                Err(text) => r == Err::<Self, String>(text),
                Ok((a,)) => exists|y: Result<T2, T2::Failure>| #[trigger]
                    T2::extracts(message, state, y) && match y {
                        Ok(b) => r == Ok::<Self, String>((a, b)),
                        Err(e) => r matches Err(text) && shown(e, text),
                    },
            }
    }

    fn from_context(message: &str, state: S) -> (r: Result<Self, String>) {
        let copy = state.clone();
        let (a,) = match <(T1,) as FromContext<S>>::from_context(message, copy) {
            Ok(front) => front,
            Err(text) => {
                return Err(text);
            },
        };
        match T2::from_context(message, state) {
            Ok(b) => Ok((a, b)),
            Err(e) => Err(e.to_string()),
        }
    }
}

impl<S: Clone, T1: FromContext<S>, T2: FromContext<S>, T3: FromContext<S>> FromContext<S> for (T1, T2, T3) {
    type Failure = String;

    /// The three components in order, each derived from the same text and
    /// from the state or a copy of it, or what the first failure shows.
    /// Nothing is derived behind a failure.
    open spec fn extracts(message: Seq<char>, state: S, r: Result<Self, String>) -> bool {
        exists|copy: S, x: Result<(T1, T2), String>|
            cloned(state, copy) && #[trigger] <(T1, T2) as FromContext<S>>::extracts(
                message,
                copy,
                x,
            ) && match x {
                Err(text) => r == Err::<Self, String>(text),
                Ok((a, b)) => exists|y: Result<T3, T3::Failure>| #[trigger]
                    T3::extracts(message, state, y) && match y {
                        Ok(c) => r == Ok::<Self, String>((a, b, c)),
                        Err(e) => r matches Err(text) && shown(e, text),
                    },
            }
    }

    fn from_context(message: &str, state: S) -> (r: Result<Self, String>) {
        let copy = state.clone();
        let (a, b) = match <(T1, T2) as FromContext<S>>::from_context(message, copy) {
            Ok(front) => front,
            Err(text) => {
                return Err(text);
            },
        };
        match T3::from_context(message, state) {
            Ok(c) => Ok((a, b, c)),
            Err(e) => Err(e.to_string()),
        }
    }
}

impl<S: Clone, T1: FromContext<S>, T2: FromContext<S>, T3: FromContext<S>, T4: FromContext<S>> FromContext<S> for (T1, T2, T3, T4) {
    type Failure = String;

    /// The four components in order, each derived from the same text and
    /// from the state or a copy of it, or what the first failure shows.
    /// Nothing is derived behind a failure.
    open spec fn extracts(message: Seq<char>, state: S, r: Result<Self, String>) -> bool {
        exists|copy: S, x: Result<(T1, T2, T3), String>|
            cloned(state, copy) && #[trigger] <(T1, T2, T3) as FromContext<S>>::extracts(
                message,
                copy,
                x,
            ) && match x {
                Err(text) => r == Err::<Self, String>(text),
                Ok((a, b, c)) => exists|y: Result<T4, T4::Failure>| #[trigger]
                    T4::extracts(message, state, y) && match y {
                        Ok(d) => r == Ok::<Self, String>((a, b, c, d)),
                        Err(e) => r matches Err(text) && shown(e, text),
                    },
            }
    }

    fn from_context(message: &str, state: S) -> (r: Result<Self, String>) {
        let copy = state.clone();
        let (a, b, c) = match <(T1, T2, T3) as FromContext<S>>::from_context(message, copy) {
            Ok(front) => front,
            Err(text) => {
                return Err(text);
            },
        };
        match T4::from_context(message, state) {
            Ok(d) => Ok((a, b, c, d)),
            Err(e) => Err(e.to_string()),
        }
    }
}

/// An argument that is read from the whole request text.
pub struct Yaml<T>(pub T);

impl<T> Yaml<T> {
    /// The argument for what a YAML reader made of the request text: the
    /// value it read, in the envelope, or its error as it is.
    pub fn from_parsed(parsed: Result<T, serde_yaml::Error>) -> (r: Result<Self, serde_yaml::Error>)
        ensures
            r == match parsed {
                Ok(value) => Ok::<Self, serde_yaml::Error>(Yaml(value)),
                Err(e) => Err::<Self, serde_yaml::Error>(e),
            },
    {
        match parsed {
            Ok(value) => Ok(Yaml(value)),
            Err(e) => Err(e),
        }
    }
}

impl<T: Describe> Describe for Yaml<T> {
    /// The envelope adds no field: the shape is that of what it holds.
    open spec fn describes(fields: Fields) -> bool {
        T::describes(fields)
    }

    fn describe() -> (f: Format) {
        T::describe()
    }
}

impl<T: Describe, E> Describe for Result<T, E> {
    /// The shape of the success value; that of the failure is not exposed.
    open spec fn describes(fields: Fields) -> bool {
        T::describes(fields)
    }

    fn describe() -> (f: Format) {
        T::describe()
    }
}

} // verus!
