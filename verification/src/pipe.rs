//! Chaining a function into a second one that turns whatever the first
//! returned, success or failure, into the final result.

use crate::extract::FromContext;
use crate::format::{Describe, Fields};
use crate::handler::{fold_result, folded, Handler, HandlerService};
use core::fmt::Display;
use vstd::prelude::*;

verus! {

/// `out` is a possible result of `second` applied to a possible result of
/// `first` on `a`.
pub open spec fn piped1<T1, M, O, F1: Fn(T1) -> M, F2: Fn(M) -> O>(
    first: F1,
    second: F2,
    a: T1,
    out: O,
) -> bool {
    exists|mid: M| #[trigger] call_ensures(first, (a,), mid) && call_ensures(second, (mid,), out)
}

/// `out` is a possible result of `second` applied to a possible result of
/// `first` on `a` and `b`.
pub open spec fn piped2<T1, T2, M, O, F1: Fn(T1, T2) -> M, F2: Fn(M) -> O>(
    first: F1,
    second: F2,
    a: T1,
    b: T2,
    out: O,
) -> bool {
    exists|mid: M| #[trigger] call_ensures(first, (a, b), mid) && call_ensures(second, (mid,), out)
}

/// `out` is a possible result of `second` applied to a possible result of
/// `first` on `a`, `b` and `c`.
pub open spec fn piped3<T1, T2, T3, M, O, F1: Fn(T1, T2, T3) -> M, F2: Fn(M) -> O>(
    first: F1,
    second: F2,
    a: T1,
    b: T2,
    c: T3,
    out: O,
) -> bool {
    exists|mid: M| #[trigger] call_ensures(first, (a, b, c), mid) && call_ensures(second, (mid,), out)
}

/// `out` is a possible result of `second` applied to a possible result of
/// `first` on `a`, `b`, `c` and `d`.
pub open spec fn piped4<T1, T2, T3, T4, M, O, F1: Fn(T1, T2, T3, T4) -> M, F2: Fn(M) -> O>(
    first: F1,
    second: F2,
    a: T1,
    b: T2,
    c: T3,
    d: T4,
    out: O,
) -> bool {
    exists|mid: M| #[trigger] call_ensures(first, (a, b, c, d), mid) && call_ensures(second, (mid,), out)
}

/// Two functions, the second of which takes what the first returns.
#[derive(Clone)]
pub struct PipedFn<F1, F2> {
    fn1: F1,
    fn2: F2,
}

impl<F1, F2> PipedFn<F1, F2> {
    /// The primary step.
    pub closed spec fn first(&self) -> F1 {
        self.fn1
    }

    /// The secondary step.
    pub closed spec fn second(&self) -> F2 {
        self.fn2
    }
}

/// A function that can be given a secondary step.
pub trait Pipe<T, M>: Sized {
    /// This function followed by `f`.
    fn pipe<O: Display + Describe, X: Display, F: Fn(M) -> Result<O, X>>(self, f: F) -> (p: PipedFn<
        Self,
        F,
    >)
        ensures
            p.first() == self,
            p.second() == f,
    ;
}

impl<T1, F1, M> Pipe<(T1,), M> for F1 where F1: Fn(T1) -> M {
    fn pipe<O: Display + Describe, X: Display, F: Fn(M) -> Result<O, X>>(self, f: F) -> (p: PipedFn<
        Self,
        F,
    >) {
        PipedFn { fn1: self, fn2: f }
    }
}

impl<T1, T2, F1, M> Pipe<(T1, T2), M> for F1 where F1: Fn(T1, T2) -> M {
    fn pipe<O: Display + Describe, X: Display, F: Fn(M) -> Result<O, X>>(self, f: F) -> (p: PipedFn<
        Self,
        F,
    >) {
        PipedFn { fn1: self, fn2: f }
    }
}

impl<T1, T2, T3, F1, M> Pipe<(T1, T2, T3), M> for F1 where F1: Fn(T1, T2, T3) -> M {
    fn pipe<O: Display + Describe, X: Display, F: Fn(M) -> Result<O, X>>(self, f: F) -> (p: PipedFn<
        Self,
        F,
    >) {
        PipedFn { fn1: self, fn2: f }
    }
}

impl<T1, T2, T3, T4, F1, M> Pipe<(T1, T2, T3, T4), M> for F1 where F1: Fn(T1, T2, T3, T4) -> M {
    fn pipe<O: Display + Describe, X: Display, F: Fn(M) -> Result<O, X>>(self, f: F) -> (p: PipedFn<
        Self,
        F,
    >) {
        PipedFn { fn1: self, fn2: f }
    }
}

impl<T1, S, F1, F2, M, R, X> Handler<(T1,), S> for PipedFn<F1, F2> where
    F1: Fn(T1) -> M,
    F2: Fn(M) -> Result<R, X>,
    T1: FromContext<S> + Describe,
    R: Display + Describe,
    X: Display,
 {
    type Failure = X;

    open spec fn total(&self) -> bool {
        &&& forall|a: T1| call_requires(self.first(), (a,))
        &&& forall|mid: M| call_requires(self.second(), (mid,))
    }

    open spec fn responds(&self, message: Seq<char>, state: S, r: Result<String, Box<X>>) -> bool {
        exists|x: Result<(T1,), String>| #[trigger]
            <(T1,) as FromContext<S>>::extracts(message, state, x) && match x {
                Err(text) => r == Ok::<String, Box<X>>(text),
                Ok((a,)) => exists|out: Result<R, X>| #[trigger]
                    piped1(self.first(), self.second(), a, out) && folded(out, r),
            }
    }

    open spec fn shapes(input: Fields, output: Fields) -> bool {
        T1::describes(input) && R::describes(output)
    }

    fn call(&self, message: String, state: S) -> (r: Result<String, Box<X>>) {
        proof {
            assert(self.first() == self.fn1 && self.second() == self.fn2);
        }
        match <(T1,) as FromContext<S>>::from_context(message.as_str(), state) {
            Ok((a,)) => {
                let mid = (self.fn1)(a);
                let out = (self.fn2)(mid);
                proof {
                    assert(piped1(self.first(), self.second(), a, out));
                }
                fold_result(out)
            },
            Err(text) => Ok(text),
        }
    }

    fn with_state(self, state: S) -> (service: HandlerService<Self, (T1,), S, X>) {
        HandlerService::new(self, state, T1::describe(), R::describe())
    }
}

impl<T1, T2, S, F1, F2, M, R, X> Handler<(T1, T2), S> for PipedFn<F1, F2> where
    F1: Fn(T1, T2) -> M,
    F2: Fn(M) -> Result<R, X>,
    S: Clone,
    T1: FromContext<S>,
    T2: FromContext<S> + Describe,
    R: Display + Describe,
    X: Display,
 {
    type Failure = X;

    open spec fn total(&self) -> bool {
        &&& forall|a: T1, b: T2| call_requires(self.first(), (a, b))
        &&& forall|mid: M| call_requires(self.second(), (mid,))
    }

    open spec fn responds(&self, message: Seq<char>, state: S, r: Result<String, Box<X>>) -> bool {
        exists|x: Result<(T1, T2), String>| #[trigger]
            <(T1, T2) as FromContext<S>>::extracts(message, state, x) && match x {
                Err(text) => r == Ok::<String, Box<X>>(text),
                Ok((a, b)) => exists|out: Result<R, X>| #[trigger]
                    piped2(self.first(), self.second(), a, b, out) && folded(out, r),
            }
    }

    open spec fn shapes(input: Fields, output: Fields) -> bool {
        T2::describes(input) && R::describes(output)
    }

    fn call(&self, message: String, state: S) -> (r: Result<String, Box<X>>) {
        proof {
            assert(self.first() == self.fn1 && self.second() == self.fn2);
        }
        match <(T1, T2) as FromContext<S>>::from_context(message.as_str(), state) {
            Ok((a, b)) => {
                let mid = (self.fn1)(a, b);
                let out = (self.fn2)(mid);
                proof {
                    assert(piped2(self.first(), self.second(), a, b, out));
                }
                fold_result(out)
            },
            Err(text) => Ok(text),
        }
    }

    fn with_state(self, state: S) -> (service: HandlerService<Self, (T1, T2), S, X>) {
        HandlerService::new(self, state, T2::describe(), R::describe())
    }
}

impl<T1, T2, T3, S, F1, F2, M, R, X> Handler<(T1, T2, T3), S> for PipedFn<F1, F2> where
    F1: Fn(T1, T2, T3) -> M,
    F2: Fn(M) -> Result<R, X>,
    S: Clone,
    T1: FromContext<S>,
    T2: FromContext<S>,
    T3: FromContext<S> + Describe,
    R: Display + Describe,
    X: Display,
 {
    type Failure = X;

    open spec fn total(&self) -> bool {
        &&& forall|a: T1, b: T2, c: T3| call_requires(self.first(), (a, b, c))
        &&& forall|mid: M| call_requires(self.second(), (mid,))
    }

    open spec fn responds(&self, message: Seq<char>, state: S, r: Result<String, Box<X>>) -> bool {
        exists|x: Result<(T1, T2, T3), String>| #[trigger]
            <(T1, T2, T3) as FromContext<S>>::extracts(message, state, x) && match x {
                Err(text) => r == Ok::<String, Box<X>>(text),
                Ok((a, b, c)) => exists|out: Result<R, X>| #[trigger]
                    piped3(self.first(), self.second(), a, b, c, out) && folded(out, r),
            }
    }

    open spec fn shapes(input: Fields, output: Fields) -> bool {
        T3::describes(input) && R::describes(output)
    }

    fn call(&self, message: String, state: S) -> (r: Result<String, Box<X>>) {
        proof {
            assert(self.first() == self.fn1 && self.second() == self.fn2);
        }
        match <(T1, T2, T3) as FromContext<S>>::from_context(message.as_str(), state) {
            Ok((a, b, c)) => {
                let mid = (self.fn1)(a, b, c);
                let out = (self.fn2)(mid);
                proof {
                    assert(piped3(self.first(), self.second(), a, b, c, out));
                }
                fold_result(out)
            },
            Err(text) => Ok(text),
        }
    }

    fn with_state(self, state: S) -> (service: HandlerService<Self, (T1, T2, T3), S, X>) {
        HandlerService::new(self, state, T3::describe(), R::describe())
    }
}

impl<T1, T2, T3, T4, S, F1, F2, M, R, X> Handler<(T1, T2, T3, T4), S> for PipedFn<F1, F2> where
    F1: Fn(T1, T2, T3, T4) -> M,
    F2: Fn(M) -> Result<R, X>,
    S: Clone,
    T1: FromContext<S>,
    T2: FromContext<S>,
    T3: FromContext<S>,
    T4: FromContext<S> + Describe,
    R: Display + Describe,
    X: Display,
 {
    type Failure = X;

    open spec fn total(&self) -> bool {
        &&& forall|a: T1, b: T2, c: T3, d: T4| call_requires(self.first(), (a, b, c, d))
        &&& forall|mid: M| call_requires(self.second(), (mid,))
    }

    open spec fn responds(&self, message: Seq<char>, state: S, r: Result<String, Box<X>>) -> bool {
        exists|x: Result<(T1, T2, T3, T4), String>| #[trigger]
            <(T1, T2, T3, T4) as FromContext<S>>::extracts(message, state, x) && match x {
                Err(text) => r == Ok::<String, Box<X>>(text),
                Ok((a, b, c, d)) => exists|out: Result<R, X>| #[trigger]
                    piped4(self.first(), self.second(), a, b, c, d, out) && folded(out, r),
            }
    }

    open spec fn shapes(input: Fields, output: Fields) -> bool {
        T4::describes(input) && R::describes(output)
    }

    fn call(&self, message: String, state: S) -> (r: Result<String, Box<X>>) {
        proof {
            assert(self.first() == self.fn1 && self.second() == self.fn2);
        }
        match <(T1, T2, T3, T4) as FromContext<S>>::from_context(message.as_str(), state) {
            Ok((a, b, c, d)) => {
                let mid = (self.fn1)(a, b, c, d);
                let out = (self.fn2)(mid);
                proof {
                    assert(piped4(self.first(), self.second(), a, b, c, d, out));
                }
                fold_result(out)
            },
            Err(text) => Ok(text),
        }
    }

    fn with_state(self, state: S) -> (service: HandlerService<Self, (T1, T2, T3, T4), S, X>) {
        HandlerService::new(self, state, T4::describe(), R::describe())
    }
}

/// Where the primary step can only fail on `a`, the secondary step was
/// given a failure of the primary step, never a success.
pub proof fn pipe_routes_failure<T1, V, E, O, F1: Fn(T1) -> Result<V, E>, F2: Fn(Result<V, E>) -> O>(
    p: PipedFn<F1, F2>,
    a: T1,
    out: O,
)
    requires
        piped1(p.first(), p.second(), a, out),
        forall|mid: Result<V, E>| call_ensures(p.first(), (a,), mid) ==> mid is Err,
    ensures
        exists|mid: Result<V, E>|
            mid is Err && #[trigger] call_ensures(p.first(), (a,), mid) && call_ensures(
                p.second(),
                (mid,),
                out,
            ),
        !exists|mid: Result<V, E>|
            mid is Ok && #[trigger] call_ensures(p.first(), (a,), mid) && call_ensures(
                p.second(),
                (mid,),
                out,
            ),
{
}

/// Where the primary step can only succeed on `a`, the secondary step was
/// given a success of the primary step, never a failure.
pub proof fn pipe_routes_success<T1, V, E, O, F1: Fn(T1) -> Result<V, E>, F2: Fn(Result<V, E>) -> O>(
    p: PipedFn<F1, F2>,
    a: T1,
    out: O,
)
    requires
        piped1(p.first(), p.second(), a, out),
        forall|mid: Result<V, E>| call_ensures(p.first(), (a,), mid) ==> mid is Ok,
    ensures
        exists|mid: Result<V, E>|
            mid is Ok && #[trigger] call_ensures(p.first(), (a,), mid) && call_ensures(
                p.second(),
                (mid,),
                out,
            ),
        !exists|mid: Result<V, E>|
            mid is Err && #[trigger] call_ensures(p.first(), (a,), mid) && call_ensures(
                p.second(),
                (mid,),
                out,
            ),
{
}

/// Where the primary step can only fail on `a` and `b`, the secondary step was
/// given a failure of the primary step, never a success.
pub proof fn pipe_routes_failure_of_two<T1, T2, V, E, O, F1: Fn(T1, T2) -> Result<V, E>, F2: Fn(Result<V, E>) -> O>(
    p: PipedFn<F1, F2>,
    a: T1,
    b: T2,
    out: O,
)
    requires
        piped2(p.first(), p.second(), a, b, out),
        forall|mid: Result<V, E>| call_ensures(p.first(), (a, b), mid) ==> mid is Err,
    ensures
        exists|mid: Result<V, E>|
            mid is Err && #[trigger] call_ensures(p.first(), (a, b), mid) && call_ensures(
                p.second(),
                (mid,),
                out,
            ),
        !exists|mid: Result<V, E>|
            mid is Ok && #[trigger] call_ensures(p.first(), (a, b), mid) && call_ensures(
                p.second(),
                (mid,),
                out,
            ),
{
}

/// Where the primary step can only succeed on `a` and `b`, the secondary step was
/// given a success of the primary step, never a failure.
pub proof fn pipe_routes_success_of_two<T1, T2, V, E, O, F1: Fn(T1, T2) -> Result<V, E>, F2: Fn(Result<V, E>) -> O>(
    p: PipedFn<F1, F2>,
    a: T1,
    b: T2,
    out: O,
)
    requires
        piped2(p.first(), p.second(), a, b, out),
        forall|mid: Result<V, E>| call_ensures(p.first(), (a, b), mid) ==> mid is Ok,
    ensures
        exists|mid: Result<V, E>|
            mid is Ok && #[trigger] call_ensures(p.first(), (a, b), mid) && call_ensures(
                p.second(),
                (mid,),
                out,
            ),
        !exists|mid: Result<V, E>|
            mid is Err && #[trigger] call_ensures(p.first(), (a, b), mid) && call_ensures(
                p.second(),
                (mid,),
                out,
            ),
{
}

} // verus!
