//! Functions of typed arguments as uniform services from text to text.
//!
//! A handler is a function of up to four arguments, each of which is derived
//! from the request text and the bound state. Bound to a state it becomes a
//! service: text in, text out.

use crate::extract::{shown, FromContext};
use crate::format::{Describe, Fields, Format, ToolDescription, ToolDescriptionView};
use core::fmt::Display;
use core::marker::PhantomData;
use vstd::pervasive::cloned;
use vstd::prelude::*;
use vstd::string::*;

verus! {

/// The reply made of a function's result: the text a value shows, or the
/// error as it is.
pub open spec fn folded<R: Display, X>(out: Result<R, X>, r: Result<String, Box<X>>) -> bool {
    match out {
        Ok(v) => r matches Ok(text) && shown(v, text),
        Err(e) => r == Err::<String, Box<X>>(Box::new(e)),
    }
}

/// The reply for what a handler's function returned.
pub fn fold_result<R: Display, X>(out: Result<R, X>) -> (r: Result<String, Box<X>>)
    ensures
        folded(out, r),
{
    match out {
        Ok(v) => Ok(v.to_string()),
        Err(e) => Err(Box::new(e)),
    }
}

/// A function whose arguments, of types `T`, are derived from a request text
/// and a state of type `S`.
pub trait Handler<T, S>: Sized {
    type Failure: Display;

    /// The function accepts whatever arguments extraction may give it.
    spec fn total(&self) -> bool;

    /// `r` is a possible reply to `message` under `state`.
    spec fn responds(
        &self,
        message: Seq<char>,
        state: S,
        r: Result<String, Box<Self::Failure>>,
    ) -> bool;

    /// What a service made of this handler says of its input and output.
    spec fn shapes(input: Fields, output: Fields) -> bool;

    /// Derives the arguments in order, each from the same text and state,
    /// and applies the function. The first argument that cannot be derived
    /// ends the call: what its failure shows is the reply.
    fn call(&self, message: String, state: S) -> (r: Result<String, Box<Self::Failure>>)
        requires
            self.total(),
        ensures
            self.responds(message@, state, r),
    ;

    /// Binds the handler to `state`. The service describes its input by the
    /// last argument's shape and its output by that of the result.
    fn with_state(self, state: S) -> (service: HandlerService<Self, T, S, Self::Failure>)
        ensures
            service.handler() == self,
            service.state() == state,
            service.name() == ""@,
            service.usage_description() == ""@,
            service.input_format().wf(),
            service.output_format().wf(),
            Self::shapes(service.input_format()@, service.output_format()@),
    ;
}

impl<F, S, R, X> Handler<(), S> for F where F: Fn() -> Result<R, X>, R: Display + Describe, X: Display {
    type Failure = X;

    open spec fn total(&self) -> bool {
        call_requires(*self, ())
    }

    open spec fn responds(&self, message: Seq<char>, state: S, r: Result<String, Box<X>>) -> bool {
        exists|out: Result<R, X>| #[trigger] call_ensures(*self, (), out) && folded(out, r)
    }

    open spec fn shapes(input: Fields, output: Fields) -> bool {
        input.len() == 0 && R::describes(output)
    }

    fn call(&self, message: String, state: S) -> (r: Result<String, Box<X>>) {
        fold_result(self())
    }

    fn with_state(self, state: S) -> (service: HandlerService<Self, (), S, X>) {
        HandlerService::new(self, state, Format::new(Vec::new()), R::describe())
    }
}

impl<F, S, R, X, T1> Handler<(T1,), S> for F where
    F: Fn(T1) -> Result<R, X>,
    R: Display + Describe,
    X: Display,
    T1: FromContext<S> + Describe,
 {
    type Failure = X;

    open spec fn total(&self) -> bool {
        forall|a: T1| call_requires(*self, (a,))
    }

    open spec fn responds(&self, message: Seq<char>, state: S, r: Result<String, Box<X>>) -> bool {
        exists|x: Result<(T1,), String>| #[trigger]
            <(T1,) as FromContext<S>>::extracts(message, state, x) && match x {
                Err(text) => r == Ok::<String, Box<X>>(text),
                Ok((a,)) => exists|out: Result<R, X>| #[trigger]
                    call_ensures(*self, (a,), out) && folded(out, r),
            }
    }

    open spec fn shapes(input: Fields, output: Fields) -> bool {
        T1::describes(input) && R::describes(output)
    }

    fn call(&self, message: String, state: S) -> (r: Result<String, Box<X>>) {
        match <(T1,) as FromContext<S>>::from_context(message.as_str(), state) {
            Ok((a,)) => fold_result(self(a)),
            Err(text) => Ok(text),
        }
    }

    fn with_state(self, state: S) -> (service: HandlerService<Self, (T1,), S, X>) {
        HandlerService::new(self, state, T1::describe(), R::describe())
    }
}

impl<F, S, R, X, T1, T2> Handler<(T1, T2), S> for F where
    F: Fn(T1, T2) -> Result<R, X>,
    R: Display + Describe,
    X: Display,
    S: Clone,
    T1: FromContext<S>,
    T2: FromContext<S> + Describe,
 {
    type Failure = X;

    open spec fn total(&self) -> bool {
        forall|a: T1, b: T2| call_requires(*self, (a, b))
    }

    open spec fn responds(&self, message: Seq<char>, state: S, r: Result<String, Box<X>>) -> bool {
        exists|x: Result<(T1, T2), String>| #[trigger]
            <(T1, T2) as FromContext<S>>::extracts(message, state, x) && match x {
                Err(text) => r == Ok::<String, Box<X>>(text),
                Ok((a, b)) => exists|out: Result<R, X>| #[trigger]
                    call_ensures(*self, (a, b), out) && folded(out, r),
            }
    }

    open spec fn shapes(input: Fields, output: Fields) -> bool {
        T2::describes(input) && R::describes(output)
    }

    fn call(&self, message: String, state: S) -> (r: Result<String, Box<X>>) {
        match <(T1, T2) as FromContext<S>>::from_context(message.as_str(), state) {
            Ok((a, b)) => fold_result(self(a, b)),
            Err(text) => Ok(text),
        }
    }

    fn with_state(self, state: S) -> (service: HandlerService<Self, (T1, T2), S, X>) {
        HandlerService::new(self, state, T2::describe(), R::describe())
    }
}

impl<F, S, R, X, T1, T2, T3> Handler<(T1, T2, T3), S> for F where
    F: Fn(T1, T2, T3) -> Result<R, X>,
    R: Display + Describe,
    X: Display,
    S: Clone,
    T1: FromContext<S>,
    T2: FromContext<S>,
    T3: FromContext<S> + Describe,
 {
    type Failure = X;

    open spec fn total(&self) -> bool {
        forall|a: T1, b: T2, c: T3| call_requires(*self, (a, b, c))
    }

    open spec fn responds(&self, message: Seq<char>, state: S, r: Result<String, Box<X>>) -> bool {
        exists|x: Result<(T1, T2, T3), String>| #[trigger]
            <(T1, T2, T3) as FromContext<S>>::extracts(message, state, x) && match x {
                Err(text) => r == Ok::<String, Box<X>>(text),
                Ok((a, b, c)) => exists|out: Result<R, X>| #[trigger]
                    call_ensures(*self, (a, b, c), out) && folded(out, r),
            }
    }

    open spec fn shapes(input: Fields, output: Fields) -> bool {
        T3::describes(input) && R::describes(output)
    }

    fn call(&self, message: String, state: S) -> (r: Result<String, Box<X>>) {
        match <(T1, T2, T3) as FromContext<S>>::from_context(message.as_str(), state) {
            Ok((a, b, c)) => fold_result(self(a, b, c)),
            Err(text) => Ok(text),
        }
    }

    fn with_state(self, state: S) -> (service: HandlerService<Self, (T1, T2, T3), S, X>) {
        HandlerService::new(self, state, T3::describe(), R::describe())
    }
}

impl<F, S, R, X, T1, T2, T3, T4> Handler<(T1, T2, T3, T4), S> for F where
    F: Fn(T1, T2, T3, T4) -> Result<R, X>,
    R: Display + Describe,
    X: Display,
    S: Clone,
    T1: FromContext<S>,
    T2: FromContext<S>,
    T3: FromContext<S>,
    T4: FromContext<S> + Describe,
 {
    type Failure = X;

    open spec fn total(&self) -> bool {
        forall|a: T1, b: T2, c: T3, d: T4| call_requires(*self, (a, b, c, d))
    }

    open spec fn responds(&self, message: Seq<char>, state: S, r: Result<String, Box<X>>) -> bool {
        exists|x: Result<(T1, T2, T3, T4), String>| #[trigger]
            <(T1, T2, T3, T4) as FromContext<S>>::extracts(message, state, x) && match x {
                Err(text) => r == Ok::<String, Box<X>>(text),
                Ok((a, b, c, d)) => exists|out: Result<R, X>| #[trigger]
                    call_ensures(*self, (a, b, c, d), out) && folded(out, r),
            }
    }

    open spec fn shapes(input: Fields, output: Fields) -> bool {
        T4::describes(input) && R::describes(output)
    }

    fn call(&self, message: String, state: S) -> (r: Result<String, Box<X>>) {
        match <(T1, T2, T3, T4) as FromContext<S>>::from_context(message.as_str(), state) {
            Ok((a, b, c, d)) => fold_result(self(a, b, c, d)),
            Err(text) => Ok(text),
        }
    }

    fn with_state(self, state: S) -> (service: HandlerService<Self, (T1, T2, T3, T4), S, X>) {
        HandlerService::new(self, state, T4::describe(), R::describe())
    }
}

/// A handler bound to its state, with the name and the shapes under which a
/// registry presents it.
pub struct HandlerService<H, T, S, E> {
    handler: H,
    state: S,
    name: String,
    usage_description: String,
    input_description: Format,
    output_description: Format,
    _marker: PhantomData<(T, E)>,
}

impl<H, T, S, E> HandlerService<H, T, S, E> {
    pub closed spec fn handler(&self) -> H {
        self.handler
    }

    pub closed spec fn state(&self) -> S {
        self.state
    }

    pub closed spec fn name(&self) -> Seq<char> {
        self.name@
    }

    pub closed spec fn usage_description(&self) -> Seq<char> {
        self.usage_description@
    }

    pub closed spec fn input_format(&self) -> Format {
        self.input_description
    }

    pub closed spec fn output_format(&self) -> Format {
        self.output_description
    }

    /// What the service tells a registry about itself.
    pub open spec fn description_view(&self) -> ToolDescriptionView {
        ToolDescriptionView {
            name: self.name(),
            description: self.usage_description(),
            description_context: ""@,
            input_format: self.input_format()@,
            output_format: self.output_format()@,
        }
    }

    /// The service of `handler` under `state`, with no name yet.
    pub fn new(handler: H, state: S, input_description: Format, output_description: Format) -> (r:
        Self)
        ensures
            r.handler() == handler,
            r.state() == state,
            r.name() == ""@,
            r.usage_description() == ""@,
            r.input_format() == input_description,
            r.output_format() == output_description,
    {
        HandlerService {
            handler,
            state,
            input_description,
            output_description,
            _marker: PhantomData,
            name: "".to_owned(),
            usage_description: "".to_owned(),
        }
    }

    /// The same service under `name`, with `usage_description` as the
    /// account of what it is for.
    pub fn named(self, name: &str, usage_description: &str) -> (r: Self)
        ensures
            r.handler() == self.handler(),
            r.state() == self.state(),
            r.name() == name@,
            r.usage_description() == usage_description@,
            r.input_format() == self.input_format(),
            r.output_format() == self.output_format(),
    {
        HandlerService {
            handler: self.handler,
            state: self.state,
            input_description: self.input_description,
            output_description: self.output_description,
            _marker: PhantomData,
            name: name.to_owned(),
            usage_description: usage_description.to_owned(),
        }
    }
}

/// A named service from text to text.
pub trait Tool<E> {
    /// The tool may be called and asked for its description. Unless an
    /// implementation says otherwise, it always may.
    open spec fn ready(&self) -> bool {
        true
    }

    /// What an implementation promises of its replies. Unless an
    /// implementation says more, nothing is promised.
    open spec fn replies(&self, message: Seq<char>, r: Result<String, Box<E>>) -> bool {
        true
    }

    /// What an implementation promises of its description beyond the two
    /// formats being well formed.
    open spec fn described(&self, d: ToolDescriptionView) -> bool {
        true
    }

    /// Answers `message`.
    fn call(&self, message: String) -> (r: Result<String, Box<E>>)
        requires
            self.ready(),
        ensures
            self.replies(message@, r),
    ;

    /// The name of the tool and the shapes of its input and output.
    fn description(&self) -> (d: ToolDescription)
        requires
            self.ready(),
        ensures
            self.described(d@),
            d.input_format.wf(),
            d.output_format.wf(),
    ;
}

impl<E, T: Tool<E> + ?Sized> Tool<E> for Box<T> {
    /// A boxed tool is the tool in it.
    open spec fn ready(&self) -> bool {
        (**self).ready()
    }

    open spec fn replies(&self, message: Seq<char>, r: Result<String, Box<E>>) -> bool {
        (**self).replies(message, r)
    }

    open spec fn described(&self, d: ToolDescriptionView) -> bool {
        (**self).described(d)
    }

    fn call(&self, message: String) -> (r: Result<String, Box<E>>) {
        (**self).call(message)
    }

    fn description(&self) -> (d: ToolDescription) {
        (**self).description()
    }
}

/// What a service replies when its handler replied `inner`: a failure of the
/// handler is shown as text, so the reply is always a text.
pub open spec fn surfaced<X: Display>(inner: Result<String, Box<X>>, r: Result<String, Box<X>>) -> bool {
    match inner {
        Ok(text) => r == Ok::<String, Box<X>>(text),
        Err(e) => r matches Ok(text) && shown(e, text),
    }
}

/// The reply of a service for what its handler replied.
pub fn surface<X: Display>(inner: Result<String, Box<X>>) -> (r: Result<String, Box<X>>)
    ensures
        surfaced(inner, r),
        r is Ok,
{
    match inner {
        Ok(text) => Ok(text),
        Err(e) => Ok(e.to_string()),
    }
}

impl<H, T, S, X> Tool<X> for HandlerService<H, T, S, X> where
    X: Display,
    H: Handler<T, S, Failure = X>,
    S: Clone,
 {
    open spec fn ready(&self) -> bool {
        &&& self.handler().total()
        &&& self.input_format().wf()
        &&& self.output_format().wf()
    }

    open spec fn replies(&self, message: Seq<char>, r: Result<String, Box<X>>) -> bool {
        &&& r is Ok
        &&& exists|copy: S, inner: Result<String, Box<X>>|
            cloned(self.state(), copy) && #[trigger] self.handler().responds(message, copy, inner)
                && surfaced(inner, r)
    }

    open spec fn described(&self, d: ToolDescriptionView) -> bool {
        d == self.description_view()
    }

    fn call(&self, message: String) -> (r: Result<String, Box<X>>) {
        let copy = self.state.clone();
        surface(self.handler.call(message, copy))
    }

    fn description(&self) -> (d: ToolDescription) {
        ToolDescription::new(
            self.name.as_str(),
            self.usage_description.as_str(),
            "",
            self.input_description.duplicate(),
            self.output_description.duplicate(),
        )
    }
}

} // verus!
