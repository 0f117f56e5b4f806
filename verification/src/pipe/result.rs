//! Operators on `Result` and `Option` values: unwrapping, defaults and
//! conversions.

use vstd::prelude::*;

use super::source::{Applied, Operator, Pipe, Source};

verus! {

/// Takes the value out of an `Ok` (the value must be `Ok`).
pub struct Unwrap;

impl<T, E: std::fmt::Debug> Operator<Result<T, E>> for Unwrap {
    type Output = T;

    open spec fn accepts(&self, input: Result<T, E>) -> bool {
        input is Ok
    }

    open spec fn produces(&self, input: Result<T, E>, output: T) -> bool {
        input == Ok::<T, E>(output)
    }

    fn eval(self, input: Result<T, E>) -> (r: T) {
        input.unwrap()
    }
}

/// Takes the value out of an `Ok`, failing with a message on `Err` (the
/// value must be `Ok`).
pub struct Expect {
    message: &'static str,
}

impl Expect {
    pub fn new(message: &'static str) -> (e: Self)
        ensures
            e.message() == message,
    {
        Expect { message }
    }

    pub closed spec fn message(&self) -> &'static str {
        self.message
    }
}

impl<T, E: std::fmt::Debug> Operator<Result<T, E>> for Expect {
    type Output = T;

    open spec fn accepts(&self, input: Result<T, E>) -> bool {
        input is Ok
    }

    open spec fn produces(&self, input: Result<T, E>, output: T) -> bool {
        input == Ok::<T, E>(output)
    }

    fn eval(self, input: Result<T, E>) -> (r: T) {
        input.expect(self.message)
    }
}

/// The value of an `Ok`, or a default for an `Err`.
pub struct UnwrapOr<T> {
    default: T,
}

impl<T> UnwrapOr<T> {
    pub fn new(default: T) -> (u: Self)
        ensures
            u.default() == default,
    {
        UnwrapOr { default }
    }

    pub closed spec fn default(&self) -> T {
        self.default
    }
}

impl<T, E> Operator<Result<T, E>> for UnwrapOr<T> {
    type Output = T;

    open spec fn accepts(&self, input: Result<T, E>) -> bool {
        true
    }

    open spec fn produces(&self, input: Result<T, E>, output: T) -> bool {
        output == match input {
            Ok(v) => v,
            Err(_) => self.default(),
        }
    }

    fn eval(self, input: Result<T, E>) -> (r: T) {
        match input {
            Ok(v) => v,
            Err(_) => self.default,
        }
    }
}

/// The value of an `Ok`, or what a function makes of the error.
pub struct UnwrapOrElse<F> {
    default_fn: F,
}

impl<F> UnwrapOrElse<F> {
    pub fn new(default_fn: F) -> (u: Self)
        ensures
            u.default_fn() == default_fn,
    {
        UnwrapOrElse { default_fn }
    }

    pub closed spec fn default_fn(&self) -> F {
        self.default_fn
    }
}

impl<T, E, F: FnOnce(E) -> T> Operator<Result<T, E>> for UnwrapOrElse<F> {
    type Output = T;

    open spec fn accepts(&self, input: Result<T, E>) -> bool {
        input matches Err(e) ==> call_requires(self.default_fn(), (e,))
    }

    open spec fn produces(&self, input: Result<T, E>, output: T) -> bool {
        match input {
            Ok(v) => output == v,
            Err(e) => call_ensures(self.default_fn(), (e,), output),
        }
    }

    fn eval(self, input: Result<T, E>) -> (r: T) {
        match input {
            Ok(v) => v,
            Err(e) => (self.default_fn)(e),
        }
    }
}

/// The value of an `Ok` as `Some`; `None` for an `Err`.
pub struct ResultOk;

impl<T, E> Operator<Result<T, E>> for ResultOk {
    type Output = Option<T>;

    open spec fn accepts(&self, input: Result<T, E>) -> bool {
        true
    }

    open spec fn produces(&self, input: Result<T, E>, output: Option<T>) -> bool {
        output == match input {
            Ok(v) => Some(v),
            Err(_) => None,
        }
    }

    fn eval(self, input: Result<T, E>) -> (r: Option<T>) {
        match input {
            Ok(v) => Some(v),
            Err(_) => None,
        }
    }
}

/// Operators on `Result` values for anything they can be piped onto.
pub trait ResultPipe<T, E>: Pipe<Result<T, E>> {
    /// The value of an `Ok` (every value it may produce must be `Ok`).
    fn unwrap(self) -> (r: Source<T, Applied<Result<T, E>, Self::Upstream, Unwrap>>)
        where E: std::fmt::Debug,
        requires
            self.ready(),
            forall|v: Result<T, E>| self.yields(v) ==> v is Ok,
        ensures
            r.is_deferred(),
            forall|w: T| r.gives(w) <==> (self.yields(Ok(w))),
    {
        self.pipe(Unwrap)
    }

    /// The value of an `Ok`, failing with `message` on `Err` (every value it
    /// may produce must be `Ok`).
    fn expect(self, message: &'static str) -> (r: Source<T, Applied<Result<T, E>, Self::Upstream, Expect>>)
        where E: std::fmt::Debug,
        requires
            self.ready(),
            forall|v: Result<T, E>| self.yields(v) ==> v is Ok,
        ensures
            r.is_deferred(),
            forall|w: T| r.gives(w) <==> (self.yields(Ok(w))),
    {
        self.pipe(Expect::new(message))
    }

    /// The value of an `Ok`, or `default`.
    fn unwrap_or(self, default: T) -> (r: Source<T, Applied<Result<T, E>, Self::Upstream, UnwrapOr<T>>>)
        requires
            self.ready(),
        ensures
            r.is_deferred(),
            forall|w: T| r.gives(w) <==> (exists|v: Result<T, E>| self.yields(v) && w == match v {
                Ok(x) => x,
                Err(_) => default,
            }),
    {
        self.pipe(UnwrapOr::new(default))
    }

    /// The value of an `Ok`, or what `f` makes of the error.
    fn unwrap_or_else<F: FnOnce(E) -> T>(self, f: F) -> (r: Source<T, Applied<Result<T, E>, Self::Upstream, UnwrapOrElse<F>>>)
        requires
            self.ready(),
            forall|v: Result<T, E>| self.yields(v) ==> (v matches Err(e) ==> call_requires(f, (e,))),
        ensures
            r.is_deferred(),
            forall|w: T| r.gives(w) <==> (exists|v: Result<T, E>| self.yields(v) && match v {
                Ok(x) => w == x,
                Err(e) => call_ensures(f, (e,), w),
            }),
    {
        self.pipe(UnwrapOrElse::new(f))
    }

    /// `Some` value of an `Ok`, `None` for an `Err`.
    fn ok(self) -> (r: Source<Option<T>, Applied<Result<T, E>, Self::Upstream, ResultOk>>)
        requires
            self.ready(),
        ensures
            r.is_deferred(),
            forall|w: Option<T>| r.gives(w) <==> (exists|v: Result<T, E>| self.yields(v) && w == match v {
                Ok(x) => Some(x),
                Err(_) => None,
            }),
    {
        self.pipe(ResultOk)
    }
}

impl<T, E, S: Pipe<Result<T, E>>> ResultPipe<T, E> for S {}

/// Takes the value out of a `Some` (the value must be `Some`).
pub struct OptionUnwrap;

impl<T> Operator<Option<T>> for OptionUnwrap {
    type Output = T;

    open spec fn accepts(&self, input: Option<T>) -> bool {
        input is Some
    }

    open spec fn produces(&self, input: Option<T>, output: T) -> bool {
        input == Some(output)
    }

    fn eval(self, input: Option<T>) -> (r: T) {
        input.unwrap()
    }
}

/// Takes the value out of a `Some`, failing with a message on `None` (the
/// value must be `Some`).
pub struct OptionExpect {
    message: &'static str,
}

impl OptionExpect {
    pub fn new(message: &'static str) -> (e: Self)
        ensures
            e.message() == message,
    {
        OptionExpect { message }
    }

    pub closed spec fn message(&self) -> &'static str {
        self.message
    }
}

impl<T> Operator<Option<T>> for OptionExpect {
    type Output = T;

    open spec fn accepts(&self, input: Option<T>) -> bool {
        input is Some
    }

    open spec fn produces(&self, input: Option<T>, output: T) -> bool {
        input == Some(output)
    }

    fn eval(self, input: Option<T>) -> (r: T) {
        input.expect(self.message)
    }
}

/// The value of a `Some`, or a default for `None`.
pub struct OptionUnwrapOr<T> {
    default: T,
}

impl<T> OptionUnwrapOr<T> {
    pub fn new(default: T) -> (u: Self)
        ensures
            u.default() == default,
    {
        OptionUnwrapOr { default }
    }

    pub closed spec fn default(&self) -> T {
        self.default
    }
}

impl<T> Operator<Option<T>> for OptionUnwrapOr<T> {
    type Output = T;

    open spec fn accepts(&self, input: Option<T>) -> bool {
        true
    }

    open spec fn produces(&self, input: Option<T>, output: T) -> bool {
        output == match input {
            Some(v) => v,
            None => self.default(),
        }
    }

    fn eval(self, input: Option<T>) -> (r: T) {
        match input {
            Some(v) => v,
            None => self.default,
        }
    }
}

/// The value of a `Some`, or what a function makes for `None`.
pub struct OptionUnwrapOrElse<F> {
    default_fn: F,
}

impl<F> OptionUnwrapOrElse<F> {
    pub fn new(default_fn: F) -> (u: Self)
        ensures
            u.default_fn() == default_fn,
    {
        OptionUnwrapOrElse { default_fn }
    }

    pub closed spec fn default_fn(&self) -> F {
        self.default_fn
    }
}

impl<T, F: FnOnce() -> T> Operator<Option<T>> for OptionUnwrapOrElse<F> {
    type Output = T;

    open spec fn accepts(&self, input: Option<T>) -> bool {
        input is None ==> call_requires(self.default_fn(), ())
    }

    open spec fn produces(&self, input: Option<T>, output: T) -> bool {
        match input {
            Some(v) => output == v,
            None => call_ensures(self.default_fn(), (), output),
        }
    }

    fn eval(self, input: Option<T>) -> (r: T) {
        match input {
            Some(v) => v,
            None => (self.default_fn)(),
        }
    }
}

/// `Ok` with the value of a `Some`, or `Err` with an error for `None`.
pub struct OptionOkOr<E> {
    error: E,
}

impl<E> OptionOkOr<E> {
    pub fn new(error: E) -> (o: Self)
        ensures
            o.error() == error,
    {
        OptionOkOr { error }
    }

    pub closed spec fn error(&self) -> E {
        self.error
    }
}

impl<T, E> Operator<Option<T>> for OptionOkOr<E> {
    type Output = Result<T, E>;

    open spec fn accepts(&self, input: Option<T>) -> bool {
        true
    }

    open spec fn produces(&self, input: Option<T>, output: Result<T, E>) -> bool {
        output == match input {
            Some(v) => Ok(v),
            None => Err(self.error()),
        }
    }

    fn eval(self, input: Option<T>) -> (r: Result<T, E>) {
        match input {
            Some(v) => Ok(v),
            None => Err(self.error),
        }
    }
}

/// Operators on `Option` values for anything they can be piped onto.
pub trait OptionPipe<T>: Pipe<Option<T>> {
    /// The value of a `Some` (every value it may produce must be `Some`).
    fn unwrap(self) -> (r: Source<T, Applied<Option<T>, Self::Upstream, OptionUnwrap>>)
        requires
            self.ready(),
            forall|v: Option<T>| self.yields(v) ==> v is Some,
        ensures
            r.is_deferred(),
            forall|w: T| r.gives(w) <==> (self.yields(Some(w))),
    {
        self.pipe(OptionUnwrap)
    }

    /// The value of a `Some`, failing with `message` on `None` (every value
    /// it may produce must be `Some`).
    fn expect(self, message: &'static str) -> (r: Source<T, Applied<Option<T>, Self::Upstream, OptionExpect>>)
        requires
            self.ready(),
            forall|v: Option<T>| self.yields(v) ==> v is Some,
        ensures
            r.is_deferred(),
            forall|w: T| r.gives(w) <==> (self.yields(Some(w))),
    {
        self.pipe(OptionExpect::new(message))
    }

    /// The value of a `Some`, or `default`.
    fn unwrap_or(self, default: T) -> (r: Source<T, Applied<Option<T>, Self::Upstream, OptionUnwrapOr<T>>>)
        requires
            self.ready(),
        ensures
            r.is_deferred(),
            forall|w: T| r.gives(w) <==> (exists|v: Option<T>| self.yields(v) && w == match v {
                Some(x) => x,
                None => default,
            }),
    {
        self.pipe(OptionUnwrapOr::new(default))
    }

    /// The value of a `Some`, or what `f` makes for `None`.
    fn unwrap_or_else<F: FnOnce() -> T>(self, f: F) -> (r: Source<T, Applied<Option<T>, Self::Upstream, OptionUnwrapOrElse<F>>>)
        requires
            self.ready(),
            forall|v: Option<T>| self.yields(v) ==> (v is None ==> call_requires(f, ())),
        ensures
            r.is_deferred(),
            forall|w: T| r.gives(w) <==> (exists|v: Option<T>| self.yields(v) && match v {
                Some(x) => w == x,
                None => call_ensures(f, (), w),
            }),
    {
        self.pipe(OptionUnwrapOrElse::new(f))
    }

    /// `Ok` with the value of a `Some`, or `Err(error)`.
    fn ok_or<E>(self, error: E) -> (r: Source<Result<T, E>, Applied<Option<T>, Self::Upstream, OptionOkOr<E>>>)
        requires
            self.ready(),
        ensures
            r.is_deferred(),
            forall|w: Result<T, E>| r.gives(w) <==> (exists|v: Option<T>| self.yields(v) && w == match v {
                Some(x) => Ok(x),
                None => Err(error),
            }),
    {
        self.pipe(OptionOkOr::new(error))
    }
}

impl<T, S: Pipe<Option<T>>> OptionPipe<T> for S {}

} // verus!
