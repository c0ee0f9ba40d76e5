use crate::error::{attached, Error};
use crate::sealed::Sealed;
use vstd::prelude::*;

verus! {

/// Attaches context to the failure arm of an outcome, as it propagates.
///
/// Only outcomes whose failure arm is this crate's [`Error`] carry it.
pub trait Context<T, E>: Sealed + Sized {
    /// Whether the outcome is a failure.
    spec fn is_failure(&self) -> bool;

    /// Leaves a success as it is; wraps a failure in a layer that displays as
    /// `context`.
    fn context(self, context: String) -> Result<T, Error>;

    /// As `context`, but the message is made by `f`, which is called only on a
    /// failure: on a success `f` need not even be callable.
    fn with_context<F>(self, f: F) -> Result<T, Error>
        where
            F: FnOnce() -> String,
        requires
            self.is_failure() ==> call_requires(f, ()),
    ;
}

impl<T> Context<T, Error> for Result<T, Error> {
    open spec fn is_failure(&self) -> bool {
        self is Err
    }

    fn context(self, context: String) -> (r: Result<T, Error>)
        ensures
            self is Ok ==> r == self,
            self is Err ==> r is Err && r->Err_0@ == attached(self->Err_0@, context@),
    {
        match self {
            Ok(ok) => Ok(ok),
            Err(error) => Err(error.context(context)),
        }
    }

    fn with_context<F>(self, f: F) -> (r: Result<T, Error>)
        where
            F: FnOnce() -> String,
        ensures
            self is Ok ==> r == self,
            self is Err ==> r is Err && exists|c: String|
                call_ensures(f, (), c) && r->Err_0@ == attached(self->Err_0@, c@),
    {
        match self {
            Ok(ok) => Ok(ok),
            Err(error) => {
                let c = f();
                Err(error.context(c))
            },
        }
    }
}

} // verus!
