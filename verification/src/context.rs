//! Narrative around a failure.

use crate::as_error::AsError;
use crate::exception::{Backtrace, Exception};
use crate::failure::{Failure, TypeToken};
use vstd::prelude::*;

verus! {

/// What a narrative is wrapped around: a failure value, or an exception.
#[derive(Debug, PartialEq, Eq)]
pub enum Cause {
    Failure(Failure),
    Exception(Exception),
}

/// A failure with a narrative around it. The failure is its cause.
#[derive(Debug, PartialEq, Eq)]
pub struct ContextError {
    pub error: Cause,
    pub context: String,
}

impl Cause {
    /// The failure value: the one given, or the one that the exception holds.
    pub open spec fn failure(self) -> Failure {
        match self {
            Cause::Failure(f) => f,
            Cause::Exception(e) => e.failure(),
        }
    }

    /// The failure value is a part of what the narrative is wrapped around.
    pub proof fn lemma_holds(self)
        ensures
            decreases_to!(self => self.failure()),
    {
        match self {
            Cause::Failure(f) => {},
            Cause::Exception(e) => {
                e.lemma_holds();
            },
        }
    }
}

impl AsError for Cause {
    open spec fn error_of(&self) -> Failure {
        self.failure()
    }

    fn as_error(&self) -> (r: &Failure) {
        match self {
            Cause::Failure(f) => f,
            Cause::Exception(e) => e.as_error(),
        }
    }
}

/// The failure value that is `error` with the narrative `context` around it.
pub open spec fn with_context(error: Cause, context: String) -> Failure {
    Failure::Context(Box::new(ContextError { error, context }))
}

/// A narrative around a failure comes first in its chain, and the chain of
/// the failure follows.
pub proof fn lemma_context_chain(error: Cause, context: String)
    ensures
        with_context(error, context).chain() == seq![with_context(error, context)]
            + error.failure().chain(),
        with_context(error, context).display_text() == context@,
        with_context(error, context).token() == TypeToken::Context,
{
}

/// A failure with a narrative around it, held by an exception, with a second
/// narrative around that exception: the chain is the outer narrative, the
/// inner narrative, and the chain of the failure. Where the failure names no
/// cause, these are three, and no more.
pub proof fn lemma_two_contexts_chain(
    error: Failure,
    inner: String,
    held: Exception,
    outer: String,
)
    requires
        held.failure() == with_context(Cause::Failure(error), inner),
    ensures
        with_context(Cause::Exception(held), outer).chain() == seq![
            with_context(Cause::Exception(held), outer),
            with_context(Cause::Failure(error), inner),
        ] + error.chain(),
        error.cause_of() is None ==> with_context(Cause::Exception(held), outer).chain() == seq![
            with_context(Cause::Exception(held), outer),
            with_context(Cause::Failure(error), inner),
            error,
        ],
{
    lemma_context_chain(Cause::Exception(held), outer);
    lemma_context_chain(Cause::Failure(error), inner);
}

/// Provides the `context` method for outcomes.
pub trait Context<T> {
    /// Wraps the failure, if there is one, with a narrative.
    fn context(self, context: String) -> Result<T, Exception>;
}

impl<T> Context<T> for Result<T, Failure> {
    /// A success stays as it is. A failure becomes an exception that holds
    /// the narrative around the failure.
    fn context(self, context: String) -> (r: Result<T, Exception>)
        ensures
            self matches Ok(v) ==> r == Ok::<T, Exception>(v),
            self matches Err(e) ==> r is Err && r->Err_0.failure() == with_context(
                Cause::Failure(e),
                context,
            ) && r->Err_0.type_id() == TypeToken::Context && r->Err_0.well_formed(),
    {
        match self {
            Ok(v) => Ok(v),
            Err(error) => {
                let error = Cause::Failure(error);
                Err(Exception::from(Failure::Context(Box::new(ContextError { error, context }))))
            },
        }
    }
}

impl<T> Context<T> for Result<T, Exception> {
    /// A success stays as it is. An exception becomes an exception that
    /// holds the narrative around it, with the snapshot of the first.
    fn context(self, context: String) -> (r: Result<T, Exception>)
        ensures
            self matches Ok(v) ==> r == Ok::<T, Exception>(v),
            self matches Err(e) ==> r is Err && r->Err_0.failure() == with_context(
                Cause::Exception(e),
                context,
            ) && r->Err_0.type_id() == TypeToken::Context && r->Err_0.well_formed()
                && r->Err_0.captured() == e.captured(),
    {
        match self {
            Ok(v) => Ok(v),
            Err(error) => {
                let backtrace = error.backtrace().clone();
                Err(
                    Exception::construct(
                        Failure::Context(
                            Box::new(ContextError { error: Cause::Exception(error), context }),
                        ),
                        TypeToken::Context,
                        backtrace,
                    ),
                )
            },
        }
    }
}

impl ContextError {
    /// The narrative.
    pub fn display(&self) -> (r: String)
        ensures
            r@ == self.context@,
    {
        self.context.clone()
    }

    /// The failure underneath.
    pub fn source(&self) -> (r: Option<&Failure>)
        ensures
            r == Some(&self.error.failure()),
    {
        Some(self.error.as_error())
    }

    /// What the failure underneath prints as when debugging, an empty line,
    /// and the narrative.
    pub fn debug(&self) -> (r: String)
        ensures
            r@ == self.error.failure().debug_text() + "\n\n"@ + self.context@,
    {
        let mut text = self.error.as_error().debug();
        text.append("\n\n");
        text.append(self.context.as_str());
        text
    }

    /// The backtrace of the failure underneath: the snapshot of an exception,
    /// or what a failure value hands out.
    pub fn backtrace(&self) -> (r: Option<&Backtrace>)
        ensures
            r == match self.error {
                Cause::Failure(f) => match f.backtrace_of() {
                    Some(b) => Some(&b),
                    None => None,
                },
                Cause::Exception(e) => Some(&e.captured()),
            },
    {
        match &self.error {
            Cause::Failure(f) => f.backtrace(),
            Cause::Exception(e) => Some(e.backtrace()),
        }
    }

    /// The failure underneath.
    pub fn cause(&self) -> (r: Option<&Failure>)
        ensures
            r == Some(&self.error.failure()),
    {
        self.source()
    }
}

} // verus!
