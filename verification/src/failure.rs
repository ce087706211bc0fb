//! Failure values: what a function hands back when it does not succeed.
//!
//! A failure is a value of a type of the host program, a message made on the
//! spot, or another failure with a narrative around it. Each presents itself
//! in two texts, names its type, and may name the failure that caused it.

use crate::as_error::AsError;
use crate::context::{Cause, ContextError};
use crate::exception::{Backtrace, MessageError};
use vstd::prelude::*;

verus! {

/// The identity of the type of a failure value.
#[derive(Clone, Copy, Debug, PartialEq, Eq, Structural)]
pub enum TypeToken {
    /// A type of the host program, by its number.
    Host(u64),
    /// The type of a message made on the spot.
    Message,
    /// The type of a failure with a narrative around it.
    Context,
}

/// A failure value of a type of the host program.
#[derive(Debug, PartialEq, Eq)]
pub struct HostError {
    /// The number of its type.
    pub type_id: u64,
    /// What it displays as.
    pub display: String,
    /// What it prints as when debugging.
    pub debug: String,
    /// The failure that caused it, if it names one.
    pub source: Option<Box<Failure>>,
    /// The backtrace that it carries, if any.
    pub backtrace: Option<Backtrace>,
}

/// A failure value.
#[derive(Debug, PartialEq, Eq)]
pub enum Failure {
    Host(HostError),
    Message(MessageError),
    Context(Box<ContextError>),
}

impl Failure {
    /// The identity of the type of this value.
    pub open spec fn token(self) -> TypeToken {
        match self {
            Failure::Host(h) => TypeToken::Host(h.type_id),
            Failure::Message(_) => TypeToken::Message,
            Failure::Context(_) => TypeToken::Context,
        }
    }

    /// The failure that caused this one, if it names one.
    pub open spec fn cause_of(self) -> Option<Failure> {
        match self {
            Failure::Host(h) => match h.source {
                Some(b) => Some(*b),
                None => None,
            },
            Failure::Message(_) => None,
            Failure::Context(c) => Some(c.error.failure()),
        }
    }

    /// The cause of a failure is a part of it.
    pub proof fn lemma_cause_is_inside(self)
        ensures
            self.cause_of() matches Some(c) ==> decreases_to!(self => c),
    {
        match self {
            Failure::Context(c) => {
                c.error.lemma_holds();
            },
            _ => {},
        }
    }

    /// This failure, the one that caused it, the one that caused that, and so
    /// on up to the first that names no cause.
    pub open spec fn chain(self) -> Seq<Failure>
        decreases self,
    {
        match self.cause_of() {
            Some(c) => {
                proof {
                    self.lemma_cause_is_inside();
                }
                seq![self] + c.chain()
            },
            None => seq![self],
        }
    }

    /// What this failure displays as.
    pub open spec fn display_text(self) -> Seq<char> {
        match self {
            Failure::Host(h) => h.display@,
            Failure::Message(m) => m.display_text(),
            Failure::Context(c) => c.context@,
        }
    }

    /// What this failure prints as when debugging.
    pub open spec fn debug_text(self) -> Seq<char>
        decreases self,
    {
        match self {
            Failure::Host(h) => h.debug@,
            Failure::Message(m) => m.debug_text(),
            Failure::Context(c) => {
                proof {
                    self.lemma_cause_is_inside();
                }
                c.error.failure().debug_text() + "\n\n"@ + c.context@
            },
        }
    }

    /// The backtrace that this failure hands out, if any.
    pub open spec fn backtrace_of(self) -> Option<Backtrace>
        decreases self,
    {
        match self {
            Failure::Host(h) => h.backtrace,
            Failure::Message(_) => None,
            Failure::Context(c) => match c.error {
                Cause::Failure(f) => f.backtrace_of(),
                Cause::Exception(e) => Some(e.captured()),
            },
        }
    }

    /// The identity of the type of this value.
    pub fn type_token(&self) -> (r: TypeToken)
        ensures
            r == self.token(),
    {
        match self {
            Failure::Host(h) => TypeToken::Host(h.type_id),
            Failure::Message(_) => TypeToken::Message,
            Failure::Context(_) => TypeToken::Context,
        }
    }

    /// What this failure displays as.
    pub fn display(&self) -> (r: String)
        ensures
            r@ == self.display_text(),
    {
        match self {
            Failure::Host(h) => h.display.clone(),
            Failure::Message(m) => m.display(),
            Failure::Context(c) => c.display(),
        }
    }

    /// What this failure prints as when debugging.
    pub fn debug(&self) -> (r: String)
        ensures
            r@ == self.debug_text(),
        decreases self,
    {
        match self {
            Failure::Host(h) => h.debug.clone(),
            Failure::Message(m) => m.debug(),
            Failure::Context(c) => {
                proof {
                    self.lemma_cause_is_inside();
                }
                let mut text = c.error.as_error().debug();
                text.append("\n\n");
                text.append(c.context.as_str());
                text
            },
        }
    }

    /// The failure that caused this one, if it names one.
    pub fn source(&self) -> (r: Option<&Failure>)
        ensures
            r == match self.cause_of() {
                Some(c) => Some(&c),
                None => None,
            },
    {
        match self {
            Failure::Host(h) => match &h.source {
                Some(b) => Some(&**b),
                None => None,
            },
            Failure::Message(_) => None,
            Failure::Context(c) => c.source(),
        }
    }

    /// The backtrace that this failure hands out, if any.
    pub fn backtrace(&self) -> (r: Option<&Backtrace>)
        ensures
            r == match self.backtrace_of() {
                Some(b) => Some(&b),
                None => None,
            },
        decreases self,
    {
        match self {
            Failure::Host(h) => h.backtrace.as_ref(),
            Failure::Message(_) => None,
            Failure::Context(c) => match &c.error {
                Cause::Failure(f) => f.backtrace(),
                Cause::Exception(e) => Some(e.backtrace()),
            },
        }
    }
}

} // verus!
