//! The container of one failure value of any type.

use crate::failure::{Failure, TypeToken};
use vstd::prelude::*;

verus! {

/// What `{:?}` prints for a text: the text between quotes, with escapes.
pub uninterp spec fn debug_str(text: Seq<char>) -> Seq<char>;

/// `<str as Debug>::fmt` of std, through `format!`: the text as `{:?}` prints it.
#[verifier::external_body]
fn debug_string(text: &str) -> (r: String)
    ensures
        r@ == debug_str(text@),
{
    format!("{:?}", text)
}

/// `std::backtrace::Backtrace::capture`, as text. Whether anything is
/// captured depends on the environment, so nothing is claimed of the text.
#[verifier::external_body]
fn capture_frames() -> String {
    std::backtrace::Backtrace::capture().to_string()
}

/// A snapshot of the call stack, as text.
#[derive(Debug, PartialEq, Eq)]
pub struct Backtrace {
    frames: String,
}

impl Backtrace {
    /// The text of the snapshot.
    pub closed spec fn text(self) -> Seq<char> {
        self.frames@
    }

    /// A snapshot with the given text.
    pub fn new(frames: String) -> (r: Backtrace)
        ensures
            r.text() == frames@,
    {
        Backtrace { frames }
    }

    /// A snapshot of the call stack at this call.
    pub fn capture() -> Backtrace {
        Backtrace { frames: capture_frames() }
    }

    /// The text of the snapshot.
    pub fn frames(&self) -> (r: &str)
        ensures
            r@ == self.text(),
    {
        self.frames.as_str()
    }
}

impl Clone for Backtrace {
    fn clone(&self) -> (r: Self)
        ensures
            r == *self,
    {
        Backtrace { frames: self.frames.clone() }
    }
}

/// A message made on the spot, as a failure value. It names no cause.
#[derive(Debug, PartialEq, Eq)]
pub struct MessageError(pub String);

impl MessageError {
    /// The message.
    pub open spec fn display_text(self) -> Seq<char> {
        self.0@
    }

    /// The message as `{:?}` prints it.
    pub open spec fn debug_text(self) -> Seq<char> {
        debug_str(self.0@)
    }

    /// The message.
    pub fn display(&self) -> (r: String)
        ensures
            r@ == self.display_text(),
    {
        self.0.clone()
    }

    /// The message as `{:?}` prints it.
    pub fn debug(&self) -> (r: String)
        ensures
            r@ == self.debug_text(),
    {
        debug_string(self.0.as_str())
    }
}

/// The container of one failure value of any type.
#[derive(Debug, PartialEq, Eq)]
pub struct Exception {
    inner: Box<InnerException>,
}

#[derive(Debug, PartialEq, Eq)]
struct InnerException {
    type_id: TypeToken,
    backtrace: Backtrace,
    error: Failure,
}

impl InnerException {
    /// The held failure value.
    fn error(&self) -> (r: &Failure)
        ensures
            *r == self.error,
    {
        &self.error
    }

    /// The held failure value, to be changed in place.
    fn error_mut(&mut self) -> (r: &mut Failure)
        ensures
            *r == old(self).error,
            *final(self) == (InnerException { error: *final(r), ..*old(self) }),
    {
        &mut self.error
    }
}

/// The failures from one on, each the cause of the one before.
pub struct Errors<'a> {
    next: Option<&'a Failure>,
}

impl Exception {
    /// The failure value that the container holds.
    pub closed spec fn failure(self) -> Failure {
        self.inner.error
    }

    /// The identity of a type that the container keeps beside the value.
    pub closed spec fn type_id(self) -> TypeToken {
        self.inner.type_id
    }

    /// The snapshot that the container keeps.
    pub closed spec fn captured(self) -> Backtrace {
        self.inner.backtrace
    }

    /// The identity that the container keeps is that of the type of its value.
    pub open spec fn well_formed(self) -> bool {
        self.type_id() == self.failure().token()
    }

    /// The held value is a part of the container.
    pub proof fn lemma_holds(self)
        ensures
            decreases_to!(self => self.failure()),
    {
    }

    /// A container of `error`, with a snapshot of the call stack at this call.
    pub fn new(error: Failure) -> (r: Exception)
        ensures
            r.failure() == error,
            r.type_id() == error.token(),
            r.well_formed(),
    {
        let type_id = error.type_token();
        Exception::construct(error, type_id, Backtrace::capture())
    }

    /// A container of a message made on the spot.
    pub fn new_adhoc(message: String) -> (r: Exception)
        ensures
            r.failure() == Failure::Message(MessageError(message)),
            r.type_id() == TypeToken::Message,
            r.well_formed(),
    {
        Exception::construct(
            Failure::Message(MessageError(message)),
            TypeToken::Message,
            Backtrace::capture(),
        )
    }

    /// A container of `error` with the given identity and snapshot.
    pub fn construct(error: Failure, type_id: TypeToken, backtrace: Backtrace) -> (r: Exception)
        ensures
            r.failure() == error,
            r.type_id() == type_id,
            r.captured() == backtrace,
    {
        Exception { inner: Box::new(InnerException { type_id, backtrace, error }) }
    }

    /// The snapshot taken when the container was made.
    pub fn backtrace(&self) -> (r: &Backtrace)
        ensures
            *r == self.captured(),
    {
        &self.inner.backtrace
    }

    /// The failures from the held one on, each the cause of the one before.
    pub fn errors(&self) -> (r: Errors<'_>)
        ensures
            r.remaining() == self.failure().chain(),
    {
        Errors { next: Some(self.inner.error()) }
    }

    /// Whether the held value is of the type with the given identity.
    pub fn is(&self, token: TypeToken) -> (r: bool)
        ensures
            r == (self.type_id() == token),
    {
        self.inner.type_id == token
    }

    /// What taking the held value out gives: the value, if the container
    /// keeps the given identity; else the container as it is.
    pub open spec fn downcast_of(self, token: TypeToken) -> Result<Failure, Exception> {
        if self.type_id() == token {
            Ok(self.failure())
        } else {
            Err(self)
        }
    }

    /// A container gives back the value that was put into it, when asked for
    /// the type of that value. Asked for another type, it stays as it is,
    /// and can be asked again.
    pub proof fn lemma_downcast_round_trip(self, other: TypeToken)
        requires
            self.well_formed(),
            other != self.failure().token(),
        ensures
            self.downcast_of(self.failure().token()) == Ok::<Failure, Exception>(self.failure()),
            self.downcast_of(other) == Err::<Failure, Exception>(self),
            self.downcast_of(other)->Err_0.downcast_of(self.failure().token()) == Ok::<
                Failure,
                Exception,
            >(self.failure()),
    {
    }

    /// Takes the held value out, if it is of the type with the given
    /// identity; else hands the container back as it is.
    pub fn downcast(self, token: TypeToken) -> (r: Result<Failure, Exception>)
        ensures
            r == self.downcast_of(token),
    {
        if self.is(token) {
            let inner = *self.inner;
            Ok(inner.error)
        } else {
            Err(self)
        }
    }

    /// The held value, if it is of the type with the given identity.
    pub fn downcast_ref(&self, token: TypeToken) -> (r: Option<&Failure>)
        ensures
            self.type_id() == token ==> r == Some(&self.failure()),
            self.type_id() != token ==> r is None,
    {
        if self.is(token) {
            Some(self.inner.error())
        } else {
            None
        }
    }

    /// The held value, to be changed in place, if it is of the type with the
    /// given identity. The identity and the snapshot that the container keeps
    /// stay as they are.
    pub fn downcast_mut(&mut self, token: TypeToken) -> (r: Option<&mut Failure>)
        ensures
            old(self).type_id() != token ==> r is None && *final(self) == *old(self),
            old(self).type_id() == token ==> r is Some && *r->Some_0 == old(self).failure()
                && final(self).failure() == *final(r->Some_0) && final(self).type_id() == token
                && final(self).captured() == old(self).captured(),
    {
        if self.is(token) {
            Some(self.inner.error_mut())
        } else {
            None
        }
    }

    /// What the held value displays as.
    pub fn display(&self) -> (r: String)
        ensures
            r@ == self.failure().display_text(),
    {
        self.inner.error().display()
    }

    /// What the held value prints as when debugging.
    pub fn debug(&self) -> (r: String)
        ensures
            r@ == self.failure().debug_text(),
    {
        self.inner.error().debug()
    }
}

impl From<Failure> for Exception {
    /// A container of `error`, as `Exception::new` makes it.
    fn from(error: Failure) -> (r: Exception)
        ensures
            r.failure() == error,
            r.type_id() == error.token(),
            r.well_formed(),
    {
        Exception::new(error)
    }
}

impl vstd::std_specs::convert::FromSpecImpl<Failure> for Exception {
    /// The container keeps a snapshot of the call stack, so two conversions
    /// of one value need not be equal.
    open spec fn obeys_from_spec() -> bool {
        false
    }

    open spec fn from_spec(v: Failure) -> Exception {
        arbitrary()
    }
}

impl core::ops::Deref for Exception {
    type Target = Failure;

    /// The held failure value.
    fn deref(&self) -> (r: &Failure)
        ensures
            *r == self.failure(),
    {
        self.inner.error()
    }
}

impl core::ops::DerefMut for Exception {
    /// The held failure value, to be changed in place.
    fn deref_mut(&mut self) -> (r: &mut Failure)
        ensures
            *r == old(self).failure(),
            final(self).failure() == *final(r),
            final(self).type_id() == old(self).type_id(),
            final(self).captured() == old(self).captured(),
    {
        self.inner.error_mut()
    }
}

impl<'a> Errors<'a> {
    /// The failures that are still to come, in order.
    pub closed spec fn remaining(self) -> Seq<Failure> {
        match self.next {
            Some(f) => f.chain(),
            None => Seq::empty(),
        }
    }

    /// The next failure, if there is one. The one after it is its cause.
    pub fn next(&mut self) -> (r: Option<&'a Failure>)
        ensures
            old(self).remaining().len() == 0 ==> r is None && final(self).remaining().len() == 0,
            old(self).remaining().len() > 0 ==> r == Some(&old(self).remaining()[0])
                && final(self).remaining() == old(self).remaining().skip(1),
    {
        match self.next {
            None => None,
            Some(f) => {
                self.next = f.source();
                Some(f)
            },
        }
    }
}

} // verus!
