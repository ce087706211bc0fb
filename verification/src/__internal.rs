//! What rewritten code calls to make an outcome.

use core::task::Poll;
use vstd::prelude::*;

verus! {

/// `core::task::Poll`, with its two variants.
#[verifier::external_type_specification]
#[verifier::reject_recursive_types(T)]
pub struct ExPoll<T>(Poll<T>);

/// An outcome type that can hold a success.
pub trait _Succeed: Sized {
    type Ok;

    /// The success outcome that holds `ok`.
    fn from_ok(ok: Self::Ok) -> Self;
}

/// An outcome type that can hold a failure.
pub trait _Throw: Sized {
    type Error;

    /// The failure outcome that holds `error`.
    fn from_error(error: Self::Error) -> Self;
}

impl<T, E> _Succeed for Result<T, E> {
    type Ok = T;

    fn from_ok(ok: T) -> (r: Self)
        ensures
            r == Ok::<T, E>(ok),
    {
        Ok(ok)
    }
}

impl<T, E> _Throw for Result<T, E> {
    type Error = E;

    fn from_error(error: Self::Error) -> (r: Self)
        ensures
            r == Err::<T, E>(error),
    {
        Err(error)
    }
}

impl<T> _Succeed for Option<T> {
    type Ok = T;

    fn from_ok(ok: Self::Ok) -> (r: Self)
        ensures
            r == Some(ok),
    {
        Some(ok)
    }
}

impl<T, E> _Succeed for Poll<Result<T, E>> {
    type Ok = Poll<T>;

    fn from_ok(ok: Self::Ok) -> (r: Self)
        ensures
            r == match ok {
                Poll::Ready(v) => Poll::Ready(Ok::<T, E>(v)),
                Poll::Pending => Poll::Pending,
            },
    {
        match ok {
            Poll::Ready(ok) => Poll::Ready(Ok(ok)),
            Poll::Pending => Poll::Pending,
        }
    }
}

impl<T, E> _Throw for Poll<Result<T, E>> {
    type Error = E;

    fn from_error(error: Self::Error) -> (r: Self)
        ensures
            r == Poll::Ready(Err::<T, E>(error)),
    {
        Poll::Ready(Err(error))
    }
}

impl<T, E> _Succeed for Poll<Option<Result<T, E>>> {
    type Ok = Poll<Option<T>>;

    fn from_ok(ok: Self::Ok) -> (r: Self)
        ensures
            r == match ok {
                Poll::Ready(Some(v)) => Poll::Ready(Some(Ok::<T, E>(v))),
                Poll::Ready(None) => Poll::Ready(None),
                Poll::Pending => Poll::Pending,
            },
    {
        match ok {
            Poll::Ready(Some(ok)) => Poll::Ready(Some(Ok(ok))),
            Poll::Ready(None) => Poll::Ready(None),
            Poll::Pending => Poll::Pending,
        }
    }
}

impl<T, E> _Throw for Poll<Option<Result<T, E>>> {
    type Error = E;

    fn from_error(error: Self::Error) -> (r: Self)
        ensures
            r == Poll::Ready(Some(Err::<T, E>(error))),
    {
        Poll::Ready(Some(Err(error)))
    }
}

} // verus!
