use fehler::__internal::{_Succeed, _Throw};

// `#[throws(i32)] fn no_std_fn() { throw!(0); }`, as it is rewritten.
fn no_std_fn() -> Result<(), i32> {
    return <_ as _Throw>::from_error(From::from(0));
    #[allow(unreachable_code)]
    <_ as _Succeed>::from_ok(())
}

#[test]
fn test_expansion() {
    assert_eq!(Err(0), no_std_fn());
}

// `#[throws(as Option)] fn foo(x: bool) -> i32 { if x { throw!(); } 0 }`, as it is rewritten.
fn foo(x: bool) -> Option<i32> {
    if x {
        return <_ as Default>::default();
    }
    <_ as _Succeed>::from_ok(0)
}

#[test]
fn test_outcome_true() {
    assert!(foo(true).is_none())
}

#[test]
fn test_outcome_false() {
    assert_eq!(Some(0), foo(false))
}

#[test]
fn throw_works() {
    fn foo() -> Result<(), i32> {
        return <_ as _Throw>::from_error(From::from(0));
    }
    assert_eq!(foo(), Err(0));
}

#[test]
fn throw_infers_ok_type() {
    fn foo(b: bool) -> Result<i32, ()> {
        let x = if b {
            0
        } else {
            return <_ as _Throw>::from_error(From::from(()));
        };
        Ok(x)
    }

    assert_eq!(foo(true), Ok(0));
    assert_eq!(foo(false), Err(()));
}

#[test]
fn from_ok_and_from_error() {
    assert_eq!(<Result<i32, ()> as _Succeed>::from_ok(1), Ok(1));
    assert_eq!(<Result<(), i32> as _Throw>::from_error(2), Err(2));
    assert_eq!(<Option<i32> as _Succeed>::from_ok(3), Some(3));
}

#[test]
fn poll_outcomes() {
    use_poll();
}

fn use_poll() {
    type Ready = std::task::Poll<Result<i32, u8>>;
    assert_eq!(<Ready as _Succeed>::from_ok(std::task::Poll::Ready(1)), std::task::Poll::Ready(Ok(1)));
    assert_eq!(<Ready as _Succeed>::from_ok(std::task::Poll::Pending), std::task::Poll::Pending);
    assert_eq!(<Ready as _Throw>::from_error(2), std::task::Poll::Ready(Err(2)));
    type Next = std::task::Poll<Option<Result<i32, u8>>>;
    assert_eq!(
        <Next as _Succeed>::from_ok(std::task::Poll::Ready(Some(1))),
        std::task::Poll::Ready(Some(Ok(1)))
    );
    assert_eq!(<Next as _Succeed>::from_ok(std::task::Poll::Ready(None)), std::task::Poll::Ready(None));
    assert_eq!(<Next as _Succeed>::from_ok(std::task::Poll::Pending), std::task::Poll::Pending);
    assert_eq!(<Next as _Throw>::from_error(2), std::task::Poll::Ready(Some(Err(2))));
}
