use fehler::context::{Cause, ContextError};
use fehler::exception::MessageError;
use fehler::{AsError, Backtrace, Context, Exception, Failure, HostError, TypeToken};

fn host(type_id: u64, text: &str) -> Failure {
    Failure::Host(HostError {
        type_id,
        display: text.to_string(),
        debug: format!("E {{ x: {:?} }}", text),
        source: None,
        backtrace: None,
    })
}

fn collect(e: &Exception) -> Vec<String> {
    let mut errors = e.errors();
    let mut out = Vec::new();
    while let Some(f) = errors.next() {
        out.push(f.display());
    }
    out
}

#[test]
fn size_of_exception() {
    assert_eq!(std::mem::size_of::<Exception>(), std::mem::size_of::<usize>());
}

fn assert_autotraits<T: Unpin + Send + Sync + 'static>() {}

#[test]
fn exception_autotraits() {
    assert_autotraits::<Exception>();
}

#[test]
fn downcast_gives_the_value_back() {
    let e = Exception::new(host(7, "x"));
    assert!(e.is(TypeToken::Host(7)));
    assert_eq!(e.downcast(TypeToken::Host(7)), Ok(host(7, "x")));
}

#[test]
fn downcast_to_another_type_keeps_the_exception() {
    let e = Exception::construct(host(7, "x"), TypeToken::Host(7), Backtrace::new("at f".to_string()));
    let e = match e.downcast(TypeToken::Host(8)) {
        Err(e) => e,
        Ok(_) => panic!("downcast to another type"),
    };
    let e = match e.downcast(TypeToken::Message) {
        Err(e) => e,
        Ok(_) => panic!("downcast to another type"),
    };
    assert!(e.is(TypeToken::Host(7)));
    assert_eq!(e.backtrace().frames(), "at f");
    assert_eq!(e.display(), "x");
    assert_eq!(e.downcast(TypeToken::Host(7)), Ok(host(7, "x")));
}

#[test]
fn downcast_ref_and_mut() {
    let mut e = Exception::new(host(7, "x"));
    assert_eq!(e.downcast_ref(TypeToken::Host(7)), Some(&host(7, "x")));
    assert_eq!(e.downcast_ref(TypeToken::Host(8)), None);
    assert!(e.downcast_mut(TypeToken::Context).is_none());
    match e.downcast_mut(TypeToken::Host(7)) {
        Some(Failure::Host(h)) => h.display = "y".to_string(),
        _ => panic!("no value of that type"),
    }
    assert_eq!(e.display(), "y");
    assert!(e.is(TypeToken::Host(7)));
}

#[test]
fn adhoc_message() {
    let e = Exception::new_adhoc("it \"broke\"".to_string());
    assert!(e.is(TypeToken::Message));
    assert!(!e.is(TypeToken::Host(0)));
    assert_eq!(e.display(), "it \"broke\"");
    assert_eq!(e.debug(), "\"it \\\"broke\\\"\"");
    assert!(e.as_error().source().is_none());
    assert_eq!(collect(&e), vec!["it \"broke\"".to_string()]);
    assert_eq!(
        e.downcast(TypeToken::Message),
        Ok(Failure::Message(MessageError("it \"broke\"".to_string())))
    );
}

#[test]
fn from_failure() {
    let e = Exception::from(host(3, "z"));
    assert!(e.is(TypeToken::Host(3)));
    assert_eq!(*e, host(3, "z"));
    assert_eq!(e.as_error(), &host(3, "z"));
    assert_eq!(host(3, "z").as_error(), &host(3, "z"));
}

#[test]
fn context_passes_success_through() {
    let ok: Result<i32, Failure> = Ok(5);
    assert_eq!(ok.context("reading".to_string()), Ok(5));
    let ok: Result<i32, Exception> = Ok(6);
    assert_eq!(ok.context("reading".to_string()), Ok(6));
}

#[test]
fn context_wraps_a_failure() {
    let failed: Result<(), Failure> = Err(host(7, "x"));
    let e = failed.context("outer".to_string()).unwrap_err();
    assert!(e.is(TypeToken::Context));
    assert_eq!(e.display(), "outer");
    assert_eq!(e.debug(), "E { x: \"x\" }\n\nouter");
    assert_eq!(e.as_error().source(), Some(&host(7, "x")));
    assert_eq!(
        e.downcast(TypeToken::Context),
        Ok(Failure::Context(Box::new(ContextError {
            error: Cause::Failure(host(7, "x")),
            context: "outer".to_string(),
        })))
    );
}

#[test]
fn chain_of_two_contexts() {
    let failed: Result<(), Failure> = Err(host(7, "E"));
    let inner = failed.context("inner".to_string());
    let outer = inner.context("outer".to_string()).unwrap_err();
    assert_eq!(collect(&outer), vec!["outer".to_string(), "inner".to_string(), "E".to_string()]);
    let mut errors = outer.errors();
    assert!(errors.next().is_some());
    assert!(errors.next().is_some());
    assert_eq!(errors.next(), Some(&host(7, "E")));
    assert_eq!(errors.next(), None);
    assert_eq!(errors.next(), None);
    assert_eq!(outer.debug(), "E { x: \"E\" }\n\ninner\n\nouter");
}

#[test]
fn chain_follows_the_source_of_a_host_error() {
    let root = host(1, "root");
    let top = Failure::Host(HostError {
        type_id: 2,
        display: "top".to_string(),
        debug: "Top".to_string(),
        source: Some(Box::new(root)),
        backtrace: None,
    });
    let e = Exception::new(top);
    assert_eq!(collect(&e), vec!["top".to_string(), "root".to_string()]);
}

#[test]
fn context_keeps_the_first_backtrace() {
    let first = Exception::construct(host(7, "x"), TypeToken::Host(7), Backtrace::new("at f".to_string()));
    let failed: Result<(), Exception> = Err(first);
    let e = failed.context("outer".to_string()).unwrap_err();
    assert_eq!(e.backtrace(), &Backtrace::new("at f".to_string()));
    assert_eq!(e.as_error().backtrace(), Some(&Backtrace::new("at f".to_string())));
    let again: Result<(), Exception> = Err(e);
    let e = again.context("outermost".to_string()).unwrap_err();
    assert_eq!(e.backtrace().frames(), "at f");
}

#[test]
fn context_error_presents_the_failure_underneath() {
    let carried = Failure::Host(HostError {
        type_id: 1,
        display: "d".to_string(),
        debug: "D".to_string(),
        source: None,
        backtrace: Some(Backtrace::new("at g".to_string())),
    });
    let c = ContextError { error: Cause::Failure(carried), context: "while h".to_string() };
    assert_eq!(c.display(), "while h");
    assert_eq!(c.debug(), "D\n\nwhile h");
    assert_eq!(c.backtrace().map(|b| b.frames()), Some("at g"));
    assert_eq!(c.source().map(|f| f.display()), Some("d".to_string()));
    assert_eq!(c.cause(), c.source());
    assert_eq!(Failure::Context(Box::new(c)).type_token(), TypeToken::Context);
}

#[test]
fn failure_without_backtrace_hands_out_none() {
    assert!(host(1, "a").backtrace().is_none());
    assert!(Failure::Message(MessageError("m".to_string())).backtrace().is_none());
    let c = ContextError { error: Cause::Failure(host(1, "a")), context: "c".to_string() };
    assert!(c.backtrace().is_none());
}

#[test]
fn deref_mut_changes_the_held_value_in_place() {
    let mut e = Exception::construct(host(7, "x"), TypeToken::Host(7), Backtrace::new("at f".to_string()));
    match &mut *e {
        Failure::Host(h) => h.display = "z".to_string(),
        _ => panic!("another kind of failure"),
    }
    assert_eq!(e.display(), "z");
    assert!(e.is(TypeToken::Host(7)));
    assert_eq!(e.backtrace().frames(), "at f");
}
