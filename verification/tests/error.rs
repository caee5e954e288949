use std::error::Error;
use std::fmt::{self, Display};

use typederror::{Context, DefaultError, IntoTError, TError};

#[derive(Debug)]
enum MyError {
    One,
    Two(Box<dyn Error + Send + Sync + 'static>),
    Three(std::io::Error),
}

impl Display for MyError {
    fn fmt(&self, f: &mut fmt::Formatter<'_>) -> fmt::Result {
        match self {
            MyError::One => f.write_str("something went wrong"),
            MyError::Two(_) => f.write_str("Error two"),
            MyError::Three(e) => {
                f.write_str("io error: ")?;
                Display::fmt(e, f)
            }
        }
    }
}

impl Error for MyError {}

impl From<std::io::Error> for MyError {
    fn from(e: std::io::Error) -> Self {
        MyError::Three(e)
    }
}

impl DefaultError for MyError {
    fn from_anyhow(err: anyhow::Error) -> Self {
        MyError::Two(err.into())
    }
}

#[derive(Debug, PartialEq)]
struct OtherError;

impl Display for OtherError {
    fn fmt(&self, f: &mut fmt::Formatter<'_>) -> fmt::Result {
        f.write_str("OtherError")
    }
}

impl Error for OtherError {}

fn do_other_task(fail: bool) -> Result<(), OtherError> {
    if fail {
        Err(OtherError)
    } else {
        Ok(())
    }
}

fn fallible_fn(other: bool) -> Result<(), TError<MyError>> {
    do_other_task(other)?;

    Err(MyError::One).context("failed")
}

fn missing_file() -> Result<String, std::io::Error> {
    Err(std::io::Error::new(
        std::io::ErrorKind::NotFound,
        "/invalid-dir-doesnt-exist",
    ))
}

#[test]
fn test_err() {
    let err = fallible_fn(false).unwrap_err();
    assert!(matches!(err.get_ref(), Some(&MyError::One)));
    assert_eq!(err.to_string(), "failed");

    let e2 = err
        .context("add more context")
        .context("and even more context");

    assert!(matches!(e2.get_ref(), Some(&MyError::One)));

    // A frame is text: a value handed in as context shows in the summary and
    // leaves the classification of the root cause alone.
    let e3 = e2.context(&MyError::Two(anyhow::Error::msg("other error").into()).to_string());
    assert!(matches!(e3.get_ref(), Some(&MyError::One)));
    assert_eq!(e3.to_string(), "Error two");

    let err = fallible_fn(true).unwrap_err();
    assert!(matches!(err.get_ref(), None));
    assert_eq!(err.downcast_ref(), Some(&OtherError));
    assert!(matches!(err.get(), MyError::Two(_))); // We got some other error.
}

#[test]
fn test_terror() {
    // Using the `.terror()` method, we can convert into `MyError` instead of `std::io::Error`.
    let err: TError<MyError> = missing_file().terror().unwrap_err();
    assert!(matches!(err.get_ref(), Some(&MyError::Three(_))));
}

#[test]
fn terror_passes_success_through() {
    let ok: Result<u32, std::io::Error> = Ok(7);
    let lifted: Result<u32, TError<MyError>> = ok.terror();
    assert!(matches!(lifted, Ok(7)));
}

#[test]
fn terror_keeps_the_converted_message() {
    let err: TError<MyError> = missing_file().terror().unwrap_err();
    assert_eq!(err.to_string(), "io error: /invalid-dir-doesnt-exist");
    assert_eq!(err.layers(), vec!["io error: /invalid-dir-doesnt-exist".to_string()]);
    assert!(err.downcast_ref::<std::io::Error>().is_none());
}

#[test]
fn lift_then_fail_with_primary_variant() {
    fn run() -> Result<(), TError<MyError>> {
        let lifted: Result<String, TError<MyError>> = missing_file().terror();
        let _text = lifted.unwrap_or_default();
        Err(MyError::One).context("failed")
    }
    let err = run().unwrap_err();
    assert_eq!(err.to_string(), "failed");
    assert!(matches!(err.get_ref(), Some(&MyError::One)));
    assert!(err.downcast_ref::<std::io::Error>().is_none());
}

#[test]
fn raw_io_failure_is_classified_by_get() {
    fn lifted() -> Result<String, TError<MyError>> {
        let text = missing_file().terror()?;
        Ok(text)
    }
    fn raw() -> Result<String, TError<MyError>> {
        let text = missing_file()?;
        Ok(text)
    }
    assert!(matches!(lifted().unwrap_err().get(), MyError::Three(_)));

    let err = raw().unwrap_err();
    assert!(err.get_ref().is_none());
    assert!(err.downcast_ref::<std::io::Error>().is_some());
    assert!(matches!(err.get(), MyError::Two(_)));
}

#[test]
fn question_mark_erases_the_failure() {
    let err = fallible_fn(true).unwrap_err();
    assert_eq!(err.to_string(), "OtherError");
    assert_eq!(err.layers(), vec!["OtherError".to_string()]);
    assert_eq!(err.downcast::<OtherError>().ok(), Some(OtherError));
}

#[test]
fn from_msg_builds_a_plain_message() {
    let err: TError<MyError> = TError::from_msg("fake error");
    assert_eq!(err.to_string(), "fake error");
    assert_eq!(err.layers(), vec!["fake error".to_string()]);
    assert_eq!(err.to_debug_string(), "fake error");
    assert_eq!(err.downcast_ref::<String>(), Some(&"fake error".to_string()));
    assert!(err.get_ref().is_none());
}

#[test]
fn from_anyhow_keeps_the_error_as_root() {
    let inner = anyhow::Error::new(OtherError).context("while working");
    let err: TError<MyError> = TError::from_anyhow(inner);
    assert_eq!(err.to_string(), "while working");
    assert_eq!(
        err.layers(),
        vec!["while working".to_string(), "OtherError".to_string()]
    );
    assert_eq!(err.downcast_ref::<OtherError>(), Some(&OtherError));
}

#[test]
fn newest_context_wins() {
    let err: TError<MyError> = TError::from(OtherError).context("c1").context("c2");
    assert_eq!(err.to_string(), "c2");
    assert_eq!(
        err.layers(),
        vec!["c2".to_string(), "c1".to_string(), "OtherError".to_string()]
    );
    assert_eq!(err.to_debug_string(), "c2\nc1\nOtherError");
}

#[test]
fn context_never_hides_the_root_cause() {
    let err: TError<MyError> = TError::from(MyError::One);
    assert!(matches!(err.get_ref(), Some(&MyError::One)));
    let frame = MyError::Three(std::io::Error::new(std::io::ErrorKind::Other, "disk"));
    let err = err.context("a").context("b").context(&frame.to_string());
    assert_eq!(err.to_string(), "io error: disk");
    assert!(matches!(err.get_ref(), Some(&MyError::One)));
    assert!(matches!(err.try_get(), Ok(MyError::One)));
}

#[test]
fn text_frames_are_no_downcast_candidates() {
    let err: TError<String> = TError::from_msg("root");
    let err = err.context("frame");
    assert_eq!(err.to_string(), "frame");
    assert_eq!(err.get_ref(), Some(&"root".to_string()));
    assert_eq!(err.try_get().ok(), Some("root".to_string()));
}

#[test]
fn failed_try_get_loses_nothing() {
    let err: TError<MyError> = TError::from(OtherError).context("first").context("second");
    let summary = err.to_string();
    let listing = err.layers();
    let dump = err.to_debug_string();
    let back = match err.try_get() {
        Ok(_) => panic!("the root cause is no MyError"),
        Err(back) => back,
    };
    assert_eq!(back.to_string(), summary);
    assert_eq!(back.layers(), listing);
    assert_eq!(back.to_debug_string(), dump);
    assert_eq!(back.downcast_ref::<OtherError>(), Some(&OtherError));
}

#[test]
fn failed_downcast_gives_the_container_back() {
    let err: TError<MyError> = TError::from(OtherError).context("ctx");
    let back = match err.downcast::<std::io::Error>() {
        Ok(_) => panic!("the root cause is no io error"),
        Err(back) => back,
    };
    assert_eq!(back.to_string(), "ctx");
    assert_eq!(back.downcast::<OtherError>().ok(), Some(OtherError));
}

#[test]
fn retag_round_trip() {
    let err: TError<MyError> = TError::from(MyError::One).context("ctx");
    let other: TError<OtherError> = err.change_err();
    assert_eq!(other.to_string(), "ctx");
    assert!(other.get_ref().is_none());
    assert!(matches!(other.downcast_ref::<MyError>(), Some(&MyError::One)));
    let back: TError<MyError> = other.change_err();
    assert_eq!(back.to_string(), "ctx");
    assert_eq!(
        back.layers(),
        vec!["ctx".to_string(), "something went wrong".to_string()]
    );
    assert!(matches!(back.get_ref(), Some(&MyError::One)));
}

#[test]
fn get_returns_the_precise_variant() {
    let err: TError<MyError> = TError::from(MyError::Three(std::io::Error::new(
        std::io::ErrorKind::Other,
        "disk",
    )))
    .context("ctx");
    assert!(matches!(err.get(), MyError::Three(_)));
}

#[test]
fn get_falls_back_to_the_catch_all() {
    let err: TError<MyError> = TError::from(OtherError).context("ctx");
    match err.get() {
        MyError::Two(inner) => {
            assert_eq!(inner.to_string(), "ctx");
            assert_eq!(inner.source().map(|s| s.to_string()), Some("OtherError".to_string()));
        }
        _ => panic!("expected the catch-all variant"),
    }
}

#[test]
fn or_default_takes_either_outcome() {
    assert!(matches!(TError::or_default(Ok(MyError::One)), MyError::One));
    let rest: TError<MyError> = TError::from_msg("unknown");
    match TError::or_default(Err(rest)) {
        MyError::Two(inner) => assert_eq!(inner.to_string(), "unknown"),
        _ => panic!("expected the catch-all variant"),
    }
}

#[test]
fn with_context_on_a_container() {
    let err: TError<MyError> = TError::from(MyError::One);
    let err = err.with_context(|| format!("step {}", 3));
    assert_eq!(err.to_string(), "step 3");
    assert!(matches!(err.get_ref(), Some(&MyError::One)));
}

#[test]
fn result_context_passes_success_through() {
    let ok: Result<u8, OtherError> = Ok(1);
    let lifted: Result<u8, TError<MyError>> = ok.context("unused");
    assert!(matches!(lifted, Ok(1)));
}

#[test]
fn result_with_context_is_lazy() {
    let called = std::cell::Cell::new(false);
    let ok: Result<u8, OtherError> = Ok(1);
    let lifted: Result<u8, TError<MyError>> = ok.with_context(|| {
        called.set(true);
        "unused".to_string()
    });
    assert!(matches!(lifted, Ok(1)));
    assert!(!called.get());

    let failed: Result<u8, OtherError> = Err(OtherError);
    let lifted: Result<u8, TError<MyError>> = failed.with_context(|| {
        called.set(true);
        "used".to_string()
    });
    let err = lifted.unwrap_err();
    assert!(called.get());
    assert_eq!(err.to_string(), "used");
    assert_eq!(err.layers(), vec!["used".to_string(), "OtherError".to_string()]);
    assert_eq!(err.downcast_ref::<OtherError>(), Some(&OtherError));
}

#[test]
fn into_anyhow_folds_the_frames() {
    let err: TError<MyError> = TError::from(OtherError).context("c1").context("c2");
    let erased = err.into_anyhow();
    assert_eq!(erased.to_string(), "c2");
    let texts: Vec<String> = erased.chain().map(|c| c.to_string()).collect();
    assert_eq!(texts, vec!["c2".to_string(), "c1".to_string(), "OtherError".to_string()]);
    assert_eq!(erased.downcast_ref::<OtherError>(), Some(&OtherError));
}

#[test]
fn anyhow_from_container() {
    let err: TError<MyError> = TError::from_msg("root").context("ctx");
    let erased: anyhow::Error = err.into();
    let texts: Vec<String> = erased.chain().map(|c| c.to_string()).collect();
    assert_eq!(texts, vec!["ctx".to_string(), "root".to_string()]);
}

#[test]
fn untagged_result_alias() {
    fn run() -> typederror::Result<u8> {
        Err(TError::from_msg("nothing to match on"))
    }
    let err = run().unwrap_err();
    assert_eq!(err.to_string(), "nothing to match on");
    let tagged: TError<MyError> = err.change_err();
    assert!(tagged.get_ref().is_none());
}

#[test]
fn container_can_cross_threads() {
    fn movable<T: Send + Sync + 'static>(_: &T) -> bool {
        true
    }
    let err: TError<MyError> = TError::from(OtherError).context("ctx");
    assert!(movable(&err));
    let chain = err.into_chain();
    assert!(movable(&chain));
}
