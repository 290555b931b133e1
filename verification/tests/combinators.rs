use fluent_result::boolean::dbg;
use fluent_result::boolean::rls;
use fluent_result::expect;
use fluent_result::into::IntoNone;
use fluent_result::into_ok::IntoOk;
use fluent_result::into_some::IntoSome;
use fluent_result::{
    ExpectNone, HandleErr, IntoErr, IntoOkOrPanic, MapTo, OkOrPanic, OptionMapTo, OrErr,
    ResultMapErrTo, ResultMapTo, Sink, SinkErr, ThenNone, UnwrapOk,
};

#[test]
fn then_none_root() {
    assert_eq!(ThenNone::then_none(true), None);
    assert_eq!(ThenNone::then_none(false), Some(()));
}

#[test]
fn expect_bool_dbg_and_rls() {
    dbg::Expect::assert_true(true);
    dbg::Expect::expect_true(true, "expected true");
    dbg::Expect::assert_false(false);
    dbg::Expect::expect_false(false, "expected false");
    rls::Expect::assert_true(true);
    rls::Expect::expect_true(true, "expected true");
    rls::Expect::assert_false(false);
    rls::Expect::expect_false(false, "expected false");
}

#[test]
fn expect_none_variants() {
    let none: Option<u8> = None;
    none.unwrap_none();
    let none: Option<u8> = None;
    none.expect_none("should be empty");
    let none: Option<u8> = None;
    expect::dbg::ExpectNone::assert_none(none);
    let none: Option<u8> = None;
    expect::rls::ExpectNone::expect_none(none, "should be empty");
}

#[test]
fn handle_err_sinks_failure() {
    let mut captured = None;
    Err("oops").handle_err(|e| captured = Some(e));
    assert_eq!(captured, Some("oops"));

    let mut untouched = true;
    Ok::<(), &str>(()).handle_err(|_| untouched = false);
    assert!(untouched);
}

#[test]
fn sink_err_sinks_failure() {
    let mut captured = None;
    Err("oops").sink_err(|e| captured = Some(e));
    assert_eq!(captured, Some("oops"));
}

#[test]
fn sink_some_value() {
    let mut log = String::new();
    Some("oops").sink(|e: &str| log.push_str(e));
    assert_eq!(log, "oops");

    let mut untouched = true;
    None::<&str>.sink(|_| untouched = false);
    assert!(untouched);
}

#[test]
fn option_map_to() {
    let some = Some(42).map_to("something");
    assert_eq!(some, Some("something"));
    let none = None::<u32>.map_to("something");
    assert_eq!(none, None);
}

#[test]
fn result_map_to() {
    let success: Result<u32, ()> = Ok(42);
    let result: Result<bool, ()> = ResultMapTo::map_to(success, true);
    assert_eq!(result, Ok(true));
    let failure: Result<u32, u8> = Err(7);
    let result: Result<bool, u8> = ResultMapTo::map_to(failure, true);
    assert_eq!(result, Err(7));
}

#[test]
fn result_map_err_to() {
    let failure: Result<(), u32> = Err(42);
    let result: Result<(), bool> = ResultMapErrTo::map_err_to(failure, false);
    assert_eq!(result, Err(false));
    let success: Result<u8, u32> = Ok(3);
    let result: Result<u8, bool> = ResultMapErrTo::map_err_to(success, false);
    assert_eq!(result, Ok(3));
}

#[test]
fn map_to_fixed_success() {
    let success: Result<u32, ()> = Ok(42);
    let result: Result<bool, ()> = MapTo::map_to(success, true);
    assert_eq!(result, Ok(true));
    let failure: Result<u32, u8> = Err(7);
    let result: Result<bool, u8> = MapTo::map_to(failure, true);
    assert_eq!(result, Err(7));
}

#[test]
fn or_err_replaces_everything() {
    let result: Result<u32, ()> = Ok(42);
    let result: Result<u32, &str> = result.or_err("oops");
    assert!(result.is_err());
    let result: Result<u32, ()> = Err(());
    let result: Result<u32, &str> = result.or_err("oops");
    assert_eq!(result, Err("oops"));
}

#[test]
fn into_single_traits() {
    let ok: Result<u32, ()> = IntoOk::into_ok(42);
    assert_eq!(ok, Ok(42));
    let borrowed: Result<&u32, ()> = 42u32.as_ok();
    assert_eq!(borrowed, Ok(&42));
    let some = IntoSome::into_some(42);
    assert_eq!(some, Some(42));
    let borrowed = 42u32.as_some();
    assert_eq!(borrowed, Some(&42));
    let none: Option<&str> = IntoNone::into_none(42);
    assert!(none.is_none());
}

#[test]
fn into_err_for_describable() {
    let err: Result<(), &str> = "bad".into_err();
    assert_eq!(err, Err("bad"));
}

#[test]
fn unwrap_ok_rewraps() {
    let result: Result<i32, &str> = Ok(42);
    let ok: Result<i32, ()> = result.unwrap_ok();
    assert_eq!(ok, Ok(42));
    let result: Result<i32, &str> = Ok(42);
    let ok: Result<i32, ()> = result.expect_ok("expected a success");
    assert_eq!(ok, Ok(42));
}

#[test]
fn ok_or_panic_rewraps() {
    let result: Result<i32, &str> = Ok(42);
    let ok: Result<i32, ()> = result.ok_or_unwrap();
    assert_eq!(ok, Ok(42));
    let result: Result<i32, &str> = Ok(42);
    let ok: Result<i32, ()> = result.ok_or_expect("expected a success");
    assert_eq!(ok, Ok(42));
}

#[test]
fn into_ok_or_panic_rewraps() {
    let result: Result<i32, &str> = Ok(42);
    let ok: Result<i32, ()> = result.into_ok_or_unwrap();
    assert_eq!(ok, Ok(42));
    let result: Result<i32, &str> = Ok(42);
    let ok: Result<i32, ()> = result.into_ok_or_expect("expected a success");
    assert_eq!(ok, Ok(42));
}
