use fluent_result::into::IntoResult;

#[test]
fn into_result_into_ok() {
    let ok: Result<u32, ()> = 42.into_ok();
    assert_eq!(ok, Ok(42));
}

#[test]
fn into_result_into_err() {
    let err = "error".into_err::<()>();
    assert_eq!(err, Err("error"));
}
