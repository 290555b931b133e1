use fluent_result::{BoxErr, ErasedFailure};

#[test]
fn box_err_nested_no_error() {
    let result: Result<Result<i32, ErasedFailure>, ErasedFailure> = Ok(Ok(42));
    let boxed: Result<i32, ErasedFailure> = result.box_err();
    assert_eq!(boxed.unwrap(), 42);
}

#[test]
fn box_err_nested_error() {
    let err_io = ErasedFailure::new(String::from("entity not found"), None);
    let result: Result<Result<i32, ErasedFailure>, &str> = Ok(Err(err_io));
    let boxed: Result<i32, _> = result.box_err();
    assert!(boxed.is_err());

    let result: Result<Result<i32, ErasedFailure>, &str> = Err("invalid format");
    let boxed: Result<i32, _> = result.box_err();
    assert!(boxed.is_err());
}
