use fluent_result::nested::BoxErr;
use fluent_result::ErasedFailure;

fn not_found() -> ErasedFailure {
    ErasedFailure::new(String::from("entity not found"), None)
}

// Single-level Result tests
#[test]
fn box_err_single_ok() {
    let result: Result<i32, ErasedFailure> = Ok(42);
    let boxed: Result<i32, ErasedFailure> = result.box_err();
    assert_eq!(boxed.unwrap(), 42);
}

#[test]
fn box_err_single_err() {
    let err_io = not_found();
    let result: Result<i32, ErasedFailure> = Err(err_io);
    let boxed: Result<i32, ErasedFailure> = result.box_err();
    assert!(boxed.is_err());
}

// Double-nested Result tests
#[test]
fn box_err_double_nested_ok() {
    let result: Result<Result<i32, ErasedFailure>, ErasedFailure> = Ok(Ok(42));
    let boxed: Result<i32, ErasedFailure> = result.box_err();
    assert_eq!(boxed.unwrap(), 42);
}

#[test]
fn box_err_double_nested_inner_err() {
    let err_io = not_found();
    let result: Result<Result<i32, ErasedFailure>, &str> = Ok(Err(err_io));
    let boxed: Result<i32, ErasedFailure> = result.box_err();
    assert!(boxed.is_err());
}

#[test]
fn box_err_double_nested_outer_err() {
    let result: Result<Result<i32, ErasedFailure>, &str> = Err("invalid format");
    let boxed: Result<i32, ErasedFailure> = result.box_err();
    assert!(boxed.is_err());
}

// Triple-nested Result tests
#[test]
fn box_err_triple_nested_ok() {
    let result: Result<Result<Result<i32, ErasedFailure>, &str>, ErasedFailure> = Ok(Ok(Ok(123)));
    let boxed: Result<i32, ErasedFailure> = result.box_err();
    assert_eq!(boxed.unwrap(), 123);
}

#[test]
fn box_err_triple_nested_innermost_err() {
    let err_io = ErasedFailure::new(String::from("permission denied"), None);
    let result: Result<Result<Result<i32, ErasedFailure>, &str>, ErasedFailure> =
        Ok(Ok(Err(err_io)));
    let boxed: Result<i32, ErasedFailure> = result.box_err();
    assert!(boxed.is_err());
}

#[test]
fn box_err_triple_nested_middle_err() {
    let result: Result<Result<Result<i32, ErasedFailure>, &str>, ErasedFailure> =
        Ok(Err("invalid format"));
    let boxed: Result<i32, ErasedFailure> = result.box_err();
    assert!(boxed.is_err());
}

#[test]
fn box_err_triple_nested_outer_err() {
    let err_io = ErasedFailure::new(String::from("timed out"), None);
    let result: Result<Result<Result<i32, ErasedFailure>, &str>, ErasedFailure> = Err(err_io);
    let boxed: Result<i32, ErasedFailure> = result.box_err();
    assert!(boxed.is_err());
}

// Quadruple-nested Result tests
#[test]
fn box_err_quadruple_nested_ok() {
    let result: Result<Result<Result<Result<i32, ErasedFailure>, &str>, ErasedFailure>, String> =
        Ok(Ok(Ok(Ok(999))));
    let boxed: Result<i32, ErasedFailure> = result.box_err();
    assert_eq!(boxed.unwrap(), 999);
}

#[test]
fn box_err_quadruple_nested_innermost_err() {
    let err_io = not_found();
    let result: Result<Result<Result<Result<i32, ErasedFailure>, &str>, ErasedFailure>, String> =
        Ok(Ok(Ok(Err(err_io))));
    let boxed: Result<i32, ErasedFailure> = result.box_err();
    assert!(boxed.is_err());
}

#[test]
fn box_err_quadruple_nested_second_err() {
    let result: Result<Result<Result<Result<i32, ErasedFailure>, &str>, ErasedFailure>, String> =
        Ok(Ok(Err("invalid format")));
    let boxed: Result<i32, ErasedFailure> = result.box_err();
    assert!(boxed.is_err());
}

#[test]
fn box_err_quadruple_nested_third_err() {
    let err_io = ErasedFailure::new(String::from("invalid data"), None);
    let result: Result<Result<Result<Result<i32, ErasedFailure>, &str>, ErasedFailure>, String> =
        Ok(Err(err_io));
    let boxed: Result<i32, ErasedFailure> = result.box_err();
    assert!(boxed.is_err());
}

#[test]
fn box_err_quadruple_nested_outermost_err() {
    let result: Result<Result<Result<Result<i32, ErasedFailure>, &str>, ErasedFailure>, String> =
        Err(String::from("invalid format"));
    let boxed: Result<i32, ErasedFailure> = result.box_err();
    assert!(boxed.is_err());
}
