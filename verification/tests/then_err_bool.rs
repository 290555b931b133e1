use fluent_result::boolean::ThenErr;

#[test]
fn test_then_err() {
    assert_eq!(true.then_err(42), Err(42));
    assert_eq!(false.then_err(42), Ok(()));
}
