use todo_lifecycle::validate::ValidateToDo;

#[test]
fn entities_valid_data_should_return_validated_to_do() {
    let validator = ValidateToDo::new();

    let to_do = validator
        .check_title("my title".to_string())
        .check_owner_id("jameseastham".to_string())
        .generate();

    let res = to_do.as_ref().unwrap();

    assert_eq!(to_do.is_err(), false);
    assert_eq!(res.title.get_value(), "my title");
    assert_eq!(res.owner_id.get_value(), "jameseastham");
    assert_eq!(res.is_complete.to_string(), "INCOMPLETE");
}

#[test]
fn entities_empty_title_should_return_validate_error() {
    let validator = ValidateToDo::new();

    let to_do = validator.check_title("".to_string());

    let res = to_do.generate();

    assert_eq!(res.is_err(), true);
    assert_eq!(
        res.err().unwrap().to_string(),
        "Validation error:  - Validation error: Must be between 0 and 50 chars"
    );
}

#[test]
fn entities_empty_owner_should_return_validate_error() {
    let validator = ValidateToDo::new();

    let to_do = validator
        .check_title("test".to_string())
        .check_owner_id("".to_string());

    let res = to_do.generate();

    assert_eq!(res.is_err(), true);
    assert_eq!(
        res.err().unwrap().to_string(),
        "Validation error:  - Validation error: Must be greater than 0"
    );
}

#[test]
fn validator_reports_every_failed_check() {
    let res = ValidateToDo::new()
        .check_title("x".repeat(51))
        .check_owner_id("".to_string())
        .generate();

    assert_eq!(
        res.err().unwrap().message(),
        " - Validation error: Must be between 0 and 50 chars - Validation error: Must be greater than 0"
    );
}
