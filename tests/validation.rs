use forest_sdk::validation::{ArrayValidator, NumberValidator, StringValidator, Validator};
use forest_sdk::ForestError;

#[test]
fn test_number_validator() {
    let validator = NumberValidator::new()
        .with_min(0)
        .with_max(100);

    assert!(validator.validate(&50).is_ok());
    assert!(validator.validate(&-1).is_err());
    assert!(validator.validate(&101).is_err());
}

#[test]
fn test_array_validator() {
    let item_validator = NumberValidator::new()
        .with_min(0)
        .with_max(100);

    let validator = ArrayValidator::new()
        .with_min_length(2)
        .with_max_length(4)
        .with_item_validator(item_validator);

    assert!(validator.validate(&vec![1, 2, 3]).is_ok());
    assert!(validator.validate(&vec![1]).is_err());
    assert!(validator.validate(&vec![1, 2, 3, 4, 5]).is_err());
    assert!(validator.validate(&vec![1, -1, 3]).is_err());
}

#[test]
fn number_bounds_are_inclusive() {
    let validator = NumberValidator::new().with_min(0).with_max(100);
    assert!(validator.validate(&0).is_ok());
    assert!(validator.validate(&100).is_ok());
    match validator.validate(&101) {
        Err(ForestError::ValidationError(m)) => assert_eq!(m, "Value must be at most 100"),
        other => panic!("unexpected {:?}", other),
    }
    assert!(NumberValidator::new().validate(&i64::MIN).is_ok());
}

#[test]
fn array_without_item_check_looks_at_length_only() {
    let validator = ArrayValidator::new().with_min_length(1);
    assert!(validator.validate(&vec![-5i64]).is_ok());
    assert!(validator.validate(&Vec::<i64>::new()).is_err());
}

#[test]
fn test_string_validator() {
    let validator = StringValidator::new()
        .with_min_length(3)
        .with_max_length(10)
        .with_pattern(r"^[a-z]+$");

    assert!(validator.validate(&"abc".to_string()).is_ok());
    assert!(validator.validate(&"ab".to_string()).is_err());
    assert!(validator.validate(&"abcdefghijk".to_string()).is_err());
    assert!(validator.validate(&"123".to_string()).is_err());
}

#[test]
fn string_length_counts_bytes_and_bad_pattern_fails() {
    let validator = StringValidator::new().with_max_length(3);
    assert!(validator.validate(&"abc".to_string()).is_ok());
    assert!(validator.validate(&"\u{e9}\u{e9}".to_string()).is_err());
    let broken = StringValidator::new().with_pattern("(");
    match broken.validate(&"x".to_string()) {
        Err(ForestError::ValidationError(m)) => assert_eq!(m, "Invalid pattern: ("),
        other => panic!("unexpected {:?}", other),
    }
    let digits = StringValidator::new().with_pattern("[0-9]");
    assert!(digits.validate(&"a1b".to_string()).is_ok());
}

#[test]
fn validator_reasons_are_exact() {
    let crossed = NumberValidator::new().with_min(10).with_max(5);
    assert_eq!(
        crossed.validate(&-7),
        Err(ForestError::ValidationError("Value must be at least 10".to_string()))
    );
    let negative = NumberValidator::new().with_min(-3);
    assert_eq!(
        negative.validate(&-4),
        Err(ForestError::ValidationError("Value must be at least -3".to_string()))
    );
    let lengths = ArrayValidator::new().with_min_length(2).with_max_length(3);
    assert_eq!(
        lengths.validate(&vec![1i64]),
        Err(ForestError::ValidationError("Array length must be at least 2".to_string()))
    );
    assert_eq!(
        lengths.validate(&vec![1i64, 2, 3, 4]),
        Err(ForestError::ValidationError("Array length must be at most 3".to_string()))
    );
    let items = ArrayValidator::new().with_item_validator(NumberValidator::new().with_max(9));
    assert_eq!(
        items.validate(&vec![1, 20, 30]),
        Err(ForestError::ValidationError("Value must be at most 9".to_string()))
    );
    let strings = StringValidator::new().with_min_length(2).with_pattern("^a");
    assert_eq!(
        strings.validate(&"b".to_string()),
        Err(ForestError::ValidationError("String length must be at least 2".to_string()))
    );
    assert_eq!(
        strings.validate(&"bb".to_string()),
        Err(ForestError::ValidationError("String does not match pattern: ^a".to_string()))
    );
}
