use dms_config::domain::validators::{validate_part_number, validate_required, validate_u64};

#[test]
fn valid_part_numbers() {
    assert!(validate_part_number("127-PCA000097-E").is_ok());
    assert!(validate_part_number("000-PCA999999-Z").is_ok());
}

#[test]
fn invalid_part_numbers() {
    assert!(validate_part_number("").is_err());
    assert!(validate_part_number("12-PCA000097-E").is_err());
    assert!(validate_part_number("127-pca000097-E").is_err());
    assert!(validate_part_number("127-PCA000097-").is_err());
}

#[test]
fn part_number_error_messages() {
    assert_eq!(validate_part_number(""), Err("Part number cannot be empty".to_string()));
    assert_eq!(
        validate_part_number("12-PCA000097-E"),
        Err("Part number must be 15 characters (got 14). Format: ###-PCA######-X".to_string())
    );
    assert_eq!(validate_part_number("1x7-PCA000097-E"), Err("Position 2 must be a digit".to_string()));
    assert_eq!(validate_part_number("127_PCA000097-E"), Err("Expected '-' at position 4".to_string()));
    assert_eq!(validate_part_number("127-pca000097-E"), Err("Expected 'PCA' at positions 5-7".to_string()));
    assert_eq!(validate_part_number("127-PCA00009x-E"), Err("Position 13 must be a digit".to_string()));
    assert_eq!(validate_part_number("127-PCA000097_E"), Err("Expected '-' at position 14".to_string()));
    assert_eq!(
        validate_part_number("127-PCA000097-e"),
        Err("Last character must be an uppercase letter (A-Z)".to_string())
    );
}

#[test]
fn part_number_length_counts_characters() {
    // Fifteen characters, one of them outside ASCII: the length check passes
    // and the digit check reports the position.
    assert_eq!(validate_part_number("12é-PCA000097-E"), Err("Position 3 must be a digit".to_string()));
    assert_eq!(
        validate_part_number("127-PCA000097-EE"),
        Err("Part number must be 15 characters (got 16). Format: ###-PCA######-X".to_string())
    );
}

#[test]
fn required_fields() {
    assert_eq!(validate_required("Card Name", "  "), Err("'Card Name' is required".to_string()));
    assert_eq!(validate_required("Card Name", ""), Err("'Card Name' is required".to_string()));
    assert_eq!(validate_required("Card Name", " x "), Ok(()));
}

#[test]
fn optional_numbers() {
    assert_eq!(validate_u64("ID", ""), Ok(()));
    assert_eq!(validate_u64("ID", "   "), Ok(()));
    assert_eq!(validate_u64("ID", " 42 "), Ok(()));
    assert_eq!(validate_u64("ID", "18446744073709551615"), Ok(()));
    assert_eq!(validate_u64("ID", "18446744073709551616"), Err("'ID' must be a number".to_string()));
    assert_eq!(validate_u64("ID", "-1"), Err("'ID' must be a number".to_string()));
    assert_eq!(validate_u64("ID", "+7"), Ok(()));
    assert_eq!(validate_u64("ID", "4 2"), Err("'ID' must be a number".to_string()));
}
