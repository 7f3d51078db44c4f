use brocade::GTIN;
use brocade::GTINError;
use brocade::GTINType;

#[test]
fn test_get_type() {
    let gtin = GTIN::new([9, 9, 2, 1, 2, 3, 4, 5, 6, 7, 8, 9, 7, 7]);
    assert_eq!(gtin.get_type().unwrap(), GTINType::GTIN14);

    let gtin = GTIN::new([0, 9, 9, 2, 1, 2, 3, 4, 5, 6, 7, 8, 9, 7]);
    assert_eq!(gtin.get_type().unwrap(), GTINType::GTIN13);

    let gtin = GTIN::new([0, 0, 9, 2, 1, 2, 3, 4, 5, 6, 7, 8, 9, 7]);
    assert_eq!(gtin.get_type().unwrap(), GTINType::GTIN12);

    let gtin = GTIN::new([0, 0, 0, 0, 0, 0, 2, 1, 2, 3, 4, 5, 6, 7]);
    assert_eq!(gtin.get_type().unwrap(), GTINType::GTIN8);
}

#[test]
fn test_get_check_digit() {
    let gtin = GTIN::new([0, 9, 9, 2, 1, 2, 3, 4, 5, 6, 7, 8, 9, 2]);
    assert_eq!(gtin.get_check_digit(), 2);
}

#[test]
fn test_calculate_check_digit() {
    let gtin = GTIN::new([0, 9, 9, 2, 1, 2, 3, 4, 5, 6, 7, 8, 9, 0]);
    assert_eq!(gtin.calculate_check_digit(), 7);
}

#[test]
fn test_get_type_unrecognized_shape() {
    // All zeros: no anchor digit anywhere.
    let gtin = GTIN::new([0; 14]);
    assert!(matches!(
        gtin.get_type(),
        Err(GTINError::InvalidGTIN("Invalid GTIN format"))
    ));

    // Cells 0..=2 zero but the GTIN-8 gap at 2..=5 is broken by cell 3.
    let gtin = GTIN::new([0, 0, 0, 1, 0, 0, 2, 1, 2, 3, 4, 5, 6, 7]);
    assert!(gtin.get_type().is_err());
}

#[test]
fn test_get_leading_zeros() {
    assert_eq!(
        GTIN::new([9, 9, 2, 1, 2, 3, 4, 5, 6, 7, 8, 9, 7, 7]).get_leading_zeros(),
        0
    );
    assert_eq!(
        GTIN::new([0, 0, 9, 2, 1, 2, 3, 4, 5, 6, 7, 8, 9, 7]).get_leading_zeros(),
        2
    );
    assert_eq!(
        GTIN::new([0, 0, 0, 0, 0, 0, 2, 1, 2, 3, 4, 5, 6, 7]).get_leading_zeros(),
        6
    );
    assert_eq!(GTIN::new([0; 14]).get_leading_zeros(), 14);
}

#[test]
fn test_get_indicator_digit() {
    // The anchor cell of each recognized shape.
    assert_eq!(
        GTIN::new([9, 9, 2, 1, 2, 3, 4, 5, 6, 7, 8, 9, 7, 7])
            .get_indicator_digit()
            .unwrap(),
        9
    );
    assert_eq!(
        GTIN::new([0, 8, 9, 2, 1, 2, 3, 4, 5, 6, 7, 8, 9, 7])
            .get_indicator_digit()
            .unwrap(),
        8
    );
    assert_eq!(
        GTIN::new([0, 0, 7, 2, 1, 2, 3, 4, 5, 6, 7, 8, 9, 7])
            .get_indicator_digit()
            .unwrap(),
        7
    );
    assert_eq!(
        GTIN::new([0, 0, 0, 0, 0, 0, 2, 1, 2, 3, 4, 5, 6, 7])
            .get_indicator_digit()
            .unwrap(),
        2
    );
    // Classification failure propagates.
    assert!(GTIN::new([0; 14]).get_indicator_digit().is_err());
}

#[test]
fn test_validity_composition() {
    // Recognized shape and matching check digit: valid.
    let both_good = GTIN::new([9, 9, 2, 1, 2, 3, 4, 5, 6, 7, 8, 9, 7, 2]);
    assert!(both_good.is_check_digit_valid());
    assert!(both_good.get_type().is_ok());
    assert!(both_good.is_valid());

    // Recognized shape, wrong check digit: not valid.
    let bad_checksum = GTIN::new([9, 9, 2, 1, 2, 3, 4, 5, 6, 7, 8, 9, 7, 7]);
    assert!(!bad_checksum.is_check_digit_valid());
    assert!(bad_checksum.get_type().is_ok());
    assert!(!bad_checksum.is_valid());

    // Matching check digit, unrecognized shape: not valid.
    let bad_shape = GTIN::new([0, 0, 0, 1, 0, 0, 0, 0, 0, 0, 0, 0, 0, 9]);
    assert!(bad_shape.is_check_digit_valid());
    assert!(bad_shape.get_type().is_err());
    assert!(!bad_shape.is_valid());

    // Both wrong: not valid.
    let both_bad = GTIN::new([0, 0, 0, 1, 0, 0, 0, 0, 0, 0, 0, 0, 0, 0]);
    assert!(!both_bad.is_check_digit_valid());
    assert!(both_bad.get_type().is_err());
    assert!(!both_bad.is_valid());
}

#[test]
fn test_parse_round_trip() {
    let inputs = ["00074887615305", "09780262134729", "99212345678977", "00000000000000"];
    for s in inputs {
        let gtin = GTIN::parse(s).unwrap();
        assert_eq!(gtin.to_string(), s);
    }
}

#[test]
fn test_parse_digits() {
    let gtin = GTIN::parse("09921234567892").unwrap();
    assert_eq!(gtin.as_array(), [0, 9, 9, 2, 1, 2, 3, 4, 5, 6, 7, 8, 9, 2]);
}

#[test]
fn test_parse_rejects_wrong_length() {
    for s in ["", "0", "1234567890123", "123456789012345", "0000000000000000"] {
        match GTIN::parse(s) {
            Err(GTINError::InvalidGTIN(m)) => assert_eq!(m, "string length is not 14"),
            Ok(_) => panic!("parse accepted a string of length {}", s.len()),
        }
    }
}

#[test]
fn test_parse_rejects_non_digit() {
    for s in ["1234567890123a", "00074887x15305", "-0074887615305", "0007488761530 "] {
        match GTIN::parse(s) {
            Err(GTINError::InvalidGTIN(m)) => assert_eq!(m, "string contains non-digit char"),
            Ok(_) => panic!("parse accepted a non-digit string"),
        }
    }
}

#[test]
fn test_to_string_zero_padded() {
    let gtin = GTIN::new([0, 0, 0, 0, 0, 0, 2, 1, 2, 3, 4, 5, 6, 7]);
    assert_eq!(gtin.to_string(), "00000021234567");
}

#[test]
fn test_classify_and_leading_zeros_repeatable() {
    // Pure queries: repeated calls on the same value agree.
    let gtin = GTIN::new([0, 0, 9, 2, 1, 2, 3, 4, 5, 6, 7, 8, 9, 7]);
    assert_eq!(gtin.get_type(), gtin.get_type());
    assert_eq!(gtin.get_leading_zeros(), gtin.get_leading_zeros());
    let gtin = GTIN::new([0; 14]);
    assert!(gtin.get_type().is_err() && gtin.get_type().is_err());
    assert_eq!(gtin.get_leading_zeros(), gtin.get_leading_zeros());
}
