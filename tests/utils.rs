use forest_sdk::utils::{format_hex_string, format_wei_to_eth, min, parse_hex_string};
use forest_sdk::ForestError;

#[test]
fn test_format_hex_string() {
    assert_eq!(format_hex_string("123"), "0x123");
    assert_eq!(format_hex_string("0x123"), "0x123");
}

#[test]
fn test_parse_hex_string() {
    assert!(parse_hex_string("123").is_ok());
    assert!(parse_hex_string("0x123").is_ok());
    assert!(parse_hex_string("xyz").is_err());
}

#[test]
fn test_format_wei_to_eth() {
    assert_eq!(format_wei_to_eth("1000000000000000000").unwrap(), "1.000000000000000000");
    assert!(format_wei_to_eth("invalid").is_err());
}

#[test]
fn min_picks_smaller() {
    assert_eq!(min(3, 7), 3);
    assert_eq!(min(7, 3), 3);
    assert_eq!(min(5, 5), 5);
}

#[test]
fn hex_digits_come_back_without_markers() {
    assert_eq!(parse_hex_string("0xdeadBEEF").unwrap(), "deadBEEF");
    assert_eq!(parse_hex_string("0x0x12").unwrap(), "12");
    assert_eq!(parse_hex_string("").unwrap(), "");
    assert_eq!(
        parse_hex_string("0xg1"),
        Err(ForestError::ValidationError("Invalid hex string".to_string()))
    );
}

#[test]
fn wei_renders_with_eighteen_decimals() {
    assert_eq!(format_wei_to_eth("0").unwrap(), "0.000000000000000000");
    assert_eq!(format_wei_to_eth("1").unwrap(), "0.000000000000000001");
    assert_eq!(format_wei_to_eth("+2500000000000000000").unwrap(), "2.500000000000000000");
    assert_eq!(
        format_wei_to_eth("340282366920938463463374607431768211455").unwrap(),
        "340282366920938463463.374607431768211455"
    );
    assert!(format_wei_to_eth("340282366920938463463374607431768211456").is_err());
    assert!(format_wei_to_eth("").is_err());
    assert!(format_wei_to_eth("-1").is_err());
    assert_eq!(
        format_wei_to_eth("x"),
        Err(ForestError::ValidationError("Invalid wei value".to_string()))
    );
}
