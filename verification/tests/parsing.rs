//! Decoder tests: version strings, hardware identifiers and feature lists.

use iodisco::parsers::{extract_gpu_id, parse_bitmask_to_features, parse_features, parse_version};

#[test]
fn test_parse_version_return_value() {
    // Return value 749 = 0x2ED: major 2, minor 237.
    let result = parse_version(&[], "parse_version_return_value", 749);
    assert_eq!(result, Some("2.237".to_string()));

    // Return value 711 = 0x2C7: major 2, minor 199.
    let result = parse_version(&[], "parse_version_return_value", 711);
    assert_eq!(result, Some("2.199".to_string()));

    // Return value 256 = 0x100: major 1, minor 0.
    let result = parse_version(&[], "parse_version_return_value", 256);
    assert_eq!(result, Some("1.0".to_string()));
}

#[test]
fn test_parse_version_two_u32() {
    let data = [10, 0, 0, 0, 6, 0, 0, 0];
    let result = parse_version(&data, "parse_version_two_u32", 0);
    assert_eq!(result, Some("10.6".to_string()));
}

#[test]
fn test_extract_gpu_id_u32() {
    let data = [0x00, 0xc0, 0x00, 0x00];
    let result = extract_gpu_id(&data, "parse_gpu_id_u32");
    assert_eq!(result, Some(0x0000c000));

    let data = [0x21, 0x00, 0x00, 0x00];
    let result = extract_gpu_id(&data, "parse_gpu_id_u32");
    assert_eq!(result, Some(0x21));
}

#[test]
fn test_parse_version_u32_and_short_data() {
    let data = [0x2A, 0, 0, 0];
    assert_eq!(parse_version(&data, "parse_version_u32", 0), Some("42".to_string()));
    // Too few bytes for the selected decoder.
    assert_eq!(parse_version(&[1, 2, 3], "parse_version_u32", 0), None);
    assert_eq!(parse_version(&[1, 2, 3, 4, 5], "parse_version_two_u32", 0), None);
    // An unrecognized decoder name decodes to nothing.
    assert_eq!(parse_version(&data, "parse_generic", 7), None);
}

#[test]
fn test_extract_gpu_id_endianness() {
    let data = [0x12, 0x34, 0x56, 0x78];
    assert_eq!(extract_gpu_id(&data, "parse_gpu_id_le"), Some(0x78563412));
    assert_eq!(extract_gpu_id(&data, "parse_gpu_id_be"), Some(0x12345678));
    assert_eq!(extract_gpu_id(&data, "no_such_parser"), None);
    assert_eq!(extract_gpu_id(&[1, 2], "parse_gpu_id_u32"), None);
}

#[test]
fn test_parse_bitmask_named_bits() {
    let features = parse_bitmask_to_features(0b111);
    assert_eq!(
        features,
        vec!["JOB_CHAINING".to_string(), "TILER".to_string(), "COHERENCY".to_string()]
    );
}

#[test]
fn test_parse_bitmask_generic_bits() {
    let features = parse_bitmask_to_features(1 << 5);
    assert_eq!(features, vec!["BIT_5".to_string()]);

    let features = parse_bitmask_to_features((1 << 1) | (1 << 31));
    assert_eq!(features, vec!["TILER".to_string(), "BIT_31".to_string()]);

    assert_eq!(parse_bitmask_to_features(0), Vec::<String>::new());
}

#[test]
fn test_parse_features_bitmask() {
    // 0x001b000b: bits 0, 1, 3, 16, 17, 19, 20 set.
    let data = [0x0b, 0x00, 0x1b, 0x00];
    let features = parse_features(&data, "parse_features_bitmask");
    assert_eq!(
        features,
        vec![
            "JOB_CHAINING".to_string(),
            "TILER".to_string(),
            "BIT_3".to_string(),
            "BIT_16".to_string(),
            "BIT_17".to_string(),
            "BIT_19".to_string(),
            "BIT_20".to_string()
        ]
    );
}

#[test]
fn test_parse_features_hex() {
    let data = [0x0b, 0x00, 0x1b, 0x00];
    let features = parse_features(&data, "parse_features_hex");
    assert_eq!(features, vec!["0x001b000b".to_string()]);

    assert_eq!(parse_features(&data, "parse_unknown"), Vec::<String>::new());
    assert_eq!(parse_features(&[1], "parse_features_hex"), Vec::<String>::new());
}
