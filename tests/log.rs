use dji_log_bindings::log::{
    fetched_keychains, keychains_or_empty, keychains_request_from, record_wrappers, records_from,
};
use dji_log_parser::keychain::KeychainFeaturePoint;
use dji_log_parser::DJILog;
use dji_log_bindings::prefix::check_prefix;
use dji_log_bindings::{
    DJIError, DJILogWrapper, KeychainFeaturePointWrapper, PlatformWrapper, ProductTypeWrapper,
};
use dji_log_parser::keychain::{EncodedKeychainFeaturePoint, FeaturePoint, KeychainsRequest};

/// Builds a log as a caller does: the parser's outcome on the bytes, then the
/// library's checks.
fn parse(bytes: Vec<u8>) -> Result<std::sync::Arc<DJILogWrapper>, DJIError> {
    let parsed = DJILog::from_bytes(bytes.clone());
    DJILogWrapper::from_parsed(&bytes, parsed)
}

/// Builds a log only when the library's prefix check passes, so that the
/// parser never sees a buffer it would slice past the end of.
fn parse_checked(bytes: Vec<u8>) -> Result<std::sync::Arc<DJILogWrapper>, DJIError> {
    if !check_prefix(&bytes) {
        return Err(DJIError::ParseError);
    }
    parse(bytes)
}

/// A log of the given version whose Info block starts right after the Prefix
/// block, with the given Info-block bytes; before the fixed-offset versions its
/// record section is empty.
fn log_bytes(version: u8, info: &[u8]) -> Vec<u8> {
    let mut bytes = vec![0u8; 100];
    bytes[0..8].copy_from_slice(&100u64.to_le_bytes());
    bytes[10] = version;
    bytes.extend_from_slice(info);
    bytes
}

fn request(groups: Vec<Vec<&str>>) -> KeychainsRequest {
    KeychainsRequest {
        version: 2,
        department: 3,
        keychains: groups
            .into_iter()
            .map(|g| {
                g.into_iter()
                    .map(|t| EncodedKeychainFeaturePoint {
                        feature_point: FeaturePoint::BaseFeature,
                        aes_ciphertext: t.to_string(),
                    })
                    .collect()
            })
            .collect(),
    }
}

#[test]
fn truncated_prefix_is_a_parse_error() {
    assert!(matches!(parse_checked(Vec::new()), Err(DJIError::ParseError)));
    assert!(matches!(parse_checked(vec![0u8; 99]), Err(DJIError::ParseError)));
    assert!(!check_prefix(&vec![0u8; 99]));
}

#[test]
fn detail_offset_past_the_end_is_a_parse_error() {
    let mut bytes = log_bytes(10, &[]);
    bytes[0..8].copy_from_slice(&5000u64.to_le_bytes());
    assert!(!check_prefix(&bytes));
    assert!(matches!(parse_checked(bytes), Err(DJIError::ParseError)));
    let mut huge = log_bytes(10, &[]);
    huge[0..8].copy_from_slice(&u64::MAX.to_le_bytes());
    assert!(!check_prefix(&huge));
}

#[test]
fn detail_offset_is_ignored_from_fixed_layout_versions() {
    let mut bytes = log_bytes(12, &[0u8; 436]);
    bytes[0..8].copy_from_slice(&5000u64.to_le_bytes());
    assert!(check_prefix(&bytes));
    let mut at_end = log_bytes(10, &[0u8; 380]);
    at_end[0..8].copy_from_slice(&100u64.to_le_bytes());
    assert!(check_prefix(&at_end));
}

#[test]
fn parsed_log_reports_its_version() {
    let log = parse_checked(log_bytes(10, &[0u8; 400])).ok().unwrap();
    assert_eq!(log.version(), 10);
    let log = parse_checked(log_bytes(5, &[0u8; 356])).ok().unwrap();
    assert_eq!(log.version(), 5);
}

#[test]
fn truncated_info_block_is_a_parse_error() {
    assert!(matches!(parse_checked(log_bytes(7, &[])), Err(DJIError::ParseError)));
    assert!(matches!(parse_checked(log_bytes(10, &[0u8; 379])), Err(DJIError::ParseError)));
    assert!(matches!(parse_checked(log_bytes(5, &[0u8; 355])), Err(DJIError::ParseError)));
    assert!(matches!(parse_checked(log_bytes(12, &[0u8; 435])), Err(DJIError::ParseError)));
    assert!(check_prefix(&log_bytes(12, &[0u8; 436])));
}

#[test]
fn auxiliary_layout_bounds() {
    // Auxiliary Info block of 10 bytes after the Prefix block, records at 113.
    let mut bytes = log_bytes(13, &[0u8, 10, 0, 1, 2, 3, 4, 5, 6, 7, 8, 9, 10]);
    bytes[0..8].copy_from_slice(&113u64.to_le_bytes());
    assert!(check_prefix(&bytes));
    let mut zero_offset = bytes.clone();
    zero_offset[0..8].copy_from_slice(&0u64.to_le_bytes());
    assert!(check_prefix(&zero_offset));
    let mut past_end = bytes.clone();
    past_end[0..8].copy_from_slice(&114u64.to_le_bytes());
    assert!(!check_prefix(&past_end));
    let mut long_block = bytes.clone();
    long_block[101] = 11;
    assert!(!check_prefix(&long_block));
    assert!(matches!(parse_checked(long_block), Err(DJIError::ParseError)));
    assert!(!check_prefix(&log_bytes(13, &[0u8, 1])));
}

#[test]
fn empty_record_section_yields_no_records() {
    let log = parse_checked(log_bytes(10, &[0u8; 400])).ok().unwrap();
    let texts = |keys| {
        log.inner()
            .records(Some(keychains_or_empty(keys)))
            .map(|rs| rs.iter().map(|r| format!("{:?}", r)).collect::<Vec<String>>())
    };
    let records = records_from(texts(None)).ok().unwrap();
    assert!(records.is_empty());
    let with_keys = records_from(texts(Some(vec![vec![KeychainFeaturePointWrapper {
        feature_point: 1,
        aes_key: "AAAA".to_string(),
        aes_iv: "AAAA".to_string(),
    }]])))
    .ok()
    .unwrap();
    assert!(with_keys.is_empty());
}

#[test]
fn old_log_has_no_keychains_to_request() {
    let log = parse_checked(log_bytes(10, &[0u8; 400])).ok().unwrap();
    let res = keychains_request_from(log.inner().keychains_request());
    assert!(matches!(res, Err(DJIError::KeychainError)));
}

#[test]
fn request_without_entries_is_a_keychain_error() {
    assert!(matches!(keychains_request_from(Ok(request(vec![vec![]]))), Err(DJIError::KeychainError)));
    assert!(matches!(keychains_request_from(Ok(request(vec![]))), Err(DJIError::KeychainError)));
    let failed = keychains_request_from(Err(dji_log_parser::Error::KeychainRequired));
    assert!(matches!(failed, Err(DJIError::KeychainError)));
}

#[test]
fn request_with_entries_is_kept_whole() {
    let w = keychains_request_from(Ok(request(vec![vec![], vec!["QUJD", "REVG"], vec!["R0hJ"]])))
        .ok()
        .unwrap();
    assert_eq!(w.version, 2);
    assert_eq!(w.department, 3);
    let sizes: Vec<usize> = w.keychains.iter().map(|g| g.len()).collect();
    assert_eq!(sizes, vec![0, 2, 1]);
    assert_eq!(w.keychains[1][1].aes_ciphertext, "REVG");
}

#[test]
fn records_are_described_in_order() {
    let texts = vec!["OSD(..)".to_string(), "Unknown(200, [1, 2])".to_string()];
    let rs = record_wrappers(&texts);
    assert_eq!(rs.len(), 2);
    assert_eq!(rs[0].record_type, "OSD(..)");
    assert_eq!(rs[1].record_type, "Unknown(200, [1, 2])");
    assert!(rs.iter().all(|r| r.timestamp == 0 && r.data.is_empty()));
    let ok = records_from(Ok(texts)).ok().unwrap();
    assert_eq!(ok.len(), 2);
    assert!(matches!(records_from(Err(dji_log_parser::Error::KeychainRequired)), Err(DJIError::RecordError)));
}

#[test]
fn omitted_keychains_hand_over_none() {
    assert!(keychains_or_empty(None).is_empty());
    let given = keychains_or_empty(Some(vec![vec![], vec![]]));
    assert_eq!(given.len(), 2);
}

#[test]
fn error_messages() {
    assert_eq!(DJIError::ParseError.message(), "Failed to parse DJI log");
    assert_eq!(DJIError::KeychainError.message(), "Failed to fetch keychains");
    assert_eq!(DJIError::RecordError.message(), "Failed to process records");
    assert_eq!(DJIError::FrameError.message(), "Failed to process frames");
}

fn crafted_info(product_at: usize, platform_at: usize, product: u8, platform: u8) -> Vec<u8> {
    let mut info = vec![0u8; 400];
    info[0..5].copy_from_slice(b"Alley");
    info[40..45].copy_from_slice(b"Paris");
    info[80] = 1;
    info[81] = 0;
    info[82] = 1;
    info[83..87].copy_from_slice(&1234i32.to_le_bytes());
    info[87..91].copy_from_slice(&(-7i32).to_le_bytes());
    info[product_at] = product;
    info[platform_at] = platform;
    info
}

#[test]
fn details_round_trip_on_both_layouts() {
    let cases = [
        (10u8, 271usize, 376usize, 13u8, 11u8, ProductTypeWrapper::MavicPro, PlatformWrapper::Mac),
        (10u8, 271usize, 376usize, 250u8, 99u8, ProductTypeWrapper::Unknown, PlatformWrapper::Unknown),
        (5u8, 277usize, 348usize, 7u8, 1u8, ProductTypeWrapper::Phantom4, PlatformWrapper::IOS),
        (5u8, 277usize, 348usize, 200u8, 12u8, ProductTypeWrapper::Unknown, PlatformWrapper::Linux),
    ];
    for (version, product_at, platform_at, product, platform, want_product, want_platform) in cases {
        let bytes = log_bytes(version, &crafted_info(product_at, platform_at, product, platform));
        let log = parse_checked(bytes).ok().unwrap();
        assert_eq!(log.version(), version);
        let details = &log.inner().details;
        assert_eq!(details.sub_street, "Alley");
        assert_eq!(details.city, "Paris");
        assert_eq!((details.is_favorite, details.is_new, details.needs_upload), (1, 0, 1));
        assert_eq!(details.record_line_count, 1234);
        assert_eq!(details.detail_info_checksum, -7);
        assert_eq!(ProductTypeWrapper::from(details.product_type), want_product);
        assert_eq!(PlatformWrapper::from(details.app_platform.clone()), want_platform);
    }
}

#[test]
fn parser_outcome_decides_within_bounds() {
    let v10 = log_bytes(10, &[0u8; 400]);
    let accepted = || DJILog::from_bytes(v10.clone());
    // A recovered record offset (zero) is within bounds: the parser's outcome decides.
    let mut recovered = log_bytes(13, &[0u8, 10, 0, 1, 2, 3, 4, 5, 6, 7, 8, 9, 10]);
    recovered[0..8].copy_from_slice(&0u64.to_le_bytes());
    let log = DJILogWrapper::from_parsed(&recovered, accepted()).ok().unwrap();
    assert_eq!(log.version(), 13);
    let refused = DJILogWrapper::from_parsed(&recovered, Err(dji_log_parser::Error::KeychainRequired));
    assert!(matches!(refused, Err(DJIError::ParseError)));
    // Out of bounds is a parse error whatever the parser said.
    let short = log_bytes(10, &[0u8; 10]);
    assert!(matches!(DJILogWrapper::from_parsed(&short, accepted()), Err(DJIError::ParseError)));
    assert!(matches!(DJILogWrapper::from_parsed(&Vec::new(), accepted()), Err(DJIError::ParseError)));
}

#[test]
fn fetch_outcome_gives_plain_keychains() {
    let scanned = keychains_request_from(Ok(request(vec![vec!["QUJD"]])));
    let chains = vec![vec![KeychainFeaturePoint {
        feature_point: FeaturePoint::GimbalFeature,
        aes_key: "key".to_string(),
        aes_iv: "iv".to_string(),
    }]];
    let got = fetched_keychains(&scanned, Some(Ok(chains.clone()))).ok().unwrap();
    assert_eq!(got.len(), 1);
    assert_eq!(got[0][0].feature_point, 10);
    assert_eq!(got[0][0].aes_key, "key");
    assert_eq!(got[0][0].aes_iv, "iv");
    let failed = fetched_keychains(&scanned, Some(Err(dji_log_parser::Error::NetworkConnection)));
    assert!(matches!(failed, Err(DJIError::KeychainError)));
    assert!(matches!(fetched_keychains(&scanned, None), Err(DJIError::KeychainError)));
    let no_request = keychains_request_from(Ok(request(vec![vec![]])));
    assert!(matches!(fetched_keychains(&no_request, Some(Ok(chains))), Err(DJIError::KeychainError)));
}
