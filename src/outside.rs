//! Declarations of the parser crate's types that the library's contracts speak of.
use vstd::prelude::*;

use dji_log_parser::keychain::{
    EncodedKeychainFeaturePoint, FeaturePoint, KeychainFeaturePoint, KeychainsRequest,
};
use dji_log_parser::layout::details::{Platform, ProductType};
use dji_log_parser::DJILog;

verus! {

/// The feature area of a keychain entry; its fifteen fieldless variants are
/// read by Verus as they stand in the parser crate.
#[verifier::external_type_specification]
pub struct ExFeaturePoint(FeaturePoint);

/// The device model recorded in a log's details; its variants are read by
/// Verus as they stand in the parser crate.
#[verifier::external_type_specification]
pub struct ExProductType(ProductType);

/// The application platform that wrote a log; its variants are read by Verus
/// as they stand in the parser crate.
#[verifier::external_type_specification]
pub struct ExPlatform(Platform);

/// A plaintext keychain entry (feature area, key, IV); its public fields are
/// read by Verus as they stand in the parser crate.
#[verifier::external_type_specification]
pub struct ExKeychainFeaturePoint(KeychainFeaturePoint);

/// An encrypted keychain entry (feature area, ciphertext); its public fields
/// are read by Verus as they stand in the parser crate.
#[verifier::external_type_specification]
pub struct ExEncodedKeychainFeaturePoint(EncodedKeychainFeaturePoint);

/// The request for a log's keychains; its public fields are read by Verus as
/// they stand in the parser crate.
#[verifier::external_type_specification]
pub struct ExKeychainsRequest(KeychainsRequest);

/// A parsed log of the parser crate, carried through as an opaque value.
#[verifier::external_type_specification]
#[verifier::external_body]
pub struct ExDJILog(DJILog);

/// The parser crate's error, carried through as an opaque value.
#[verifier::external_type_specification]
#[verifier::external_body]
pub struct ExParserError(dji_log_parser::Error);

} // verus!
