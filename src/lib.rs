//! Verified bindings layer over the DJI flight-log parser: the plain types
//! handed across a language boundary, the total mappings between device codes
//! and enumerations, and the conversions of keychains in both directions.
pub mod outside;
pub mod feature;
pub mod device;
pub mod keychain;
pub mod prefix;
pub mod error;
pub mod log;

pub use feature::{feature_point_code, u32_to_feature_point};
pub use device::{PlatformWrapper, ProductTypeWrapper};
pub use error::DJIError;
pub use keychain::{EncodedKeychainFeaturePointWrapper, KeychainFeaturePointWrapper, KeychainsRequestWrapper};
pub use log::{DJILogWrapper, RecordWrapper};
