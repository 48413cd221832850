//! Feature areas of keychain entries and their numeric wire codes.
use vstd::prelude::*;

use dji_log_parser::keychain::FeaturePoint;

verus! {

/// The feature area that a wire code names; codes outside 1..=15 name the base feature.
pub open spec fn feature_of_code(value: u32) -> FeaturePoint {
    if value == 2 { FeaturePoint::VisionFeature }
    else if value == 3 { FeaturePoint::WaypointFeature }
    else if value == 4 { FeaturePoint::AgricultureFeature }
    else if value == 5 { FeaturePoint::AirLinkFeature }
    else if value == 6 { FeaturePoint::AfterSalesFeature }
    else if value == 7 { FeaturePoint::DJIFlyCustomFeature }
    else if value == 8 { FeaturePoint::PlaintextFeature }
    else if value == 9 { FeaturePoint::FlightHubFeature }
    else if value == 10 { FeaturePoint::GimbalFeature }
    else if value == 11 { FeaturePoint::RCFeature }
    else if value == 12 { FeaturePoint::CameraFeature }
    else if value == 13 { FeaturePoint::BatteryFeature }
    else if value == 14 { FeaturePoint::FlySafeFeature }
    else if value == 15 { FeaturePoint::SecurityFeature }
    else { FeaturePoint::BaseFeature }
}

/// The wire code of a feature area, its position in the enumeration counted from 1.
pub open spec fn code_of_feature(fp: FeaturePoint) -> u32 {
    match fp {
        FeaturePoint::BaseFeature => 1,
        FeaturePoint::VisionFeature => 2,
        FeaturePoint::WaypointFeature => 3,
        FeaturePoint::AgricultureFeature => 4,
        FeaturePoint::AirLinkFeature => 5,
        FeaturePoint::AfterSalesFeature => 6,
        FeaturePoint::DJIFlyCustomFeature => 7,
        FeaturePoint::PlaintextFeature => 8,
        FeaturePoint::FlightHubFeature => 9,
        FeaturePoint::GimbalFeature => 10,
        FeaturePoint::RCFeature => 11,
        FeaturePoint::CameraFeature => 12,
        FeaturePoint::BatteryFeature => 13,
        FeaturePoint::FlySafeFeature => 14,
        FeaturePoint::SecurityFeature => 15,
    }
}

/// Maps a wire code to its feature area; the mapping is total, with unknown
/// codes falling back to the base feature.
pub fn u32_to_feature_point(value: u32) -> (r: FeaturePoint)
    ensures
        r == feature_of_code(value),
        1 <= value <= 15 ==> code_of_feature(r) == value,
        !(1 <= value <= 15) ==> r == FeaturePoint::BaseFeature,
{
    match value {
        1 => FeaturePoint::BaseFeature,
        2 => FeaturePoint::VisionFeature,
        3 => FeaturePoint::WaypointFeature,
        4 => FeaturePoint::AgricultureFeature,
        5 => FeaturePoint::AirLinkFeature,
        6 => FeaturePoint::AfterSalesFeature,
        7 => FeaturePoint::DJIFlyCustomFeature,
        8 => FeaturePoint::PlaintextFeature,
        9 => FeaturePoint::FlightHubFeature,
        10 => FeaturePoint::GimbalFeature,
        11 => FeaturePoint::RCFeature,
        12 => FeaturePoint::CameraFeature,
        13 => FeaturePoint::BatteryFeature,
        14 => FeaturePoint::FlySafeFeature,
        15 => FeaturePoint::SecurityFeature,
        _ => FeaturePoint::BaseFeature,
    }
}

/// The wire code of a feature area.
pub fn feature_point_code(fp: FeaturePoint) -> (r: u32)
    ensures
        r == code_of_feature(fp),
        1 <= r <= 15,
{
    match fp {
        FeaturePoint::BaseFeature => 1,
        FeaturePoint::VisionFeature => 2,
        FeaturePoint::WaypointFeature => 3,
        FeaturePoint::AgricultureFeature => 4,
        FeaturePoint::AirLinkFeature => 5,
        FeaturePoint::AfterSalesFeature => 6,
        FeaturePoint::DJIFlyCustomFeature => 7,
        FeaturePoint::PlaintextFeature => 8,
        FeaturePoint::FlightHubFeature => 9,
        FeaturePoint::GimbalFeature => 10,
        FeaturePoint::RCFeature => 11,
        FeaturePoint::CameraFeature => 12,
        FeaturePoint::BatteryFeature => 13,
        FeaturePoint::FlySafeFeature => 14,
        FeaturePoint::SecurityFeature => 15,
    }
}

/// Encoding a feature area as its wire code and decoding that code gives the
/// same feature area back.
pub proof fn lemma_feature_code_round_trip(fp: FeaturePoint)
    ensures
        feature_of_code(code_of_feature(fp)) == fp,
{
}

/// Decoding any code and encoding the result gives a valid code, equal to the
/// original when that code was known.
pub proof fn lemma_code_feature_round_trip(value: u32)
    ensures
        1 <= code_of_feature(feature_of_code(value)) <= 15,
        1 <= value <= 15 ==> code_of_feature(feature_of_code(value)) == value,
{
}

} // verus!
