//! Device model and application platform as plain, closed enumerations.
use vstd::prelude::*;

use dji_log_parser::layout::details::{Platform, ProductType};

verus! {

/// The device models named across the boundary; every other model is `Unknown`.
#[derive(Debug, Clone, Copy, PartialEq, Eq, Structural)]
pub enum ProductTypeWrapper {
    NoProduct,
    Inspire1,
    Phantom3Standard,
    Phantom3Advanced,
    Phantom3Pro,
    OSMO,
    Matrice100,
    Phantom4,
    LB2,
    Inspire1Pro,
    A3,
    Matrice600,
    Phantom34K,
    MavicPro,
    ZenmuseXT,
    Unknown,
}

/// The application platforms named across the boundary.
#[derive(Debug, Clone, Copy, PartialEq, Eq, Structural)]
pub enum PlatformWrapper {
    IOS,
    Android,
    DJIFly,
    Windows,
    Mac,
    Linux,
    Unknown,
}

/// The plain model for a parsed device model: each named model maps to its
/// namesake, every other model to `Unknown`.
pub open spec fn product_type_view(p: ProductType) -> ProductTypeWrapper {
    match p {
        ProductType::None => ProductTypeWrapper::NoProduct,
        ProductType::Inspire1 => ProductTypeWrapper::Inspire1,
        ProductType::Phantom3Standard => ProductTypeWrapper::Phantom3Standard,
        ProductType::Phantom3Advanced => ProductTypeWrapper::Phantom3Advanced,
        ProductType::Phantom3Pro => ProductTypeWrapper::Phantom3Pro,
        ProductType::OSMO => ProductTypeWrapper::OSMO,
        ProductType::Matrice100 => ProductTypeWrapper::Matrice100,
        ProductType::Phantom4 => ProductTypeWrapper::Phantom4,
        ProductType::LB2 => ProductTypeWrapper::LB2,
        ProductType::Inspire1Pro => ProductTypeWrapper::Inspire1Pro,
        ProductType::A3 => ProductTypeWrapper::A3,
        ProductType::Matrice600 => ProductTypeWrapper::Matrice600,
        ProductType::Phantom34K => ProductTypeWrapper::Phantom34K,
        ProductType::MavicPro => ProductTypeWrapper::MavicPro,
        ProductType::ZenmuseXT => ProductTypeWrapper::ZenmuseXT,
        _ => ProductTypeWrapper::Unknown,
    }
}

/// The plain platform for a parsed platform; an unrecognised code is `Unknown`.
pub open spec fn platform_view(p: Platform) -> PlatformWrapper {
    match p {
        Platform::IOS => PlatformWrapper::IOS,
        Platform::Android => PlatformWrapper::Android,
        Platform::DJIFly => PlatformWrapper::DJIFly,
        Platform::Windows => PlatformWrapper::Windows,
        Platform::Mac => PlatformWrapper::Mac,
        Platform::Linux => PlatformWrapper::Linux,
        Platform::Unknown(_) => PlatformWrapper::Unknown,
    }
}

impl From<ProductType> for ProductTypeWrapper {
    fn from(product_type: ProductType) -> (r: ProductTypeWrapper)
        ensures
            r == product_type_view(product_type),
    {
        match product_type {
            ProductType::None => ProductTypeWrapper::NoProduct,
            ProductType::Inspire1 => ProductTypeWrapper::Inspire1,
            ProductType::Phantom3Standard => ProductTypeWrapper::Phantom3Standard,
            ProductType::Phantom3Advanced => ProductTypeWrapper::Phantom3Advanced,
            ProductType::Phantom3Pro => ProductTypeWrapper::Phantom3Pro,
            ProductType::OSMO => ProductTypeWrapper::OSMO,
            ProductType::Matrice100 => ProductTypeWrapper::Matrice100,
            ProductType::Phantom4 => ProductTypeWrapper::Phantom4,
            ProductType::LB2 => ProductTypeWrapper::LB2,
            ProductType::Inspire1Pro => ProductTypeWrapper::Inspire1Pro,
            ProductType::A3 => ProductTypeWrapper::A3,
            ProductType::Matrice600 => ProductTypeWrapper::Matrice600,
            ProductType::Phantom34K => ProductTypeWrapper::Phantom34K,
            ProductType::MavicPro => ProductTypeWrapper::MavicPro,
            ProductType::ZenmuseXT => ProductTypeWrapper::ZenmuseXT,
            _ => ProductTypeWrapper::Unknown,
        }
    }
}

impl vstd::std_specs::convert::FromSpecImpl<ProductType> for ProductTypeWrapper {
    open spec fn obeys_from_spec() -> bool {
        true
    }

    open spec fn from_spec(product_type: ProductType) -> ProductTypeWrapper {
        product_type_view(product_type)
    }
}

impl From<Platform> for PlatformWrapper {
    fn from(platform: Platform) -> (r: PlatformWrapper)
        ensures
            r == platform_view(platform),
    {
        match platform {
            Platform::IOS => PlatformWrapper::IOS,
            Platform::Android => PlatformWrapper::Android,
            Platform::DJIFly => PlatformWrapper::DJIFly,
            Platform::Windows => PlatformWrapper::Windows,
            Platform::Mac => PlatformWrapper::Mac,
            Platform::Linux => PlatformWrapper::Linux,
            _ => PlatformWrapper::Unknown,
        }
    }
}

impl vstd::std_specs::convert::FromSpecImpl<Platform> for PlatformWrapper {
    open spec fn obeys_from_spec() -> bool {
        true
    }

    open spec fn from_spec(platform: Platform) -> PlatformWrapper {
        platform_view(platform)
    }
}

/// Every unrecognised platform code maps to `Unknown`: the mapping never fails.
pub proof fn lemma_unknown_platform(code: u8)
    ensures
        platform_view(Platform::Unknown(code)) == PlatformWrapper::Unknown,
{
}

/// Every unrecognised device code maps to `Unknown`: the mapping never fails.
pub proof fn lemma_unknown_product_type(code: u8)
    ensures
        product_type_view(ProductType::Unknown(code)) == ProductTypeWrapper::Unknown,
{
}

} // verus!
