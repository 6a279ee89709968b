//! Devices, and the bridge and its home.
use vstd::prelude::*;

use crate::api::resource::ResourceLink;
use crate::json::json_empty_object;

verus! {

/// The maker of the devices that the bridge stands for.
pub const SIGNIFY_MANUFACTURER_NAME: &'static str = "Signify Netherlands B.V.";

/// The product name of a bridge.
pub const HUE_BRIDGE_PRODUCT_NAME: &'static str = "Hue Bridge";

/// The archetype of a second-generation bridge.
pub const BRIDGE_V2_ARCHETYPE: &'static str = "bridge_v2";

/// The software version that a bridge device reports.
pub const HUE_BRIDGE_SOFTWARE_VERSION: &'static str = "1.68.1968096020";

/// What a device is, as its maker describes it.
#[derive(Debug, Clone)]
pub struct DeviceProductData {
    pub model_id: String,
    pub manufacturer_name: String,
    pub product_name: String,
    pub product_archetype: String,
    pub certified: bool,
    pub software_version: String,
    pub hardware_platform_type: Option<String>,
}

impl DeviceProductData {
    /// The product data of a second-generation bridge.
    pub fn hue_bridge_v2() -> (d: Self)
        ensures
            d.model_id@ == crate::HUE_BRIDGE_V2_MODEL_ID@,
            d.manufacturer_name@ == SIGNIFY_MANUFACTURER_NAME@,
            d.product_name@ == HUE_BRIDGE_PRODUCT_NAME@,
            d.product_archetype@ == BRIDGE_V2_ARCHETYPE@,
            d.certified,
            d.software_version@ == HUE_BRIDGE_SOFTWARE_VERSION@,
            d.hardware_platform_type is None,
    {
        DeviceProductData {
            model_id: crate::HUE_BRIDGE_V2_MODEL_ID.to_string(),
            manufacturer_name: SIGNIFY_MANUFACTURER_NAME.to_string(),
            product_name: HUE_BRIDGE_PRODUCT_NAME.to_string(),
            product_archetype: BRIDGE_V2_ARCHETYPE.to_string(),
            certified: true,
            software_version: HUE_BRIDGE_SOFTWARE_VERSION.to_string(),
            hardware_platform_type: None,
        }
    }
}

/// The name of a device and the kind of device it is.
#[derive(Debug, Clone)]
pub struct Metadata {
    pub name: String,
    pub archetype: String,
}

impl Metadata {
    /// The metadata of a bridge called `name`.
    pub fn hue_bridge(name: &str) -> (m: Self)
        ensures
            m.name@ == name@,
            m.archetype@ == BRIDGE_V2_ARCHETYPE@,
    {
        Metadata { name: name.to_string(), archetype: BRIDGE_V2_ARCHETYPE.to_string() }
    }
}

/// A device: what it is, and the services it offers.
#[derive(Debug, Clone)]
pub struct Device {
    pub product_data: DeviceProductData,
    pub metadata: Metadata,
    pub identify: serde_json::Value,
    pub services: Vec<ResourceLink>,
}

impl Device {
    /// The device that stands for a bridge called `name` and offers the
    /// one service `service`.
    pub fn hue_bridge(name: &str, service: ResourceLink) -> (d: Self)
        ensures
            d.is_hue_bridge(name@, service),
    {
        let mut services: Vec<ResourceLink> = Vec::new();
        services.push(service);
        Device {
            product_data: DeviceProductData::hue_bridge_v2(),
            metadata: Metadata::hue_bridge(name),
            identify: json_empty_object(),
            services,
        }
    }

    /// This is the device that stands for a bridge called `name` and
    /// offers the one service `service`.
    pub open spec fn is_hue_bridge(self, name: Seq<char>, service: ResourceLink) -> bool {
        &&& self.product_data.model_id@ == crate::HUE_BRIDGE_V2_MODEL_ID@
        &&& self.product_data.manufacturer_name@ == SIGNIFY_MANUFACTURER_NAME@
        &&& self.product_data.product_name@ == HUE_BRIDGE_PRODUCT_NAME@
        &&& self.product_data.product_archetype@ == BRIDGE_V2_ARCHETYPE@
        &&& self.product_data.certified
        &&& self.product_data.software_version@ == HUE_BRIDGE_SOFTWARE_VERSION@
        &&& self.product_data.hardware_platform_type is None
        &&& self.metadata.name@ == name
        &&& self.metadata.archetype@ == BRIDGE_V2_ARCHETYPE@
        &&& self.services@ == seq![service]
    }
}

/// The time zone of the bridge, by its IANA name.
#[derive(Debug, Clone)]
pub struct TimeZone {
    pub time_zone: String,
}

/// The bridge itself.
#[derive(Debug, Clone)]
pub struct Bridge {
    pub bridge_id: String,
    pub owner: ResourceLink,
    pub time_zone: TimeZone,
}

/// The home of the bridge: everything the bridge knows of.
#[derive(Debug, Clone)]
pub struct BridgeHome {
    pub children: Vec<ResourceLink>,
    pub services: Vec<ResourceLink>,
}

} // verus!
