//! The resource kinds whose records the library carries as they are.
//!
//! A record of one of these kinds is a JSON document that the library stores
//! and hands on without reading it.
use vstd::prelude::*;

verus! {

/// An automation that is set up on the bridge.
#[derive(Debug, Clone)]
pub struct BehaviorInstance {
    pub doc: serde_json::Value,
}

/// A script that automations are made from.
#[derive(Debug, Clone)]
pub struct BehaviorScript {
    pub doc: serde_json::Value,
}

/// A button of a switch.
#[derive(Debug, Clone)]
pub struct Button {
    pub doc: serde_json::Value,
}

/// The battery of a device.
#[derive(Debug, Clone)]
pub struct DevicePower {
    pub doc: serde_json::Value,
}

/// The software update state of a device.
#[derive(Debug, Clone)]
pub struct DeviceSoftwareUpdate {
    pub doc: serde_json::Value,
}

/// What a light can do in an entertainment stream.
#[derive(Debug, Clone)]
pub struct Entertainment {
    pub doc: serde_json::Value,
}

/// An entertainment area: its lights and where they stand.
#[derive(Debug, Clone)]
pub struct EntertainmentConfiguration {
    pub doc: serde_json::Value,
}

/// A phone that tells the bridge whether its owner is home.
#[derive(Debug, Clone)]
pub struct GeofenceClient {
    pub doc: serde_json::Value,
}

/// Where the bridge is, for sunrise and sunset.
#[derive(Debug, Clone)]
pub struct Geolocation {
    pub doc: serde_json::Value,
}

/// The light level sensors of a group, taken as one.
#[derive(Debug, Clone)]
pub struct GroupedLightLevel {
    pub doc: serde_json::Value,
}

/// The motion sensors of a group, taken as one.
#[derive(Debug, Clone)]
pub struct GroupedMotion {
    pub doc: serde_json::Value,
}

/// The HomeKit pairing of the bridge.
#[derive(Debug, Clone)]
pub struct Homekit {
    pub doc: serde_json::Value,
}

/// A light level sensor.
#[derive(Debug, Clone)]
pub struct LightLevel {
    pub doc: serde_json::Value,
}

/// The Matter pairing of the bridge.
#[derive(Debug, Clone)]
pub struct Matter {
    pub doc: serde_json::Value,
}

/// A motion sensor.
#[derive(Debug, Clone)]
pub struct Motion {
    pub doc: serde_json::Value,
}

/// A group that only its maker sees.
#[derive(Debug, Clone)]
pub struct PrivateGroup {
    pub doc: serde_json::Value,
}

/// An image that scenes can show.
#[derive(Debug, Clone)]
pub struct PublicImage {
    pub doc: serde_json::Value,
}

/// The dial of a switch.
#[derive(Debug, Clone)]
pub struct RelativeRotary {
    pub doc: serde_json::Value,
}

/// A scene that changes with the time of day.
#[derive(Debug, Clone)]
pub struct SmartScene {
    pub doc: serde_json::Value,
}

/// An internal service of the bridge.
#[derive(Debug, Clone)]
pub struct Taurus {
    pub doc: serde_json::Value,
}

/// A temperature sensor.
#[derive(Debug, Clone)]
pub struct Temperature {
    pub doc: serde_json::Value,
}

/// The Zigbee link of a device.
#[derive(Debug, Clone)]
pub struct ZigbeeConnectivity {
    pub doc: serde_json::Value,
}

/// The search for new Zigbee devices.
#[derive(Debug, Clone)]
pub struct ZigbeeDeviceDiscovery {
    pub doc: serde_json::Value,
}

/// A zone: lights picked from any room.
#[derive(Debug, Clone)]
pub struct Zone {
    pub doc: serde_json::Value,
}

} // verus!
