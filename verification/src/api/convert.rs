//! Each kind of resource, as a record type with its place among the
//! resources.
use vstd::prelude::*;

use crate::api::device::{Bridge, BridgeHome, Device};
use crate::api::light::{GroupedLight, Light};
use crate::api::resource::RType;
use crate::api::room::Room;
use crate::api::scene::Scene;
use crate::api::stubs::{
    BehaviorInstance, BehaviorScript, Button, Entertainment, EntertainmentConfiguration,
    GeofenceClient, Geolocation, Homekit, LightLevel, Matter, Motion, PrivateGroup, PublicImage,
    RelativeRotary, SmartScene, Taurus, Temperature, ZigbeeConnectivity, ZigbeeDeviceDiscovery,
    Zone,
};
use crate::api::{Resource, ResourceKind};
use crate::error::{ApiError, ApiResult};

verus! {

impl ResourceKind for BehaviorInstance {
    open spec fn kind() -> RType {
        RType::BehaviorInstance
    }

    open spec fn wrap(self) -> Resource {
        Resource::BehaviorInstance(self)
    }

    proof fn lemma_wrap_kind(self) {
    }

    fn rtype() -> (t: RType) {
        RType::BehaviorInstance
    }

    fn into_resource(self) -> (r: Resource) {
        Resource::BehaviorInstance(self)
    }

    fn from_resource(r: Resource) -> (res: ApiResult<Self>) {
        match r {
            Resource::BehaviorInstance(obj) => Ok(obj),
            other => Err(ApiError::WrongType(RType::BehaviorInstance, other.rtype())),
        }
    }

    fn from_ref(r: &Resource) -> (res: ApiResult<&Self>) {
        match r {
            Resource::BehaviorInstance(obj) => Ok(obj),
            other => Err(ApiError::WrongType(RType::BehaviorInstance, other.rtype())),
        }
    }
}

impl ResourceKind for BehaviorScript {
    open spec fn kind() -> RType {
        RType::BehaviorScript
    }

    open spec fn wrap(self) -> Resource {
        Resource::BehaviorScript(self)
    }

    proof fn lemma_wrap_kind(self) {
    }

    fn rtype() -> (t: RType) {
        RType::BehaviorScript
    }

    fn into_resource(self) -> (r: Resource) {
        Resource::BehaviorScript(self)
    }

    fn from_resource(r: Resource) -> (res: ApiResult<Self>) {
        match r {
            Resource::BehaviorScript(obj) => Ok(obj),
            other => Err(ApiError::WrongType(RType::BehaviorScript, other.rtype())),
        }
    }

    fn from_ref(r: &Resource) -> (res: ApiResult<&Self>) {
        match r {
            Resource::BehaviorScript(obj) => Ok(obj),
            other => Err(ApiError::WrongType(RType::BehaviorScript, other.rtype())),
        }
    }
}

impl ResourceKind for Bridge {
    open spec fn kind() -> RType {
        RType::Bridge
    }

    open spec fn wrap(self) -> Resource {
        Resource::Bridge(self)
    }

    proof fn lemma_wrap_kind(self) {
    }

    fn rtype() -> (t: RType) {
        RType::Bridge
    }

    fn into_resource(self) -> (r: Resource) {
        Resource::Bridge(self)
    }

    fn from_resource(r: Resource) -> (res: ApiResult<Self>) {
        match r {
            Resource::Bridge(obj) => Ok(obj),
            other => Err(ApiError::WrongType(RType::Bridge, other.rtype())),
        }
    }

    fn from_ref(r: &Resource) -> (res: ApiResult<&Self>) {
        match r {
            Resource::Bridge(obj) => Ok(obj),
            other => Err(ApiError::WrongType(RType::Bridge, other.rtype())),
        }
    }
}

impl ResourceKind for BridgeHome {
    open spec fn kind() -> RType {
        RType::BridgeHome
    }

    open spec fn wrap(self) -> Resource {
        Resource::BridgeHome(self)
    }

    proof fn lemma_wrap_kind(self) {
    }

    fn rtype() -> (t: RType) {
        RType::BridgeHome
    }

    fn into_resource(self) -> (r: Resource) {
        Resource::BridgeHome(self)
    }

    fn from_resource(r: Resource) -> (res: ApiResult<Self>) {
        match r {
            Resource::BridgeHome(obj) => Ok(obj),
            other => Err(ApiError::WrongType(RType::BridgeHome, other.rtype())),
        }
    }

    fn from_ref(r: &Resource) -> (res: ApiResult<&Self>) {
        match r {
            Resource::BridgeHome(obj) => Ok(obj),
            other => Err(ApiError::WrongType(RType::BridgeHome, other.rtype())),
        }
    }
}

impl ResourceKind for Button {
    open spec fn kind() -> RType {
        RType::Button
    }

    open spec fn wrap(self) -> Resource {
        Resource::Button(self)
    }

    proof fn lemma_wrap_kind(self) {
    }

    fn rtype() -> (t: RType) {
        RType::Button
    }

    fn into_resource(self) -> (r: Resource) {
        Resource::Button(self)
    }

    fn from_resource(r: Resource) -> (res: ApiResult<Self>) {
        match r {
            Resource::Button(obj) => Ok(obj),
            other => Err(ApiError::WrongType(RType::Button, other.rtype())),
        }
    }

    fn from_ref(r: &Resource) -> (res: ApiResult<&Self>) {
        match r {
            Resource::Button(obj) => Ok(obj),
            other => Err(ApiError::WrongType(RType::Button, other.rtype())),
        }
    }
}

impl ResourceKind for Device {
    open spec fn kind() -> RType {
        RType::Device
    }

    open spec fn wrap(self) -> Resource {
        Resource::Device(self)
    }

    proof fn lemma_wrap_kind(self) {
    }

    fn rtype() -> (t: RType) {
        RType::Device
    }

    fn into_resource(self) -> (r: Resource) {
        Resource::Device(self)
    }

    fn from_resource(r: Resource) -> (res: ApiResult<Self>) {
        match r {
            Resource::Device(obj) => Ok(obj),
            other => Err(ApiError::WrongType(RType::Device, other.rtype())),
        }
    }

    fn from_ref(r: &Resource) -> (res: ApiResult<&Self>) {
        match r {
            Resource::Device(obj) => Ok(obj),
            other => Err(ApiError::WrongType(RType::Device, other.rtype())),
        }
    }
}

impl ResourceKind for Entertainment {
    open spec fn kind() -> RType {
        RType::Entertainment
    }

    open spec fn wrap(self) -> Resource {
        Resource::Entertainment(self)
    }

    proof fn lemma_wrap_kind(self) {
    }

    fn rtype() -> (t: RType) {
        RType::Entertainment
    }

    fn into_resource(self) -> (r: Resource) {
        Resource::Entertainment(self)
    }

    fn from_resource(r: Resource) -> (res: ApiResult<Self>) {
        match r {
            Resource::Entertainment(obj) => Ok(obj),
            other => Err(ApiError::WrongType(RType::Entertainment, other.rtype())),
        }
    }

    fn from_ref(r: &Resource) -> (res: ApiResult<&Self>) {
        match r {
            Resource::Entertainment(obj) => Ok(obj),
            other => Err(ApiError::WrongType(RType::Entertainment, other.rtype())),
        }
    }
}

impl ResourceKind for EntertainmentConfiguration {
    open spec fn kind() -> RType {
        RType::EntertainmentConfiguration
    }

    open spec fn wrap(self) -> Resource {
        Resource::EntertainmentConfiguration(self)
    }

    proof fn lemma_wrap_kind(self) {
    }

    fn rtype() -> (t: RType) {
        RType::EntertainmentConfiguration
    }

    fn into_resource(self) -> (r: Resource) {
        Resource::EntertainmentConfiguration(self)
    }

    fn from_resource(r: Resource) -> (res: ApiResult<Self>) {
        match r {
            Resource::EntertainmentConfiguration(obj) => Ok(obj),
            other => Err(ApiError::WrongType(RType::EntertainmentConfiguration, other.rtype())),
        }
    }

    fn from_ref(r: &Resource) -> (res: ApiResult<&Self>) {
        match r {
            Resource::EntertainmentConfiguration(obj) => Ok(obj),
            other => Err(ApiError::WrongType(RType::EntertainmentConfiguration, other.rtype())),
        }
    }
}

impl ResourceKind for GeofenceClient {
    open spec fn kind() -> RType {
        RType::GeofenceClient
    }

    open spec fn wrap(self) -> Resource {
        Resource::GeofenceClient(self)
    }

    proof fn lemma_wrap_kind(self) {
    }

    fn rtype() -> (t: RType) {
        RType::GeofenceClient
    }

    fn into_resource(self) -> (r: Resource) {
        Resource::GeofenceClient(self)
    }

    fn from_resource(r: Resource) -> (res: ApiResult<Self>) {
        match r {
            Resource::GeofenceClient(obj) => Ok(obj),
            other => Err(ApiError::WrongType(RType::GeofenceClient, other.rtype())),
        }
    }

    fn from_ref(r: &Resource) -> (res: ApiResult<&Self>) {
        match r {
            Resource::GeofenceClient(obj) => Ok(obj),
            other => Err(ApiError::WrongType(RType::GeofenceClient, other.rtype())),
        }
    }
}

impl ResourceKind for Geolocation {
    open spec fn kind() -> RType {
        RType::Geolocation
    }

    open spec fn wrap(self) -> Resource {
        Resource::Geolocation(self)
    }

    proof fn lemma_wrap_kind(self) {
    }

    fn rtype() -> (t: RType) {
        RType::Geolocation
    }

    fn into_resource(self) -> (r: Resource) {
        Resource::Geolocation(self)
    }

    fn from_resource(r: Resource) -> (res: ApiResult<Self>) {
        match r {
            Resource::Geolocation(obj) => Ok(obj),
            other => Err(ApiError::WrongType(RType::Geolocation, other.rtype())),
        }
    }

    fn from_ref(r: &Resource) -> (res: ApiResult<&Self>) {
        match r {
            Resource::Geolocation(obj) => Ok(obj),
            other => Err(ApiError::WrongType(RType::Geolocation, other.rtype())),
        }
    }
}

impl ResourceKind for GroupedLight {
    open spec fn kind() -> RType {
        RType::GroupedLight
    }

    open spec fn wrap(self) -> Resource {
        Resource::GroupedLight(self)
    }

    proof fn lemma_wrap_kind(self) {
    }

    fn rtype() -> (t: RType) {
        RType::GroupedLight
    }

    fn into_resource(self) -> (r: Resource) {
        Resource::GroupedLight(self)
    }

    fn from_resource(r: Resource) -> (res: ApiResult<Self>) {
        match r {
            Resource::GroupedLight(obj) => Ok(obj),
            other => Err(ApiError::WrongType(RType::GroupedLight, other.rtype())),
        }
    }

    fn from_ref(r: &Resource) -> (res: ApiResult<&Self>) {
        match r {
            Resource::GroupedLight(obj) => Ok(obj),
            other => Err(ApiError::WrongType(RType::GroupedLight, other.rtype())),
        }
    }
}

impl ResourceKind for Homekit {
    open spec fn kind() -> RType {
        RType::Homekit
    }

    open spec fn wrap(self) -> Resource {
        Resource::Homekit(self)
    }

    proof fn lemma_wrap_kind(self) {
    }

    fn rtype() -> (t: RType) {
        RType::Homekit
    }

    fn into_resource(self) -> (r: Resource) {
        Resource::Homekit(self)
    }

    fn from_resource(r: Resource) -> (res: ApiResult<Self>) {
        match r {
            Resource::Homekit(obj) => Ok(obj),
            other => Err(ApiError::WrongType(RType::Homekit, other.rtype())),
        }
    }

    fn from_ref(r: &Resource) -> (res: ApiResult<&Self>) {
        match r {
            Resource::Homekit(obj) => Ok(obj),
            other => Err(ApiError::WrongType(RType::Homekit, other.rtype())),
        }
    }
}

impl ResourceKind for Light {
    open spec fn kind() -> RType {
        RType::Light
    }

    open spec fn wrap(self) -> Resource {
        Resource::Light(self)
    }

    proof fn lemma_wrap_kind(self) {
    }

    fn rtype() -> (t: RType) {
        RType::Light
    }

    fn into_resource(self) -> (r: Resource) {
        Resource::Light(self)
    }

    fn from_resource(r: Resource) -> (res: ApiResult<Self>) {
        match r {
            Resource::Light(obj) => Ok(obj),
            other => Err(ApiError::WrongType(RType::Light, other.rtype())),
        }
    }

    fn from_ref(r: &Resource) -> (res: ApiResult<&Self>) {
        match r {
            Resource::Light(obj) => Ok(obj),
            other => Err(ApiError::WrongType(RType::Light, other.rtype())),
        }
    }
}

impl ResourceKind for LightLevel {
    open spec fn kind() -> RType {
        RType::LightLevel
    }

    open spec fn wrap(self) -> Resource {
        Resource::LightLevel(self)
    }

    proof fn lemma_wrap_kind(self) {
    }

    fn rtype() -> (t: RType) {
        RType::LightLevel
    }

    fn into_resource(self) -> (r: Resource) {
        Resource::LightLevel(self)
    }

    fn from_resource(r: Resource) -> (res: ApiResult<Self>) {
        match r {
            Resource::LightLevel(obj) => Ok(obj),
            other => Err(ApiError::WrongType(RType::LightLevel, other.rtype())),
        }
    }

    fn from_ref(r: &Resource) -> (res: ApiResult<&Self>) {
        match r {
            Resource::LightLevel(obj) => Ok(obj),
            other => Err(ApiError::WrongType(RType::LightLevel, other.rtype())),
        }
    }
}

impl ResourceKind for Matter {
    open spec fn kind() -> RType {
        RType::Matter
    }

    open spec fn wrap(self) -> Resource {
        Resource::Matter(self)
    }

    proof fn lemma_wrap_kind(self) {
    }

    fn rtype() -> (t: RType) {
        RType::Matter
    }

    fn into_resource(self) -> (r: Resource) {
        Resource::Matter(self)
    }

    fn from_resource(r: Resource) -> (res: ApiResult<Self>) {
        match r {
            Resource::Matter(obj) => Ok(obj),
            other => Err(ApiError::WrongType(RType::Matter, other.rtype())),
        }
    }

    fn from_ref(r: &Resource) -> (res: ApiResult<&Self>) {
        match r {
            Resource::Matter(obj) => Ok(obj),
            other => Err(ApiError::WrongType(RType::Matter, other.rtype())),
        }
    }
}

impl ResourceKind for Motion {
    open spec fn kind() -> RType {
        RType::Motion
    }

    open spec fn wrap(self) -> Resource {
        Resource::Motion(self)
    }

    proof fn lemma_wrap_kind(self) {
    }

    fn rtype() -> (t: RType) {
        RType::Motion
    }

    fn into_resource(self) -> (r: Resource) {
        Resource::Motion(self)
    }

    fn from_resource(r: Resource) -> (res: ApiResult<Self>) {
        match r {
            Resource::Motion(obj) => Ok(obj),
            other => Err(ApiError::WrongType(RType::Motion, other.rtype())),
        }
    }

    fn from_ref(r: &Resource) -> (res: ApiResult<&Self>) {
        match r {
            Resource::Motion(obj) => Ok(obj),
            other => Err(ApiError::WrongType(RType::Motion, other.rtype())),
        }
    }
}

impl ResourceKind for PrivateGroup {
    open spec fn kind() -> RType {
        RType::PrivateGroup
    }

    open spec fn wrap(self) -> Resource {
        Resource::PrivateGroup(self)
    }

    proof fn lemma_wrap_kind(self) {
    }

    fn rtype() -> (t: RType) {
        RType::PrivateGroup
    }

    fn into_resource(self) -> (r: Resource) {
        Resource::PrivateGroup(self)
    }

    fn from_resource(r: Resource) -> (res: ApiResult<Self>) {
        match r {
            Resource::PrivateGroup(obj) => Ok(obj),
            other => Err(ApiError::WrongType(RType::PrivateGroup, other.rtype())),
        }
    }

    fn from_ref(r: &Resource) -> (res: ApiResult<&Self>) {
        match r {
            Resource::PrivateGroup(obj) => Ok(obj),
            other => Err(ApiError::WrongType(RType::PrivateGroup, other.rtype())),
        }
    }
}

impl ResourceKind for PublicImage {
    open spec fn kind() -> RType {
        RType::PublicImage
    }

    open spec fn wrap(self) -> Resource {
        Resource::PublicImage(self)
    }

    proof fn lemma_wrap_kind(self) {
    }

    fn rtype() -> (t: RType) {
        RType::PublicImage
    }

    fn into_resource(self) -> (r: Resource) {
        Resource::PublicImage(self)
    }

    fn from_resource(r: Resource) -> (res: ApiResult<Self>) {
        match r {
            Resource::PublicImage(obj) => Ok(obj),
            other => Err(ApiError::WrongType(RType::PublicImage, other.rtype())),
        }
    }

    fn from_ref(r: &Resource) -> (res: ApiResult<&Self>) {
        match r {
            Resource::PublicImage(obj) => Ok(obj),
            other => Err(ApiError::WrongType(RType::PublicImage, other.rtype())),
        }
    }
}

impl ResourceKind for RelativeRotary {
    open spec fn kind() -> RType {
        RType::RelativeRotary
    }

    open spec fn wrap(self) -> Resource {
        Resource::RelativeRotary(self)
    }

    proof fn lemma_wrap_kind(self) {
    }

    fn rtype() -> (t: RType) {
        RType::RelativeRotary
    }

    fn into_resource(self) -> (r: Resource) {
        Resource::RelativeRotary(self)
    }

    fn from_resource(r: Resource) -> (res: ApiResult<Self>) {
        match r {
            Resource::RelativeRotary(obj) => Ok(obj),
            other => Err(ApiError::WrongType(RType::RelativeRotary, other.rtype())),
        }
    }

    fn from_ref(r: &Resource) -> (res: ApiResult<&Self>) {
        match r {
            Resource::RelativeRotary(obj) => Ok(obj),
            other => Err(ApiError::WrongType(RType::RelativeRotary, other.rtype())),
        }
    }
}

impl ResourceKind for Room {
    open spec fn kind() -> RType {
        RType::Room
    }

    open spec fn wrap(self) -> Resource {
        Resource::Room(self)
    }

    proof fn lemma_wrap_kind(self) {
    }

    fn rtype() -> (t: RType) {
        RType::Room
    }

    fn into_resource(self) -> (r: Resource) {
        Resource::Room(self)
    }

    fn from_resource(r: Resource) -> (res: ApiResult<Self>) {
        match r {
            Resource::Room(obj) => Ok(obj),
            other => Err(ApiError::WrongType(RType::Room, other.rtype())),
        }
    }

    fn from_ref(r: &Resource) -> (res: ApiResult<&Self>) {
        match r {
            Resource::Room(obj) => Ok(obj),
            other => Err(ApiError::WrongType(RType::Room, other.rtype())),
        }
    }
}

impl ResourceKind for Scene {
    open spec fn kind() -> RType {
        RType::Scene
    }

    open spec fn wrap(self) -> Resource {
        Resource::Scene(self)
    }

    proof fn lemma_wrap_kind(self) {
    }

    fn rtype() -> (t: RType) {
        RType::Scene
    }

    fn into_resource(self) -> (r: Resource) {
        Resource::Scene(self)
    }

    fn from_resource(r: Resource) -> (res: ApiResult<Self>) {
        match r {
            Resource::Scene(obj) => Ok(obj),
            other => Err(ApiError::WrongType(RType::Scene, other.rtype())),
        }
    }

    fn from_ref(r: &Resource) -> (res: ApiResult<&Self>) {
        match r {
            Resource::Scene(obj) => Ok(obj),
            other => Err(ApiError::WrongType(RType::Scene, other.rtype())),
        }
    }
}

impl ResourceKind for SmartScene {
    open spec fn kind() -> RType {
        RType::SmartScene
    }

    open spec fn wrap(self) -> Resource {
        Resource::SmartScene(self)
    }

    proof fn lemma_wrap_kind(self) {
    }

    fn rtype() -> (t: RType) {
        RType::SmartScene
    }

    fn into_resource(self) -> (r: Resource) {
        Resource::SmartScene(self)
    }

    fn from_resource(r: Resource) -> (res: ApiResult<Self>) {
        match r {
            Resource::SmartScene(obj) => Ok(obj),
            other => Err(ApiError::WrongType(RType::SmartScene, other.rtype())),
        }
    }

    fn from_ref(r: &Resource) -> (res: ApiResult<&Self>) {
        match r {
            Resource::SmartScene(obj) => Ok(obj),
            other => Err(ApiError::WrongType(RType::SmartScene, other.rtype())),
        }
    }
}

impl ResourceKind for Taurus {
    open spec fn kind() -> RType {
        RType::Taurus
    }

    open spec fn wrap(self) -> Resource {
        Resource::Taurus(self)
    }

    proof fn lemma_wrap_kind(self) {
    }

    fn rtype() -> (t: RType) {
        RType::Taurus
    }

    fn into_resource(self) -> (r: Resource) {
        Resource::Taurus(self)
    }

    fn from_resource(r: Resource) -> (res: ApiResult<Self>) {
        match r {
            Resource::Taurus(obj) => Ok(obj),
            other => Err(ApiError::WrongType(RType::Taurus, other.rtype())),
        }
    }

    fn from_ref(r: &Resource) -> (res: ApiResult<&Self>) {
        match r {
            Resource::Taurus(obj) => Ok(obj),
            other => Err(ApiError::WrongType(RType::Taurus, other.rtype())),
        }
    }
}

impl ResourceKind for Temperature {
    open spec fn kind() -> RType {
        RType::Temperature
    }

    open spec fn wrap(self) -> Resource {
        Resource::Temperature(self)
    }

    proof fn lemma_wrap_kind(self) {
    }

    fn rtype() -> (t: RType) {
        RType::Temperature
    }

    fn into_resource(self) -> (r: Resource) {
        Resource::Temperature(self)
    }

    fn from_resource(r: Resource) -> (res: ApiResult<Self>) {
        match r {
            Resource::Temperature(obj) => Ok(obj),
            other => Err(ApiError::WrongType(RType::Temperature, other.rtype())),
        }
    }

    fn from_ref(r: &Resource) -> (res: ApiResult<&Self>) {
        match r {
            Resource::Temperature(obj) => Ok(obj),
            other => Err(ApiError::WrongType(RType::Temperature, other.rtype())),
        }
    }
}

impl ResourceKind for ZigbeeConnectivity {
    open spec fn kind() -> RType {
        RType::ZigbeeConnectivity
    }

    open spec fn wrap(self) -> Resource {
        Resource::ZigbeeConnectivity(self)
    }

    proof fn lemma_wrap_kind(self) {
    }

    fn rtype() -> (t: RType) {
        RType::ZigbeeConnectivity
    }

    fn into_resource(self) -> (r: Resource) {
        Resource::ZigbeeConnectivity(self)
    }

    fn from_resource(r: Resource) -> (res: ApiResult<Self>) {
        match r {
            Resource::ZigbeeConnectivity(obj) => Ok(obj),
            other => Err(ApiError::WrongType(RType::ZigbeeConnectivity, other.rtype())),
        }
    }

    fn from_ref(r: &Resource) -> (res: ApiResult<&Self>) {
        match r {
            Resource::ZigbeeConnectivity(obj) => Ok(obj),
            other => Err(ApiError::WrongType(RType::ZigbeeConnectivity, other.rtype())),
        }
    }
}

impl ResourceKind for ZigbeeDeviceDiscovery {
    open spec fn kind() -> RType {
        RType::ZigbeeDeviceDiscovery
    }

    open spec fn wrap(self) -> Resource {
        Resource::ZigbeeDeviceDiscovery(self)
    }

    proof fn lemma_wrap_kind(self) {
    }

    fn rtype() -> (t: RType) {
        RType::ZigbeeDeviceDiscovery
    }

    fn into_resource(self) -> (r: Resource) {
        Resource::ZigbeeDeviceDiscovery(self)
    }

    fn from_resource(r: Resource) -> (res: ApiResult<Self>) {
        match r {
            Resource::ZigbeeDeviceDiscovery(obj) => Ok(obj),
            other => Err(ApiError::WrongType(RType::ZigbeeDeviceDiscovery, other.rtype())),
        }
    }

    fn from_ref(r: &Resource) -> (res: ApiResult<&Self>) {
        match r {
            Resource::ZigbeeDeviceDiscovery(obj) => Ok(obj),
            other => Err(ApiError::WrongType(RType::ZigbeeDeviceDiscovery, other.rtype())),
        }
    }
}

impl ResourceKind for Zone {
    open spec fn kind() -> RType {
        RType::Zone
    }

    open spec fn wrap(self) -> Resource {
        Resource::Zone(self)
    }

    proof fn lemma_wrap_kind(self) {
    }

    fn rtype() -> (t: RType) {
        RType::Zone
    }

    fn into_resource(self) -> (r: Resource) {
        Resource::Zone(self)
    }

    fn from_resource(r: Resource) -> (res: ApiResult<Self>) {
        match r {
            Resource::Zone(obj) => Ok(obj),
            other => Err(ApiError::WrongType(RType::Zone, other.rtype())),
        }
    }

    fn from_ref(r: &Resource) -> (res: ApiResult<&Self>) {
        match r {
            Resource::Zone(obj) => Ok(obj),
            other => Err(ApiError::WrongType(RType::Zone, other.rtype())),
        }
    }
}

} // verus!
