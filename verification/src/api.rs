//! The resource model: identifiers, links and the typed resource records.
use vstd::prelude::*;

use crate::api::device::{Bridge, BridgeHome, Device};
use crate::api::light::{GroupedLight, Light};
use crate::api::resource::{RType, ResourceLink, Uuid};
use crate::api::room::Room;
use crate::api::scene::Scene;
use crate::api::stubs::{
    BehaviorInstance, BehaviorScript, Button, DevicePower, DeviceSoftwareUpdate, Entertainment,
    EntertainmentConfiguration, GeofenceClient, Geolocation, GroupedLightLevel, GroupedMotion,
    Homekit, LightLevel, Matter, Motion, PrivateGroup, PublicImage, RelativeRotary, SmartScene,
    Taurus, Temperature, ZigbeeConnectivity, ZigbeeDeviceDiscovery, Zone,
};
use crate::error::{ApiError, ApiResult};

pub mod convert;
pub mod device;
pub mod event;
pub mod light;
pub mod reply;
pub mod resource;
pub mod room;
pub mod scene;
pub mod stubs;
pub mod types;
pub mod update;

verus! {

/// A record without fields.
#[derive(Debug, Clone, Copy, PartialEq, Eq, Structural)]
pub struct Stub;

impl Default for Stub {
    fn default() -> (s: Self)
        ensures
            s == Stub,
    {
        Stub
    }
}

/// A resource: one record of one of the kinds that the type tags name.
#[derive(Debug, Clone)]
pub enum Resource {
    AuthV1(ResourceLink),
    BehaviorInstance(BehaviorInstance),
    BehaviorScript(BehaviorScript),
    Bridge(Bridge),
    BridgeHome(BridgeHome),
    Button(Button),
    Device(Device),
    DevicePower(DevicePower),
    DeviceSoftwareUpdate(DeviceSoftwareUpdate),
    Entertainment(Entertainment),
    EntertainmentConfiguration(EntertainmentConfiguration),
    GeofenceClient(GeofenceClient),
    Geolocation(Geolocation),
    GroupedLight(GroupedLight),
    GroupedLightLevel(GroupedLightLevel),
    GroupedMotion(GroupedMotion),
    Homekit(Homekit),
    Light(Light),
    LightLevel(LightLevel),
    Matter(Matter),
    Motion(Motion),
    PrivateGroup(PrivateGroup),
    PublicImage(PublicImage),
    RelativeRotary(RelativeRotary),
    Room(Room),
    Scene(Scene),
    SmartScene(SmartScene),
    Taurus(Taurus),
    Temperature(Temperature),
    ZigbeeConnectivity(ZigbeeConnectivity),
    ZigbeeDeviceDiscovery(ZigbeeDeviceDiscovery),
    Zone(Zone),
}

impl Resource {
    /// The type tag of the resource: the one that names its kind.
    pub open spec fn type_tag(self) -> RType {
        match self {
            Resource::AuthV1(_) => RType::AuthV1,
            Resource::BehaviorInstance(_) => RType::BehaviorInstance,
            Resource::BehaviorScript(_) => RType::BehaviorScript,
            Resource::Bridge(_) => RType::Bridge,
            Resource::BridgeHome(_) => RType::BridgeHome,
            Resource::Button(_) => RType::Button,
            Resource::Device(_) => RType::Device,
            Resource::DevicePower(_) => RType::DevicePower,
            Resource::DeviceSoftwareUpdate(_) => RType::DeviceSoftwareUpdate,
            Resource::Entertainment(_) => RType::Entertainment,
            Resource::EntertainmentConfiguration(_) => RType::EntertainmentConfiguration,
            Resource::GeofenceClient(_) => RType::GeofenceClient,
            Resource::Geolocation(_) => RType::Geolocation,
            Resource::GroupedLight(_) => RType::GroupedLight,
            Resource::GroupedLightLevel(_) => RType::GroupedLightLevel,
            Resource::GroupedMotion(_) => RType::GroupedMotion,
            Resource::Homekit(_) => RType::Homekit,
            Resource::Light(_) => RType::Light,
            Resource::LightLevel(_) => RType::LightLevel,
            Resource::Matter(_) => RType::Matter,
            Resource::Motion(_) => RType::Motion,
            Resource::PrivateGroup(_) => RType::PrivateGroup,
            Resource::PublicImage(_) => RType::PublicImage,
            Resource::RelativeRotary(_) => RType::RelativeRotary,
            Resource::Room(_) => RType::Room,
            Resource::Scene(_) => RType::Scene,
            Resource::SmartScene(_) => RType::SmartScene,
            Resource::Taurus(_) => RType::Taurus,
            Resource::Temperature(_) => RType::Temperature,
            Resource::ZigbeeConnectivity(_) => RType::ZigbeeConnectivity,
            Resource::ZigbeeDeviceDiscovery(_) => RType::ZigbeeDeviceDiscovery,
            Resource::Zone(_) => RType::Zone,
        }
    }

    /// The type tag of the resource.
    pub fn rtype(&self) -> (t: RType)
        ensures
            t == self.type_tag(),
    {
        match self {
            Resource::AuthV1(_) => RType::AuthV1,
            Resource::BehaviorInstance(_) => RType::BehaviorInstance,
            Resource::BehaviorScript(_) => RType::BehaviorScript,
            Resource::Bridge(_) => RType::Bridge,
            Resource::BridgeHome(_) => RType::BridgeHome,
            Resource::Button(_) => RType::Button,
            Resource::Device(_) => RType::Device,
            Resource::DevicePower(_) => RType::DevicePower,
            Resource::DeviceSoftwareUpdate(_) => RType::DeviceSoftwareUpdate,
            Resource::Entertainment(_) => RType::Entertainment,
            Resource::EntertainmentConfiguration(_) => RType::EntertainmentConfiguration,
            Resource::GeofenceClient(_) => RType::GeofenceClient,
            Resource::Geolocation(_) => RType::Geolocation,
            Resource::GroupedLight(_) => RType::GroupedLight,
            Resource::GroupedLightLevel(_) => RType::GroupedLightLevel,
            Resource::GroupedMotion(_) => RType::GroupedMotion,
            Resource::Homekit(_) => RType::Homekit,
            Resource::Light(_) => RType::Light,
            Resource::LightLevel(_) => RType::LightLevel,
            Resource::Matter(_) => RType::Matter,
            Resource::Motion(_) => RType::Motion,
            Resource::PrivateGroup(_) => RType::PrivateGroup,
            Resource::PublicImage(_) => RType::PublicImage,
            Resource::RelativeRotary(_) => RType::RelativeRotary,
            Resource::Room(_) => RType::Room,
            Resource::Scene(_) => RType::Scene,
            Resource::SmartScene(_) => RType::SmartScene,
            Resource::Taurus(_) => RType::Taurus,
            Resource::Temperature(_) => RType::Temperature,
            Resource::ZigbeeConnectivity(_) => RType::ZigbeeConnectivity,
            Resource::ZigbeeDeviceDiscovery(_) => RType::ZigbeeDeviceDiscovery,
            Resource::Zone(_) => RType::Zone,
        }
    }
}

impl RType {
    /// Records of this type are carried as JSON documents that the library
    /// does not read.
    pub open spec fn is_carried(self) -> bool {
        match self {
            RType::AuthV1
            | RType::Bridge
            | RType::BridgeHome
            | RType::Device
            | RType::GroupedLight
            | RType::Light
            | RType::Room
            | RType::Scene => false,
            _ => true,
        }
    }
}

impl Resource {
    /// The JSON document that the resource carries, where it is of a kind
    /// that is carried as one.
    pub open spec fn doc(self) -> Option<serde_json::Value> {
        match self {
            Resource::BehaviorInstance(obj) => Some(obj.doc),
            Resource::BehaviorScript(obj) => Some(obj.doc),
            Resource::Button(obj) => Some(obj.doc),
            Resource::DevicePower(obj) => Some(obj.doc),
            Resource::DeviceSoftwareUpdate(obj) => Some(obj.doc),
            Resource::Entertainment(obj) => Some(obj.doc),
            Resource::EntertainmentConfiguration(obj) => Some(obj.doc),
            Resource::GeofenceClient(obj) => Some(obj.doc),
            Resource::Geolocation(obj) => Some(obj.doc),
            Resource::GroupedLightLevel(obj) => Some(obj.doc),
            Resource::GroupedMotion(obj) => Some(obj.doc),
            Resource::Homekit(obj) => Some(obj.doc),
            Resource::LightLevel(obj) => Some(obj.doc),
            Resource::Matter(obj) => Some(obj.doc),
            Resource::Motion(obj) => Some(obj.doc),
            Resource::PrivateGroup(obj) => Some(obj.doc),
            Resource::PublicImage(obj) => Some(obj.doc),
            Resource::RelativeRotary(obj) => Some(obj.doc),
            Resource::SmartScene(obj) => Some(obj.doc),
            Resource::Taurus(obj) => Some(obj.doc),
            Resource::Temperature(obj) => Some(obj.doc),
            Resource::ZigbeeConnectivity(obj) => Some(obj.doc),
            Resource::ZigbeeDeviceDiscovery(obj) => Some(obj.doc),
            Resource::Zone(obj) => Some(obj.doc),
            _ => None,
        }
    }

    /// The resource of the type `rtype` that carries the document `doc`.
    /// There is none where records of this type are not carried as
    /// documents: such a record is made from its fields.
    pub fn from_doc(rtype: RType, doc: serde_json::Value) -> (r: Option<Resource>)
        ensures
            r is Some <==> rtype.is_carried(),
            r matches Some(res) ==> res.type_tag() == rtype && res.doc() == Some(doc),
    {
        match rtype {
            RType::BehaviorInstance => Some(Resource::BehaviorInstance(BehaviorInstance { doc })),
            RType::BehaviorScript => Some(Resource::BehaviorScript(BehaviorScript { doc })),
            RType::Button => Some(Resource::Button(Button { doc })),
            RType::DevicePower => Some(Resource::DevicePower(DevicePower { doc })),
            RType::DeviceSoftwareUpdate => Some(Resource::DeviceSoftwareUpdate(DeviceSoftwareUpdate { doc })),
            RType::Entertainment => Some(Resource::Entertainment(Entertainment { doc })),
            RType::EntertainmentConfiguration => Some(Resource::EntertainmentConfiguration(EntertainmentConfiguration { doc })),
            RType::GeofenceClient => Some(Resource::GeofenceClient(GeofenceClient { doc })),
            RType::Geolocation => Some(Resource::Geolocation(Geolocation { doc })),
            RType::GroupedLightLevel => Some(Resource::GroupedLightLevel(GroupedLightLevel { doc })),
            RType::GroupedMotion => Some(Resource::GroupedMotion(GroupedMotion { doc })),
            RType::Homekit => Some(Resource::Homekit(Homekit { doc })),
            RType::LightLevel => Some(Resource::LightLevel(LightLevel { doc })),
            RType::Matter => Some(Resource::Matter(Matter { doc })),
            RType::Motion => Some(Resource::Motion(Motion { doc })),
            RType::PrivateGroup => Some(Resource::PrivateGroup(PrivateGroup { doc })),
            RType::PublicImage => Some(Resource::PublicImage(PublicImage { doc })),
            RType::RelativeRotary => Some(Resource::RelativeRotary(RelativeRotary { doc })),
            RType::SmartScene => Some(Resource::SmartScene(SmartScene { doc })),
            RType::Taurus => Some(Resource::Taurus(Taurus { doc })),
            RType::Temperature => Some(Resource::Temperature(Temperature { doc })),
            RType::ZigbeeConnectivity => Some(Resource::ZigbeeConnectivity(ZigbeeConnectivity { doc })),
            RType::ZigbeeDeviceDiscovery => Some(Resource::ZigbeeDeviceDiscovery(ZigbeeDeviceDiscovery { doc })),
            RType::Zone => Some(Resource::Zone(Zone { doc })),
            _ => None,
        }
    }

    /// The JSON document that the resource carries, where it is of a kind
    /// that is carried as one.
    pub fn as_doc(&self) -> (r: Option<&serde_json::Value>)
        ensures
            match r {
                Some(doc) => self.doc() == Some(*doc),
                None => self.doc() is None,
            },
            r is Some <==> self.type_tag().is_carried(),
    {
        match self {
            Resource::BehaviorInstance(obj) => Some(&obj.doc),
            Resource::BehaviorScript(obj) => Some(&obj.doc),
            Resource::Button(obj) => Some(&obj.doc),
            Resource::DevicePower(obj) => Some(&obj.doc),
            Resource::DeviceSoftwareUpdate(obj) => Some(&obj.doc),
            Resource::Entertainment(obj) => Some(&obj.doc),
            Resource::EntertainmentConfiguration(obj) => Some(&obj.doc),
            Resource::GeofenceClient(obj) => Some(&obj.doc),
            Resource::Geolocation(obj) => Some(&obj.doc),
            Resource::GroupedLightLevel(obj) => Some(&obj.doc),
            Resource::GroupedMotion(obj) => Some(&obj.doc),
            Resource::Homekit(obj) => Some(&obj.doc),
            Resource::LightLevel(obj) => Some(&obj.doc),
            Resource::Matter(obj) => Some(&obj.doc),
            Resource::Motion(obj) => Some(&obj.doc),
            Resource::PrivateGroup(obj) => Some(&obj.doc),
            Resource::PublicImage(obj) => Some(&obj.doc),
            Resource::RelativeRotary(obj) => Some(&obj.doc),
            Resource::SmartScene(obj) => Some(&obj.doc),
            Resource::Taurus(obj) => Some(&obj.doc),
            Resource::Temperature(obj) => Some(&obj.doc),
            Resource::ZigbeeConnectivity(obj) => Some(&obj.doc),
            Resource::ZigbeeDeviceDiscovery(obj) => Some(&obj.doc),
            Resource::Zone(obj) => Some(&obj.doc),
            _ => None,
        }
    }
}

/// A resource together with the identifier it is stored under.
#[derive(Debug, Clone, Copy)]
pub struct ResourceRecord<'a> {
    pub id: Uuid,
    pub obj: &'a Resource,
}

impl<'a> ResourceRecord<'a> {
    /// The record of `obj`, stored under `id`.
    pub fn from_ref(id: Uuid, obj: &'a Resource) -> (r: Self)
        ensures
            r.id == id,
            *r.obj == *obj,
    {
        ResourceRecord { id, obj }
    }

    /// The link to the resource: its identifier and its type tag.
    pub fn link(&self) -> (l: ResourceLink)
        ensures
            l == (ResourceLink { rid: self.id, rtype: self.obj.type_tag() }),
    {
        ResourceLink { rid: self.id, rtype: self.obj.rtype() }
    }
}

/// A kind of resource: a record type that has a type tag and a place among
/// the resources.
pub trait ResourceKind: Sized {
    /// The type tag of the kind.
    spec fn kind() -> RType;

    /// The resource that holds the record.
    spec fn wrap(self) -> Resource;

    /// The resource that holds a record has the type tag of the kind.
    proof fn lemma_wrap_kind(self)
        ensures
            self.wrap().type_tag() == Self::kind(),
    ;

    /// The type tag of the kind.
    fn rtype() -> (t: RType)
        ensures
            t == Self::kind(),
    ;

    /// The resource that holds the record.
    fn into_resource(self) -> (r: Resource)
        ensures
            r == self.wrap(),
    ;

    /// The record that `r` holds. Fails with `WrongType`, naming the type
    /// asked for and the type found, where `r` is of another kind.
    fn from_resource(r: Resource) -> (res: ApiResult<Self>)
        ensures
            res is Ok <==> r.type_tag() == Self::kind(),
            res matches Ok(v) ==> v.wrap() == r,
            res matches Err(e) ==> e == ApiError::WrongType(Self::kind(), r.type_tag()),
    ;

    /// The record that `r` holds. Fails with `WrongType`, naming the type
    /// asked for and the type found, where `r` is of another kind.
    fn from_ref(r: &Resource) -> (res: ApiResult<&Self>)
        ensures
            res is Ok <==> r.type_tag() == Self::kind(),
            res matches Ok(v) ==> v.wrap() == *r,
            res matches Err(e) ==> e == ApiError::WrongType(Self::kind(), r.type_tag()),
    ;
}

} // verus!
