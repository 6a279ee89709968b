//! The resource store: the resources by identifier, the auxiliary data
//! beside them, and the events that changes to them give rise to.
//!
//! The store decides and records; it sends nothing. Every operation that
//! changes a resource hands back the event that tells of the change, for
//! the caller to send to the subscribers.
use std::collections::{HashMap, HashSet};
use vstd::prelude::*;
use vstd::std_specs::iter::IteratorSpec;

use crate::api::device::{Bridge, BridgeHome, Device, TimeZone};
use crate::api::event::EventBlock;
use crate::api::light::{
    ColorTemperatureUpdate, ColorUpdate, DimmingUpdate, GroupedLightUpdate, LightUpdate, On,
};
use crate::api::resource::{random_uuid, uuid_bytes, uuid_to_bytes, RType, ResourceLink, Uuid};
use crate::api::room::Room;
use crate::api::scene::{recall_action, SceneRecall, SceneUpdate};
use crate::api::types::DeviceColorMode;
use crate::api::update::Update;
use crate::api::{Resource, ResourceKind, ResourceRecord};
use crate::error::{ApiError, ApiResult};
use crate::best_guess_timezone;

verus! {

/// Data kept beside a resource and not shown on the API: the topic that
/// feeds a device, and the index of a scene within its room.
#[derive(Clone, Debug, PartialEq, Eq)]
pub struct AuxData {
    pub topic: Option<String>,
    pub index: Option<u32>,
}

impl Default for AuxData {
    fn default() -> (a: Self)
        ensures
            a.topic is None,
            a.index is None,
    {
        AuxData { topic: None, index: None }
    }
}

impl AuxData {
    /// Auxiliary data that holds nothing.
    pub fn new() -> (a: Self)
        ensures
            a.topic is None,
            a.index is None,
    {
        AuxData { topic: None, index: None }
    }

    /// The same data with the topic `topic`.
    pub fn with_topic(self, topic: &str) -> (a: Self)
        ensures
            a.topic matches Some(t) && t@ == topic@,
            a.index == self.index,
    {
        AuxData { topic: Some(topic.to_string()), index: self.index }
    }

    /// The same data with the index `index`.
    pub fn with_index(self, index: u32) -> (a: Self)
        ensures
            a.topic == self.topic,
            a.index == Some(index),
    {
        AuxData { topic: self.topic, index: Some(index) }
    }
}

/// The number of scene indices of a room: a scene has an index below it.
pub const MAX_SCENE_ID: u32 = 100;

/// The update that tells of the state of a light: whether it is on, its
/// brightness, and the colour setting that its colour mode names: the
/// colour temperature, where it has one, or the colour coordinates.
pub open spec fn light_update_of(light: crate::api::light::Light) -> LightUpdate {
    LightUpdate {
        on: Some(On { on: light.on.on }),
        dimming: Some(DimmingUpdate { brightness: light.dimming.brightness }),
        color: if light.color_mode == Some(DeviceColorMode::Xy) {
            Some(ColorUpdate { xy: light.color.xy })
        } else {
            None
        },
        color_temperature: if light.color_mode == Some(DeviceColorMode::ColorTemp) {
            match light.color_temperature.mirek {
                Some(m) => Some(ColorTemperatureUpdate { mirek: m }),
                None => None,
            }
        } else {
            None
        },
    }
}

/// The update that tells of the state of `obj`, for the kinds that report
/// their state.
///
/// A light reports what `light_update_of` says. A grouped light reports
/// whether it is on and its brightness. A scene reports the recall action
/// that tells of its state. A room reports nothing. Every other kind is
/// refused.
pub open spec fn update_of(obj: Resource) -> Result<Option<Update>, ApiError> {
    match obj {
        Resource::Light(light) => Ok(Some(Update::Light(light_update_of(light)))),
        Resource::GroupedLight(glight) => Ok(
            Some(
                Update::GroupedLight(
                    GroupedLightUpdate {
                        on: Some(On { on: glight.on.on }),
                        dimming: Some(DimmingUpdate { brightness: glight.dimming.brightness }),
                    },
                ),
            ),
        ),
        Resource::Scene(scene) => Ok(
            Some(
                Update::Scene(
                    SceneUpdate {
                        recall: Some(
                            SceneRecall {
                                action: recall_action(scene.status),
                                duration: None,
                                dimming: None,
                            },
                        ),
                        ..SceneUpdate::empty()
                    },
                ),
            ),
        ),
        Resource::Room(_) => Ok(None),
        other => Err(ApiError::UpdateUnsupported(other.type_tag())),
    }
}

/// What an update of the resource `id` to `obj` hands back: the event that
/// tells of the new state, where the kind reports one.
pub open spec fn update_event(id: Uuid, obj: Resource) -> Result<Option<EventBlock>, ApiError> {
    match update_of(obj) {
        Ok(Some(delta)) => Ok(Some(EventBlock::Update(id, delta))),
        Ok(None) => Ok(None),
        Err(e) => Err(e),
    }
}

/// The scene stored under `id` belongs to `room` and has the index `x`.
pub open spec fn scene_has_index(
    res: Map<Uuid, Resource>,
    aux: Map<Uuid, AuxData>,
    room: ResourceLink,
    id: Uuid,
    x: u32,
) -> bool {
    &&& res.contains_key(id)
    &&& res[id] matches Resource::Scene(scn)
    &&& scn.group == room
    &&& aux.contains_key(id)
    &&& aux[id].index == Some(x)
}

/// Some scene of `room` has the index `x`.
pub open spec fn index_taken(
    res: Map<Uuid, Resource>,
    aux: Map<Uuid, AuxData>,
    room: ResourceLink,
    x: u32,
) -> bool {
    exists|id: Uuid| scene_has_index(res, aux, room, id, x)
}

/// What a lookup of `link` in the resources `res` gives: the resource
/// stored under the identifier of the link, where it has the type that the
/// link says, and `NotFound` otherwise.
pub open spec fn lookup(res: Map<Uuid, Resource>, link: ResourceLink) -> Result<
    Resource,
    ApiError,
> {
    if res.contains_key(link.rid) && res[link.rid].type_tag() == link.rtype {
        Ok(res[link.rid])
    } else {
        Err(ApiError::NotFound(link.rid))
    }
}

/// What a change of the resource stored under `id`, as one of the kind
/// `T`, finds: the resource, `NotFound` where there is none, and
/// `WrongType`, with the type asked for and the type found, where it is of
/// another kind.
pub open spec fn found_as<T: ResourceKind>(res: Map<Uuid, Resource>, id: Uuid) -> Result<
    Resource,
    ApiError,
> {
    if !res.contains_key(id) {
        Err(ApiError::NotFound(id))
    } else if res[id].type_tag() != T::kind() {
        Err(ApiError::WrongType(T::kind(), res[id].type_tag()))
    } else {
        Ok(res[id])
    }
}

/// After a resource is added under a link of its type, a lookup of the
/// link gives that resource, and what is stored under the identifier has
/// the type of the link.
pub proof fn lemma_lookup_after_add(res: Map<Uuid, Resource>, link: ResourceLink, obj: Resource)
    requires
        link.rtype == obj.type_tag(),
    ensures
        lookup(res.insert(link.rid, obj), link) == Ok::<_, ApiError>(obj),
        res.insert(link.rid, obj).contains_key(link.rid),
        res.insert(link.rid, obj)[link.rid].type_tag() == link.rtype,
{
}

/// After the resource behind a link is deleted, a lookup of the link finds
/// nothing.
pub proof fn lemma_lookup_after_delete(res: Map<Uuid, Resource>, link: ResourceLink)
    ensures
        lookup(res.remove(link.rid), link) == Err::<Resource, _>(ApiError::NotFound(link.rid)),
        !res.remove(link.rid).contains_key(link.rid),
{
}

/// An update of a light gives exactly one event: the update that tells
/// whether the light is on, its brightness, and the colour setting that its
/// colour mode names, each as the light now has it.
pub proof fn lemma_light_update_event(id: Uuid, light: crate::api::light::Light)
    ensures
        update_event(id, Resource::Light(light)) == Ok::<_, ApiError>(
            Some(EventBlock::Update(id, Update::Light(light_update_of(light)))),
        ),
        light_update_of(light).on == Some(On { on: light.on.on }),
        light_update_of(light).dimming == Some(
            DimmingUpdate { brightness: light.dimming.brightness },
        ),
        light.color_mode == Some(DeviceColorMode::Xy) ==> light_update_of(light).color == Some(
            ColorUpdate { xy: light.color.xy },
        ) && light_update_of(light).color_temperature is None,
        light.color_mode == Some(DeviceColorMode::ColorTemp) ==> light_update_of(light).color
            is None && light_update_of(light).color_temperature == (
        match light.color_temperature.mirek {
            Some(m) => Some(ColorTemperatureUpdate { mirek: m }),
            None => None,
        }),
        light.color_mode is None ==> light_update_of(light).color is None && light_update_of(
            light,
        ).color_temperature is None,
{
}

/// An update of a room gives no event.
pub proof fn lemma_room_update_event(id: Uuid, room: Room)
    ensures
        update_event(id, Resource::Room(room)) == Ok::<Option<EventBlock>, ApiError>(None),
{
}

/// An update of a resource gives at most one event, and an event only for
/// a light, a grouped light or a scene.
pub proof fn lemma_update_event_kinds(id: Uuid, obj: Resource)
    ensures
        update_event(id, obj) matches Ok(Some(evt)) ==> (obj is Light || obj is GroupedLight
            || obj is Scene) && evt is Update,
        update_event(id, obj) is Err <==> !(obj is Light || obj is GroupedLight || obj is Scene
            || obj is Room),
        update_event(id, obj) matches Err(e) ==> e == ApiError::UpdateUnsupported(obj.type_tag()),
{
}

/// The bytes of `s` in UTF-8.
pub open spec fn utf8(s: Seq<char>) -> Seq<u8> {
    vstd::utf8::encode_utf8(s)
}

/// The four links that a bridge with the identifier `bridge_id` is made
/// of: the bridge, its home, and the device behind each.
pub struct BridgeLinks {
    pub bridge: ResourceLink,
    pub home: ResourceLink,
    pub bridge_dev: ResourceLink,
    pub home_dev: ResourceLink,
}

/// The links of the bridge with the identifier `bridge_id`, each
/// deterministic: the bridge from the identifier, its home from the
/// identifier followed by `HOME`, each device from the identifier of what
/// it stands behind.
pub open spec fn bridge_links(bridge_id: Seq<char>) -> BridgeLinks {
    let bridge = ResourceLink {
        rid: RType::Bridge.deterministic_id(utf8(bridge_id)),
        rtype: RType::Bridge,
    };
    let home = ResourceLink {
        rid: RType::BridgeHome.deterministic_id(utf8(bridge_id) + utf8("HOME"@)),
        rtype: RType::BridgeHome,
    };
    BridgeLinks {
        bridge,
        home,
        bridge_dev: ResourceLink {
            rid: RType::Device.deterministic_id(uuid_bytes(bridge.rid)),
            rtype: RType::Device,
        },
        home_dev: ResourceLink {
            rid: RType::Device.deterministic_id(uuid_bytes(home.rid)),
            rtype: RType::Device,
        },
    }
}

/// The name of the device that stands behind the bridge.
pub const BRIDGE_DEVICE_NAME: &'static str = "bifrost";

/// The name of the device that stands behind the home of the bridge.
pub const BRIDGE_HOME_DEVICE_NAME: &'static str = "bifrost bridge home";

/// The resource store.
pub struct Resources {
    pub aux: HashMap<Uuid, AuxData>,
    pub res: HashMap<Uuid, Resource>,
}

impl Resources {
    pub const MAX_SCENE_ID: u32 = MAX_SCENE_ID;

    /// The auxiliary data, by identifier.
    pub open spec fn aux_map(&self) -> Map<Uuid, AuxData> {
        self.aux@
    }

    /// An empty store.
    pub fn new() -> (s: Self)
        ensures
            s.res@ == Map::<Uuid, Resource>::empty(),
            s.aux_map() == Map::<Uuid, AuxData>::empty(),
    {
        Resources { aux: HashMap::new(), res: HashMap::new() }
    }

    /// Puts the resources `res` and the auxiliary data `aux`, as they were
    /// read from a snapshot, in the place of what the store holds.
    pub fn load(&mut self, res: HashMap<Uuid, Resource>, aux: HashMap<Uuid, AuxData>)
        ensures
            final(self).res@ == res@,
            final(self).aux_map() == aux@,
    {
        self.res = res;
        self.aux = aux;
    }

    /// What a snapshot of the store holds: the resources and the auxiliary
    /// data.
    pub fn save(&self) -> (parts: (&HashMap<Uuid, Resource>, &HashMap<Uuid, AuxData>))
        ensures
            parts.0@ == self.res@,
            parts.1@ == self.aux_map(),
    {
        (&self.res, &self.aux)
    }

    /// Adds the bridge with the identifier `bridge_id`, its home and the
    /// device behind each, as `add_bridge` does.
    pub fn init(&mut self, bridge_id: &str) -> (r: ApiResult<Vec<EventBlock>>)
        ensures
            r is Ok,
            final(self).holds_bridge(old(self), bridge_id@),
            r matches Ok(events) ==> events@ == Self::bridge_events(bridge_id@),
    {
        self.add_bridge(bridge_id.to_string())
    }

    /// Adds `obj` under a new random identifier, and hands back the link to
    /// it and the event that tells of it.
    pub fn add_resource(&mut self, obj: Resource) -> (r: ApiResult<(ResourceLink, EventBlock)>)
        ensures
            r matches Ok(added) && added.0.rtype == obj.type_tag() && added.1 == EventBlock::Add(
                added.0,
            ) && final(self).res@ == old(self).res@.insert(added.0.rid, obj),
            final(self).aux_map() == old(self).aux_map(),
    {
        let link = ResourceLink::new(random_uuid(), obj.rtype());
        match self.add(&link, obj) {
            Ok(evt) => Ok((link, evt)),
            Err(e) => Err(e),
        }
    }

    /// The auxiliary data of the resource behind `link`. Fails with
    /// `AuxNotFound` where there is none.
    pub fn aux_get(&self, link: &ResourceLink) -> (r: ApiResult<&AuxData>)
        ensures
            match r {
                Ok(aux) => self.aux_map().contains_key(link.rid) && *aux
                    == self.aux_map()[link.rid],
                Err(e) => !self.aux_map().contains_key(link.rid) && e == ApiError::AuxNotFound(
                    *link,
                ),
            },
    {
        match self.aux.get(&link.rid) {
            Some(aux) => Ok(aux),
            None => Err(ApiError::AuxNotFound(*link)),
        }
    }

    /// Sets the auxiliary data of the resource behind `link`.
    pub fn aux_set(&mut self, link: &ResourceLink, aux: AuxData)
        ensures
            final(self).aux_map() == old(self).aux_map().insert(link.rid, aux),
            final(self).res@ == old(self).res@,
    {
        self.aux.insert(link.rid, aux);
    }

    /// The update that tells of the state of `obj`.
    pub fn generate_update(obj: &Resource) -> (r: ApiResult<Option<Update>>)
        ensures
            r == update_of(*obj),
    {
        match obj {
            Resource::Light(light) => {
                let mut upd = LightUpdate::new().with_brightness(light.dimming.brightness).with_on(
                    light.on.on,
                );
                match light.color_mode {
                    Some(DeviceColorMode::ColorTemp) => {
                        upd = upd.with_color_temperature(light.color_temperature.mirek);
                    },
                    Some(DeviceColorMode::Xy) => {
                        upd = upd.with_color_xy(light.color.xy);
                    },
                    None => {},
                }
                Ok(Some(Update::Light(upd)))
            },
            Resource::GroupedLight(glight) => {
                let upd = GroupedLightUpdate::new().with_brightness(
                    glight.dimming.brightness,
                ).with_on(glight.on.on);
                Ok(Some(Update::GroupedLight(upd)))
            },
            Resource::Scene(scene) => {
                let upd = SceneUpdate::new().with_recall_action(scene.status);
                Ok(Some(Update::Scene(upd)))
            },
            Resource::Room(_) => Ok(None),
            obj => Err(ApiError::UpdateUnsupported(obj.rtype())),
        }
    }

    /// Puts `obj` in the place of the resource stored under `id`, and hands
    /// back the event that tells of the new state.
    ///
    /// The resource is replaced whatever its kind; where the kind reports
    /// no state the call then fails with `UpdateUnsupported`.
    pub fn put_updated(&mut self, id: &Uuid, obj: Resource) -> (r: ApiResult<Option<EventBlock>>)
        ensures
            final(self).res@ == old(self).res@.insert(*id, obj),
            final(self).aux_map() == old(self).aux_map(),
            r == update_event(*id, obj),
    {
        let delta = Self::generate_update(&obj);
        self.res.insert(*id, obj);
        match delta {
            Ok(Some(delta)) => Ok(Some(EventBlock::update(id, delta))),
            Ok(None) => Ok(None),
            Err(e) => Err(e),
        }
    }

    /// Changes the resource stored under `id`, which must be of the kind
    /// `T`: `func` is given the record and answers with the new one, or
    /// with an error.
    ///
    /// Fails with `NotFound` where nothing is stored under `id`, with
    /// `WrongType` where what is stored is of another kind, and with the
    /// error of `func` where it gives one; the store is then as it was.
    /// Otherwise the new record takes the place of the old, and the result
    /// is that of `put_updated`.
    pub fn try_update<T: ResourceKind, F: FnOnce(&T) -> ApiResult<T>>(
        &mut self,
        id: &Uuid,
        func: F,
    ) -> (r: ApiResult<Option<EventBlock>>)
        requires
            forall|t: &T| call_requires(func, (t,)),
        ensures
            final(self).aux_map() == old(self).aux_map(),
            match found_as::<T>(old(self).res@, *id) {
                Err(e) => r == Err::<Option<EventBlock>, _>(e) && final(self).res@ == old(
                    self,
                ).res@,
                Ok(found) => exists|t: T, out: ApiResult<T>|
                    t.wrap() == found && call_ensures(func, (&t,), out) && match out {
                        Ok(new) => final(self).res@ == old(self).res@.insert(*id, new.wrap())
                            && r == update_event(*id, new.wrap()),
                        Err(e) => final(self).res@ == old(self).res@ && r == Err::<
                            Option<EventBlock>,
                            _,
                        >(e),
                    },
            },
    {
        let obj = match self.res.get(id) {
            Some(obj) => obj,
            None => {
                return Err(ApiError::NotFound(*id));
            },
        };
        let typed: &T = match T::from_ref(obj) {
            Ok(t) => t,
            Err(e) => {
                return Err(e);
            },
        };
        let ghost before = *typed;
        let out = func(typed);
        match out {
            Ok(new) => {
                let ghost new_obj = new.wrap();
                let r = self.put_updated(id, new.into_resource());
                assert(before.wrap() == old(self).res@[*id] && call_ensures(
                    func,
                    (&before,),
                    out,
                ));
                r
            },
            Err(e) => {
                assert(before.wrap() == old(self).res@[*id] && call_ensures(
                    func,
                    (&before,),
                    out,
                ));
                Err(e)
            },
        }
    }

    /// Changes the resource stored under `id`, which must be of the kind
    /// `T`: `func` is given the record and answers with the new one.
    ///
    /// Fails with `NotFound` where nothing is stored under `id` and with
    /// `WrongType` where what is stored is of another kind; the store is
    /// then as it was. Otherwise the new record takes the place of the old,
    /// and the result is that of `put_updated`: one event for a light, a
    /// grouped light or a scene, none for a room.
    pub fn update<T: ResourceKind, F: FnOnce(&T) -> T>(&mut self, id: &Uuid, func: F) -> (r:
        ApiResult<Option<EventBlock>>)
        requires
            forall|t: &T| call_requires(func, (t,)),
        ensures
            final(self).aux_map() == old(self).aux_map(),
            match found_as::<T>(old(self).res@, *id) {
                Err(e) => r == Err::<Option<EventBlock>, _>(e) && final(self).res@ == old(
                    self,
                ).res@,
                Ok(found) => exists|t: T, new: T|
                    t.wrap() == found && call_ensures(func, (&t,), new) && final(self).res@
                        == old(self).res@.insert(*id, new.wrap()) && r == update_event(
                        *id,
                        new.wrap(),
                    ),
            },
    {
        let obj = match self.res.get(id) {
            Some(obj) => obj,
            None => {
                return Err(ApiError::NotFound(*id));
            },
        };
        let typed: &T = match T::from_ref(obj) {
            Ok(t) => t,
            Err(e) => {
                return Err(e);
            },
        };
        let ghost before = *typed;
        let new = func(typed);
        let ghost new_obj = new;
        let r = self.put_updated(id, new.into_resource());
        assert(before.wrap() == old(self).res@[*id] && call_ensures(func, (&before,), new_obj));
        r
    }

    /// Stores `obj` under the identifier of `link`, in the place of what
    /// was stored there, and hands back the event that tells of it.
    pub fn add(&mut self, link: &ResourceLink, obj: Resource) -> (r: ApiResult<EventBlock>)
        requires
            link.rtype == obj.type_tag(),
        ensures
            r == Ok::<_, ApiError>(EventBlock::Add(*link)),
            final(self).res@ == old(self).res@.insert(link.rid, obj),
            final(self).aux_map() == old(self).aux_map(),
    {
        self.res.insert(link.rid, obj);
        Ok(EventBlock::add(*link))
    }

    /// Removes the resource stored under the identifier of `link`, and
    /// hands back the event that tells of it. Fails with `NotFound` where
    /// there is none.
    pub fn delete(&mut self, link: &ResourceLink) -> (r: ApiResult<EventBlock>)
        ensures
            final(self).aux_map() == old(self).aux_map(),
            match r {
                Ok(evt) => old(self).res@.contains_key(link.rid) && evt == EventBlock::Delete(
                    *link,
                ) && final(self).res@ == old(self).res@.remove(link.rid),
                Err(e) => !old(self).res@.contains_key(link.rid) && e == ApiError::NotFound(
                    link.rid,
                ) && final(self).res@ == old(self).res@,
            },
    {
        let evt = EventBlock::delete(link);
        match self.res.remove(&link.rid) {
            Some(_) => Ok(evt),
            None => Err(ApiError::NotFound(link.rid)),
        }
    }

    /// The four events that adding the bridge `bridge_id` gives rise to, in
    /// the order in which its resources are added.
    pub open spec fn bridge_events(bridge_id: Seq<char>) -> Seq<EventBlock> {
        let links = bridge_links(bridge_id);
        seq![
            EventBlock::Add(links.bridge_dev),
            EventBlock::Add(links.bridge),
            EventBlock::Add(links.home_dev),
            EventBlock::Add(links.home),
        ]
    }

    /// This store is `before` with the bridge `bridge_id` added: the
    /// bridge, its home and the device behind each, under their
    /// deterministic identifiers, and nothing else changed.
    ///
    /// The four are added in the order device of the bridge, bridge, device
    /// of the home, home. Should two of the identifiers be the same, what
    /// was added later is what the store holds.
    pub open spec fn holds_bridge(&self, before: &Resources, bridge_id: Seq<char>) -> bool {
        let links = bridge_links(bridge_id);
        &&& self.aux_map() == before.aux_map()
        &&& self.res@.dom() == before.res@.dom().insert(links.bridge_dev.rid).insert(
            links.bridge.rid,
        ).insert(links.home_dev.rid).insert(links.home.rid)
        &&& forall|id: Uuid|
            before.res@.contains_key(id) && id != links.bridge_dev.rid && id != links.bridge.rid
                && id != links.home_dev.rid && id != links.home.rid ==> #[trigger] self.res@[id]
                == before.res@[id]
        &&& self.res@[links.home.rid] matches Resource::BridgeHome(home)
        &&& home.children@ == seq![links.bridge_dev]
        &&& home.services@ == seq![
            ResourceLink {
                rid: RType::GroupedLight.deterministic_id(uuid_bytes(links.home.rid)),
                rtype: RType::GroupedLight,
            },
        ]
        &&& links.home_dev.rid != links.home.rid ==> {
            &&& self.res@[links.home_dev.rid] matches Resource::Device(dev)
            &&& dev.is_hue_bridge(BRIDGE_HOME_DEVICE_NAME@, links.bridge)
        }
        &&& links.bridge.rid != links.home.rid && links.bridge.rid != links.home_dev.rid ==> {
            &&& self.res@[links.bridge.rid] matches Resource::Bridge(bridge)
            &&& bridge.bridge_id@ == bridge_id
            &&& bridge.owner == links.bridge_dev
        }
        &&& links.bridge_dev.rid != links.home.rid && links.bridge_dev.rid != links.home_dev.rid
            && links.bridge_dev.rid != links.bridge.rid ==> {
            &&& self.res@[links.bridge_dev.rid] matches Resource::Device(dev)
            &&& dev.is_hue_bridge(BRIDGE_DEVICE_NAME@, links.bridge)
        }
    }

    /// Adds the bridge with the identifier `bridge_id`, its home and the
    /// device behind each, with the machine's time zone, and hands back the
    /// four events that tell of them.
    pub fn add_bridge(&mut self, bridge_id: String) -> (r: ApiResult<Vec<EventBlock>>)
        ensures
            r is Ok,
            final(self).holds_bridge(old(self), bridge_id@),
            r matches Ok(events) ==> events@ == Self::bridge_events(bridge_id@),
    {
        self.add_bridge_in(bridge_id, best_guess_timezone())
    }

    /// Adds the bridge with the identifier `bridge_id` in the time zone
    /// `time_zone`, its home and the device behind each, and hands back the
    /// four events that tell of them.
    pub fn add_bridge_in(&mut self, bridge_id: String, time_zone: String) -> (r: ApiResult<
        Vec<EventBlock>,
    >)
        ensures
            r is Ok,
            final(self).holds_bridge(old(self), bridge_id@),
            r matches Ok(events) ==> events@ == Self::bridge_events(bridge_id@),
            bridge_links(bridge_id@).bridge.rid != bridge_links(bridge_id@).home.rid
                && bridge_links(bridge_id@).bridge.rid != bridge_links(bridge_id@).home_dev.rid
                ==> (final(self).res@[bridge_links(bridge_id@).bridge.rid] matches Resource::Bridge(
                b,
            ) && b.time_zone.time_zone@ == time_zone@),
    {
        let ghost bid = bridge_id@;
        let ghost links = bridge_links(bid);
        let mut home_seed: Vec<u8> = Vec::new();
        home_seed.extend_from_slice(bridge_id.as_str().as_bytes());
        home_seed.extend_from_slice("HOME".as_bytes());
        assert(home_seed@ =~= utf8(bridge_id@) + utf8("HOME"@));

        let link_bridge = RType::Bridge.deterministic(bridge_id.as_str().as_bytes());
        let link_bridge_home = RType::BridgeHome.deterministic(home_seed.as_slice());
        let link_bridge_dev = RType::Device.deterministic(
            uuid_to_bytes(link_bridge.rid).as_slice(),
        );
        let link_bridge_home_dev = RType::Device.deterministic(
            uuid_to_bytes(link_bridge_home.rid).as_slice(),
        );
        assert(link_bridge == links.bridge);
        assert(link_bridge_home == links.home);
        assert(link_bridge_dev == links.bridge_dev);
        assert(link_bridge_home_dev == links.home_dev);

        let bridge_dev = Device::hue_bridge(BRIDGE_DEVICE_NAME, link_bridge);
        let bridge = Bridge {
            bridge_id,
            owner: link_bridge_dev,
            time_zone: TimeZone { time_zone },
        };
        let bridge_home_dev = Device::hue_bridge(BRIDGE_HOME_DEVICE_NAME, link_bridge);
        let mut children: Vec<ResourceLink> = Vec::new();
        children.push(link_bridge_dev);
        let mut services: Vec<ResourceLink> = Vec::new();
        services.push(
            RType::GroupedLight.deterministic(uuid_to_bytes(link_bridge_home.rid).as_slice()),
        );
        let bridge_home = BridgeHome { children, services };

        let mut events: Vec<EventBlock> = Vec::new();
        self.res.insert(link_bridge_dev.rid, Resource::Device(bridge_dev));
        events.push(EventBlock::add(link_bridge_dev));
        self.res.insert(link_bridge.rid, Resource::Bridge(bridge));
        events.push(EventBlock::add(link_bridge));
        self.res.insert(link_bridge_home_dev.rid, Resource::Device(bridge_home_dev));
        events.push(EventBlock::add(link_bridge_home_dev));
        self.res.insert(link_bridge_home.rid, Resource::BridgeHome(bridge_home));
        events.push(EventBlock::add(link_bridge_home));
        assert(events@ =~= Self::bridge_events(bid));
        assert(self.res@.dom() =~= old(self).res@.dom().insert(links.bridge_dev.rid).insert(
            links.bridge.rid,
        ).insert(links.home_dev.rid).insert(links.home.rid));
        Ok(events)
    }

    /// The smallest index below `MAX_SCENE_ID` that no scene of `room` has.
    /// Fails with `Full` where every such index is taken.
    pub fn get_next_scene_id(&self, room: &ResourceLink) -> (r: ApiResult<u32>)
        ensures
            match r {
                Ok(x) => {
                    &&& x < MAX_SCENE_ID
                    &&& !index_taken(self.res@, self.aux_map(), *room, x)
                    &&& forall|y: u32| y < x ==> index_taken(self.res@, self.aux_map(), *room, y)
                },
                Err(e) => {
                    &&& e == ApiError::Full(RType::Scene)
                    &&& forall|y: u32|
                        y < MAX_SCENE_ID ==> index_taken(self.res@, self.aux_map(), *room, y)
                },
            },
    {
        let taken = self.scene_indices(room);
        let mut x: u32 = 0;
        while x < MAX_SCENE_ID
            invariant
                x <= MAX_SCENE_ID,
                forall|y: u32| #[trigger]
                    taken@.contains(y) <==> index_taken(self.res@, self.aux_map(), *room, y),
                forall|y: u32| y < x ==> index_taken(self.res@, self.aux_map(), *room, y),
            decreases MAX_SCENE_ID - x,
        {
            if !taken.contains(&x) {
                return Ok(x);
            }
            assert(taken@.contains(x));
            x += 1;
        }
        Err(ApiError::Full(RType::Scene))
    }

    /// The indices that the scenes of `room` have.
    fn scene_indices(&self, room: &ResourceLink) -> (taken: HashSet<u32>)
        ensures
            forall|y: u32| #[trigger]
                taken@.contains(y) <==> index_taken(self.res@, self.aux_map(), *room, y),
    {
        let mut taken: HashSet<u32> = HashSet::new();
        let ghost all = self.res.iter().remaining();
        for kv in it: self.res.iter()
            invariant
                it.seq() == all,
                all == self.res.iter().remaining(),
                forall|y: u32| #[trigger]
                    taken@.contains(y) <==> exists|j: int|
                        0 <= j < it.index() && scene_has_index(
                            self.res@,
                            self.aux@,
                            *room,
                            *(#[trigger] all[j]).0,
                            y,
                        ),
        {
            let (id, obj) = kv;
            let ghost k = it.index();
            let ghost before = taken@;
            assert(self.res@.contains_key(*all[k].0) && self.res@[*all[k].0] == *all[k].1);
            let mut found: Option<u32> = None;
            if let Resource::Scene(scn) = obj {
                if scn.group == *room {
                    if let Some(aux) = self.aux.get(id) {
                        if let Some(index) = aux.index {
                            found = Some(index);
                            taken.insert(index);
                        }
                    }
                }
            }
            proof {
                assert(found matches Some(x) ==> scene_has_index(
                    self.res@,
                    self.aux@,
                    *room,
                    *all[k].0,
                    x,
                ));
                assert(forall|x: u32|
                    scene_has_index(self.res@, self.aux@, *room, *all[k].0, x) ==> found == Some(
                        x,
                    ));
                assert forall|y: u32| #[trigger]
                    taken@.contains(y) <==> exists|j: int|
                        0 <= j < k + 1 && scene_has_index(
                            self.res@,
                            self.aux@,
                            *room,
                            *(#[trigger] all[j]).0,
                            y,
                        ) by {
                    if taken@.contains(y) {
                        if before.contains(y) {
                            let j = choose|j: int|
                                0 <= j < k && scene_has_index(
                                    self.res@,
                                    self.aux@,
                                    *room,
                                    *(#[trigger] all[j]).0,
                                    y,
                                );
                            assert(0 <= j < k + 1 && scene_has_index(
                                self.res@,
                                self.aux@,
                                *room,
                                *all[j].0,
                                y,
                            ));
                        } else {
                            assert(found == Some(y));
                            assert(0 <= k < k + 1 && scene_has_index(
                                self.res@,
                                self.aux@,
                                *room,
                                *all[k].0,
                                y,
                            ));
                        }
                    }
                    if exists|j: int|
                        0 <= j < k + 1 && scene_has_index(
                            self.res@,
                            self.aux@,
                            *room,
                            *(#[trigger] all[j]).0,
                            y,
                        ) {
                        let j = choose|j: int|
                            0 <= j < k + 1 && scene_has_index(
                                self.res@,
                                self.aux@,
                                *room,
                                *(#[trigger] all[j]).0,
                                y,
                            );
                        if j < k {
                            assert(before.contains(y));
                        } else {
                            assert(found == Some(y));
                        }
                    }
                }
            }
        }
        proof {
            assert forall|y: u32| #[trigger]
                taken@.contains(y) <==> index_taken(self.res@, self.aux_map(), *room, y) by {
                if taken@.contains(y) {
                    let j = choose|j: int|
                        0 <= j < all.len() && scene_has_index(
                            self.res@,
                            self.aux@,
                            *room,
                            *(#[trigger] all[j]).0,
                            y,
                        );
                    assert(scene_has_index(self.res@, self.aux@, *room, *all[j].0, y));
                }
                if index_taken(self.res@, self.aux_map(), *room, y) {
                    let id = choose|id: Uuid| scene_has_index(self.res@, self.aux@, *room, id, y);
                    assert(all.contains((&id, &self.res@[id])));
                    let j = choose|j: int| 0 <= j < all.len() && all[j] == (&id, &self.res@[id]);
                    assert(scene_has_index(self.res@, self.aux@, *room, *all[j].0, y));
                }
            }
        }
        taken
    }

    /// The room stored under `id`. Fails with `NotFound` where nothing is
    /// stored there, or something that is no room.
    pub fn get_room(&self, id: &Uuid) -> (r: ApiResult<&Room>)
        ensures
            match r {
                Ok(room) => self.res@.contains_key(*id) && self.res@[*id] == Resource::Room(*room),
                Err(e) => e == ApiError::NotFound(*id) && !(self.res@.contains_key(*id)
                    && self.res@[*id] is Room),
            },
    {
        match self.res.get(id) {
            Some(Resource::Room(room)) => Ok(room),
            _ => Err(ApiError::NotFound(*id)),
        }
    }

    /// The record of the kind `T` behind `link`.
    ///
    /// Fails with `NotFound` where nothing is stored under the identifier
    /// of the link, or something of another type than the link says; and
    /// with `WrongType` where the link does not say the type of `T`.
    pub fn get<T: ResourceKind>(&self, link: &ResourceLink) -> (r: ApiResult<&T>)
        ensures
            r matches Ok(t) ==> lookup(self.res@, *link) == Ok::<_, ApiError>(t.wrap()),
            lookup(self.res@, *link) matches Err(e) ==> r == Err::<&T, _>(e),
            match r {
                Ok(t) => self.holds(*link) && link.rtype == T::kind() && t.wrap()
                    == self.res@[link.rid],
                Err(e) => if self.holds(*link) {
                    link.rtype != T::kind() && e == ApiError::WrongType(T::kind(), link.rtype)
                } else {
                    e == ApiError::NotFound(link.rid)
                },
            },
    {
        match self.res.get(&link.rid) {
            Some(obj) => {
                if obj.rtype() == link.rtype {
                    T::from_ref(obj)
                } else {
                    Err(ApiError::NotFound(link.rid))
                }
            },
            None => Err(ApiError::NotFound(link.rid)),
        }
    }

    /// A resource of the type that `link` says is stored under its
    /// identifier.
    pub open spec fn holds(&self, link: ResourceLink) -> bool {
        self.res@.contains_key(link.rid) && self.res@[link.rid].type_tag() == link.rtype
    }

    /// The resource of the type `ty` stored under `id`. Fails with
    /// `NotFound` where nothing is stored there, or something of another
    /// type.
    pub fn get_resource(&self, ty: RType, id: &Uuid) -> (r: ApiResult<ResourceRecord<'_>>)
        ensures
            match r {
                Ok(rec) => lookup(self.res@, ResourceLink { rid: *id, rtype: ty }) == Ok::<
                    _,
                    ApiError,
                >(*rec.obj),
                Err(e) => lookup(self.res@, ResourceLink { rid: *id, rtype: ty }) == Err::<
                    Resource,
                    _,
                >(e),
            },
            match r {
                Ok(rec) => self.holds(ResourceLink { rid: *id, rtype: ty }) && rec.id == *id
                    && *rec.obj == self.res@[*id],
                Err(e) => !self.holds(ResourceLink { rid: *id, rtype: ty }) && e
                    == ApiError::NotFound(*id),
            },
    {
        match self.res.get(id) {
            Some(obj) => {
                if obj.rtype() == ty {
                    Ok(ResourceRecord::from_ref(*id, obj))
                } else {
                    Err(ApiError::NotFound(*id))
                }
            },
            None => Err(ApiError::NotFound(*id)),
        }
    }

    /// The resource stored under `id`. Fails with `NotFound` where there is
    /// none.
    pub fn get_resource_by_id(&self, id: &Uuid) -> (r: ApiResult<ResourceRecord<'_>>)
        ensures
            match r {
                Ok(rec) => self.res@.contains_key(*id) && rec.id == *id && *rec.obj
                    == self.res@[*id],
                Err(e) => !self.res@.contains_key(*id) && e == ApiError::NotFound(*id),
            },
    {
        match self.res.get(id) {
            Some(obj) => Ok(ResourceRecord::from_ref(*id, obj)),
            None => Err(ApiError::NotFound(*id)),
        }
    }

    /// `recs` are records of this store: each is stored under its
    /// identifier, and no identifier comes twice.
    pub open spec fn records_of(&self, recs: Seq<ResourceRecord<'_>>) -> bool {
        &&& forall|i: int|
            0 <= i < recs.len() ==> self.res@.contains_key((#[trigger] recs[i]).id) && *recs[i].obj
                == self.res@[recs[i].id]
        &&& forall|i: int, j: int|
            0 <= i < recs.len() && 0 <= j < recs.len() && i != j ==> (#[trigger] recs[i]).id != (
            #[trigger] recs[j]).id
    }

    /// Every resource, each with its identifier, in no particular order.
    pub fn get_resources(&self) -> (recs: Vec<ResourceRecord<'_>>)
        ensures
            self.records_of(recs@),
            recs@.len() == self.res@.dom().len(),
            forall|id: Uuid|
                self.res@.contains_key(id) ==> exists|i: int|
                    0 <= i < recs@.len() && (#[trigger] recs@[i]).id == id,
    {
        let mut recs: Vec<ResourceRecord<'_>> = Vec::new();
        let ghost all = self.res.iter().remaining();
        for kv in it: self.res.iter()
            invariant
                it.seq() == all,
                all == self.res.iter().remaining(),
                recs@.len() == it.index(),
                forall|i: int|
                    0 <= i < recs@.len() ==> (#[trigger] recs@[i]).id == *all[i].0 && *recs@[i].obj
                        == *all[i].1,
        {
            let (id, obj) = kv;
            recs.push(ResourceRecord::from_ref(*id, obj));
        }
        proof {
            assert forall|i: int| 0 <= i < recs@.len() implies self.res@.contains_key(
                (#[trigger] recs@[i]).id,
            ) && *recs@[i].obj == self.res@[recs@[i].id] by {
                assert(self.res@.contains_key(*all[i].0) && self.res@[*all[i].0] == *all[i].1);
            }
            assert forall|i: int, j: int|
                0 <= i < recs@.len() && 0 <= j < recs@.len() && i != j implies (
            #[trigger] recs@[i]).id != (#[trigger] recs@[j]).id by {
                assert(self.res@.contains_key(*all[i].0) && self.res@[*all[i].0] == *all[i].1);
                assert(self.res@.contains_key(*all[j].0) && self.res@[*all[j].0] == *all[j].1);
                assert(all[i] != all[j]);
            }
            assert forall|id: Uuid| self.res@.contains_key(id) implies exists|i: int|
                0 <= i < recs@.len() && (#[trigger] recs@[i]).id == id by {
                assert(all.contains((&id, &self.res@[id])));
                let j = choose|j: int| 0 <= j < all.len() && all[j] == (&id, &self.res@[id]);
                assert(recs@[j].id == id);
            }
        }
        recs
    }

    /// Every resource of the type `ty`, each with its identifier, in no
    /// particular order.
    pub fn get_resources_by_type(&self, ty: RType) -> (recs: Vec<ResourceRecord<'_>>)
        ensures
            self.records_of(recs@),
            forall|i: int| 0 <= i < recs@.len() ==> (#[trigger] recs@[i]).obj.type_tag() == ty,
            forall|id: Uuid|
                self.holds(ResourceLink { rid: id, rtype: ty }) ==> exists|i: int|
                    0 <= i < recs@.len() && (#[trigger] recs@[i]).id == id,
    {
        let all = self.get_resources();
        let mut recs: Vec<ResourceRecord<'_>> = Vec::new();
        let ghost mut from: Seq<int> = Seq::empty();
        let n = all.len();
        let mut k: usize = 0;
        while k < n
            invariant
                n == all@.len(),
                k <= n,
                self.records_of(all@),
                from.len() == recs@.len(),
                forall|i: int| 0 <= i < recs@.len() ==> 0 <= #[trigger] from[i] < k,
                forall|i: int|
                    0 <= i < recs@.len() ==> (#[trigger] recs@[i]) == all@[from[i]]
                        && recs@[i].obj.type_tag() == ty,
                forall|i: int, j: int|
                    0 <= i < j < recs@.len() ==> #[trigger] from[i] < #[trigger] from[j],
                forall|m: int|
                    0 <= m < k && (#[trigger] all@[m]).obj.type_tag() == ty ==> exists|i: int|
                        0 <= i < recs@.len() && #[trigger] from[i] == m,
            decreases n - k,
        {
            let rec = all[k];
            if rec.obj.rtype() == ty {
                let ghost old_recs = recs@;
                recs.push(rec);
                proof {
                    let ghost old_from = from;
                    from = from.push(k as int);
                    assert forall|i: int| 0 <= i < recs@.len() implies (#[trigger] recs@[i])
                        == all@[from[i]] && recs@[i].obj.type_tag() == ty by {
                        if i < old_recs.len() {
                            assert(recs@[i] == old_recs[i]);
                            assert(from[i] == old_from[i]);
                        }
                    }
                    assert forall|m: int|
                        0 <= m < k + 1 && (#[trigger] all@[m]).obj.type_tag()
                            == ty implies exists|i: int|
                        0 <= i < recs@.len() && #[trigger] from[i] == m by {
                        if m < k {
                            let i = choose|i: int|
                                0 <= i < old_from.len() && #[trigger] old_from[i] == m;
                            assert(from[i] == m);
                        } else {
                            assert(from[recs@.len() - 1] == m);
                        }
                    }
                }
            }
            k += 1;
        }
        proof {
            assert forall|i: int, j: int|
                0 <= i < recs@.len() && 0 <= j < recs@.len() && i != j implies (
            #[trigger] recs@[i]).id != (#[trigger] recs@[j]).id by {
                assert(recs@[i] == all@[from[i]]);
                assert(recs@[j] == all@[from[j]]);
                if i < j {
                    assert(from[i] < from[j]);
                } else {
                    assert(from[j] < from[i]);
                }
            }
            assert forall|id: Uuid|
                self.holds(ResourceLink { rid: id, rtype: ty }) implies exists|i: int|
                0 <= i < recs@.len() && (#[trigger] recs@[i]).id == id by {
                let m = choose|m: int| 0 <= m < all@.len() && (#[trigger] all@[m]).id == id;
                assert(all@[m].obj.type_tag() == ty);
                let i = choose|i: int| 0 <= i < recs@.len() && #[trigger] from[i] == m;
                assert(recs@[i].id == id);
            }
        }
        recs
    }
}

} // verus!
