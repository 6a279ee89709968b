use bifrost::api::device::{Bridge, BridgeHome, Device};
use bifrost::api::event::EventBlock;
use bifrost::api::light::{
    ColorTemperature, ColorTemperatureUpdate, ColorUpdate, Dimming, DimmingUpdate, GroupedLight,
    Light, LightColor, LightMetadata, LightUpdate, On,
};
use bifrost::api::resource::{random_uuid, uuid_to_bytes, RType, ResourceLink, Uuid};
use bifrost::api::room::{Room, RoomMetadata};
use bifrost::api::scene::{
    Scene, SceneActive, SceneMetadata, SceneRecall, SceneStatus, SceneStatusUpdate,
};
use bifrost::api::stubs::{Button, Motion};
use bifrost::api::types::{DeviceColorMode, Real, XY};
use bifrost::api::update::Update;
use bifrost::api::{Resource, ResourceKind};
use bifrost::error::ApiError;
use bifrost::resource::{AuxData, Resources};

fn num(v: f64) -> Real {
    Real::from_bits(v.to_bits())
}

fn xy(x: f64, y: f64) -> XY {
    XY::new(num(x), num(y))
}

fn light(on: bool, brightness: f64, mode: Option<DeviceColorMode>, color: XY) -> Light {
    Light {
        owner: RType::Device.link_to(1),
        metadata: LightMetadata { name: "lamp".to_string(), archetype: "sultan_bulb".to_string() },
        on: On::new(on),
        dimming: Dimming { brightness: num(brightness), min_dim_level: None },
        color_mode: mode,
        color: LightColor { xy: color },
        color_temperature: ColorTemperature { mirek: Some(366) },
    }
}

fn room(name: &str) -> Room {
    Room {
        children: vec![],
        metadata: RoomMetadata { name: name.to_string(), archetype: "living_room".to_string() },
        services: vec![],
    }
}

fn scene(room: ResourceLink, active: Option<SceneActive>) -> Scene {
    Scene {
        actions: vec![],
        auto_dynamic: false,
        group: room,
        metadata: SceneMetadata { appdata: None, image: None, name: "relax".to_string() },
        palette: serde_json::Value::Null,
        speed: num(0.5),
        status: active.map(|active| SceneStatus { active, last_recall: None }),
        recall: SceneRecall::default(),
    }
}

fn button() -> Resource {
    Resource::Button(Button { doc: serde_json::Value::Bool(true) })
}

#[test]
fn store_light_update_gives_one_event() {
    let mut store = Resources::new();
    let link = RType::Light.link_to(0x1111);
    store
        .add(&link, Resource::Light(light(false, 0.0, Some(DeviceColorMode::Xy), xy(0.4, 0.4))))
        .unwrap();

    let event = store
        .update::<Light, _>(&link.rid, |l: &Light| {
            let mut l = l.clone();
            l.on.on = true;
            l.dimming.brightness = num(50.0);
            l.color.xy = xy(0.5, 0.45);
            l
        })
        .unwrap();

    let expected = LightUpdate {
        on: Some(On { on: true }),
        dimming: Some(DimmingUpdate { brightness: num(50.0) }),
        color: Some(ColorUpdate { xy: xy(0.5, 0.45) }),
        color_temperature: None,
    };
    match event {
        Some(EventBlock::Update(id, Update::Light(upd))) => {
            assert_eq!(id, link.rid);
            assert_eq!(upd, expected);
        }
        other => panic!("unexpected event {other:?}"),
    }
    let stored = store.get::<Light>(&link).unwrap();
    assert!(stored.on.on);
    assert_eq!(stored.dimming.brightness, num(50.0));
    assert_eq!(stored.color.xy, xy(0.5, 0.45));
}

#[test]
fn store_light_update_follows_color_mode() {
    let base = light(true, 75.0, Some(DeviceColorMode::ColorTemp), xy(0.3, 0.3));
    let upd = Resources::generate_update(&Resource::Light(base.clone())).unwrap();
    match upd {
        Some(Update::Light(upd)) => {
            assert_eq!(upd.on, Some(On { on: true }));
            assert_eq!(upd.dimming, Some(DimmingUpdate { brightness: num(75.0) }));
            assert_eq!(upd.color, None);
            assert_eq!(upd.color_temperature, Some(ColorTemperatureUpdate { mirek: 366 }));
        }
        other => panic!("unexpected update {other:?}"),
    }

    let mut no_mirek = base.clone();
    no_mirek.color_temperature.mirek = None;
    match Resources::generate_update(&Resource::Light(no_mirek)).unwrap() {
        Some(Update::Light(upd)) => {
            assert_eq!(upd.color, None);
            assert_eq!(upd.color_temperature, None);
        }
        other => panic!("unexpected update {other:?}"),
    }

    let mut no_mode = base;
    no_mode.color_mode = None;
    match Resources::generate_update(&Resource::Light(no_mode)).unwrap() {
        Some(Update::Light(upd)) => {
            assert_eq!(upd.color, None);
            assert_eq!(upd.color_temperature, None);
            assert_eq!(upd.on, Some(On { on: true }));
        }
        other => panic!("unexpected update {other:?}"),
    }
}

#[test]
fn store_grouped_light_update() {
    let glight = GroupedLight {
        owner: RType::Room.link_to(9),
        on: On::new(true),
        dimming: DimmingUpdate { brightness: num(12.5) },
    };
    match Resources::generate_update(&Resource::GroupedLight(glight)).unwrap() {
        Some(Update::GroupedLight(upd)) => {
            assert_eq!(upd.on, Some(On { on: true }));
            assert_eq!(upd.dimming, Some(DimmingUpdate { brightness: num(12.5) }));
        }
        other => panic!("unexpected update {other:?}"),
    }
}

#[test]
fn store_scene_update_recall_action() {
    let group = RType::Room.link_to(9);
    let cases = [
        (Some(SceneActive::DynamicPalette), Some(SceneStatusUpdate::DynamicPalette)),
        (Some(SceneActive::Static), Some(SceneStatusUpdate::Active)),
        (Some(SceneActive::Inactive), None),
        (None, None),
    ];
    for (active, action) in cases {
        match Resources::generate_update(&Resource::Scene(scene(group, active))).unwrap() {
            Some(Update::Scene(upd)) => {
                let recall = upd.recall.unwrap();
                assert_eq!(recall.action, action);
                assert_eq!(recall.duration, None);
                assert_eq!(recall.dimming, None);
                assert!(upd.actions.is_none());
                assert!(upd.metadata.is_none());
                assert!(upd.palette.is_none());
                assert!(upd.speed.is_none());
                assert!(upd.auto_dynamic.is_none());
            }
            other => panic!("unexpected update {other:?}"),
        }
    }
}

#[test]
fn store_room_update_gives_no_event() {
    let mut store = Resources::new();
    let link = RType::Room.link_to(0x2222);
    store.add(&link, Resource::Room(room("den"))).unwrap();
    let event = store
        .update::<Room, _>(&link.rid, |r: &Room| {
            let mut r = r.clone();
            r.metadata.name = "study".to_string();
            r
        })
        .unwrap();
    assert!(event.is_none());
    assert_eq!(store.get_room(&link.rid).unwrap().metadata.name, "study");
    assert_eq!(store.get::<Room>(&link).unwrap().metadata.name, "study");
}

#[test]
fn store_update_unsupported_kind() {
    let mut store = Resources::new();
    let link = RType::Motion.link_to(0x3333);
    store.add(&link, Resource::Motion(Motion { doc: serde_json::Value::Null })).unwrap();
    let err = store
        .update::<Motion, _>(&link.rid, |m: &Motion| Motion { doc: m.doc.clone() })
        .unwrap_err();
    assert_eq!(err, ApiError::UpdateUnsupported(RType::Motion));
    assert_eq!(
        Resources::generate_update(&button()).unwrap_err(),
        ApiError::UpdateUnsupported(RType::Button)
    );
}

#[test]
fn store_update_missing_or_wrong_type() {
    let mut store = Resources::new();
    let link = RType::Room.link_to(0x4444);
    store.add(&link, Resource::Room(room("den"))).unwrap();
    assert_eq!(
        store.update::<Light, _>(&link.rid, |l: &Light| l.clone()).unwrap_err(),
        ApiError::WrongType(RType::Light, RType::Room)
    );
    assert_eq!(
        store.update::<Room, _>(&0x5555, |r: &Room| r.clone()).unwrap_err(),
        ApiError::NotFound(0x5555)
    );
    assert_eq!(store.get_room(&link.rid).unwrap().metadata.name, "den");
}

#[test]
fn store_try_update_passes_error_on() {
    let mut store = Resources::new();
    let link = RType::Room.link_to(0x4444);
    store.add(&link, Resource::Room(room("den"))).unwrap();
    let err = store
        .try_update::<Room, _>(&link.rid, |_r: &Room| Err(ApiError::Full(RType::Scene)))
        .unwrap_err();
    assert_eq!(err, ApiError::Full(RType::Scene));
    assert_eq!(store.get_room(&link.rid).unwrap().metadata.name, "den");

    let event = store
        .try_update::<Room, _>(&link.rid, |r: &Room| {
            let mut r = r.clone();
            r.metadata.name = "attic".to_string();
            Ok(r)
        })
        .unwrap();
    assert!(event.is_none());
    assert_eq!(store.get_room(&link.rid).unwrap().metadata.name, "attic");
}

#[test]
fn store_put_updated_replaces() {
    let mut store = Resources::new();
    let link = RType::Light.link_to(7);
    store
        .add(&link, Resource::Light(light(false, 1.0, None, xy(0.1, 0.2))))
        .unwrap();
    let event = store
        .put_updated(&7, Resource::Light(light(true, 2.0, None, xy(0.1, 0.2))))
        .unwrap();
    assert!(matches!(event, Some(EventBlock::Update(7, Update::Light(_)))));
    assert!(store.get::<Light>(&link).unwrap().on.on);
}

#[test]
fn store_add_then_get() {
    let mut store = Resources::new();
    let link = RType::Light.link_to(0xABCDEF);
    let l = light(true, 33.0, Some(DeviceColorMode::Xy), xy(0.2, 0.3));
    let event = store.add(&link, Resource::Light(l.clone())).unwrap();
    assert!(matches!(event, EventBlock::Add(added) if added == link));
    assert_eq!(store.get::<Light>(&link).unwrap(), &l);
    let rec = store.get_resource_by_id(&link.rid).unwrap();
    assert_eq!(rec.id, link.rid);
    assert_eq!(rec.obj.rtype(), link.rtype);
    assert_eq!(rec.link(), link);
    let rec = store.get_resource(RType::Light, &link.rid).unwrap();
    assert_eq!(rec.obj.rtype(), RType::Light);
}

#[test]
fn store_get_errors() {
    let mut store = Resources::new();
    let link = RType::Light.link_to(5);
    store
        .add(&link, Resource::Light(light(true, 33.0, None, xy(0.2, 0.3))))
        .unwrap();
    // nothing stored under the identifier
    assert_eq!(
        store.get::<Light>(&RType::Light.link_to(6)).unwrap_err(),
        ApiError::NotFound(6)
    );
    // the link says another type than what is stored
    assert_eq!(store.get::<Room>(&RType::Room.link_to(5)).unwrap_err(), ApiError::NotFound(5));
    // the link is right, the type asked for is not
    assert_eq!(
        store.get::<Room>(&link).unwrap_err(),
        ApiError::WrongType(RType::Room, RType::Light)
    );
    assert_eq!(store.get_room(&5).unwrap_err(), ApiError::NotFound(5));
    assert_eq!(store.get_resource(RType::Room, &5).unwrap_err(), ApiError::NotFound(5));
    assert_eq!(store.get_resource_by_id(&6).unwrap_err(), ApiError::NotFound(6));
}

#[test]
fn store_delete_then_get() {
    let mut store = Resources::new();
    let link = RType::Button.link_to(0x77);
    store.add(&link, button()).unwrap();
    assert!(store.get::<Button>(&link).is_ok());
    let event = store.delete(&link).unwrap();
    assert!(matches!(event, EventBlock::Delete(gone) if gone == link));
    assert_eq!(store.get::<Button>(&link).unwrap_err(), ApiError::NotFound(0x77));
    assert_eq!(store.get_resource_by_id(&0x77).unwrap_err(), ApiError::NotFound(0x77));
    assert_eq!(store.delete(&link).unwrap_err(), ApiError::NotFound(0x77));
    assert!(store.get_resources().is_empty());
}

#[test]
fn store_add_resource_draws_identifier() {
    let mut store = Resources::new();
    let (a, event) = store.add_resource(button()).unwrap();
    let (b, _) = store.add_resource(Resource::Room(room("den"))).unwrap();
    assert!(matches!(event, EventBlock::Add(added) if added == a));
    assert_eq!(a.rtype, RType::Button);
    assert_eq!(b.rtype, RType::Room);
    assert_ne!(a.rid, b.rid);
    assert!(store.get::<Button>(&a).is_ok());
    assert!(store.get::<Room>(&b).is_ok());
    assert_eq!(store.get_resources().len(), 2);
}

#[test]
fn store_random_identifiers_are_version_four() {
    let a = random_uuid();
    let b = random_uuid();
    assert_ne!(a, b);
    for id in [a, b] {
        assert_eq!(uuid::Uuid::from_u128(id).get_version_num(), 4);
        assert_eq!(uuid::Uuid::from_u128(id).get_variant(), uuid::Variant::RFC4122);
        assert_eq!((id >> 76) & 0xf, 4);
        assert_eq!((id >> 62) & 0x3, 2);
    }
}

#[test]
fn store_aux_data() {
    let mut store = Resources::new();
    let link = RType::Scene.link_to(3);
    assert_eq!(store.aux_get(&link).unwrap_err(), ApiError::AuxNotFound(link));
    store.aux_set(&link, AuxData::new().with_topic("z2m/lamp").with_index(4));
    let aux = store.aux_get(&link).unwrap();
    assert_eq!(aux.topic.as_deref(), Some("z2m/lamp"));
    assert_eq!(aux.index, Some(4));
    store.aux_set(&link, AuxData::new().with_index(9));
    assert_eq!(store.aux_get(&link).unwrap(), &AuxData { topic: None, index: Some(9) });
    assert_eq!(AuxData::default(), AuxData { topic: None, index: None });
    assert_eq!(
        AuxData::new().with_index(1).with_topic("t"),
        AuxData { topic: Some("t".to_string()), index: Some(1) }
    );
}

fn add_scene(store: &mut Resources, id: Uuid, room: ResourceLink, index: Option<u32>) {
    let link = RType::Scene.link_to(id);
    store.add(&link, Resource::Scene(scene(room, None))).unwrap();
    if let Some(index) = index {
        store.aux_set(&link, AuxData::new().with_index(index));
    }
}

#[test]
fn store_next_scene_id() {
    let mut store = Resources::new();
    let room = RType::Room.link_to(100);
    assert_eq!(store.get_next_scene_id(&room).unwrap(), 0);
    add_scene(&mut store, 1, room, Some(0));
    add_scene(&mut store, 2, room, Some(1));
    add_scene(&mut store, 3, room, Some(3));
    assert_eq!(store.get_next_scene_id(&room).unwrap(), 2);
    add_scene(&mut store, 4, room, Some(2));
    assert_eq!(store.get_next_scene_id(&room).unwrap(), 4);
}

#[test]
fn store_next_scene_id_counts_only_scenes_of_the_room() {
    let mut store = Resources::new();
    let room = RType::Room.link_to(100);
    let other = RType::Room.link_to(101);
    add_scene(&mut store, 1, other, Some(0));
    add_scene(&mut store, 2, room, None);
    add_scene(&mut store, 3, room, Some(250));
    // auxiliary data of something that is no scene
    store.add(&RType::Button.link_to(4), button()).unwrap();
    store.aux_set(&RType::Button.link_to(4), AuxData::new().with_index(0));
    // auxiliary data without a resource
    store.aux_set(&RType::Scene.link_to(5), AuxData::new().with_index(0));
    // the same room under another type tag
    add_scene(&mut store, 6, RType::Zone.link_to(100), Some(0));
    assert_eq!(store.get_next_scene_id(&room).unwrap(), 0);
    assert_eq!(store.get_next_scene_id(&other).unwrap(), 1);
}

#[test]
fn store_next_scene_id_full() {
    let mut store = Resources::new();
    let room = RType::Room.link_to(100);
    for index in 0..100u32 {
        if index != 57 {
            add_scene(&mut store, 1000 + Uuid::from(index), room, Some(index));
        }
    }
    assert_eq!(store.get_next_scene_id(&room).unwrap(), 57);
    add_scene(&mut store, 2000, room, Some(57));
    assert_eq!(store.get_next_scene_id(&room).unwrap_err(), ApiError::Full(RType::Scene));
    assert_eq!(Resources::MAX_SCENE_ID, 100);
}

#[test]
fn store_lists_resources() {
    let mut store = Resources::new();
    store.add(&RType::Button.link_to(1), button()).unwrap();
    store.add(&RType::Room.link_to(2), Resource::Room(room("a"))).unwrap();
    store.add(&RType::Room.link_to(3), Resource::Room(room("b"))).unwrap();
    let mut all: Vec<Uuid> = store.get_resources().iter().map(|r| r.id).collect();
    all.sort();
    assert_eq!(all, vec![1, 2, 3]);
    let rooms = store.get_resources_by_type(RType::Room);
    let mut ids: Vec<Uuid> = rooms.iter().map(|r| r.id).collect();
    ids.sort();
    assert_eq!(ids, vec![2, 3]);
    assert!(rooms.iter().all(|r| r.obj.rtype() == RType::Room));
    assert!(store.get_resources_by_type(RType::Light).is_empty());
}

fn v5(rtype: RType, seed: &[u8]) -> Uuid {
    let mut name = vec![rtype.tag_byte()];
    name.extend_from_slice(seed);
    uuid::Uuid::new_v5(&uuid::Uuid::NAMESPACE_OID, &name).as_u128()
}

#[test]
fn store_deterministic_links() {
    let a = RType::Bridge.deterministic(b"001788fffeaabbcc");
    let b = RType::Bridge.deterministic(b"001788fffeaabbcc");
    assert_eq!(a, b);
    assert_eq!(a.rtype, RType::Bridge);
    assert_eq!(a.rid, v5(RType::Bridge, b"001788fffeaabbcc"));
    assert_eq!(uuid::Uuid::from_u128(a.rid).get_version_num(), 5);
    assert_ne!(a.rid, RType::BridgeHome.deterministic(b"001788fffeaabbcc").rid);
    assert_ne!(a.rid, RType::Bridge.deterministic(b"001788fffeaabbcd").rid);
    assert_eq!(RType::AuthV1.tag_byte(), 0);
    assert_eq!(RType::Zone.tag_byte(), 31);
    assert_eq!(RType::Light.link_to(5), ResourceLink::new(5, RType::Light));
}

#[test]
fn store_uuid_bytes_are_big_endian() {
    let id: Uuid = 0xa1a2a3a4_b1b2_c1c2_d1d2_d3d4d5d6d7d8;
    assert_eq!(uuid_to_bytes(id), uuid::Uuid::from_u128(id).as_bytes().to_vec());
    assert_eq!(uuid_to_bytes(id)[0], 0xa1);
    assert_eq!(uuid_to_bytes(id)[15], 0xd8);
}

#[test]
fn store_init_adds_bridge() {
    let mut store = Resources::new();
    let events = store.init("001788fffeaabbcc").unwrap();

    let bridge = RType::Bridge.link_to(v5(RType::Bridge, b"001788fffeaabbcc"));
    let home = RType::BridgeHome.link_to(v5(RType::BridgeHome, b"001788fffeaabbccHOME"));
    let bridge_dev = RType::Device.link_to(v5(RType::Device, &uuid_to_bytes(bridge.rid)));
    let home_dev = RType::Device.link_to(v5(RType::Device, &uuid_to_bytes(home.rid)));

    let added: Vec<ResourceLink> = events
        .iter()
        .map(|e| match e {
            EventBlock::Add(link) => *link,
            other => panic!("unexpected event {other:?}"),
        })
        .collect();
    assert_eq!(added, vec![bridge_dev, bridge, home_dev, home]);
    assert_eq!(store.get_resources().len(), 4);

    let b = store.get::<Bridge>(&bridge).unwrap();
    assert_eq!(b.bridge_id, "001788fffeaabbcc");
    assert_eq!(b.owner, bridge_dev);
    assert!(!b.time_zone.time_zone.is_empty());

    let h = store.get::<BridgeHome>(&home).unwrap();
    assert_eq!(h.children, vec![bridge_dev]);
    assert_eq!(
        h.services,
        vec![RType::GroupedLight.link_to(v5(RType::GroupedLight, &uuid_to_bytes(home.rid)))]
    );

    let d = store.get::<Device>(&bridge_dev).unwrap();
    assert_eq!(d.metadata.name, "bifrost");
    assert_eq!(d.product_data.model_id, "BSB002");
    assert_eq!(d.product_data.manufacturer_name, "Signify Netherlands B.V.");
    assert!(d.product_data.certified);
    assert_eq!(d.services, vec![bridge]);
    assert_eq!(d.identify, serde_json::Value::Object(serde_json::Map::new()));

    let d = store.get::<Device>(&home_dev).unwrap();
    assert_eq!(d.metadata.name, "bifrost bridge home");
    assert_eq!(d.services, vec![bridge]);
}

#[test]
fn store_add_bridge_in_time_zone() {
    let mut store = Resources::new();
    store.add(&RType::Button.link_to(1), button()).unwrap();
    store.add_bridge_in("abc".to_string(), "Europe/Copenhagen".to_string()).unwrap();
    let bridge = RType::Bridge.link_to(v5(RType::Bridge, b"abc"));
    assert_eq!(store.get::<Bridge>(&bridge).unwrap().time_zone.time_zone, "Europe/Copenhagen");
    assert_eq!(store.get_resources().len(), 5);
    // adding the same bridge again replaces its four resources
    store.add_bridge_in("abc".to_string(), "UTC".to_string()).unwrap();
    assert_eq!(store.get_resources().len(), 5);
    assert_eq!(store.get::<Bridge>(&bridge).unwrap().time_zone.time_zone, "UTC");
}

#[test]
fn resource_type_tags() {
    assert_eq!(button().rtype(), RType::Button);
    assert_eq!(Resource::AuthV1(RType::Light.link_to(1)).rtype(), RType::AuthV1);
    assert_eq!(Resource::Room(room("x")).rtype(), RType::Room);
    assert_eq!(<Room as ResourceKind>::rtype(), RType::Room);
    assert_eq!(<Light as ResourceKind>::rtype(), RType::Light);
    assert_eq!(room("x").into_resource().rtype(), RType::Room);
    assert_eq!(
        Room::from_resource(button()).unwrap_err(),
        ApiError::WrongType(RType::Room, RType::Button)
    );
    assert_eq!(Room::from_resource(Resource::Room(room("x"))).unwrap(), room("x"));
    assert_eq!(
        Button::from_ref(&Resource::Room(room("x"))).unwrap_err(),
        ApiError::WrongType(RType::Button, RType::Room)
    );
}

#[test]
fn resource_from_doc_carries_the_document() {
    let doc = serde_json::Value::String("pressed".to_string());
    let res = Resource::from_doc(RType::Button, doc.clone()).unwrap();
    assert_eq!(res.rtype(), RType::Button);
    assert_eq!(res.as_doc(), Some(&doc));
    assert!(matches!(res, Resource::Button(_)));
    let res = Resource::from_doc(RType::Zone, doc.clone()).unwrap();
    assert_eq!(res.rtype(), RType::Zone);
    for typed in [
        RType::AuthV1,
        RType::Bridge,
        RType::BridgeHome,
        RType::Device,
        RType::GroupedLight,
        RType::Light,
        RType::Room,
        RType::Scene,
    ] {
        assert!(Resource::from_doc(typed, doc.clone()).is_none());
    }
    assert_eq!(Resource::Room(room("x")).as_doc(), None);
}

#[test]
fn store_snapshot_round_trip() {
    let mut store = Resources::new();
    let link = RType::Light.link_to(1);
    let l = light(true, 10.0, Some(DeviceColorMode::Xy), xy(0.1, 0.9));
    store.add(&link, Resource::Light(l.clone())).unwrap();
    store.add(&RType::Button.link_to(2), button()).unwrap();
    store.aux_set(&link, AuxData::new().with_topic("lamp"));

    let (res, aux) = store.save();
    let (res, aux) = (res.clone(), aux.clone());
    let mut other = Resources::new();
    other.add(&RType::Room.link_to(9), Resource::Room(room("gone"))).unwrap();
    other.load(res, aux);

    assert_eq!(other.get_resources().len(), 2);
    assert_eq!(other.get::<Light>(&link).unwrap(), &l);
    assert!(other.get::<Button>(&RType::Button.link_to(2)).is_ok());
    assert_eq!(other.get_room(&9).unwrap_err(), ApiError::NotFound(9));
    assert_eq!(other.aux_get(&link).unwrap(), &AuxData::new().with_topic("lamp"));
}
