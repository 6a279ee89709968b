use bifrost::api::light::{DeviceUpdate, LightUpdate, On, DimmingUpdate, ColorUpdate, ColorTemperatureUpdate, GroupedLightUpdate};
use bifrost::api::resource::RType;
use bifrost::api::scene::{
    SceneActive, SceneMetadata, SceneMetadataUpdate, SceneRecall, SceneStatus, SceneStatusUpdate,
    SceneUpdate,
};
use bifrost::api::types::{Real, XY};

fn meta(appdata: Option<&str>, image: Option<u128>, name: &str) -> SceneMetadata {
    SceneMetadata {
        appdata: appdata.map(str::to_string),
        image: image.map(|id| RType::PublicImage.link_to(id)),
        name: name.to_string(),
    }
}

#[test]
fn scene_metadata_sub_holds_what_differs() {
    let a = meta(Some("x"), Some(1), "relax");
    let b = meta(Some("y"), Some(1), "read");
    let upd = a.sub(&b);
    assert_eq!(
        upd,
        SceneMetadataUpdate { appdata: Some("y".to_string()), image: None, name: Some("read".to_string()) }
    );
    assert_eq!(a.sub(&a), SceneMetadataUpdate::default());
    let c = meta(Some("x"), Some(2), "relax");
    assert_eq!(
        a.sub(&c),
        SceneMetadataUpdate { appdata: None, image: Some(RType::PublicImage.link_to(2)), name: None }
    );
}

#[test]
fn scene_metadata_add_assign_overwrites_present_fields() {
    let mut a = meta(Some("x"), None, "relax");
    a.add_assign(SceneMetadataUpdate {
        appdata: None,
        image: Some(RType::PublicImage.link_to(7)),
        name: Some("read".to_string()),
    });
    assert_eq!(a, meta(Some("x"), Some(7), "read"));
    a.add_assign(SceneMetadataUpdate::default());
    assert_eq!(a, meta(Some("x"), Some(7), "read"));
}

#[test]
fn scene_metadata_sub_then_add_reaches_target() {
    let options = [None, Some("a"), Some("b")];
    let images = [None, Some(1u128), Some(2)];
    let names = ["n", "m"];
    for a_app in options {
        for b_app in options {
            for a_img in images {
                for b_img in images {
                    for a_name in names {
                        for b_name in names {
                            let a = meta(a_app, a_img, a_name);
                            let b = meta(b_app, b_img, b_name);
                            let mut c = a.clone();
                            c.add_assign(a.sub(&b));
                            // an update can set an optional field and cannot clear one
                            let reachable = (b_app.is_some() || a_app.is_none())
                                && (b_img.is_some() || a_img.is_none());
                            assert_eq!(c == b, reachable);
                            assert_eq!(c.name, b.name);
                        }
                    }
                }
            }
        }
    }
}

#[test]
fn scene_update_recall_action() {
    let status = |active| Some(SceneStatus { active, last_recall: Some(1_700_000_000_000) });
    let recall = |upd: SceneUpdate| upd.recall.unwrap();
    assert_eq!(
        recall(SceneUpdate::new().with_recall_action(status(SceneActive::DynamicPalette))),
        SceneRecall { action: Some(SceneStatusUpdate::DynamicPalette), duration: None, dimming: None }
    );
    assert_eq!(
        recall(SceneUpdate::new().with_recall_action(status(SceneActive::Static))).action,
        Some(SceneStatusUpdate::Active)
    );
    assert_eq!(
        recall(SceneUpdate::new().with_recall_action(status(SceneActive::Inactive))).action,
        None
    );
    assert_eq!(recall(SceneUpdate::new().with_recall_action(None)), SceneRecall::default());
    assert!(SceneUpdate::new().recall.is_none());
    let upd = SceneUpdate::new().with_actions(Some(vec![]));
    assert_eq!(upd.actions.map(|a| a.len()), Some(0));
}

#[test]
fn light_update_builders() {
    let xy = XY::new(Real::from_bits(0.25f64.to_bits()), Real::from_bits(0.5f64.to_bits()));
    let bri = Real::from_bits(80.0f64.to_bits());
    assert_eq!(Real::from_bits(5).to_bits(), 5);
    let upd = LightUpdate::new().with_on(true).with_brightness(bri).with_color_xy(xy);
    assert_eq!(
        upd,
        LightUpdate {
            on: Some(On { on: true }),
            dimming: Some(DimmingUpdate { brightness: bri }),
            color: Some(ColorUpdate { xy }),
            color_temperature: None,
        }
    );
    let upd = LightUpdate::new().with_color_temperature(Some(153));
    assert_eq!(upd.color_temperature, Some(ColorTemperatureUpdate { mirek: 153 }));
    assert_eq!(upd.with_color_temperature(None).color_temperature, Some(ColorTemperatureUpdate { mirek: 153 }));
    assert_eq!(LightUpdate::new().with_color_temperature(None), LightUpdate::new());
    let g = GroupedLightUpdate::new().with_on(false).with_brightness(bri);
    assert_eq!(g.on, Some(On { on: false }));
    assert_eq!(g.dimming, Some(DimmingUpdate { brightness: bri }));
}

#[test]
fn light_update_to_device_update() {
    let xy = XY::new(Real::from_bits(0.25f64.to_bits()), Real::from_bits(0.5f64.to_bits()));
    let percent = 50.0f64;
    let scaled = Real::from_bits((percent / 100.0 * 254.0).to_bits());
    let upd = LightUpdate::new()
        .with_on(true)
        .with_brightness(Real::from_bits(percent.to_bits()))
        .with_color_temperature(Some(200))
        .with_color_xy(xy);
    assert_eq!(
        upd.to_device_update(Some(scaled)),
        DeviceUpdate {
            state: Some(true),
            brightness: Some(Real::from_bits(127.0f64.to_bits())),
            color_temp: Some(200),
            color_xy: Some(xy),
        }
    );
    assert_eq!(LightUpdate::new().to_device_update(None), DeviceUpdate::default());
}
