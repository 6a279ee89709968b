use bifrost::api::reply::{ApiLightStateUpdate, V1Reply, V2Reply};
use bifrost::api::Stub;
use bifrost::json::Json;
use serde_json::Value;

fn rendered(doc: Json) -> Value {
    match doc {
        Json::Value(value) => value,
        Json::Array(items) => Value::Array(items.into_iter().map(rendered).collect()),
        Json::Object(members) => {
            let mut map = serde_json::Map::new();
            for (name, member) in members {
                map.insert(name, rendered(member));
            }
            Value::Object(map)
        }
    }
}

fn success(path: &str, value: Value) -> Value {
    let mut inner = serde_json::Map::new();
    inner.insert(path.to_string(), value);
    let mut outer = serde_json::Map::new();
    outer.insert("success".to_string(), Value::Object(inner));
    Value::Object(outer)
}

#[test]
fn v1_reply_for_light() {
    let reply = V1Reply::for_light(12, "state")
        .add("on", Value::Bool(true))
        .add_option("bri", Some(Value::from(254)))
        .add_option("ct", None);
    assert_eq!(
        reply.success_paths(),
        vec![
            ("/lights/12/state/on".to_string(), Value::Bool(true)),
            ("/lights/12/state/bri".to_string(), Value::from(254)),
        ]
    );
    assert_eq!(
        rendered(reply.json()),
        Value::Array(vec![
            success("/lights/12/state/on", Value::Bool(true)),
            success("/lights/12/state/bri", Value::from(254)),
        ])
    );
}

#[test]
fn v1_reply_prefixes() {
    let one = |reply: V1Reply| reply.add("x", Value::Null).success_paths()[0].0.clone();
    assert_eq!(one(V1Reply::for_light(0, "state")), "/lights/0/state/x");
    assert_eq!(one(V1Reply::for_light(4294967295, "a/b")), "/lights/4294967295/a/b/x");
    assert_eq!(one(V1Reply::for_group_path(305, "action")), "/groups/305/action/x");
    assert_eq!(one(V1Reply::for_group(10)), "/groups/10/x");
    assert_eq!(one(V1Reply::new("/config".to_string())), "/config/x");
    assert_eq!(rendered(V1Reply::for_group(1).json()), Value::Array(vec![]));
}

#[test]
fn v1_reply_light_state_update() {
    let upd = ApiLightStateUpdate {
        on: Some(Value::Bool(false)),
        bri: None,
        xy: Some(Value::Array(vec![Value::from(0.5), Value::from(0.25)])),
        ct: Some(Value::from(366)),
    };
    let reply = V1Reply::for_light(3, "state").with_light_state_update(&upd);
    let paths: Vec<String> = reply.success_paths().into_iter().map(|p| p.0).collect();
    assert_eq!(paths, vec!["/lights/3/state/on", "/lights/3/state/xy", "/lights/3/state/ct"]);
    assert_eq!(
        rendered(reply.json()),
        Value::Array(vec![
            success("/lights/3/state/on", Value::Bool(false)),
            success(
                "/lights/3/state/xy",
                Value::Array(vec![Value::from(0.5), Value::from(0.25)])
            ),
            success("/lights/3/state/ct", Value::from(366)),
        ])
    );
}

#[test]
fn v2_reply_envelope() {
    let reply = V2Reply::ok(5u8);
    assert_eq!(reply.data, vec![5]);
    assert!(reply.errors.is_empty());
    let reply = V2Reply::list(vec!["a", "b"]);
    assert_eq!(reply.data, vec!["a", "b"]);
    assert!(reply.errors.is_empty());
    assert_eq!(Stub::default(), Stub);
}

#[test]
fn v1_reply_document_shape() {
    let doc = V1Reply::for_group(7).add("bri", Value::from(12)).add("on", Value::Bool(true)).json();
    let items = match doc {
        Json::Array(items) => items,
        other => panic!("unexpected document {other:?}"),
    };
    assert_eq!(items.len(), 2);
    let expected = [("/groups/7/bri", Value::from(12)), ("/groups/7/on", Value::Bool(true))];
    for (item, (path, value)) in items.into_iter().zip(expected) {
        let outer = match item {
            Json::Object(outer) => outer,
            other => panic!("unexpected item {other:?}"),
        };
        assert_eq!(outer.len(), 1);
        let (name, inner) = outer.into_iter().next().unwrap();
        assert_eq!(name, "success");
        let inner = match inner {
            Json::Object(inner) => inner,
            other => panic!("unexpected member {other:?}"),
        };
        assert_eq!(inner.len(), 1);
        let (found_path, found) = inner.into_iter().next().unwrap();
        assert_eq!(found_path, path);
        assert!(matches!(found, Json::Value(v) if v == value));
    }
}
