use blocks_sdk::ctx::{EmitSink, GraphAccess, NodeCtx, TimerHandle, TimerScheduler};
use blocks_sdk::error::NodeError;
use blocks_sdk::json::{members_get, members_insert, members_remove, JsonNumber, JsonValue};
use blocks_sdk::model::{KindId, KindManifest, Msg, NodeId, NodePath, SlotRole, SlotSchema};
use blocks_sdk::settings::{apply_msg_overrides, merge, schema_defaults, ResolvedSettings};
use std::sync::Arc;

fn num(n: u64) -> JsonValue {
    JsonValue::Number(JsonNumber::PosInt(n))
}

fn text(s: &str) -> JsonValue {
    JsonValue::String(s.to_string())
}

fn obj(pairs: Vec<(&str, JsonValue)>) -> JsonValue {
    JsonValue::Object(pairs.into_iter().map(|(k, v)| (k.to_string(), v)).collect())
}

/// Compares two values by meaning: object members as maps, the last
/// occurrence of a key counting.
fn same(a: &JsonValue, b: &JsonValue) -> bool {
    match (a, b) {
        (JsonValue::Object(x), JsonValue::Object(y)) => {
            let keys = |m: &Vec<(String, JsonValue)>| {
                let mut ks: Vec<String> = m.iter().map(|(k, _)| k.clone()).collect();
                ks.sort();
                ks.dedup();
                ks
            };
            let kx = keys(x);
            kx == keys(y)
                && kx.iter().all(|k| same(members_get(x, k).unwrap(), members_get(y, k).unwrap()))
        }
        (JsonValue::Array(x), JsonValue::Array(y)) => {
            x.len() == y.len() && x.iter().zip(y.iter()).all(|(p, q)| same(p, q))
        }
        _ => a == b,
    }
}

#[test]
fn defaults_extracted_from_json_schema() {
    let s = obj(vec![
        ("type", text("object")),
        (
            "properties",
            obj(vec![
                ("step", obj(vec![("type", text("integer")), ("default", num(1))])),
                ("wrap", obj(vec![("type", text("boolean")), ("default", JsonValue::Bool(false))])),
                ("min", obj(vec![("type", JsonValue::Array(vec![text("integer"), text("null")]))])),
            ]),
        ),
    ]);
    let d = schema_defaults(&s);
    assert!(same(&d, &obj(vec![("step", num(1)), ("wrap", JsonValue::Bool(false))])));
}

#[test]
fn overrides_beat_config_beats_defaults() {
    let merged = merge(
        obj(vec![("step", num(1)), ("initial", num(0))]),
        obj(vec![("step", num(5))]),
        obj(vec![("initial", num(99))]),
    );
    assert!(same(&merged, &obj(vec![("step", num(5)), ("initial", num(99))])));
}

#[test]
fn schema_without_object_properties_has_no_defaults() {
    assert!(same(&schema_defaults(&JsonValue::Null), &obj(vec![])));
    assert!(same(&schema_defaults(&obj(vec![("properties", num(3))])), &obj(vec![])));
    assert!(same(&schema_defaults(&obj(vec![("type", text("object"))])), &obj(vec![])));
}

#[test]
fn merge_ignores_layers_that_are_not_objects() {
    let merged = merge(JsonValue::Null, obj(vec![("a", num(1))]), text("x"));
    assert!(same(&merged, &obj(vec![("a", num(1))])));
    assert!(same(&merge(num(4), JsonValue::Null, JsonValue::Bool(true)), &obj(vec![])));
}

#[test]
fn msg_overrides_pick_metadata_values() {
    let msg = Msg {
        payload: JsonValue::Null,
        metadata: vec![("rate".to_string(), num(7)), ("other".to_string(), num(1))],
    };
    let overrides = vec![
        ("interval".to_string(), "rate".to_string()),
        ("limit".to_string(), "absent".to_string()),
    ];
    let o = apply_msg_overrides(&overrides, &msg);
    assert!(same(&o, &obj(vec![("interval", num(7))])));
}

#[test]
fn members_insert_replaces_and_remove_deletes() {
    let mut m = vec![("a".to_string(), num(1)), ("b".to_string(), num(2))];
    members_insert(&mut m, "a".to_string(), num(10));
    members_insert(&mut m, "c".to_string(), num(3));
    assert_eq!(members_get(&m, "a"), Some(&num(10)));
    assert_eq!(members_get(&m, "c"), Some(&num(3)));
    members_remove(&mut m, &"b".to_string());
    assert_eq!(members_get(&m, "b"), None);
    assert_eq!(m.len(), 2);
}

#[test]
fn later_member_wins_on_lookup() {
    let m = vec![("a".to_string(), num(1)), ("a".to_string(), num(2))];
    assert_eq!(members_get(&m, "a"), Some(&num(2)));
    let v = JsonValue::Object(m);
    assert_eq!(v.get("a"), Some(&num(2)));
    assert_eq!(num(3).get("a"), None);
}

#[test]
fn deep_clone_keeps_meaning() {
    let v = obj(vec![("x", JsonValue::Array(vec![num(1), obj(vec![("y", text("z"))])]))]);
    assert!(same(&v.deep_clone(), &v));
}

#[test]
fn resolved_settings_roundtrip_and_decode_failure() {
    let r = ResolvedSettings::new(5u32);
    assert_eq!(*r, 5);
    assert_eq!(r.into_inner(), 5);
    match ResolvedSettings::<u32>::from_decoded(Err("bad field".to_string())) {
        Err(NodeError::InvalidConfig(m)) => assert_eq!(m, "bad field"),
        _ => panic!("expected an invalid-config error"),
    }
    assert_eq!(*ResolvedSettings::from_decoded(Ok(9u8)).unwrap(), 9);
}

struct NoGraph;
impl GraphAccess for NoGraph {
    fn read_slot(&self, _path: &NodePath, _slot: &str) -> Result<JsonValue, NodeError> {
        Ok(JsonValue::Null)
    }
    fn write_slot(&self, _path: &NodePath, _slot: &str, _value: JsonValue) -> Result<(), NodeError> {
        Ok(())
    }
}
struct NoSink;
impl EmitSink for NoSink {
    fn emit(&self, _source: NodeId, _port: &str, _msg: Msg) -> Result<(), NodeError> {
        Ok(())
    }
}
struct NoTimers;
impl TimerScheduler for NoTimers {
    fn schedule(&self, _node: NodeId, _delay_ms: u64) -> Result<TimerHandle, NodeError> {
        Ok(TimerHandle(1))
    }
    fn cancel(&self, _handle: TimerHandle) {}
}

#[test]
fn resolve_settings_json_layers_all_three_sources() {
    let manifest = KindManifest {
        id: KindId::new("sys.compute.count".to_string()),
        slots: vec![SlotSchema { name: "count".to_string(), role: SlotRole::Status }],
        settings_schema: obj(vec![(
            "properties",
            obj(vec![
                ("step", obj(vec![("default", num(1))])),
                ("initial", obj(vec![("default", num(0))])),
                ("wrap", obj(vec![("default", JsonValue::Bool(false))])),
            ]),
        )]),
        msg_overrides: vec![("initial".to_string(), "reset_to".to_string())],
        facets: vec![],
        containment: JsonValue::Null,
    };
    let ctx = NodeCtx::new(
        NodeId(1),
        NodePath("/a".to_string()),
        KindId::new("sys.compute.count".to_string()),
        Arc::new(manifest),
        obj(vec![("step", num(5))]),
        Box::new(NoGraph),
        Box::new(NoSink),
        Box::new(NoTimers),
    );
    let msg = Msg { payload: JsonValue::Null, metadata: vec![("reset_to".to_string(), num(99))] };
    let resolved = ctx.resolve_settings_json(&msg);
    assert!(same(
        &resolved,
        &obj(vec![("step", num(5)), ("initial", num(99)), ("wrap", JsonValue::Bool(false))])
    ));
}
