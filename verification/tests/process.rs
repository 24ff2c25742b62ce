use blocks_sdk::ctx::{DynBehavior, EmitSink, NodeCtx, TimerHandle};
use blocks_sdk::error::NodeError;
use blocks_sdk::json::JsonValue;
use blocks_sdk::model::{KindId, KindManifest, Msg, NodeId, SlotRole, SlotSchema};
use blocks_sdk::process::{
    BlockIdentity, DefaultPlugin, HealthStatus, InitRequest, MessageRequest, RpcCode, StubGraph, StubScheduler,
};
use blocks_sdk::ctx::{GraphAccess, TimerScheduler};
use std::sync::{Arc, Mutex};

fn manifest(id: &str) -> KindManifest {
    KindManifest {
        id: KindId::new(id.to_string()),
        slots: vec![SlotSchema { name: "out".to_string(), role: SlotRole::Output }],
        settings_schema: JsonValue::Null,
        msg_overrides: vec![],
        facets: vec![],
        containment: JsonValue::Null,
    }
}

struct Echo;
impl DynBehavior for Echo {
    fn on_init(&self, _ctx: &NodeCtx, cfg: &JsonValue) -> Result<(), NodeError> {
        if *cfg == JsonValue::Null { Ok(()) } else { Err(NodeError::InvalidConfig("want null".to_string())) }
    }
    fn on_message(&self, ctx: &NodeCtx, port: String, msg: Msg) -> Result<(), NodeError> {
        if port == "fail" {
            return Err(NodeError::runtime("asked to fail".to_string()));
        }
        ctx.emit("out", msg)
    }
    fn on_timer(&self, _ctx: &NodeCtx, _handle: TimerHandle) -> Result<(), NodeError> {
        Ok(())
    }
    fn on_shutdown(&self, _ctx: &NodeCtx) -> Result<(), NodeError> {
        Ok(())
    }
}

struct Capture(Arc<Mutex<Vec<String>>>);
impl EmitSink for Capture {
    fn emit(&self, _source: NodeId, port: &str, _msg: Msg) -> Result<(), NodeError> {
        self.0.lock().unwrap().push(port.to_string());
        Ok(())
    }
}

fn plugin() -> DefaultPlugin {
    let mut id = BlockIdentity::new("com.acme.sdktest".to_string(), "9.9.9".to_string());
    id.capabilities.push("spi.msg".to_string());
    id.register_behavior(manifest("com.acme.echo"), Box::new(Echo));
    id.register_manifest(manifest("com.acme.folder"));
    DefaultPlugin::new(id)
}

fn msg_request(kind: &str, port: &str) -> MessageRequest {
    MessageRequest {
        kind_id: kind.to_string(),
        node_path: "/n".to_string(),
        port: port.to_string(),
        msg: Ok(Msg { payload: JsonValue::Null, metadata: vec![] }),
        config_json: String::new(),
        config: Err("EOF while parsing".to_string()),
    }
}

#[test]
fn process_default_plugin_responds_to_describe_and_health() {
    let p = plugin();
    let d = p.describe();
    assert_eq!(d.extension_id, "com.acme.sdktest");
    assert_eq!(d.version, "9.9.9");
    assert_eq!(d.capabilities, vec!["spi.msg".to_string()]);
    assert_eq!(d.kinds.len(), 2);
    assert_eq!(d.kinds[0].id.as_str(), "com.acme.echo");
    assert_eq!(d.kinds[1].id.as_str(), "com.acme.folder");
    let h = p.health();
    assert_eq!(h.status, HealthStatus::Ready);
    assert_eq!(h.detail, "");
}

#[test]
fn discover_and_invoke_are_unimplemented() {
    let p = plugin();
    assert_eq!(p.discover().code, RpcCode::Unimplemented);
    assert_eq!(p.discover().message, "discover: driver-side, not wired");
    assert_eq!(p.invoke().code, RpcCode::Unimplemented);
    assert_eq!(p.invoke().message, "invoke: driver-side, not wired");
}

#[test]
fn messages_dispatch_and_capture_emits() {
    let p = plugin();
    let emitted = Arc::new(Mutex::new(Vec::new()));
    let reply = p.on_message(msg_request("com.acme.echo", "in"), NodeId(7), Box::new(Capture(emitted.clone()))).unwrap();
    assert!(reply.ok);
    assert_eq!(reply.error, "");
    assert_eq!(*emitted.lock().unwrap(), vec!["out".to_string()]);
}

#[test]
fn behaviour_errors_are_reported_in_the_reply() {
    let p = plugin();
    let reply = p.on_message(msg_request("com.acme.echo", "fail"), NodeId(7), Box::new(Capture(Arc::new(Mutex::new(Vec::new()))))).unwrap();
    assert!(!reply.ok);
    assert_eq!(reply.error, "node runtime error: asked to fail");
}

#[test]
fn manifest_only_kinds_reject_messages_and_accept_init() {
    let p = plugin();
    let sink = || Box::new(Capture(Arc::new(Mutex::new(Vec::new()))));
    let reply = p.on_message(msg_request("com.acme.folder", "in"), NodeId(1), sink()).unwrap();
    assert!(!reply.ok);
    assert_eq!(reply.error, "node runtime error: kind is manifest-only — no behaviour registered");
    let init = InitRequest {
        kind_id: "com.acme.folder".to_string(),
        node_path: "/n".to_string(),
        config_json: "{\"a\":1}".to_string(),
        config: Ok(JsonValue::Object(vec![])),
    };
    let reply = p.on_init(init, NodeId(1), sink()).unwrap();
    assert!(reply.ok);
}

#[test]
fn refusals_come_in_order() {
    let p = plugin();
    let sink = || Box::new(Capture(Arc::new(Mutex::new(Vec::new()))));
    let e = p.on_message(msg_request("com.acme.nope", "in"), NodeId(1), sink()).unwrap_err();
    assert_eq!(e.code, RpcCode::NotFound);
    assert_eq!(e.message, "kind `com.acme.nope` not registered in this block");

    let mut r = msg_request("com.acme.echo", "in");
    r.msg = Err("expected value at line 1".to_string());
    r.node_path = "bad".to_string();
    let e = p.on_message(r, NodeId(1), sink()).unwrap_err();
    assert_eq!(e.code, RpcCode::InvalidArgument);
    assert_eq!(e.message, "msg_json: expected value at line 1");

    let mut r = msg_request("com.acme.echo", "in");
    r.config_json = "{".to_string();
    r.node_path = "bad".to_string();
    let e = p.on_message(r, NodeId(1), sink()).unwrap_err();
    assert_eq!(e.message, "config_json: EOF while parsing");

    let mut r = msg_request("com.acme.echo", "in");
    r.node_path = "bad".to_string();
    let e = p.on_message(r, NodeId(1), sink()).unwrap_err();
    assert_eq!(e.code, RpcCode::InvalidArgument);
    assert_eq!(e.message, "node_path: node path must start with `/`");
}

#[test]
fn init_passes_the_decoded_config() {
    let p = plugin();
    let sink = || Box::new(Capture(Arc::new(Mutex::new(Vec::new()))));
    let ok = InitRequest {
        kind_id: "com.acme.echo".to_string(),
        node_path: "/n".to_string(),
        config_json: String::new(),
        config: Err("ignored for empty text".to_string()),
    };
    assert!(p.on_init(ok, NodeId(1), sink()).unwrap().ok);
    let bad = InitRequest {
        kind_id: "com.acme.echo".to_string(),
        node_path: "/n".to_string(),
        config_json: "[]".to_string(),
        config: Ok(JsonValue::Array(vec![])),
    };
    let reply = p.on_init(bad, NodeId(1), sink()).unwrap();
    assert!(!reply.ok);
    assert_eq!(reply.error, "invalid config: want null");
}

#[test]
fn the_latest_registration_of_a_kind_answers() {
    let mut id = BlockIdentity::new("b".to_string(), "1".to_string());
    id.register_behavior(manifest("k"), Box::new(Echo));
    id.register_manifest(manifest("k"));
    let p = DefaultPlugin::new(id);
    assert_eq!(p.describe().kinds.len(), 2);
    let reply = p.on_message(msg_request("k", "in"), NodeId(1), Box::new(Capture(Arc::new(Mutex::new(Vec::new()))))).unwrap();
    assert!(!reply.ok);
}

#[test]
fn stubs_are_not_wired() {
    let path = blocks_sdk::model::NodePath("/n".to_string());
    assert_eq!(
        StubGraph.read_slot(&path, "s").unwrap_err().message(),
        "node runtime error: GraphAccess from a process block is not wired — read slots via settings"
    );
    assert_eq!(
        StubGraph.write_slot(&path, "s", JsonValue::Null).unwrap_err().message(),
        "node runtime error: GraphAccess from a process block is not wired — emit on output ports instead"
    );
    assert_eq!(
        StubScheduler.schedule(NodeId(1), 5).unwrap_err().message(),
        "node runtime error: timers from a process block are not wired"
    );
}
