use blocks_sdk::ctx::{EmitSink, GraphAccess, NodeCtx, TimerHandle, TimerScheduler};
use blocks_sdk::error::NodeError;
use blocks_sdk::json::{JsonNumber, JsonValue};
use blocks_sdk::model::{KindId, KindManifest, Msg, NodeId, NodePath, SlotRole, SlotSchema};
use std::sync::{Arc, Mutex};

struct Graph {
    writes: Arc<Mutex<Vec<(String, String)>>>,
}
impl GraphAccess for Graph {
    fn read_slot(&self, path: &NodePath, slot: &str) -> Result<JsonValue, NodeError> {
        Ok(JsonValue::String(format!("{}#{}", path.0, slot)))
    }
    fn write_slot(&self, path: &NodePath, slot: &str, _value: JsonValue) -> Result<(), NodeError> {
        self.writes.lock().unwrap().push((path.0.clone(), slot.to_string()));
        Ok(())
    }
}

struct Sink {
    emits: Arc<Mutex<Vec<(NodeId, String)>>>,
}
impl EmitSink for Sink {
    fn emit(&self, source: NodeId, port: &str, _msg: Msg) -> Result<(), NodeError> {
        self.emits.lock().unwrap().push((source, port.to_string()));
        Ok(())
    }
}

struct Timers;
impl TimerScheduler for Timers {
    fn schedule(&self, _node: NodeId, delay_ms: u64) -> Result<TimerHandle, NodeError> {
        Ok(TimerHandle(delay_ms + 1))
    }
    fn cancel(&self, _handle: TimerHandle) {}
}

fn slot(name: &str, role: SlotRole) -> SlotSchema {
    SlotSchema { name: name.to_string(), role }
}

type Log<T> = Arc<Mutex<Vec<T>>>;

fn make_ctx() -> (NodeCtx, Log<(String, String)>, Log<(NodeId, String)>) {
    let writes = Arc::new(Mutex::new(Vec::new()));
    let emits = Arc::new(Mutex::new(Vec::new()));
    let manifest = KindManifest {
        id: KindId::new("sys.compute.count".to_string()),
        slots: vec![
            slot("count", SlotRole::Status),
            slot("step", SlotRole::Config),
            slot("out", SlotRole::Output),
            slot("in", SlotRole::Input),
        ],
        settings_schema: JsonValue::Null,
        msg_overrides: vec![],
        facets: vec![],
        containment: JsonValue::Null,
    };
    let ctx = NodeCtx::new(
        NodeId(42),
        NodePath("/site/counter".to_string()),
        KindId::new("sys.compute.count".to_string()),
        Arc::new(manifest),
        JsonValue::Null,
        Box::new(Graph { writes: writes.clone() }),
        Box::new(Sink { emits: emits.clone() }),
        Box::new(Timers),
    );
    (ctx, writes, emits)
}

fn runtime_text(r: Result<impl std::fmt::Debug, NodeError>) -> String {
    match r {
        Err(NodeError::Runtime(m)) => m,
        other => panic!("expected a runtime error, got {:?}", other),
    }
}

#[test]
fn reads_go_to_the_graph_for_the_right_role() {
    let (ctx, _, _) = make_ctx();
    assert_eq!(ctx.read_status("count").unwrap(), JsonValue::String("/site/counter#count".to_string()));
    assert_eq!(ctx.read_config("step").unwrap(), JsonValue::String("/site/counter#step".to_string()));
    assert_eq!(ctx.read_output("out").unwrap(), JsonValue::String("/site/counter#out".to_string()));
}

#[test]
fn reads_of_the_wrong_role_are_refused() {
    let (ctx, _, _) = make_ctx();
    assert_eq!(runtime_text(ctx.read_status("step")), "slot `step` has role Config, expected Status");
    assert_eq!(runtime_text(ctx.read_config("out")), "slot `out` has role Output, expected Config");
    assert_eq!(runtime_text(ctx.read_output("in")), "slot `in` has role Input, expected Output");
}

#[test]
fn unknown_slots_are_reported() {
    let (ctx, _, _) = make_ctx();
    match ctx.read_status("nope") {
        Err(NodeError::UnknownSlot(s)) => assert_eq!(s, "nope"),
        other => panic!("unexpected {:?}", other),
    }
    match ctx.emit("missing", Msg { payload: JsonValue::Null, metadata: vec![] }) {
        Err(e) => assert_eq!(e.message(), "unknown slot `missing`"),
        Ok(()) => panic!("emit on an unknown port succeeded"),
    }
}

#[test]
fn update_status_checks_role_before_writing() {
    let (ctx, writes, _) = make_ctx();
    assert!(ctx.update_status("count", JsonValue::Number(JsonNumber::PosInt(3))).is_ok());
    assert_eq!(runtime_text(ctx.update_status("step", JsonValue::Null)), "slot `step` is not a status slot");
    assert_eq!(*writes.lock().unwrap(), vec![("/site/counter".to_string(), "count".to_string())]);
}

#[test]
fn emit_only_on_output_ports() {
    let (ctx, _, emits) = make_ctx();
    assert!(ctx.emit("out", Msg { payload: JsonValue::Null, metadata: vec![] }).is_ok());
    assert_eq!(
        runtime_text(ctx.emit("count", Msg { payload: JsonValue::Null, metadata: vec![] })),
        "port `count` is not an output slot"
    );
    assert_eq!(*emits.lock().unwrap(), vec![(NodeId(42), "out".to_string())]);
}

#[test]
fn getters_and_timers() {
    let (ctx, _, _) = make_ctx();
    assert_eq!(ctx.node_id(), NodeId(42));
    assert_eq!(ctx.node_path().as_str(), "/site/counter");
    assert_eq!(ctx.kind_id().as_str(), "sys.compute.count");
    assert_eq!(ctx.manifest().slots.len(), 4);
    assert_eq!(*ctx.config(), JsonValue::Null);
    assert_eq!(ctx.schedule(9).unwrap(), TimerHandle(10));
    ctx.cancel(TimerHandle(10));
}

#[test]
fn first_slot_with_a_name_decides() {
    let manifest = KindManifest {
        id: KindId::new("k".to_string()),
        slots: vec![slot("x", SlotRole::Config), slot("x", SlotRole::Status)],
        settings_schema: JsonValue::Null,
        msg_overrides: vec![],
        facets: vec![],
        containment: JsonValue::Null,
    };
    let ctx = NodeCtx::new(
        NodeId(1),
        NodePath("/n".to_string()),
        KindId::new("k".to_string()),
        Arc::new(manifest),
        JsonValue::Null,
        Box::new(Graph { writes: Arc::new(Mutex::new(Vec::new())) }),
        Box::new(Sink { emits: Arc::new(Mutex::new(Vec::new())) }),
        Box::new(Timers),
    );
    assert!(ctx.read_config("x").is_ok());
    assert_eq!(runtime_text(ctx.read_status("x")), "slot `x` has role Config, expected Status");
}

#[test]
fn error_texts() {
    assert_eq!(NodeError::runtime("boom".to_string()), NodeError::Runtime("boom".to_string()));
    assert_eq!(NodeError::Runtime("boom".to_string()).message(), "node runtime error: boom");
    assert_eq!(NodeError::UnknownSlot("s".to_string()).message(), "unknown slot `s`");
    assert_eq!(NodeError::InvalidConfig("c".to_string()).message(), "invalid config: c");
    assert_eq!(NodeError::Panic("p".to_string()).message(), "node panicked: p");
}

#[test]
fn node_paths_are_absolute() {
    assert_eq!(NodePath::parse("/a/b").unwrap(), NodePath("/a/b".to_string()));
    assert_eq!(NodePath::parse("a/b").unwrap_err(), "node path must start with `/`");
    assert!(NodePath::parse("").is_err());
}
