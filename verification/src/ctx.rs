//! `NodeCtx`: the runtime handle a behaviour holds while it processes a
//! message.
//!
//! A behaviour is stateless; per-instance state lives in slots. `NodeCtx`
//! is the only way a behaviour reads or writes that state, and it is
//! self-scoped: reads and writes address the current node only, and each
//! checks that the named slot exists on the kind and has the role the
//! operation is for before the graph is touched.

use std::sync::Arc;

use vstd::prelude::*;

use crate::error::NodeError;
use crate::json::JsonValue;
use crate::model::{slot_role_name, KindId, KindManifest, Msg, NodeId, NodePath, SlotRole, SlotSchema};

verus! {

/// The minimum graph surface a [`NodeCtx`] needs.
pub trait GraphAccess: Send + Sync {
    /// `r` is an answer the graph may give to a read of `slot` on the node
    /// at `path`.
    /// An implementation that does not define it promises nothing.
    closed spec fn read_answer(&self, path: NodePath, slot: Seq<char>, r: Result<JsonValue, NodeError>) -> bool {
        true
    }

    /// `r` is an answer the graph may give to a write of `value` to `slot`
    /// on the node at `path`.
    /// An implementation that does not define it promises nothing.
    closed spec fn write_answer(&self, path: NodePath, slot: Seq<char>, value: JsonValue, r: Result<(), NodeError>) -> bool {
        true
    }

    fn read_slot(&self, path: &NodePath, slot: &str) -> (r: Result<JsonValue, NodeError>)
        ensures
            self.read_answer(*path, slot@, r),
    ;

    fn write_slot(&self, path: &NodePath, slot: &str, value: JsonValue) -> (r: Result<(), NodeError>)
        ensures
            self.write_answer(*path, slot@, value, r),
    ;
}

/// Sink for `ctx.emit(port, msg)`.
pub trait EmitSink: Send + Sync {
    /// `r` is an answer the sink may give to `msg` emitted by node
    /// `source` on `port`.
    /// An implementation that does not define it promises nothing.
    closed spec fn emit_answer(&self, source: NodeId, port: Seq<char>, msg: Msg, r: Result<(), NodeError>) -> bool {
        true
    }

    fn emit(&self, source: NodeId, port: &str, msg: Msg) -> (r: Result<(), NodeError>)
        ensures
            self.emit_answer(source, port@, msg, r),
    ;
}

/// Opaque identifier for a scheduled timer.
#[derive(Debug, Clone, Copy, PartialEq, Eq, Hash)]
pub struct TimerHandle(pub u64);

/// Scheduler seam for one-shot timers.
pub trait TimerScheduler: Send + Sync {
    /// `r` is an answer the scheduler may give to a timer for `node`
    /// after `delay_ms` milliseconds.
    /// An implementation that does not define it promises nothing.
    closed spec fn schedule_answer(&self, node: NodeId, delay_ms: u64, r: Result<TimerHandle, NodeError>) -> bool {
        true
    }

    fn schedule(&self, node: NodeId, delay_ms: u64) -> (r: Result<TimerHandle, NodeError>)
        ensures
            self.schedule_answer(node, delay_ms, r),
    ;

    /// Holds once the scheduler has been asked to cancel `handle`.
    /// An implementation that does not define it promises nothing.
    closed spec fn cancel_requested(&self, handle: TimerHandle) -> bool {
        true
    }

    fn cancel(&self, handle: TimerHandle)
        ensures
            self.cancel_requested(handle),
    ;
}

/// `i` is the first slot of `slots` named `name`.
pub open spec fn is_first_slot(slots: Seq<SlotSchema>, name: Seq<char>, i: int) -> bool {
    &&& 0 <= i < slots.len()
    &&& slots[i].name@ == name
    &&& forall|j: int| 0 <= j < i ==> #[trigger] slots[j].name@ != name
}

/// The role of the first slot named `name`, if any slot has that name.
pub open spec fn slot_role_of(slots: Seq<SlotSchema>, name: Seq<char>) -> Option<SlotRole> {
    if exists|i: int| is_first_slot(slots, name, i) {
        Some(slots[choose|i: int| is_first_slot(slots, name, i)].role)
    } else {
        None
    }
}

/// The text of the error for a slot found with the wrong role.
pub open spec fn role_mismatch_text(slot: Seq<char>, role: SlotRole, expected: SlotRole) -> Seq<char> {
    "slot `"@ + slot + "` has role "@ + slot_role_name(role) + ", expected "@ + slot_role_name(expected)
}

/// `r` is the error a slot access returns when the kind does not declare
/// `name` (an unknown slot) or declares it with a role other than
/// `expected` (a runtime error with text `mismatch`); when the checks
/// pass, any result.
pub open spec fn checked_result<T>(
    r: Result<T, NodeError>,
    slots: Seq<SlotSchema>,
    name: Seq<char>,
    expected: SlotRole,
    mismatch: Seq<char>,
) -> bool {
    match slot_role_of(slots, name) {
        None => (r matches Err(NodeError::UnknownSlot(n)) && n@ == name),
        Some(role) => role != expected ==> (r matches Err(NodeError::Runtime(m)) && m@ == mismatch),
    }
}

/// A value held in a field of a context or a registry. Building it through
/// [`hold`], whose parameter is generic, keeps a boxed trait object exactly
/// the one that was handed in.
pub(crate) struct Holder<T> {
    pub(crate) inner: T,
}

/// Holds `value`.
pub(crate) fn hold<T>(value: T) -> (h: Holder<T>)
    ensures
        h.inner == value,
{
    Holder { inner: value }
}

/// Per-dispatch context handed to a node behaviour, bound to one node.
pub struct NodeCtx {
    node_id: NodeId,
    node_path: NodePath,
    kind_id: KindId,
    manifest: Arc<KindManifest>,
    config: JsonValue,
    graph: Holder<Box<dyn GraphAccess>>,
    emit_sink: Holder<Box<dyn EmitSink>>,
    scheduler: Holder<Box<dyn TimerScheduler>>,
}

impl NodeCtx {
    pub closed spec fn spec_node_id(&self) -> NodeId {
        self.node_id
    }

    pub closed spec fn spec_node_path(&self) -> NodePath {
        self.node_path
    }

    pub closed spec fn spec_kind_id(&self) -> KindId {
        self.kind_id
    }

    pub closed spec fn spec_manifest(&self) -> KindManifest {
        *self.manifest
    }

    pub closed spec fn spec_config(&self) -> JsonValue {
        self.config
    }

    /// `r` is an answer the context's graph may give to a read of `slot`
    /// on the node at `path`.
    pub closed spec fn graph_read_answer(&self, path: NodePath, slot: Seq<char>, r: Result<JsonValue, NodeError>) -> bool {
        self.graph.inner.read_answer(path, slot, r)
    }

    /// `r` is an answer the context's graph may give to a write of `value`
    /// to `slot` on the node at `path`.
    pub closed spec fn graph_write_answer(&self, path: NodePath, slot: Seq<char>, value: JsonValue, r: Result<(), NodeError>) -> bool {
        self.graph.inner.write_answer(path, slot, value, r)
    }

    /// `r` is an answer the context's emit sink may give to `msg` emitted
    /// by node `source` on `port`.
    pub closed spec fn sink_emit_answer(&self, source: NodeId, port: Seq<char>, msg: Msg, r: Result<(), NodeError>) -> bool {
        self.emit_sink.inner.emit_answer(source, port, msg, r)
    }

    /// The context's scheduler has been asked to cancel `handle`.
    pub closed spec fn scheduler_cancel_requested(&self, handle: TimerHandle) -> bool {
        self.scheduler.inner.cancel_requested(handle)
    }

    /// `r` is an answer the context's scheduler may give to a timer for
    /// `node` after `delay_ms` milliseconds.
    pub closed spec fn scheduler_answer(&self, node: NodeId, delay_ms: u64, r: Result<TimerHandle, NodeError>) -> bool {
        self.scheduler.inner.schedule_answer(node, delay_ms, r)
    }

    /// The slots the node's kind declares.
    pub open spec fn slots(&self) -> Seq<SlotSchema> {
        self.spec_manifest().slots@
    }

    pub fn new(
        node_id: NodeId,
        node_path: NodePath,
        kind_id: KindId,
        manifest: Arc<KindManifest>,
        config: JsonValue,
        graph: Box<dyn GraphAccess>,
        emit_sink: Box<dyn EmitSink>,
        scheduler: Box<dyn TimerScheduler>,
    ) -> (ctx: Self)
        ensures
            ctx.spec_node_id() == node_id,
            ctx.spec_node_path() == node_path,
            ctx.spec_kind_id() == kind_id,
            ctx.spec_manifest() == *manifest,
            ctx.spec_config() == config,
            forall|p: NodePath, s: Seq<char>, r: Result<JsonValue, NodeError>|
                #[trigger] ctx.graph_read_answer(p, s, r) == graph.read_answer(p, s, r),
            forall|p: NodePath, s: Seq<char>, v: JsonValue, r: Result<(), NodeError>|
                #[trigger] ctx.graph_write_answer(p, s, v, r) == graph.write_answer(p, s, v, r),
            forall|n: NodeId, p: Seq<char>, m: Msg, r: Result<(), NodeError>|
                #[trigger] ctx.sink_emit_answer(n, p, m, r) == emit_sink.emit_answer(n, p, m, r),
            forall|n: NodeId, d: u64, r: Result<TimerHandle, NodeError>|
                #[trigger] ctx.scheduler_answer(n, d, r) == scheduler.schedule_answer(n, d, r),
            forall|h: TimerHandle|
                #[trigger] ctx.scheduler_cancel_requested(h) == scheduler.cancel_requested(h),
    {
        let graph = hold(graph);
        let emit_sink = hold(emit_sink);
        let scheduler = hold(scheduler);
        Self::assemble(node_id, node_path, kind_id, manifest, config, graph, emit_sink, scheduler)
    }

    /// Builds a context from services already held.
    pub(crate) fn assemble(
        node_id: NodeId,
        node_path: NodePath,
        kind_id: KindId,
        manifest: Arc<KindManifest>,
        config: JsonValue,
        graph: Holder<Box<dyn GraphAccess>>,
        emit_sink: Holder<Box<dyn EmitSink>>,
        scheduler: Holder<Box<dyn TimerScheduler>>,
    ) -> (ctx: Self)
        ensures
            ctx.spec_node_id() == node_id,
            ctx.spec_node_path() == node_path,
            ctx.spec_kind_id() == kind_id,
            ctx.spec_manifest() == *manifest,
            ctx.spec_config() == config,
            forall|p: NodePath, s: Seq<char>, r: Result<JsonValue, NodeError>|
                #[trigger] ctx.graph_read_answer(p, s, r) == graph.inner.read_answer(p, s, r),
            forall|p: NodePath, s: Seq<char>, v: JsonValue, r: Result<(), NodeError>|
                #[trigger] ctx.graph_write_answer(p, s, v, r) == graph.inner.write_answer(p, s, v, r),
            forall|n: NodeId, p: Seq<char>, m: Msg, r: Result<(), NodeError>|
                #[trigger] ctx.sink_emit_answer(n, p, m, r) == emit_sink.inner.emit_answer(n, p, m, r),
            forall|n: NodeId, d: u64, r: Result<TimerHandle, NodeError>|
                #[trigger] ctx.scheduler_answer(n, d, r) == scheduler.inner.schedule_answer(n, d, r),
            forall|h: TimerHandle|
                #[trigger] ctx.scheduler_cancel_requested(h) == scheduler.inner.cancel_requested(h),
    {
        NodeCtx {
            node_id: node_id,
            node_path: node_path,
            kind_id: kind_id,
            manifest: manifest,
            config: config,
            graph: graph,
            emit_sink: emit_sink,
            scheduler: scheduler,
        }
    }

    pub fn node_id(&self) -> (r: NodeId)
        ensures
            r == self.spec_node_id(),
    {
        self.node_id
    }

    pub fn node_path(&self) -> (r: &NodePath)
        ensures
            *r == self.spec_node_path(),
    {
        &self.node_path
    }

    pub fn kind_id(&self) -> (r: &KindId)
        ensures
            *r == self.spec_kind_id(),
    {
        &self.kind_id
    }

    pub fn manifest(&self) -> (r: &KindManifest)
        ensures
            *r == self.spec_manifest(),
    {
        &self.manifest
    }

    pub fn config(&self) -> (r: &JsonValue)
        ensures
            *r == self.spec_config(),
    {
        &self.config
    }

    /// The first slot of the kind named `name`.
    fn find_slot(&self, name: &str) -> (r: Result<&SlotSchema, NodeError>)
        ensures
            match r {
                Ok(s) => exists|i: int| is_first_slot(self.slots(), name@, i) && *s == self.slots()[i],
                Err(e) => slot_role_of(self.slots(), name@) is None && (e matches NodeError::UnknownSlot(n) && n@ == name@),
            },
    {
        let slots = &self.manifest.slots;
        let wanted = name.to_owned();
        let mut i: usize = 0;
        while i < slots.len()
            invariant
                i <= slots.len(),
                slots@ == self.slots(),
                wanted@ == name@,
                forall|j: int| 0 <= j < i ==> #[trigger] slots@[j].name@ != name@,
            decreases slots.len() - i,
        {
            if slots[i].name == wanted {
                assert(is_first_slot(self.slots(), name@, i as int));
                return Ok(&slots[i]);
            }
            i = i + 1;
        }
        Err(NodeError::UnknownSlot(wanted))
    }

    /// Reads `slot` on this node after checking that the kind declares it
    /// with role `expected`.
    fn read_self_role(&self, slot: &str, expected: SlotRole) -> (r: Result<JsonValue, NodeError>)
        ensures
            checked_result(r, self.slots(), slot@, expected, role_mismatch_text(slot@, slot_role_of(self.slots(), slot@)->0, expected)),
            slot_role_of(self.slots(), slot@) == Some(expected) ==> self.graph_read_answer(self.spec_node_path(), slot@, r),
    {
        let schema = self.find_slot(slot)?;
        if schema.role != expected {
            let mut m = "slot `".to_string();
            m.append(slot);
            m.append("` has role ");
            m.append(schema.role.name());
            m.append(", expected ");
            m.append(expected.name());
            return Err(NodeError::runtime(m));
        }
        self.graph.inner.read_slot(&self.node_path, slot)
    }

    /// Reads a status slot on this node.
    pub fn read_status(&self, slot: &str) -> (r: Result<JsonValue, NodeError>)
        ensures
            checked_result(r, self.slots(), slot@, SlotRole::Status, role_mismatch_text(slot@, slot_role_of(self.slots(), slot@)->0, SlotRole::Status)),
            slot_role_of(self.slots(), slot@) == Some(SlotRole::Status) ==> self.graph_read_answer(self.spec_node_path(), slot@, r),
    {
        self.read_self_role(slot, SlotRole::Status)
    }

    /// Reads a config slot on this node.
    pub fn read_config(&self, slot: &str) -> (r: Result<JsonValue, NodeError>)
        ensures
            checked_result(r, self.slots(), slot@, SlotRole::Config, role_mismatch_text(slot@, slot_role_of(self.slots(), slot@)->0, SlotRole::Config)),
            slot_role_of(self.slots(), slot@) == Some(SlotRole::Config) ==> self.graph_read_answer(self.spec_node_path(), slot@, r),
    {
        self.read_self_role(slot, SlotRole::Config)
    }

    /// Reads the last message emitted on an output port: the persisted
    /// value of an output-role slot.
    pub fn read_output(&self, port: &str) -> (r: Result<JsonValue, NodeError>)
        ensures
            checked_result(r, self.slots(), port@, SlotRole::Output, role_mismatch_text(port@, slot_role_of(self.slots(), port@)->0, SlotRole::Output)),
            slot_role_of(self.slots(), port@) == Some(SlotRole::Output) ==> self.graph_read_answer(self.spec_node_path(), port@, r),
    {
        self.read_self_role(port, SlotRole::Output)
    }

    /// Writes a status slot on this node.
    pub fn update_status(&self, slot: &str, value: JsonValue) -> (r: Result<(), NodeError>)
        ensures
            checked_result(r, self.slots(), slot@, SlotRole::Status, "slot `"@ + slot@ + "` is not a status slot"@),
            slot_role_of(self.slots(), slot@) == Some(SlotRole::Status) ==> self.graph_write_answer(self.spec_node_path(), slot@, value, r),
    {
        let schema = self.find_slot(slot)?;
        if schema.role != SlotRole::Status {
            let mut m = "slot `".to_string();
            m.append(slot);
            m.append("` is not a status slot");
            return Err(NodeError::runtime(m));
        }
        self.graph.inner.write_slot(&self.node_path, slot, value)
    }

    /// Emits a message on the named output port.
    pub fn emit(&self, port: &str, msg: Msg) -> (r: Result<(), NodeError>)
        ensures
            checked_result(r, self.slots(), port@, SlotRole::Output, "port `"@ + port@ + "` is not an output slot"@),
            slot_role_of(self.slots(), port@) == Some(SlotRole::Output) ==> self.sink_emit_answer(self.spec_node_id(), port@, msg, r),
    {
        let schema = self.find_slot(port)?;
        if schema.role != SlotRole::Output {
            let mut m = "port `".to_string();
            m.append(port);
            m.append("` is not an output slot");
            return Err(NodeError::runtime(m));
        }
        self.emit_sink.inner.emit(self.node_id, port, msg)
    }

    /// Schedules a one-shot timer for this node.
    pub fn schedule(&self, delay_ms: u64) -> (r: Result<TimerHandle, NodeError>)
        ensures
            self.scheduler_answer(self.spec_node_id(), delay_ms, r),
    {
        self.scheduler.inner.schedule(self.node_id, delay_ms)
    }

    /// Cancels a pending timer.
    pub fn cancel(&self, handle: TimerHandle)
        ensures
            self.scheduler_cancel_requested(handle),
    {
        self.scheduler.inner.cancel(handle);
    }
}

/// Object-safe behaviour of a node kind: the form in which the process
/// runtime holds every registered kind's behaviour.
pub trait DynBehavior: Send + Sync {
    /// `r` is an outcome the behaviour may give when a node in context
    /// `ctx` is initialised with `cfg`.
    /// An implementation that does not define it promises nothing.
    closed spec fn init_answer(&self, ctx: NodeCtx, cfg: JsonValue, r: Result<(), NodeError>) -> bool {
        true
    }

    /// `r` is an outcome the behaviour may give to `msg` arriving on
    /// `port` of a node in context `ctx`.
    /// An implementation that does not define it promises nothing.
    closed spec fn message_answer(&self, ctx: NodeCtx, port: Seq<char>, msg: Msg, r: Result<(), NodeError>) -> bool {
        true
    }

    /// `r` is an outcome the behaviour may give when timer `handle` of a
    /// node in context `ctx` fires.
    /// An implementation that does not define it promises nothing.
    closed spec fn timer_answer(&self, ctx: NodeCtx, handle: TimerHandle, r: Result<(), NodeError>) -> bool {
        true
    }

    /// `r` is an outcome the behaviour may give when a node in context
    /// `ctx` shuts down.
    /// An implementation that does not define it promises nothing.
    closed spec fn shutdown_answer(&self, ctx: NodeCtx, r: Result<(), NodeError>) -> bool {
        true
    }

    fn on_init(&self, ctx: &NodeCtx, cfg: &JsonValue) -> (r: Result<(), NodeError>)
        ensures
            self.init_answer(*ctx, *cfg, r),
    ;

    fn on_message(&self, ctx: &NodeCtx, port: String, msg: Msg) -> (r: Result<(), NodeError>)
        ensures
            self.message_answer(*ctx, port@, msg, r),
    ;

    fn on_timer(&self, ctx: &NodeCtx, handle: TimerHandle) -> (r: Result<(), NodeError>)
        ensures
            self.timer_answer(*ctx, handle, r),
    ;

    fn on_shutdown(&self, ctx: &NodeCtx) -> (r: Result<(), NodeError>)
        ensures
            self.shutdown_answer(*ctx, r),
    ;
}

} // verus!
