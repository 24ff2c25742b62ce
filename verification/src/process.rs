//! The process-block runtime: a block's identity, the kinds it registers,
//! and how requests from the supervisor are answered.
//!
//! The transport (a gRPC server on the supervisor's socket) decodes each
//! request; the functions here decide the answer. A request for a kind
//! the block did not register is refused as not found; malformed
//! message, config or node path is refused as an invalid argument; any
//! other request is dispatched to the kind's behaviour with a context
//! whose graph access and timers are not wired, and the behaviour's
//! outcome is reported in the reply.

use std::sync::Arc;

use vstd::prelude::*;

use crate::ctx::{hold, DynBehavior, EmitSink, GraphAccess, Holder, NodeCtx, TimerHandle, TimerScheduler};
use crate::error::{node_error_text, NodeError};
use crate::json::JsonValue;
use crate::model::{is_node_path, KindId, KindManifest, Msg, NodeId, NodePath};

verus! {

/// Wraps `value` in `Some`. The parameter is generic so that a boxed trait
/// object passed in stays the very one handed over.
fn some<T>(value: T) -> (r: Option<T>)
    ensures
        r == Some(value),
{
    Some(value)
}

/// `r` is the error a manifest-only kind answers messages with.
pub open spec fn manifest_only_error(r: Result<(), NodeError>) -> bool {
    r matches Err(NodeError::Runtime(m)) && m@ == manifest_only_text()
}

/// One registration of a block: a kind's manifest and its behaviour,
/// none for a manifest-only kind.
struct KindEntry {
    manifest: KindManifest,
    behavior: Option<Box<dyn DynBehavior>>,
}

/// Identity returned by the block's `Describe` request, and the kinds
/// the block owns. `id` must equal the block directory name.
pub struct BlockIdentity {
    pub id: String,
    pub version: String,
    pub capabilities: Vec<String>,
    kinds: Vec<KindEntry>,
}

impl BlockIdentity {
    pub closed spec fn spec_id(&self) -> String {
        self.id
    }

    pub closed spec fn spec_version(&self) -> String {
        self.version
    }

    pub closed spec fn spec_capabilities(&self) -> Seq<String> {
        self.capabilities@
    }

    /// The registrations of the block: each kind's manifest and whether it
    /// is manifest-only, in registration order.
    pub closed spec fn registrations(&self) -> Seq<(KindManifest, bool)> {
        self.kinds@.map_values(|e: KindEntry| (e.manifest, e.behavior is None))
    }

    /// `r` is an outcome registration `i` may give to `msg` arriving on
    /// `port` in `ctx`: its behaviour's answer, or the manifest-only error
    /// when it has none.
    pub closed spec fn message_answer_at(&self, i: int, ctx: NodeCtx, port: Seq<char>, msg: Msg, r: Result<(), NodeError>) -> bool {
        match self.kinds@[i].behavior {
            Some(b) => b.message_answer(ctx, port, msg, r),
            None => manifest_only_error(r),
        }
    }

    /// `r` is an outcome registration `i` may give when a node in `ctx` is
    /// initialised with `cfg`: its behaviour's answer, or success when it
    /// has none.
    pub closed spec fn init_answer_at(&self, i: int, ctx: NodeCtx, cfg: JsonValue, r: Result<(), NodeError>) -> bool {
        match self.kinds@[i].behavior {
            Some(b) => b.init_answer(ctx, cfg, r),
            None => r is Ok,
        }
    }

    pub fn new(id: String, version: String) -> (r: Self)
        ensures
            r.spec_id() == id,
            r.spec_version() == version,
            r.spec_capabilities().len() == 0,
            r.registrations().len() == 0,
    {
        BlockIdentity { id, version, capabilities: Vec::new(), kinds: Vec::new() }
    }

    /// Registers a kind together with its behaviour.
    pub fn register_behavior(&mut self, manifest: KindManifest, behavior: Box<dyn DynBehavior>)
        ensures
            final(self).spec_id() == old(self).spec_id(),
            final(self).spec_version() == old(self).spec_version(),
            final(self).spec_capabilities() == old(self).spec_capabilities(),
            final(self).registrations() == old(self).registrations().push((manifest, false)),
            forall|i: int, ctx: NodeCtx, port: Seq<char>, msg: Msg, r: Result<(), NodeError>|
                0 <= i < old(self).registrations().len() ==> #[trigger] final(self).message_answer_at(i, ctx, port, msg, r)
                    == old(self).message_answer_at(i, ctx, port, msg, r),
            forall|i: int, ctx: NodeCtx, cfg: JsonValue, r: Result<(), NodeError>|
                0 <= i < old(self).registrations().len() ==> #[trigger] final(self).init_answer_at(i, ctx, cfg, r)
                    == old(self).init_answer_at(i, ctx, cfg, r),
            forall|ctx: NodeCtx, port: Seq<char>, msg: Msg, r: Result<(), NodeError>|
                #[trigger] final(self).message_answer_at(old(self).registrations().len() as int, ctx, port, msg, r)
                    == behavior.message_answer(ctx, port, msg, r),
            forall|ctx: NodeCtx, cfg: JsonValue, r: Result<(), NodeError>|
                #[trigger] final(self).init_answer_at(old(self).registrations().len() as int, ctx, cfg, r)
                    == behavior.init_answer(ctx, cfg, r),
    {
        let held = some(behavior);
        self.kinds.push(KindEntry { manifest, behavior: held });
        assert(self.registrations() =~= old(self).registrations().push((manifest, false)));
    }

    /// Registers a manifest without a behaviour: a manifest-only kind.
    pub fn register_manifest(&mut self, manifest: KindManifest)
        ensures
            final(self).spec_id() == old(self).spec_id(),
            final(self).spec_version() == old(self).spec_version(),
            final(self).spec_capabilities() == old(self).spec_capabilities(),
            final(self).registrations() == old(self).registrations().push((manifest, true)),
            forall|i: int, ctx: NodeCtx, port: Seq<char>, msg: Msg, r: Result<(), NodeError>|
                0 <= i < old(self).registrations().len() ==> #[trigger] final(self).message_answer_at(i, ctx, port, msg, r)
                    == old(self).message_answer_at(i, ctx, port, msg, r),
            forall|i: int, ctx: NodeCtx, cfg: JsonValue, r: Result<(), NodeError>|
                0 <= i < old(self).registrations().len() ==> #[trigger] final(self).init_answer_at(i, ctx, cfg, r)
                    == old(self).init_answer_at(i, ctx, cfg, r),
            forall|ctx: NodeCtx, port: Seq<char>, msg: Msg, r: Result<(), NodeError>|
                #[trigger] final(self).message_answer_at(old(self).registrations().len() as int, ctx, port, msg, r)
                    == manifest_only_error(r),
            forall|ctx: NodeCtx, cfg: JsonValue, r: Result<(), NodeError>|
                #[trigger] final(self).init_answer_at(old(self).registrations().len() as int, ctx, cfg, r) == r is Ok,
    {
        self.kinds.push(KindEntry { manifest, behavior: None });
        assert(self.registrations() =~= old(self).registrations().push((manifest, true)));
    }
}

/// Status codes of refused requests.
#[derive(Debug, Clone, Copy, PartialEq, Eq, Structural)]
pub enum RpcCode {
    NotFound,
    InvalidArgument,
    Unimplemented,
}

/// A refused request: its code and message.
#[derive(Debug, Clone, PartialEq, Eq)]
pub struct RpcStatus {
    pub code: RpcCode,
    pub message: String,
}

/// Health states a block reports.
#[derive(Debug, Clone, Copy, PartialEq, Eq, Structural)]
pub enum HealthStatus {
    Ready,
}

/// The answer to a `Health` request.
#[derive(Debug, Clone, PartialEq, Eq)]
pub struct HealthReply {
    pub status: HealthStatus,
    pub detail: String,
}

/// The outcome of a dispatched `OnMessage` or `OnInit` request: whether
/// the behaviour succeeded and, when it did not, its error text. The
/// messages the behaviour emitted travel beside it.
#[derive(Debug, Clone, PartialEq, Eq)]
pub struct DispatchReply {
    pub ok: bool,
    pub error: String,
}

/// What a block says about itself on `Describe`.
pub struct Description {
    pub extension_id: String,
    pub version: String,
    pub capabilities: Vec<String>,
    pub kinds: Vec<Arc<KindManifest>>,
}

/// A decoded `OnMessage` request. The message and config are handed over
/// as the outcome of decoding their JSON text; a config text that is
/// empty stands for `null` whatever its decoding gave.
pub struct MessageRequest {
    pub kind_id: String,
    pub node_path: String,
    pub port: String,
    pub msg: Result<Msg, String>,
    pub config_json: String,
    pub config: Result<JsonValue, String>,
}

/// A decoded `OnInit` request.
pub struct InitRequest {
    pub kind_id: String,
    pub node_path: String,
    pub config_json: String,
    pub config: Result<JsonValue, String>,
}

/// The text of the error a manifest-only kind answers messages with.
pub open spec fn manifest_only_text() -> Seq<char> {
    "kind is manifest-only — no behaviour registered"@
}

/// The behaviour of a manifest-only kind: it accepts init, timers and
/// shutdown, and rejects messages.
pub struct NoopBehavior;

impl DynBehavior for NoopBehavior {
    open spec fn init_answer(&self, ctx: NodeCtx, cfg: JsonValue, r: Result<(), NodeError>) -> bool {
        r is Ok
    }

    open spec fn message_answer(&self, ctx: NodeCtx, port: Seq<char>, msg: Msg, r: Result<(), NodeError>) -> bool {
        r matches Err(NodeError::Runtime(m)) && m@ == manifest_only_text()
    }

    open spec fn timer_answer(&self, ctx: NodeCtx, handle: TimerHandle, r: Result<(), NodeError>) -> bool {
        r is Ok
    }

    open spec fn shutdown_answer(&self, ctx: NodeCtx, r: Result<(), NodeError>) -> bool {
        r is Ok
    }

    fn on_init(&self, ctx: &NodeCtx, cfg: &JsonValue) -> (r: Result<(), NodeError>) {
        Ok(())
    }

    fn on_message(&self, ctx: &NodeCtx, port: String, msg: Msg) -> (r: Result<(), NodeError>) {
        Err(NodeError::runtime("kind is manifest-only — no behaviour registered".to_string()))
    }

    fn on_timer(&self, ctx: &NodeCtx, handle: TimerHandle) -> (r: Result<(), NodeError>) {
        Ok(())
    }

    fn on_shutdown(&self, ctx: &NodeCtx) -> (r: Result<(), NodeError>) {
        Ok(())
    }
}

/// Graph access for a process block: not wired, every access fails.
pub struct StubGraph;

impl GraphAccess for StubGraph {
    open spec fn read_answer(&self, path: NodePath, slot: Seq<char>, r: Result<JsonValue, NodeError>) -> bool {
        r matches Err(NodeError::Runtime(m))
            && m@ == "GraphAccess from a process block is not wired — read slots via settings"@
    }

    open spec fn write_answer(&self, path: NodePath, slot: Seq<char>, value: JsonValue, r: Result<(), NodeError>) -> bool {
        r matches Err(NodeError::Runtime(m))
            && m@ == "GraphAccess from a process block is not wired — emit on output ports instead"@
    }

    fn read_slot(&self, path: &NodePath, slot: &str) -> (r: Result<JsonValue, NodeError>) {
        Err(NodeError::runtime("GraphAccess from a process block is not wired — read slots via settings".to_string()))
    }

    fn write_slot(&self, path: &NodePath, slot: &str, value: JsonValue) -> (r: Result<(), NodeError>) {
        Err(NodeError::runtime("GraphAccess from a process block is not wired — emit on output ports instead".to_string()))
    }
}

/// Timers for a process block: not wired, scheduling fails and
/// cancelling does nothing.
pub struct StubScheduler;

impl TimerScheduler for StubScheduler {
    open spec fn schedule_answer(&self, node: NodeId, delay_ms: u64, r: Result<TimerHandle, NodeError>) -> bool {
        r matches Err(NodeError::Runtime(m)) && m@ == "timers from a process block are not wired"@
    }

    fn schedule(&self, node: NodeId, delay_ms: u64) -> (r: Result<TimerHandle, NodeError>) {
        Err(NodeError::runtime("timers from a process block are not wired".to_string()))
    }

    open spec fn cancel_requested(&self, handle: TimerHandle) -> bool {
        true
    }

    fn cancel(&self, handle: TimerHandle) {
    }
}

/// The graph access of a process block's context.
fn stub_graph() -> (h: Holder<Box<dyn GraphAccess>>)
    ensures
        forall|p: NodePath, s: Seq<char>, r: Result<JsonValue, NodeError>|
            #[trigger] h.inner.read_answer(p, s, r) == StubGraph.read_answer(p, s, r),
        forall|p: NodePath, s: Seq<char>, v: JsonValue, r: Result<(), NodeError>|
            #[trigger] h.inner.write_answer(p, s, v, r) == StubGraph.write_answer(p, s, v, r),
{
    let g: Box<dyn GraphAccess> = Box::new(StubGraph);
    let h = hold(g);
    h
}

/// The timers of a process block's context.
fn stub_scheduler() -> (h: Holder<Box<dyn TimerScheduler>>)
    ensures
        forall|n: NodeId, d: u64, r: Result<TimerHandle, NodeError>|
            #[trigger] h.inner.schedule_answer(n, d, r) == StubScheduler.schedule_answer(n, d, r),
        forall|t: TimerHandle| #[trigger] h.inner.cancel_requested(t) == StubScheduler.cancel_requested(t),
{
    let t: Box<dyn TimerScheduler> = Box::new(StubScheduler);
    let h = hold(t);
    h
}

/// `i` is the last registration whose kind id is `id`.
pub open spec fn is_last_kind(kinds: Seq<KindManifest>, id: Seq<char>, i: int) -> bool {
    &&& 0 <= i < kinds.len()
    &&& kinds[i].id.0@ == id
    &&& forall|j: int| i < j < kinds.len() ==> #[trigger] kinds[j].id.0@ != id
}

/// The registration that answers for kind `id`: the last one registered
/// under that id.
pub open spec fn handler_index(kinds: Seq<KindManifest>, id: Seq<char>) -> Option<int> {
    if exists|i: int| is_last_kind(kinds, id, i) {
        Some(choose|i: int| is_last_kind(kinds, id, i))
    } else {
        None
    }
}

/// A kind registered again takes over: the latest registration under an
/// id is the one that answers for it.
pub proof fn lemma_latest_registration_answers(kinds: Seq<KindManifest>, m: KindManifest)
    ensures
        handler_index(kinds.push(m), m.id.0@) == Some(kinds.len() as int),
{
    let s = kinds.push(m);
    assert(is_last_kind(s, m.id.0@, kinds.len() as int));
    let c = choose|i: int| is_last_kind(s, m.id.0@, i);
    if c < kinds.len() {
        assert(s[kinds.len() as int].id.0@ == m.id.0@);
    }
}

/// A kind registered with a behaviour is answered by that behaviour: once
/// `manifest` has been registered last with `behavior` and the service
/// built from the registrations, the kind's requests go to the last
/// registration, which answers as `behavior` does.
///
/// `behavior` is the value that was boxed in the call of
/// [`BlockIdentity::register_behavior`], as in
/// `identity.register_behavior(manifest, Box::new(behavior))`; that call's
/// contract then gives the answers this law requires of `after`.
pub proof fn lemma_registered_behavior_answers<B: DynBehavior>(
    before: BlockIdentity,
    after: BlockIdentity,
    manifest: KindManifest,
    behavior: B,
    plugin: DefaultPlugin,
)
    requires
        after.registrations() == before.registrations().push((manifest, false)),
        forall|ctx: NodeCtx, port: Seq<char>, msg: Msg, r: Result<(), NodeError>|
            #[trigger] after.message_answer_at(before.registrations().len() as int, ctx, port, msg, r)
                == behavior.message_answer(ctx, port, msg, r),
        forall|ctx: NodeCtx, cfg: JsonValue, r: Result<(), NodeError>|
            #[trigger] after.init_answer_at(before.registrations().len() as int, ctx, cfg, r)
                == behavior.init_answer(ctx, cfg, r),
        plugin.spec_kinds() == after.registrations().map_values(|e: (KindManifest, bool)| e.0),
        forall|i: int, ctx: NodeCtx, port: Seq<char>, msg: Msg, r: Result<(), NodeError>|
            0 <= i < after.registrations().len() ==> #[trigger] plugin.message_answer_at(i, ctx, port, msg, r)
                == after.message_answer_at(i, ctx, port, msg, r),
        forall|i: int, ctx: NodeCtx, cfg: JsonValue, r: Result<(), NodeError>|
            0 <= i < after.registrations().len() ==> #[trigger] plugin.init_answer_at(i, ctx, cfg, r)
                == after.init_answer_at(i, ctx, cfg, r),
    ensures
        handler_index(plugin.spec_kinds(), manifest.id.0@) == Some(before.registrations().len() as int),
        forall|ctx: NodeCtx, port: Seq<char>, msg: Msg, r: Result<(), NodeError>|
            #[trigger] plugin.message_answer_at(before.registrations().len() as int, ctx, port, msg, r)
                == behavior.message_answer(ctx, port, msg, r),
        forall|ctx: NodeCtx, cfg: JsonValue, r: Result<(), NodeError>|
            #[trigger] plugin.init_answer_at(before.registrations().len() as int, ctx, cfg, r)
                == behavior.init_answer(ctx, cfg, r),
{
    let ks = before.registrations().map_values(|e: (KindManifest, bool)| e.0);
    assert(plugin.spec_kinds() =~= ks.push(manifest));
    lemma_latest_registration_answers(ks, manifest);
    let n = before.registrations().len() as int;
    assert forall|ctx: NodeCtx, port: Seq<char>, msg: Msg, r: Result<(), NodeError>|
        #[trigger] plugin.message_answer_at(n, ctx, port, msg, r) == behavior.message_answer(ctx, port, msg, r) by {
        assert(plugin.message_answer_at(n, ctx, port, msg, r) == after.message_answer_at(n, ctx, port, msg, r));
    }
    assert forall|ctx: NodeCtx, cfg: JsonValue, r: Result<(), NodeError>|
        #[trigger] plugin.init_answer_at(n, ctx, cfg, r) == behavior.init_answer(ctx, cfg, r) by {
        assert(plugin.init_answer_at(n, ctx, cfg, r) == after.init_answer_at(n, ctx, cfg, r));
    }
}

/// The refusal for a kind the block did not register.
pub open spec fn not_found_text(kind_id: Seq<char>) -> Seq<char> {
    "kind `"@ + kind_id + "` not registered in this block"@
}

/// The config a request carries: `null` for empty text, else the decoded
/// value, or the decoder's message.
pub open spec fn request_config(config_json: Seq<char>, config: Result<JsonValue, String>) -> Result<JsonValue, String> {
    if config_json.len() == 0 {
        Ok(JsonValue::Null)
    } else {
        config
    }
}

/// A request's config: `null` exactly when its text is empty; for any
/// other text, the outcome of decoding that text, handed over unchanged.
pub proof fn lemma_request_config(config_json: Seq<char>, config: Result<JsonValue, String>)
    ensures
        config_json.len() == 0 ==> request_config(config_json, config) == Ok::<JsonValue, String>(JsonValue::Null),
        config_json.len() > 0 ==> request_config(config_json, config) == config,
{
}

/// `r` is an invalid-argument refusal naming `field` with `detail`.
pub open spec fn is_invalid_argument<T>(r: Result<T, RpcStatus>, field: Seq<char>, detail: Seq<char>) -> bool {
    r matches Err(s) && s.code == RpcCode::InvalidArgument && s.message@ == field + ": "@ + detail
}

/// The refusal an `OnInit` request gets, if any: an unknown kind, then an
/// undecodable config, then a malformed node path.
pub open spec fn init_refusal(kinds: Seq<KindManifest>, kind_id: Seq<char>, node_path: Seq<char>, config: Result<JsonValue, String>) -> Option<(RpcCode, Seq<char>)> {
    if handler_index(kinds, kind_id) is None {
        Some((RpcCode::NotFound, not_found_text(kind_id)))
    } else if config is Err {
        Some((RpcCode::InvalidArgument, "config_json"@ + ": "@ + config->Err_0@))
    } else if !is_node_path(node_path) {
        Some((RpcCode::InvalidArgument, "node_path"@ + ": "@ + "node path must start with `/`"@))
    } else {
        None
    }
}

/// The refusal an `OnMessage` request gets, if any: an unknown kind, then
/// an undecodable message, then the checks of `init_refusal`.
pub open spec fn message_refusal(kinds: Seq<KindManifest>, kind_id: Seq<char>, node_path: Seq<char>, msg: Result<Msg, String>, config: Result<JsonValue, String>) -> Option<(RpcCode, Seq<char>)> {
    if handler_index(kinds, kind_id) is None {
        Some((RpcCode::NotFound, not_found_text(kind_id)))
    } else if msg is Err {
        Some((RpcCode::InvalidArgument, "msg_json"@ + ": "@ + msg->Err_0@))
    } else {
        init_refusal(kinds, kind_id, node_path, config)
    }
}

/// `r` is the refusal `refusal` names: its code and its message.
pub open spec fn refused(r: Result<DispatchReply, RpcStatus>, refusal: (RpcCode, Seq<char>)) -> bool {
    r matches Err(s) && s.code == refusal.0 && s.message@ == refusal.1
}

/// `reply` reports a behaviour's `outcome`: success with an empty error
/// text, or failure with the text of the behaviour's error.
pub open spec fn reports(reply: DispatchReply, outcome: Result<(), NodeError>) -> bool {
    &&& reply.ok == outcome is Ok
    &&& outcome is Ok ==> reply.error@.len() == 0
    &&& outcome matches Err(e) ==> reply.error@ == node_error_text(e)
}

/// What a process block holds for one registered kind: its manifest and
/// its behaviour, none for a manifest-only kind.
struct KindHandler {
    manifest: Arc<KindManifest>,
    behavior: Option<Box<dyn DynBehavior>>,
}

/// The `Extension` service of a process block.
pub struct DefaultPlugin {
    id: String,
    version: String,
    capabilities: Vec<String>,
    handlers: Vec<KindHandler>,
}

/// Turns a behaviour's outcome into a reply.
fn dispatch_reply(outcome: Result<(), NodeError>) -> (r: DispatchReply)
    ensures
        reports(r, outcome),
{
    match outcome {
        Ok(()) => DispatchReply { ok: true, error: String::new() },
        Err(e) => DispatchReply { ok: false, error: e.message() },
    }
}

/// The invalid-argument refusal naming `field` with `detail`.
fn invalid_argument(field: &str, detail: &str) -> (s: RpcStatus)
    ensures
        s.code == RpcCode::InvalidArgument,
        s.message@ == field@ + ": "@ + detail@,
{
    let mut m = field.to_string();
    m.append(": ");
    m.append(detail);
    RpcStatus { code: RpcCode::InvalidArgument, message: m }
}

impl DefaultPlugin {
    pub closed spec fn spec_id(&self) -> String {
        self.id
    }

    pub closed spec fn spec_version(&self) -> String {
        self.version
    }

    pub closed spec fn spec_capabilities(&self) -> Seq<String> {
        self.capabilities@
    }

    /// The manifests of the registered kinds, in registration order.
    pub closed spec fn spec_kinds(&self) -> Seq<KindManifest> {
        self.handlers@.map_values(|h: KindHandler| *h.manifest)
    }

    /// Which registered kinds are manifest-only, in registration order:
    /// those with no behaviour.
    pub closed spec fn spec_manifest_only(&self) -> Seq<bool> {
        self.handlers@.map_values(|h: KindHandler| h.behavior is None)
    }

    /// `ctx` is the context a request for registration `i` runs in: bound
    /// to node `node_id` at `node_path`, to kind `kind_id` with the
    /// registration's manifest, and to `config`; its graph access and
    /// timers are those of a process block, which are not wired.
    pub open spec fn dispatch_context(
        &self,
        ctx: NodeCtx,
        i: int,
        node_id: NodeId,
        kind_id: Seq<char>,
        node_path: Seq<char>,
        config: JsonValue,
    ) -> bool {
        &&& ctx.spec_node_id() == node_id
        &&& ctx.spec_node_path().0@ == node_path
        &&& ctx.spec_kind_id().0@ == kind_id
        &&& ctx.spec_manifest() == self.spec_kinds()[i]
        &&& ctx.spec_config()@ == config@
        &&& forall|p: NodePath, s: Seq<char>, r: Result<JsonValue, NodeError>|
            #[trigger] ctx.graph_read_answer(p, s, r) == StubGraph.read_answer(p, s, r)
        &&& forall|p: NodePath, s: Seq<char>, v: JsonValue, r: Result<(), NodeError>|
            #[trigger] ctx.graph_write_answer(p, s, v, r) == StubGraph.write_answer(p, s, v, r)
        &&& forall|n: NodeId, d: u64, r: Result<TimerHandle, NodeError>|
            #[trigger] ctx.scheduler_answer(n, d, r) == StubScheduler.schedule_answer(n, d, r)
    }

    /// `r` is an outcome registration `i` may give to `msg` arriving on
    /// `port` in `ctx`: its behaviour's answer, or the manifest-only error
    /// when it has none.
    pub closed spec fn message_answer_at(&self, i: int, ctx: NodeCtx, port: Seq<char>, msg: Msg, r: Result<(), NodeError>) -> bool {
        match self.handlers@[i].behavior {
            Some(b) => b.message_answer(ctx, port, msg, r),
            None => manifest_only_error(r),
        }
    }

    /// `r` is an outcome registration `i` may give when a node in `ctx` is
    /// initialised with `cfg`: its behaviour's answer, or success when it
    /// has none.
    pub closed spec fn init_answer_at(&self, i: int, ctx: NodeCtx, cfg: JsonValue, r: Result<(), NodeError>) -> bool {
        match self.handlers@[i].behavior {
            Some(b) => b.init_answer(ctx, cfg, r),
            None => r is Ok,
        }
    }

    /// A manifest-only registration answers messages with the
    /// manifest-only error and accepts init.
    pub proof fn lemma_manifest_only_answers(&self, i: int)
        requires
            0 <= i < self.spec_kinds().len(),
            self.spec_manifest_only()[i],
        ensures
            forall|ctx: NodeCtx, port: Seq<char>, msg: Msg, r: Result<(), NodeError>|
                #[trigger] self.message_answer_at(i, ctx, port, msg, r) == manifest_only_error(r),
            forall|ctx: NodeCtx, cfg: JsonValue, r: Result<(), NodeError>|
                #[trigger] self.init_answer_at(i, ctx, cfg, r) == r is Ok,
    {
    }

    /// The registration that answers for kind `id`.
    fn find_handler(&self, id: &String) -> (r: Option<usize>)
        ensures
            match r {
                Some(i) => handler_index(self.spec_kinds(), id@) == Some(i as int) && i < self.handlers@.len(),
                None => handler_index(self.spec_kinds(), id@) is None,
            },
    {
        let ghost ks = self.spec_kinds();
        let mut i = self.handlers.len();
        while i > 0
            invariant
                i <= self.handlers@.len(),
                ks == self.spec_kinds(),
                ks.len() == self.handlers@.len(),
                forall|j: int| i <= j < ks.len() ==> #[trigger] ks[j].id.0@ != id@,
            decreases i,
        {
            i = i - 1;
            assert(ks[i as int] == *self.handlers@[i as int].manifest);
            if self.handlers[i].manifest.id.0 == *id {
                assert(is_last_kind(ks, id@, i as int));
                return Some(i);
            }
        }
        assert(!exists|j: int| is_last_kind(ks, id@, j));
        None
    }

    /// Builds the service from a block's identity and registrations.
    pub fn new(identity: BlockIdentity) -> (p: Self)
        ensures
            p.spec_id() == identity.spec_id(),
            p.spec_version() == identity.spec_version(),
            p.spec_capabilities() == identity.spec_capabilities(),
            p.spec_kinds() == identity.registrations().map_values(|e: (KindManifest, bool)| e.0),
            p.spec_manifest_only() == identity.registrations().map_values(|e: (KindManifest, bool)| e.1),
            forall|i: int, ctx: NodeCtx, port: Seq<char>, msg: Msg, r: Result<(), NodeError>|
                0 <= i < identity.registrations().len() ==> #[trigger] p.message_answer_at(i, ctx, port, msg, r)
                    == identity.message_answer_at(i, ctx, port, msg, r),
            forall|i: int, ctx: NodeCtx, cfg: JsonValue, r: Result<(), NodeError>|
                0 <= i < identity.registrations().len() ==> #[trigger] p.init_answer_at(i, ctx, cfg, r)
                    == identity.init_answer_at(i, ctx, cfg, r),
    {
        broadcast use vstd::std_specs::vec::axiom_spec_into_iter;
        let ghost regs = identity.registrations();
        let ghost old_identity = identity;
        let BlockIdentity { id, version, capabilities, kinds } = identity;
        let mut handlers: Vec<KindHandler> = Vec::new();
        let ghost s = kinds@;
        for e in it: kinds.into_iter()
            invariant
                it.seq() == s,
                handlers@.len() == it.index(),
                forall|j: int| 0 <= j < it.index() ==> *#[trigger] handlers@[j].manifest == s[j].manifest,
                forall|j: int| 0 <= j < it.index() ==> #[trigger] handlers@[j].behavior == s[j].behavior,
        {
            let KindEntry { manifest, behavior } = e;
            handlers.push(KindHandler { manifest: Arc::new(manifest), behavior });
        }
        let p = DefaultPlugin { id, version, capabilities, handlers };
        assert(p.spec_kinds() =~= regs.map_values(|e: (KindManifest, bool)| e.0));
        assert(p.spec_manifest_only() =~= regs.map_values(|e: (KindManifest, bool)| e.1));
        assert forall|i: int, ctx: NodeCtx, port: Seq<char>, msg: Msg, r: Result<(), NodeError>|
            0 <= i < regs.len() implies #[trigger] p.message_answer_at(i, ctx, port, msg, r)
                == old_identity.message_answer_at(i, ctx, port, msg, r) by {
            assert(p.handlers@[i].behavior == s[i].behavior);
        }
        assert forall|i: int, ctx: NodeCtx, cfg: JsonValue, r: Result<(), NodeError>|
            0 <= i < regs.len() implies #[trigger] p.init_answer_at(i, ctx, cfg, r)
                == old_identity.init_answer_at(i, ctx, cfg, r) by {
            assert(p.handlers@[i].behavior == s[i].behavior);
        }
        p
    }

    /// Answers `Describe`: the block's identity and every registered
    /// kind's manifest, in registration order.
    pub fn describe(&self) -> (d: Description)
        ensures
            d.extension_id@ == self.spec_id()@,
            d.version@ == self.spec_version()@,
            d.capabilities@.len() == self.spec_capabilities().len(),
            forall|i: int| 0 <= i < d.capabilities@.len() ==> #[trigger] d.capabilities@[i]@ == self.spec_capabilities()[i]@,
            d.kinds@.len() == self.spec_kinds().len(),
            forall|i: int| 0 <= i < d.kinds@.len() ==> *#[trigger] d.kinds@[i] == self.spec_kinds()[i],
    {
        let mut capabilities: Vec<String> = Vec::new();
        let mut i: usize = 0;
        while i < self.capabilities.len()
            invariant
                i <= self.capabilities@.len(),
                capabilities@.len() == i,
                forall|j: int| 0 <= j < i ==> #[trigger] capabilities@[j]@ == self.capabilities@[j]@,
            decreases self.capabilities@.len() - i,
        {
            capabilities.push(self.capabilities[i].clone());
            i = i + 1;
        }
        let mut kinds: Vec<Arc<KindManifest>> = Vec::new();
        let mut k: usize = 0;
        while k < self.handlers.len()
            invariant
                k <= self.handlers@.len(),
                kinds@.len() == k,
                forall|j: int| 0 <= j < k ==> *#[trigger] kinds@[j] == *self.handlers@[j].manifest,
            decreases self.handlers@.len() - k,
        {
            kinds.push(Arc::clone(&self.handlers[k].manifest));
            k = k + 1;
        }
        Description { extension_id: self.id.clone(), version: self.version.clone(), capabilities, kinds }
    }

    /// Runs the message handler of registration `i`; a manifest-only kind
    /// answers with the manifest-only error.
    fn run_on_message(&self, i: usize, ctx: &NodeCtx, port: String, msg: Msg) -> (r: Result<(), NodeError>)
        requires
            i < self.handlers@.len(),
        ensures
            self.message_answer_at(i as int, *ctx, port@, msg, r),
    {
        match &self.handlers[i].behavior {
            Some(b) => b.on_message(ctx, port, msg),
            None => NoopBehavior.on_message(ctx, port, msg),
        }
    }

    /// Runs the init handler of registration `i`; a manifest-only kind
    /// accepts.
    fn run_on_init(&self, i: usize, ctx: &NodeCtx, cfg: &JsonValue) -> (r: Result<(), NodeError>)
        requires
            i < self.handlers@.len(),
        ensures
            self.init_answer_at(i as int, *ctx, *cfg, r),
    {
        match &self.handlers[i].behavior {
            Some(b) => b.on_init(ctx, cfg),
            None => NoopBehavior.on_init(ctx, cfg),
        }
    }

    /// The refusal for a kind the block did not register.
    fn not_found(kind_id: &String) -> (s: RpcStatus)
        ensures
            s.code == RpcCode::NotFound,
            s.message@ == not_found_text(kind_id@),
    {
        let mut m = "kind `".to_string();
        m.append(kind_id.as_str());
        m.append("` not registered in this block");
        RpcStatus { code: RpcCode::NotFound, message: m }
    }

    /// The config a request carries: `null` for empty text.
    fn decode_config(config_json: &String, config: Result<JsonValue, String>) -> (r: Result<JsonValue, RpcStatus>)
        ensures
            match request_config(config_json@, config) {
                Ok(v) => r == Ok::<JsonValue, RpcStatus>(v),
                Err(e) => is_invalid_argument(r, "config_json"@, e@),
            },
    {
        if config_json.as_str().is_empty() {
            Ok(JsonValue::Null)
        } else {
            match config {
                Ok(v) => Ok(v),
                Err(e) => Err(invalid_argument("config_json", e.as_str())),
            }
        }
    }

    /// The node path a request addresses.
    fn decode_node_path(node_path: &String) -> (r: Result<NodePath, RpcStatus>)
        ensures
            match r {
                Ok(p) => is_node_path(node_path@) && p.0@ == node_path@,
                Err(s) => !is_node_path(node_path@) && is_invalid_argument(
                    Err::<(), RpcStatus>(s),
                    "node_path"@,
                    "node path must start with `/`"@,
                ),
            },
    {
        match NodePath::parse(node_path.as_str()) {
            Ok(p) => Ok(p),
            Err(e) => Err(invalid_argument("node_path", e.as_str())),
        }
    }

    /// Answers `OnMessage`: dispatches the message to the behaviour of the
    /// latest registration of the kind, in a context bound to `node_id`
    /// whose emissions go to `emit_sink` and whose graph access and timers
    /// are not wired, and reports the behaviour's outcome.
    pub fn on_message(&self, req: MessageRequest, node_id: NodeId, emit_sink: Box<dyn EmitSink>) -> (r: Result<DispatchReply, RpcStatus>)
        ensures
            match message_refusal(self.spec_kinds(), req.kind_id@, req.node_path@, req.msg, request_config(req.config_json@, req.config)) {
                Some(refusal) => refused(r, refusal),
                None => r matches Ok(reply) && exists|ctx: NodeCtx, outcome: Result<(), NodeError>|
                    self.dispatch_context(
                        ctx,
                        handler_index(self.spec_kinds(), req.kind_id@)->0,
                        node_id,
                        req.kind_id@,
                        req.node_path@,
                        request_config(req.config_json@, req.config)->Ok_0,
                    ) && (forall|n: NodeId, p: Seq<char>, m: Msg, e: Result<(), NodeError>|
                        #[trigger] ctx.sink_emit_answer(n, p, m, e) == emit_sink.emit_answer(n, p, m, e))
                    && #[trigger] self.message_answer_at(handler_index(self.spec_kinds(), req.kind_id@)->0, ctx, req.port@, req.msg->Ok_0, outcome)
                    && reports(reply, outcome),
            },
    {
        let ghost msg_in = req.msg;
        let ghost port_in = req.port@;
        let ghost node_path_in = req.node_path@;
        let ghost kind_in = req.kind_id@;
        let ghost cfg_in = request_config(req.config_json@, req.config)->Ok_0;
        let MessageRequest { kind_id, node_path, port, msg, config_json, config } = req;
        let i = match self.find_handler(&kind_id) {
            Some(i) => i,
            None => {
                return Err(Self::not_found(&kind_id));
            },
        };
        let msg = match msg {
            Ok(m) => m,
            Err(e) => {
                return Err(invalid_argument("msg_json", e.as_str()));
            },
        };
        let cfg = match Self::decode_config(&config_json, config) {
            Ok(c) => c,
            Err(s) => {
                return Err(s);
            },
        };
        let path = match Self::decode_node_path(&node_path) {
            Ok(p) => p,
            Err(s) => {
                return Err(s);
            },
        };
        let sink = hold(emit_sink);
        let ctx = NodeCtx::assemble(
            node_id,
            path,
            KindId::new(kind_id),
            Arc::clone(&self.handlers[i].manifest),
            cfg,
            stub_graph(),
            sink,
            stub_scheduler(),
        );
        let outcome = self.run_on_message(i, &ctx, port, msg);
        let reply = dispatch_reply(outcome);
        proof {
            let hi = handler_index(self.spec_kinds(), kind_in)->0;
            assert(self.spec_kinds()[hi] == *self.handlers@[hi].manifest);
            assert(self.dispatch_context(ctx, hi, node_id, kind_in, node_path_in, cfg_in));
            assert(self.message_answer_at(hi, ctx, port_in, msg_in->Ok_0, outcome));
        }
        Ok(reply)
    }

    /// Answers `OnInit`: hands the decoded config to the behaviour of the
    /// latest registration of the kind, in a context as for `on_message`
    /// that holds the same config, and reports the behaviour's outcome.
    pub fn on_init(&self, req: InitRequest, node_id: NodeId, emit_sink: Box<dyn EmitSink>) -> (r: Result<DispatchReply, RpcStatus>)
        ensures
            match init_refusal(self.spec_kinds(), req.kind_id@, req.node_path@, request_config(req.config_json@, req.config)) {
                Some(refusal) => refused(r, refusal),
                None => r matches Ok(reply) && exists|ctx: NodeCtx, outcome: Result<(), NodeError>|
                    self.dispatch_context(
                        ctx,
                        handler_index(self.spec_kinds(), req.kind_id@)->0,
                        node_id,
                        req.kind_id@,
                        req.node_path@,
                        request_config(req.config_json@, req.config)->Ok_0,
                    ) && (forall|n: NodeId, p: Seq<char>, m: Msg, e: Result<(), NodeError>|
                        #[trigger] ctx.sink_emit_answer(n, p, m, e) == emit_sink.emit_answer(n, p, m, e))
                    && #[trigger] self.init_answer_at(
                        handler_index(self.spec_kinds(), req.kind_id@)->0,
                        ctx,
                        request_config(req.config_json@, req.config)->Ok_0,
                        outcome,
                    ) && reports(reply, outcome),
            },
    {
        let ghost node_path_in = req.node_path@;
        let ghost kind_in = req.kind_id@;
        let ghost cfg_in = request_config(req.config_json@, req.config)->Ok_0;
        let InitRequest { kind_id, node_path, config_json, config } = req;
        let i = match self.find_handler(&kind_id) {
            Some(i) => i,
            None => {
                return Err(Self::not_found(&kind_id));
            },
        };
        let cfg = match Self::decode_config(&config_json, config) {
            Ok(c) => c,
            Err(s) => {
                return Err(s);
            },
        };
        let path = match Self::decode_node_path(&node_path) {
            Ok(p) => p,
            Err(s) => {
                return Err(s);
            },
        };
        let sink = hold(emit_sink);
        let ctx = NodeCtx::assemble(
            node_id,
            path,
            KindId::new(kind_id),
            Arc::clone(&self.handlers[i].manifest),
            cfg.deep_clone(),
            stub_graph(),
            sink,
            stub_scheduler(),
        );
        let outcome = self.run_on_init(i, &ctx, &cfg);
        let reply = dispatch_reply(outcome);
        proof {
            let hi = handler_index(self.spec_kinds(), kind_in)->0;
            assert(self.spec_kinds()[hi] == *self.handlers@[hi].manifest);
            assert(self.dispatch_context(ctx, hi, node_id, kind_in, node_path_in, cfg_in));
            assert(self.init_answer_at(hi, ctx, cfg_in, outcome));
        }
        Ok(reply)
    }

    /// Answers `Health`: the block is ready.
    pub fn health(&self) -> (r: HealthReply)
        ensures
            r.status == HealthStatus::Ready,
            r.detail@.len() == 0,
    {
        HealthReply { status: HealthStatus::Ready, detail: String::new() }
    }

    /// Answers `Discover`: not available from a process block.
    pub fn discover(&self) -> (r: RpcStatus)
        ensures
            r.code == RpcCode::Unimplemented,
            r.message@ == "discover: driver-side, not wired"@,
    {
        RpcStatus { code: RpcCode::Unimplemented, message: "discover: driver-side, not wired".to_string() }
    }

    /// Answers `Invoke`: not available from a process block.
    pub fn invoke(&self) -> (r: RpcStatus)
        ensures
            r.code == RpcCode::Unimplemented,
            r.message@ == "invoke: driver-side, not wired"@,
    {
        RpcStatus { code: RpcCode::Unimplemented, message: "invoke: driver-side, not wired".to_string() }
    }
}

} // verus!
