//! Every name a block author typically needs.

pub use crate::ctx::{DynBehavior, EmitSink, GraphAccess, NodeCtx, TimerHandle, TimerScheduler};
pub use crate::error::NodeError;
pub use crate::json::JsonValue;
pub use crate::model::{KindId, KindManifest, Msg, NodeId, NodePath, SlotRole, SlotSchema};
pub use crate::node::{InputPort, NodeKind};
pub use crate::settings::ResolvedSettings;
