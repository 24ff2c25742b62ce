//! Verified core of the node-kind authoring SDK.

pub mod attrs;
pub mod ctx;
pub mod error;
pub mod json;
pub mod model;
pub mod node;
pub mod prelude;
pub mod process;
pub mod settings;
pub mod wasm;
