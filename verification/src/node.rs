//! The declarative half of a node kind.

use vstd::prelude::*;

use crate::model::{KindId, KindManifest};

verus! {

/// Kind id and manifest of a kind.
pub trait NodeKind {
    fn kind_id() -> KindId;

    fn manifest() -> KindManifest;
}

/// Port identifier: the named input that fired.
pub type InputPort = String;

} // verus!
