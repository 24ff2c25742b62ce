//! The platform's descriptions of kinds, slots, nodes and messages, as
//! far as the SDK reads them.

use vstd::prelude::*;

use crate::json::JsonValue;

verus! {

/// Reverse-DNS identifier of a node kind, such as `sys.compute.count`.
#[derive(Debug, Clone, PartialEq, Eq, Hash)]
pub struct KindId(pub String);

impl KindId {
    pub fn new(id: String) -> (k: KindId)
        ensures
            k.0 == id,
    {
        KindId(id)
    }

    pub fn as_str(&self) -> (s: &str)
        ensures
            s@ == self.0@,
    {
        self.0.as_str()
    }
}

/// Identifier of a node instance in the graph.
#[derive(Debug, Clone, Copy, PartialEq, Eq, Hash)]
pub struct NodeId(pub u128);

/// Address of a node in the graph, such as `/site/floor1/sensor`.
#[derive(Debug, Clone, PartialEq, Eq, Hash)]
pub struct NodePath(pub String);

/// A node path is absolute: it begins with `/`. This is the only check
/// the crate makes of a path; the segments after the first `/` are taken
/// as they are, and the graph may refuse paths that pass it.
pub open spec fn is_node_path(s: Seq<char>) -> bool {
    s.len() > 0 && s[0] == '/'
}

impl NodePath {
    /// Parses a node path, checking only that it is absolute (see
    /// [`is_node_path`]); the error text is the crate's own.
    pub fn parse(s: &str) -> (r: Result<NodePath, String>)
        ensures
            match r {
                Ok(p) => is_node_path(s@) && p.0@ == s@,
                Err(e) => !is_node_path(s@) && e@ == "node path must start with `/`"@,
            },
    {
        if s.unicode_len() > 0 && s.get_char(0) == '/' {
            Ok(NodePath(s.to_string()))
        } else {
            Err("node path must start with `/`".to_string())
        }
    }

    pub fn as_str(&self) -> (s: &str)
        ensures
            s@ == self.0@,
    {
        self.0.as_str()
    }
}

/// What a slot is for on its node.
#[derive(Debug, Clone, Copy, PartialEq, Eq, Hash, Structural)]
pub enum SlotRole {
    Config,
    Input,
    Output,
    Status,
}

/// The name under which a role is printed.
pub open spec fn slot_role_name(r: SlotRole) -> Seq<char> {
    match r {
        SlotRole::Config => "Config"@,
        SlotRole::Input => "Input"@,
        SlotRole::Output => "Output"@,
        SlotRole::Status => "Status"@,
    }
}

impl SlotRole {
    /// The name under which this role is printed.
    pub fn name(&self) -> (s: &'static str)
        ensures
            s@ == slot_role_name(*self),
    {
        match self {
            SlotRole::Config => "Config",
            SlotRole::Input => "Input",
            SlotRole::Output => "Output",
            SlotRole::Status => "Status",
        }
    }
}

/// One slot a kind declares.
#[derive(Debug, Clone)]
pub struct SlotSchema {
    pub name: String,
    pub role: SlotRole,
}

/// The declarative half of a kind.
#[derive(Debug)]
pub struct KindManifest {
    pub id: KindId,
    pub slots: Vec<SlotSchema>,
    /// JSON Schema of the kind's settings; `properties.<field>.default`
    /// supplies the lowest-priority setting values.
    pub settings_schema: JsonValue,
    /// Settings field name to message metadata key: a message carrying
    /// that key overrides the field for one invocation.
    pub msg_overrides: Vec<(String, String)>,
    pub facets: Vec<String>,
    pub containment: JsonValue,
}

/// A message travelling along a wire.
#[derive(Debug)]
pub struct Msg {
    pub payload: JsonValue,
    pub metadata: Vec<(String, JsonValue)>,
}

} // verus!
