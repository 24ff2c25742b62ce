//! Structured errors returned from a node behaviour entry point.

use vstd::prelude::*;

verus! {

/// The error a node behaviour, or the context it works through, reports.
#[derive(Debug, Clone, PartialEq, Eq)]
pub enum NodeError {
    /// Author-level logic error: bad config, bad input, bad state.
    Runtime(String),
    /// A slot referenced by this node does not exist on its kind.
    UnknownSlot(String),
    /// Config could not be deserialised against the declared schema.
    InvalidConfig(String),
    /// The behaviour entry point panicked; produced by the adapter.
    Panic(String),
}

/// The human-readable text of an error.
pub open spec fn node_error_text(e: NodeError) -> Seq<char> {
    match e {
        NodeError::Runtime(m) => "node runtime error: "@ + m@,
        NodeError::UnknownSlot(s) => "unknown slot `"@ + s@ + "`"@,
        NodeError::InvalidConfig(m) => "invalid config: "@ + m@,
        NodeError::Panic(m) => "node panicked: "@ + m@,
    }
}

impl NodeError {
    /// A runtime error carrying `msg`.
    pub fn runtime(msg: String) -> (e: NodeError)
        ensures
            e == NodeError::Runtime(msg),
    {
        NodeError::Runtime(msg)
    }

    /// The human-readable text of this error.
    pub fn message(&self) -> (s: String)
        ensures
            s@ == node_error_text(*self),
    {
        match self {
            NodeError::Runtime(m) => {
                let mut s = "node runtime error: ".to_string();
                s.append(m.as_str());
                s
            },
            NodeError::UnknownSlot(slot) => {
                let mut s = "unknown slot `".to_string();
                s.append(slot.as_str());
                s.append("`");
                s
            },
            NodeError::InvalidConfig(m) => {
                let mut s = "invalid config: ".to_string();
                s.append(m.as_str());
                s
            },
            NodeError::Panic(m) => {
                let mut s = "node panicked: ".to_string();
                s.append(m.as_str());
                s
            },
        }
    }
}

} // verus!
