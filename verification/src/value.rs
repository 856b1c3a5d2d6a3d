//! A GraphQL-style tagged value tree.
//!
//! Both host ecosystems hand the adapters a generic tagged value (string,
//! number, boolean, null, list or object).  The adapters only ever look at
//! the tag, and at the text of a string node; every other node is rejected
//! whole.  The tags form a closed set, so the tree is a plain enum.

use vstd::prelude::*;

verus! {

/// A node of the tagged value tree.
#[derive(Debug, PartialEq, Eq)]
pub enum GraphValue {
    Null,
    Boolean(bool),
    /// A numeric node.  Its payload is not represented: the adapters
    /// reject every numeric node without reading it, because a
    /// float-based number type cannot carry the full 64-bit range.
    Number,
    String(String),
    List(Vec<GraphValue>),
    Object(Vec<(String, GraphValue)>),
}

/// The tag of a value tree node, with the payload stripped.
#[derive(Debug, Clone, Copy, PartialEq, Eq, Structural)]
pub enum ValueTag {
    Null,
    Boolean,
    Number,
    String,
    List,
    Object,
}

impl GraphValue {
    /// Which variant this node is.
    pub open spec fn spec_tag(self) -> ValueTag {
        match self {
            GraphValue::Null => ValueTag::Null,
            GraphValue::Boolean(_) => ValueTag::Boolean,
            GraphValue::Number => ValueTag::Number,
            GraphValue::String(_) => ValueTag::String,
            GraphValue::List(_) => ValueTag::List,
            GraphValue::Object(_) => ValueTag::Object,
        }
    }

    /// Which variant this node is, as a runtime value.
    pub fn tag(&self) -> (t: ValueTag)
        ensures
            t == self.spec_tag(),
    {
        match self {
            GraphValue::Null => ValueTag::Null,
            GraphValue::Boolean(_) => ValueTag::Boolean,
            GraphValue::Number => ValueTag::Number,
            GraphValue::String(_) => ValueTag::String,
            GraphValue::List(_) => ValueTag::List,
            GraphValue::Object(_) => ValueTag::Object,
        }
    }
}

} // verus!
