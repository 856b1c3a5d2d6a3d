//! The server-side adapter surface.
//!
//! A GraphQL execution engine hands a scalar implementation a tagged value
//! parsed out of a request, and asks it for a tagged value to put into a
//! response.  Only string-tagged nodes are accepted on the way in — a
//! numeric node is rejected even when its value would fit, because the
//! engine's number type cannot carry the full 64-bit range — and only
//! string-tagged nodes are produced on the way out.

use vstd::prelude::*;

use crate::codec;
use crate::codec::FormatError;
use crate::value::GraphValue;
use crate::{Int64Scalar, UInt64Scalar};

verus! {

/// Why a value tree node could not be parsed as a scalar.
#[derive(Debug, PartialEq, Eq)]
pub enum ParseError {
    /// The node was string-tagged but its text is not an in-range decimal
    /// integer; carries the offending text.
    Format(FormatError),
    /// The node was not string-tagged; carries the rejected node.
    TypeMismatch(GraphValue),
}

impl Int64Scalar {
    /// Parse a value tree node as a signed 64-bit scalar: accepts exactly
    /// the string-tagged nodes whose text `codec::spec_parse_i64` accepts.
    pub fn parse(value: GraphValue) -> (r: Result<Int64Scalar, ParseError>)
        ensures
            match r {
                Ok(sc) => value matches GraphValue::String(s) && codec::spec_parse_i64(s@)
                    == Some(sc.0),
                Err(e) => match e {
                    ParseError::Format(fe) => value matches GraphValue::String(s)
                        && codec::spec_parse_i64(s@) is None && fe.input@ == s@,
                    ParseError::TypeMismatch(v) => !(value is String) && v == value,
                },
            },
    {
        match value {
            GraphValue::String(s) => match codec::decode_i64(s.as_str()) {
                Ok(v) => Ok(Int64Scalar(v)),
                Err(e) => Err(ParseError::Format(e)),
            },
            other => Err(ParseError::TypeMismatch(other)),
        }
    }

    /// Serialize this scalar into a value tree node: always a
    /// string-tagged node holding the canonical decimal text.
    pub fn to_value(&self) -> (r: GraphValue)
        ensures
            r matches GraphValue::String(s) && s@ == codec::spec_encode_i64(self.0),
    {
        GraphValue::String(codec::encode_i64(self.0))
    }
}

impl UInt64Scalar {
    /// Parse a value tree node as an unsigned 64-bit scalar: accepts
    /// exactly the string-tagged nodes whose text `codec::spec_parse_u64`
    /// accepts.
    pub fn parse(value: GraphValue) -> (r: Result<UInt64Scalar, ParseError>)
        ensures
            match r {
                Ok(sc) => value matches GraphValue::String(s) && codec::spec_parse_u64(s@)
                    == Some(sc.0),
                Err(e) => match e {
                    ParseError::Format(fe) => value matches GraphValue::String(s)
                        && codec::spec_parse_u64(s@) is None && fe.input@ == s@,
                    ParseError::TypeMismatch(v) => !(value is String) && v == value,
                },
            },
    {
        match value {
            GraphValue::String(s) => match codec::decode_u64(s.as_str()) {
                Ok(v) => Ok(UInt64Scalar(v)),
                Err(e) => Err(ParseError::Format(e)),
            },
            other => Err(ParseError::TypeMismatch(other)),
        }
    }

    /// Serialize this scalar into a value tree node: always a
    /// string-tagged node holding the canonical decimal text.
    pub fn to_value(&self) -> (r: GraphValue)
        ensures
            r matches GraphValue::String(s) && s@ == codec::spec_encode_u64(self.0),
    {
        GraphValue::String(codec::encode_u64(self.0))
    }
}

} // verus!
