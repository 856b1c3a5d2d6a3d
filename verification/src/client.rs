//! The client-side adapter surface.
//!
//! A query-building library decodes scalars out of a JSON-like response
//! value and encodes them back into one, both for response bodies
//! (`encode`) and for query argument literals (`serialize`).  The two
//! encoding capabilities are distinct in the host's interface and share
//! their behaviour here.  As on the server side, only string-tagged nodes
//! decode; every other tag is refused outright.

use vstd::prelude::*;

use crate::codec;
use crate::codec::FormatError;
use crate::value::{GraphValue, ValueTag};
use crate::{Int64Scalar, UInt64Scalar};

verus! {

/// Why a JSON-like node could not be decoded as a scalar.
#[derive(Debug, PartialEq, Eq)]
pub enum DecodeError {
    /// The node was string-tagged but its text is not an in-range decimal
    /// integer; carries the offending text.
    Format(FormatError),
    /// The node was not string-tagged; names the expected tag and the tag
    /// that was received.
    IncorrectType { expected: String, actual: ValueTag },
}

/// Error type of the encoding half of the client contract.  Encoding a
/// scalar always succeeds, so the adapters never produce one.
#[derive(Debug, PartialEq, Eq)]
pub struct SerializeError {
    pub message: String,
}

impl Int64Scalar {
    /// Decode a JSON-like node as a signed 64-bit scalar: accepts exactly
    /// the string-tagged nodes whose text `codec::spec_parse_i64` accepts.
    pub fn decode(value: &GraphValue) -> (r: Result<Int64Scalar, DecodeError>)
        ensures
            match r {
                Ok(sc) => *value matches GraphValue::String(s) && codec::spec_parse_i64(s@)
                    == Some(sc.0),
                Err(e) => match e {
                    DecodeError::Format(fe) => *value matches GraphValue::String(s)
                        && codec::spec_parse_i64(s@) is None && fe.input@ == s@,
                    DecodeError::IncorrectType { expected, actual } => !(*value is String)
                        && expected@ == "String"@ && actual == value.spec_tag(),
                },
            },
    {
        match value {
            GraphValue::String(s) => match codec::decode_i64(s.as_str()) {
                Ok(v) => Ok(Int64Scalar(v)),
                Err(e) => Err(DecodeError::Format(e)),
            },
            _ => Err(
                DecodeError::IncorrectType {
                    expected: String::from_str("String"),
                    actual: value.tag(),
                },
            ),
        }
    }

    /// Encode this scalar as a JSON-like node: always succeeds with a
    /// string-tagged node holding the canonical decimal text.
    pub fn encode(&self) -> (r: Result<GraphValue, SerializeError>)
        ensures
            r matches Ok(v) && v matches GraphValue::String(s) && s@ == codec::spec_encode_i64(
                self.0,
            ),
    {
        Ok(GraphValue::String(codec::encode_i64(self.0)))
    }

    /// Serialize this scalar as a query argument literal: identical to
    /// `encode`, as the host models the two capabilities separately.
    pub fn serialize(&self) -> (r: Result<GraphValue, SerializeError>)
        ensures
            r matches Ok(v) && v matches GraphValue::String(s) && s@ == codec::spec_encode_i64(
                self.0,
            ),
    {
        Ok(GraphValue::String(codec::encode_i64(self.0)))
    }
}

impl UInt64Scalar {
    /// Decode a JSON-like node as an unsigned 64-bit scalar: accepts
    /// exactly the string-tagged nodes whose text `codec::spec_parse_u64`
    /// accepts.
    pub fn decode(value: &GraphValue) -> (r: Result<UInt64Scalar, DecodeError>)
        ensures
            match r {
                Ok(sc) => *value matches GraphValue::String(s) && codec::spec_parse_u64(s@)
                    == Some(sc.0),
                Err(e) => match e {
                    DecodeError::Format(fe) => *value matches GraphValue::String(s)
                        && codec::spec_parse_u64(s@) is None && fe.input@ == s@,
                    DecodeError::IncorrectType { expected, actual } => !(*value is String)
                        && expected@ == "String"@ && actual == value.spec_tag(),
                },
            },
    {
        match value {
            GraphValue::String(s) => match codec::decode_u64(s.as_str()) {
                Ok(v) => Ok(UInt64Scalar(v)),
                Err(e) => Err(DecodeError::Format(e)),
            },
            _ => Err(
                DecodeError::IncorrectType {
                    expected: String::from_str("String"),
                    actual: value.tag(),
                },
            ),
        }
    }

    /// Encode this scalar as a JSON-like node: always succeeds with a
    /// string-tagged node holding the canonical decimal text.
    pub fn encode(&self) -> (r: Result<GraphValue, SerializeError>)
        ensures
            r matches Ok(v) && v matches GraphValue::String(s) && s@ == codec::spec_encode_u64(
                self.0,
            ),
    {
        Ok(GraphValue::String(codec::encode_u64(self.0)))
    }

    /// Serialize this scalar as a query argument literal: identical to
    /// `encode`, as the host models the two capabilities separately.
    pub fn serialize(&self) -> (r: Result<GraphValue, SerializeError>)
        ensures
            r matches Ok(v) && v matches GraphValue::String(s) && s@ == codec::spec_encode_u64(
                self.0,
            ),
    {
        Ok(GraphValue::String(codec::encode_u64(self.0)))
    }
}

} // verus!
