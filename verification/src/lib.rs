//! 64-bit integer scalars carried as decimal strings.
//!
//! GraphQL transports commonly move numbers through a float-safe numeric
//! type that cannot hold the full 64-bit range without loss, so these two
//! wrapper types travel as decimal strings instead.  The crate provides the
//! textual codec (decimal string to integer and back) and two adapter
//! surfaces over a tagged value tree: a server-side one (`parse` /
//! `to_value`) and a client-side one (`decode` / `encode` / `serialize`).

use vstd::prelude::*;

pub mod client;
pub mod codec;
pub mod server;
pub mod value;

verus! {

/// A 64-bit signed integer scalar, transported as a decimal string.
#[derive(Debug, Clone, Copy, PartialEq, Eq, Structural)]
pub struct Int64Scalar(pub i64);

/// A 64-bit unsigned integer scalar, transported as a decimal string.
#[derive(Debug, Clone, Copy, PartialEq, Eq, Structural)]
pub struct UInt64Scalar(pub u64);

} // verus!
