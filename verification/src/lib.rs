//! Client core for a device-parameter exchange protocol: netstring framing,
//! JSON request envelopes, a sans-IO connection engine, and the parameter
//! mapping contract.

pub mod dto;
pub mod json;
pub mod mapping;
pub mod netcom;
pub mod netstring;
pub mod ops;
pub mod wire;

use vstd::prelude::*;

verus! {

/// Port the protocol's peers listen on unless told otherwise.
pub const DEFAULT_PORT: u16 = 7878;

} // verus!
