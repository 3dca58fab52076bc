//! Builders for wire-exact IKEv1 and IKEv2 probe packets.
//!
//! Each packet is a value aggregate: its transform lists are generated and
//! normalized, its nested length fields are resolved bottom-up, and it is
//! then serialized into one big-endian byte buffer.
use vstd::prelude::*;

pub mod ike;
pub mod ikev2;
pub mod wire;

verus! {

/// Why a packet could not be built.
#[derive(Debug, Clone, Copy, PartialEq, Eq, Structural)]
pub enum BuildError {
    /// More transforms than the one-byte count field of a proposal holds.
    TooManyTransforms,
    /// A payload grew past what its 16-bit length field can hold.
    LengthOverflow,
    /// The Diffie-Hellman key material could not be produced.
    KeyMaterial,
}

} // verus!
