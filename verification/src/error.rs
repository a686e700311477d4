//! The ways in which decoding fails.

use vstd::prelude::*;

verus! {

/// Why a frame, or one of its fields, could not be decoded.
#[derive(Copy, Clone, PartialEq, Eq, Hash, Debug, Structural)]
pub enum DecodeError {
    /// Fewer bytes were supplied than the fixed-size field needs.
    TruncatedInput,
    /// The protocol-version bits of the frame-control field are not zero.
    UnsupportedProtocolVersion,
}

} // verus!
