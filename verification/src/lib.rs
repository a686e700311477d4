//! Decoding of the MAC header of raw 802.11 frames: the frame-control field,
//! the address roles and the choice of the body variant.

pub mod addresses;
pub mod bits;
pub mod body;
pub mod buffer;
pub mod error;
pub mod frame_control;
pub mod header;
pub mod mac;
