//! The frame-control field: the first two bytes of every 802.11 MAC header.

use crate::bits::{bit_is_set, flag_is_set, flipping_a_bit_changes_one_flag, with_bit_flipped};
use crate::buffer::{cursor_over, get_u8};
use crate::error::DecodeError;
use vstd::prelude::*;

verus! {

/// The class of a frame, from bits 3..2 of the first byte.
#[derive(Copy, Clone, PartialEq, Eq, Hash, Debug, Structural)]
pub enum FrameType {
    Management,
    Control,
    Data,
    Unknown,
}

/// What a frame is within its class, from bits 7..4 of the first byte.
///
/// Data frames have a code table of their own; every other class is read by
/// the management table. A code that its table does not list is `UnHandled`.
#[derive(Copy, Clone, PartialEq, Eq, Hash, Debug, Structural)]
pub enum FrameSubType {
    AssoReq,
    AssoResp,
    ReassoReq,
    ReassoResp,
    ProbeReq,
    ProbeResp,
    Beacon,
    Atim,
    Disasso,
    Auth,
    Deauth,
    Data,
    DataCfAck,
    DataCfPull,
    DataCfAckCfPull,
    NullData,
    CfAck,
    CfPull,
    CfAckCfPull,
    QoS,
    QoSCfPull,
    QoSCfAckCfPull,
    QoSNullData,
    Reserved,
    UnHandled,
}

/// A decoded frame-control field.
#[derive(Copy, Clone, PartialEq, Eq, Debug, Structural)]
pub struct FrameControl {
    pub frame_type: FrameType,
    pub frame_subtype: FrameSubType,
    pub to_ds: bool,
    pub from_ds: bool,
    pub more_flag: bool,
    pub retry: bool,
    pub pwr_mgmt: bool,
    pub more_data: bool,
    pub wep: bool,
    pub order: bool,
}

/// Bits 1..0 of the first byte: the protocol version.
pub open spec fn version_bits(first: u8) -> int {
    first as int % 4
}

/// Bits 3..2 of the first byte: the frame-type code.
pub open spec fn type_bits(first: u8) -> int {
    (first as int / 4) % 4
}

/// Bits 7..4 of the first byte: the subtype code.
pub open spec fn subtype_bits(first: u8) -> int {
    first as int / 16
}

/// The frame type that a type code stands for.
pub open spec fn frame_type_of(code: int) -> FrameType {
    if code == 0 {
        FrameType::Management
    } else if code == 1 {
        FrameType::Control
    } else if code == 2 {
        FrameType::Data
    } else {
        FrameType::Unknown
    }
}

/// The subtype that a code stands for in a frame that is not a data frame.
pub open spec fn management_subtype_of(code: int) -> FrameSubType {
    if code == 0 {
        FrameSubType::AssoReq
    } else if code == 1 {
        FrameSubType::AssoResp
    } else if code == 2 {
        FrameSubType::ReassoReq
    } else if code == 3 {
        FrameSubType::ReassoResp
    } else if code == 4 {
        FrameSubType::ProbeReq
    } else if code == 5 {
        FrameSubType::ProbeResp
    } else if code == 8 {
        FrameSubType::Beacon
    } else if code == 9 {
        FrameSubType::Atim
    } else if code == 10 {
        FrameSubType::Disasso
    } else if code == 11 {
        FrameSubType::Auth
    } else if code == 12 {
        FrameSubType::Deauth
    } else {
        FrameSubType::UnHandled
    }
}

/// The subtype that a code stands for in a data frame.
pub open spec fn data_subtype_of(code: int) -> FrameSubType {
    if code == 0 {
        FrameSubType::Data
    } else if code == 1 {
        FrameSubType::DataCfAck
    } else if code == 2 {
        FrameSubType::DataCfPull
    } else if code == 3 {
        FrameSubType::DataCfAckCfPull
    } else if code == 4 {
        FrameSubType::NullData
    } else if code == 5 {
        FrameSubType::CfAck
    } else if code == 6 {
        FrameSubType::CfPull
    } else if code == 7 {
        FrameSubType::CfAckCfPull
    } else if code == 8 {
        FrameSubType::QoS
    } else if code == 10 {
        FrameSubType::QoSCfPull
    } else if code == 11 {
        FrameSubType::QoSCfAckCfPull
    } else if code == 12 {
        FrameSubType::QoSNullData
    } else if code == 13 {
        FrameSubType::Reserved
    } else {
        FrameSubType::UnHandled
    }
}

/// The subtype of a frame of type `frame_type` whose subtype code is `code`.
pub open spec fn subtype_of(frame_type: FrameType, code: int) -> FrameSubType {
    if frame_type == FrameType::Data {
        data_subtype_of(code)
    } else {
        management_subtype_of(code)
    }
}

impl FrameControl {
    /// The flag that bit `bit` of the second byte carries.
    pub open spec fn flag(self, bit: u8) -> bool
        recommends
            bit < 8,
    {
        if bit == 0 {
            self.to_ds
        } else if bit == 1 {
            self.from_ds
        } else if bit == 2 {
            self.more_flag
        } else if bit == 3 {
            self.retry
        } else if bit == 4 {
            self.pwr_mgmt
        } else if bit == 5 {
            self.more_data
        } else if bit == 6 {
            self.wep
        } else {
            self.order
        }
    }

    /// The field that the bytes `first` and `flags` encode, whatever the
    /// protocol version in `first`.
    pub open spec fn of_bytes(first: u8, flags: u8) -> FrameControl {
        FrameControl {
            frame_type: frame_type_of(type_bits(first)),
            frame_subtype: subtype_of(frame_type_of(type_bits(first)), subtype_bits(first)),
            to_ds: bit_is_set(flags, 0),
            from_ds: bit_is_set(flags, 1),
            more_flag: bit_is_set(flags, 2),
            retry: bit_is_set(flags, 3),
            pwr_mgmt: bit_is_set(flags, 4),
            more_data: bit_is_set(flags, 5),
            wep: bit_is_set(flags, 6),
            order: bit_is_set(flags, 7),
        }
    }

    /// What decoding `input` gives: the field in its first two bytes, or the
    /// reason why there is none.
    pub open spec fn decoded(input: Seq<u8>) -> Result<FrameControl, DecodeError> {
        if input.len() < 2 {
            Err(DecodeError::TruncatedInput)
        } else if version_bits(input[0]) != 0 {
            Err(DecodeError::UnsupportedProtocolVersion)
        } else {
            Ok(Self::of_bytes(input[0], input[1]))
        }
    }

    /// Decodes the frame-control field at the start of `input`. Bytes after
    /// the second are not looked at.
    pub fn from_bytes(input: &[u8]) -> (res: Result<FrameControl, DecodeError>)
        ensures
            res == Self::decoded(input@),
            input@.len() < 2 ==> res == Err::<FrameControl, DecodeError>(
                DecodeError::TruncatedInput,
            ),
            input@.len() >= 2 && version_bits(input@[0]) != 0 ==> res == Err::<
                FrameControl,
                DecodeError,
            >(DecodeError::UnsupportedProtocolVersion),
            input@.len() >= 2 && version_bits(input@[0]) == 0 ==> res is Ok,
            res matches Ok(control) ==> control.frame_type == frame_type_of(type_bits(input@[0]))
                && forall|bit: u8| bit < 8 ==> control.flag(bit) == bit_is_set(input@[1], bit),
    {
        if input.len() < 2 {
            return Err(DecodeError::TruncatedInput);
        }
        let mut cursor = cursor_over(input);
        let version_type_subtype = get_u8(&mut cursor);
        let flags = get_u8(&mut cursor);

        if FrameControl::protocol_version(version_type_subtype) != 0 {
            return Err(DecodeError::UnsupportedProtocolVersion);
        }
        let frame_type = FrameControl::frame_type(version_type_subtype);

        let frame_subtype = match frame_type {
            FrameType::Management => FrameControl::frame_subtype(version_type_subtype),
            FrameType::Data => FrameControl::data_frame_subtype(version_type_subtype),
            FrameType::Control => FrameControl::frame_subtype(version_type_subtype),
            FrameType::Unknown => FrameControl::frame_subtype(version_type_subtype),
        };

        let fc = FrameControl {
            frame_type,
            frame_subtype,
            to_ds: flag_is_set(flags, 0),
            from_ds: flag_is_set(flags, 1),
            more_flag: flag_is_set(flags, 2),
            retry: flag_is_set(flags, 3),
            pwr_mgmt: flag_is_set(flags, 4),
            more_data: flag_is_set(flags, 5),
            wep: flag_is_set(flags, 6),
            order: flag_is_set(flags, 7),
        };

        Ok(fc)
    }

    /// The protocol version in the two low bits of `packet`.
    pub fn protocol_version(packet: u8) -> (version: u8)
        ensures
            version == version_bits(packet),
    {
        assert(packet & 0b0000_0011 == packet % 4) by (bit_vector);
        packet & 0b0000_0011
    }

    /// The frame type in bits 3..2 of `packet`.
    pub fn frame_type(packet: u8) -> (frame_type: FrameType)
        ensures
            frame_type == frame_type_of(type_bits(packet)),
    {
        assert((packet & 0b0000_1100) >> 2 == (packet / 4) % 4) by (bit_vector);
        match (packet & 0b0000_1100) >> 2 {
            0 => FrameType::Management,
            1 => FrameType::Control,
            2 => FrameType::Data,
            _ => FrameType::Unknown,
        }
    }

    /// The subtype in bits 7..4 of `packet`, read by the table of the frames
    /// that are not data frames.
    pub fn frame_subtype(packet: u8) -> (subtype: FrameSubType)
        ensures
            subtype == management_subtype_of(subtype_bits(packet)),
    {
        assert((packet & 0b1111_0000) >> 4 == packet / 16) by (bit_vector);
        match (packet & 0b1111_0000) >> 4 {
            0 => FrameSubType::AssoReq,
            1 => FrameSubType::AssoResp,
            2 => FrameSubType::ReassoReq,
            3 => FrameSubType::ReassoResp,
            4 => FrameSubType::ProbeReq,
            5 => FrameSubType::ProbeResp,
            8 => FrameSubType::Beacon,
            9 => FrameSubType::Atim,
            10 => FrameSubType::Disasso,
            11 => FrameSubType::Auth,
            12 => FrameSubType::Deauth,
            _ => FrameSubType::UnHandled,
        }
    }

    /// The subtype in bits 7..4 of `packet`, read by the table of the data
    /// frames.
    pub fn data_frame_subtype(packet: u8) -> (subtype: FrameSubType)
        ensures
            subtype == data_subtype_of(subtype_bits(packet)),
    {
        assert((packet & 0b1111_0000) >> 4 == packet / 16) by (bit_vector);
        match (packet & 0b1111_0000) >> 4 {
            0 => FrameSubType::Data,
            1 => FrameSubType::DataCfAck,
            2 => FrameSubType::DataCfPull,
            3 => FrameSubType::DataCfAckCfPull,
            4 => FrameSubType::NullData,
            5 => FrameSubType::CfAck,
            6 => FrameSubType::CfPull,
            7 => FrameSubType::CfAckCfPull,
            8 => FrameSubType::QoS,
            10 => FrameSubType::QoSCfPull,
            11 => FrameSubType::QoSCfAckCfPull,
            12 => FrameSubType::QoSNullData,
            13 => FrameSubType::Reserved,
            _ => FrameSubType::UnHandled,
        }
    }
}

/// Every first byte whose version bits are not zero is refused, whatever
/// else the two bytes hold.
pub proof fn nonzero_version_is_refused(first: u8, flags: u8)
    requires
        version_bits(first) != 0,
    ensures
        FrameControl::decoded(seq![first, flags]) == Err::<FrameControl, DecodeError>(
            DecodeError::UnsupportedProtocolVersion,
        ),
{
}

/// With version bits zero, two bytes always decode, and the frame type is a
/// function of bits 3..2 of the first byte alone: two inputs that agree on
/// those bits get the same type, whatever their other bits.
pub proof fn frame_type_follows_type_bits(first: u8, flags: u8, other_first: u8, other_flags: u8)
    requires
        version_bits(first) == 0,
        version_bits(other_first) == 0,
        type_bits(first) == type_bits(other_first),
    ensures
        FrameControl::decoded(seq![first, flags]) is Ok,
        FrameControl::decoded(seq![other_first, other_flags]) is Ok,
        FrameControl::decoded(seq![first, flags])->Ok_0.frame_type == FrameControl::decoded(
            seq![other_first, other_flags],
        )->Ok_0.frame_type,
        FrameControl::decoded(seq![first, flags])->Ok_0.frame_type == frame_type_of(
            type_bits(first),
        ),
{
}

/// Each flag of a decoded field is the bit of the second byte that carries
/// it, whatever the other bits of the two bytes are.
pub proof fn flags_follow_their_bits(first: u8, flags: u8)
    ensures
        forall|bit: u8|
            bit < 8 ==> #[trigger] FrameControl::of_bytes(first, flags).flag(bit) == bit_is_set(
                flags,
                bit,
            ),
{
}

/// Inverting one bit of the second byte inverts the flag that the bit
/// carries and changes nothing else of the decoded field.
pub proof fn flipped_bit_changes_one_flag(first: u8, flags: u8, flipped: u8)
    requires
        flipped < 8,
    ensures
        ({
            let before = FrameControl::of_bytes(first, flags);
            let after = FrameControl::of_bytes(first, with_bit_flipped(flags, flipped));
            &&& after.flag(flipped) == !before.flag(flipped)
            &&& forall|bit: u8|
                bit < 8 && bit != flipped ==> #[trigger] after.flag(bit) == before.flag(bit)
            &&& after.frame_type == before.frame_type
            &&& after.frame_subtype == before.frame_subtype
        }),
{
    let changed = with_bit_flipped(flags, flipped);
    flags_follow_their_bits(first, flags);
    flags_follow_their_bits(first, changed);
    assert forall|bit: u8| bit < 8 implies bit_is_set(changed, bit) == (bit_is_set(flags, bit)
        != (bit == flipped)) by {
        flipping_a_bit_changes_one_flag(flags, flipped, bit);
    }
}

} // verus!
