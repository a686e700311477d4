//! The header of a frame, assembled from its parts.
//!
//! Offsets from the start of the frame:
//!
//! ```text
//! 0..2   frame control
//! 2..4   duration
//! 4..28  address block
//! 28..30 sequence control
//! 30..   body
//! ```

use crate::addresses::{field_at, FrameAddresses, ADDRESS_BLOCK_LEN};
use crate::body::{BodyInformation, BodyView};
use crate::buffer::{read, read_to_end, reader_over};
use crate::error::DecodeError;
use crate::frame_control::{version_bits, FrameControl, FrameSubType, FrameType};
use crate::mac::mac_text;
use vstd::prelude::*;
use vstd::slice::slice_to_vec;

verus! {

/// The least number of bytes that a header is decoded from.
pub const HEADER_LEN: usize = 30;

/// A decoded frame: its control field, the raw duration and sequence-control
/// fields, the addresses by role, and the body.
#[derive(Clone, PartialEq, Eq, Debug)]
pub struct Dot11Header {
    pub frame_control: FrameControl,
    pub duration: [u8; 2],
    pub dst: String,
    pub src: String,
    pub bssid: String,
    pub seq_ctl: [u8; 2],
    pub info: BodyInformation,
}

/// A decoded frame as plain sequences.
pub struct HeaderView {
    pub frame_control: FrameControl,
    pub duration: Seq<u8>,
    pub dst: Seq<char>,
    pub src: Seq<char>,
    pub bssid: Seq<char>,
    pub seq_ctl: Seq<u8>,
    pub info: BodyView,
}

impl View for Dot11Header {
    type V = HeaderView;

    open spec fn view(&self) -> HeaderView {
        HeaderView {
            frame_control: self.frame_control,
            duration: self.duration@,
            dst: self.dst@,
            src: self.src@,
            bssid: self.bssid@,
            seq_ctl: self.seq_ctl@,
            info: self.info@,
        }
    }
}

/// The outcome of a decoding with the header, if there is one, as its view.
pub open spec fn outcome_view(res: Result<Dot11Header, DecodeError>) -> Result<
    HeaderView,
    DecodeError,
> {
    match res {
        Ok(header) => Ok(header@),
        Err(e) => Err(e),
    }
}

impl Dot11Header {
    /// The header that a frame of at least thirty bytes with the control
    /// field `control` holds.
    pub open spec fn assembled(control: FrameControl, input: Seq<u8>) -> HeaderView
        recommends
            input.len() >= HEADER_LEN,
    {
        let roles = FrameAddresses::laid_out(input.subrange(4, 28)).roles(
            control.to_ds,
            control.from_ds,
        );
        HeaderView {
            frame_control: control,
            duration: input.subrange(2, 4),
            dst: roles.0,
            src: roles.1,
            bssid: roles.2,
            seq_ctl: input.subrange(28, 30),
            info: BodyView::selected(control, input.skip(30)),
        }
    }

    /// What decoding `input` gives: a header, or the reason why there is
    /// none. The length is looked at first, then the control field.
    pub open spec fn decoded(input: Seq<u8>) -> Result<HeaderView, DecodeError> {
        if input.len() < HEADER_LEN {
            Err(DecodeError::TruncatedInput)
        } else {
            match FrameControl::decoded(input.subrange(0, 2)) {
                Ok(control) => Ok(Self::assembled(control, input)),
                Err(e) => Err(e),
            }
        }
    }

    /// Decodes one raw frame.
    pub fn from_bytes(input: &[u8]) -> (res: Result<Dot11Header, DecodeError>)
        ensures
            outcome_view(res) == Self::decoded(input@),
            input@.len() < HEADER_LEN ==> res matches Err(DecodeError::TruncatedInput),
            input@.len() >= HEADER_LEN && version_bits(input@[0]) != 0 ==> res matches Err(
                DecodeError::UnsupportedProtocolVersion,
            ),
            input@.len() >= HEADER_LEN && version_bits(input@[0]) == 0 ==> res is Ok,
    {
        if input.len() < HEADER_LEN {
            return Err(DecodeError::TruncatedInput);
        }
        let mut reader = reader_over(input);

        let mut control: [u8; 2] = [0; 2];
        read(&mut reader, &mut control);
        assert(control@ =~= input@.subrange(0, 2));
        let frame_control = match FrameControl::from_bytes(&control) {
            Ok(frame_control) => frame_control,
            Err(e) => {
                return Err(e);
            },
        };

        let mut duration: [u8; 2] = [0; 2];
        read(&mut reader, &mut duration);
        assert(duration@ =~= input@.subrange(2, 4));

        let mut mac_addresses: [u8; 24] = [0; 24];
        read(&mut reader, &mut mac_addresses);
        assert(mac_addresses@ =~= input@.subrange(4, 28));

        let (dst, src, bssid) = match Dot11Header::parse_address(frame_control, &mac_addresses) {
            Ok(roles) => roles,
            Err(e) => {
                return Err(e);
            },
        };

        let mut seq_ctl: [u8; 2] = [0; 2];
        read(&mut reader, &mut seq_ctl);
        assert(seq_ctl@ =~= input@.subrange(28, 30));

        let body = read_to_end(&mut reader);
        assert(body@ =~= input@.skip(30));

        let body_information = Dot11Header::parse_body(frame_control, body.as_slice());

        let header = Dot11Header {
            frame_control,
            duration,
            dst,
            src,
            bssid,
            seq_ctl,
            info: body_information,
        };
        Ok(header)
    }

    /// Names the destination, the source and the BSSID among the addresses
    /// of the block `input`, by the distribution-system flags of
    /// `frame_control`.
    pub fn parse_address(frame_control: FrameControl, input: &[u8]) -> (res: Result<
        (String, String, String),
        DecodeError,
    >)
        ensures
            res is Err <==> input@.len() < ADDRESS_BLOCK_LEN,
            res matches Err(e) ==> e == DecodeError::TruncatedInput,
            res matches Ok(roles) ==> (roles.0@, roles.1@, roles.2@) == FrameAddresses::laid_out(
                input@,
            ).roles(frame_control.to_ds, frame_control.from_ds),
            res matches Ok(roles) ==> {
                let fields = FrameAddresses::laid_out(input@);
                &&& frame_control.to_ds && frame_control.from_ds ==> roles.0@ == fields.addr3
                    && roles.1@ == fields.addr4 && roles.2@ == Seq::<char>::empty()
                &&& frame_control.to_ds && !frame_control.from_ds ==> roles.0@ == fields.addr2
                    && roles.1@ == fields.addr3 && roles.2@ == fields.addr1
                &&& !frame_control.to_ds && frame_control.from_ds ==> roles.0@ == fields.addr3
                    && roles.1@ == fields.addr1 && roles.2@ == fields.addr2
                &&& !frame_control.to_ds && !frame_control.from_ds ==> roles.0@ == fields.addr1
                    && roles.1@ == fields.addr2 && roles.2@ == fields.addr3
            },
    {
        let addresses = match FrameAddresses::from_bytes(input) {
            Ok(addresses) => addresses,
            Err(e) => {
                return Err(e);
            },
        };
        let FrameAddresses { addr1, addr2, addr3, addr4 } = addresses;

        let roles = match (frame_control.to_ds, frame_control.from_ds) {
            (true, true) => (addr3.addr, addr4.addr, String::new()),
            (true, false) => (addr2.addr, addr3.addr, addr1.addr),
            (false, true) => (addr3.addr, addr1.addr, addr2.addr),
            (false, false) => (addr1.addr, addr2.addr, addr3.addr),
        };
        Ok(roles)
    }

    /// Selects the body variant for a frame and hands it the bytes of the
    /// body.
    pub fn parse_body(frame_control: FrameControl, input: &[u8]) -> (info: BodyInformation)
        ensures
            info@ == BodyView::selected(frame_control, input@),
    {
        match (frame_control.frame_type, frame_control.frame_subtype) {
            (FrameType::Management, FrameSubType::Beacon) => BodyInformation::Beacon(
                slice_to_vec(input),
            ),
            (FrameType::Management, FrameSubType::ProbeReq) => BodyInformation::ProbeRequest(
                slice_to_vec(input),
            ),
            (FrameType::Management, FrameSubType::ProbeResp) => BodyInformation::ProbeResponse(
                slice_to_vec(input),
            ),
            (FrameType::Management, FrameSubType::AssoReq) => BodyInformation::AssociationRequest(
                slice_to_vec(input),
            ),
            (FrameType::Management, FrameSubType::AssoResp) => BodyInformation::AssociationResponse(
                slice_to_vec(input),
            ),
            _ => BodyInformation::UnHandled(true),
        }
    }
}

/// Decoding keeps no state between calls: whatever two decodings of the same
/// bytes return, both fail with the same error or both give headers that are
/// equal field by field.
pub proof fn decoding_is_repeatable(
    input: Seq<u8>,
    first: Result<Dot11Header, DecodeError>,
    second: Result<Dot11Header, DecodeError>,
)
    requires
        outcome_view(first) == Dot11Header::decoded(input),
        outcome_view(second) == Dot11Header::decoded(input),
    ensures
        outcome_view(first) == outcome_view(second),
        first is Ok <==> second is Ok,
        first matches Ok(a) ==> second matches Ok(b) ==> a@ == b@,
        first matches Err(e) ==> second matches Err(f) ==> e == f,
{
}

/// A frame of fewer than thirty bytes is refused as truncated whatever it
/// holds, a wrong protocol version included.
pub proof fn short_frame_is_truncated(input: Seq<u8>)
    requires
        input.len() < HEADER_LEN,
    ensures
        Dot11Header::decoded(input) == Err::<HeaderView, DecodeError>(DecodeError::TruncatedInput),
{
}

/// Where the address fields of a frame lie: the first three are the bytes
/// 4..10, 10..16 and 16..22; the fourth is the bytes 24..28, which end the
/// address block, followed by two zero octets.
pub proof fn address_fields_of_a_frame(input: Seq<u8>)
    requires
        input.len() >= HEADER_LEN,
    ensures
        ({
            let fields = FrameAddresses::laid_out(input.subrange(4, 28));
            &&& fields.addr1 == mac_text(input.subrange(4, 10))
            &&& fields.addr2 == mac_text(input.subrange(10, 16))
            &&& fields.addr3 == mac_text(input.subrange(16, 22))
            &&& fields.addr4 == mac_text(input.subrange(24, 28) + seq![0u8, 0u8])
        }),
{
    let block = input.subrange(4, 28);
    assert(field_at(block, 0) =~= input.subrange(4, 10));
    assert(field_at(block, 6) =~= input.subrange(10, 16));
    assert(field_at(block, 12) =~= input.subrange(16, 22));
    assert(field_at(block, 20) =~= input.subrange(24, 28) + seq![0u8, 0u8]);
}

} // verus!
