//! The body of a frame: which decoder it is meant for, and the bytes that the
//! decoder gets.

use crate::frame_control::{FrameControl, FrameSubType, FrameType};
use vstd::prelude::*;

verus! {

/// The body of a frame, tagged with the kind of management body that its
/// bytes are to be read as.
///
/// The bytes are handed on as they came: reading them is left to the decoder
/// of each kind, so that a malformed body never fails the header.
#[derive(Clone, PartialEq, Eq, Debug)]
pub enum BodyInformation {
    Beacon(Vec<u8>),
    ProbeRequest(Vec<u8>),
    ProbeResponse(Vec<u8>),
    AssociationRequest(Vec<u8>),
    AssociationResponse(Vec<u8>),
    /// A frame whose body no decoder is selected for. The flag is always set.
    UnHandled(bool),
}

/// A body as a tag and a sequence of bytes.
pub enum BodyView {
    Beacon(Seq<u8>),
    ProbeRequest(Seq<u8>),
    ProbeResponse(Seq<u8>),
    AssociationRequest(Seq<u8>),
    AssociationResponse(Seq<u8>),
    UnHandled(bool),
}

impl View for BodyInformation {
    type V = BodyView;

    open spec fn view(&self) -> BodyView {
        match self {
            BodyInformation::Beacon(bytes) => BodyView::Beacon(bytes@),
            BodyInformation::ProbeRequest(bytes) => BodyView::ProbeRequest(bytes@),
            BodyInformation::ProbeResponse(bytes) => BodyView::ProbeResponse(bytes@),
            BodyInformation::AssociationRequest(bytes) => BodyView::AssociationRequest(bytes@),
            BodyInformation::AssociationResponse(bytes) => BodyView::AssociationResponse(bytes@),
            BodyInformation::UnHandled(flag) => BodyView::UnHandled(*flag),
        }
    }
}

impl BodyView {
    /// The body variant of a frame with the control field `control` and the
    /// body bytes `body`. Only five subtypes of management frames select a
    /// decoder; every other frame is unhandled.
    pub open spec fn selected(control: FrameControl, body: Seq<u8>) -> BodyView {
        match (control.frame_type, control.frame_subtype) {
            (FrameType::Management, FrameSubType::Beacon) => BodyView::Beacon(body),
            (FrameType::Management, FrameSubType::ProbeReq) => BodyView::ProbeRequest(body),
            (FrameType::Management, FrameSubType::ProbeResp) => BodyView::ProbeResponse(body),
            (FrameType::Management, FrameSubType::AssoReq) => BodyView::AssociationRequest(body),
            (FrameType::Management, FrameSubType::AssoResp) => BodyView::AssociationResponse(body),
            _ => BodyView::UnHandled(true),
        }
    }
}

} // verus!
