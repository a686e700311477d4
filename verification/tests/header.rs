use dot11::body::BodyInformation;
use dot11::error::DecodeError;
use dot11::frame_control::{FrameControl, FrameSubType, FrameType};
use dot11::header::Dot11Header;

const ADDR1: [u8; 6] = [0x00, 0x11, 0x22, 0x33, 0x44, 0x55];
const ADDR2: [u8; 6] = [0x66, 0x77, 0x88, 0x99, 0xaa, 0xbb];
const ADDR3: [u8; 6] = [0xcc, 0xdd, 0xee, 0xff, 0x01, 0x02];

const TEXT1: &str = "00:11:22:33:44:55";
const TEXT2: &str = "66:77:88:99:aa:bb";
const TEXT3: &str = "cc:dd:ee:ff:01:02";

fn frame(first: u8, flags: u8, body: &[u8]) -> Vec<u8> {
    let mut bytes = vec![first, flags, 0x3a, 0x01];
    bytes.extend_from_slice(&ADDR1);
    bytes.extend_from_slice(&ADDR2);
    bytes.extend_from_slice(&ADDR3);
    bytes.extend_from_slice(&[0x70, 0x71]);
    bytes.extend_from_slice(&[0x0a, 0x0b, 0x0c, 0x0d]);
    bytes.extend_from_slice(&[0xe0, 0xe1]);
    bytes.extend_from_slice(body);
    bytes
}

fn control(frame_type: FrameType, frame_subtype: FrameSubType, to_ds: bool, from_ds: bool) -> FrameControl {
    FrameControl {
        frame_type,
        frame_subtype,
        to_ds,
        from_ds,
        more_flag: false,
        retry: false,
        pwr_mgmt: false,
        more_data: false,
        wep: false,
        order: false,
    }
}

fn address_block() -> Vec<u8> {
    frame(0, 0, &[])[4..28].to_vec()
}

#[test]
fn beacon_frame_of_thirty_bytes() {
    let bytes = frame(0x80, 0x00, &[]);
    assert_eq!(bytes.len(), 30);
    let header = Dot11Header::from_bytes(&bytes).unwrap();
    assert_eq!(header.frame_control.frame_type, FrameType::Management);
    assert_eq!(header.frame_control.frame_subtype, FrameSubType::Beacon);
    assert!(!header.frame_control.to_ds);
    assert!(!header.frame_control.from_ds);
    assert_eq!(header.dst, TEXT1);
    assert_eq!(header.src, TEXT2);
    assert_eq!(header.bssid, TEXT3);
    assert_eq!(header.info, BodyInformation::Beacon(vec![]));
}

#[test]
fn raw_fields_keep_their_bytes() {
    let header = Dot11Header::from_bytes(&frame(0x80, 0x00, &[1, 2, 3])).unwrap();
    assert_eq!(header.duration, [0x3a, 0x01]);
    assert_eq!(header.seq_ctl, [0xe0, 0xe1]);
}

#[test]
fn body_is_what_follows_the_header() {
    let header = Dot11Header::from_bytes(&frame(0x80, 0x00, &[9, 8, 7, 6])).unwrap();
    assert_eq!(header.info, BodyInformation::Beacon(vec![9, 8, 7, 6]));
    let long_body: Vec<u8> = (0..200).collect();
    let header = Dot11Header::from_bytes(&frame(0x40, 0x00, &long_body)).unwrap();
    assert_eq!(header.info, BodyInformation::ProbeRequest(long_body));
}

#[test]
fn short_frame_is_truncated_whatever_it_holds() {
    let full = frame(0x80, 0x00, &[]);
    for len in 0..30 {
        assert_eq!(
            Dot11Header::from_bytes(&full[..len]),
            Err(DecodeError::TruncatedInput)
        );
        assert_eq!(
            Dot11Header::from_bytes(&vec![0xff; len]),
            Err(DecodeError::TruncatedInput)
        );
        assert_eq!(
            Dot11Header::from_bytes(&vec![0x00; len]),
            Err(DecodeError::TruncatedInput)
        );
    }
}

#[test]
fn unsupported_version_in_a_full_frame() {
    for version in 1..4u8 {
        assert_eq!(
            Dot11Header::from_bytes(&frame(0x80 | version, 0x00, &[1, 2])),
            Err(DecodeError::UnsupportedProtocolVersion)
        );
    }
}

#[test]
fn data_frame_with_unlisted_subtype() {
    let header = Dot11Header::from_bytes(&frame(0x98, 0x00, &[5, 5, 5])).unwrap();
    assert_eq!(header.frame_control.frame_type, FrameType::Data);
    assert_eq!(header.frame_control.frame_subtype, FrameSubType::UnHandled);
    assert_eq!(header.info, BodyInformation::UnHandled(true));
}

#[test]
fn decoding_twice_gives_equal_headers() {
    for bytes in [
        frame(0x80, 0x00, &[1, 2, 3]),
        frame(0x08, 0x03, &[]),
        frame(0x50, 0x41, &[0xff; 40]),
        frame(0x81, 0x00, &[]),
        vec![0x80; 12],
    ] {
        let first = Dot11Header::from_bytes(&bytes);
        let second = Dot11Header::from_bytes(&bytes);
        assert_eq!(first, second);
    }
}

#[test]
fn roles_follow_the_flags_of_the_frame() {
    let header = Dot11Header::from_bytes(&frame(0x08, 0x01, &[])).unwrap();
    assert!(header.frame_control.to_ds && !header.frame_control.from_ds);
    assert_eq!((header.dst.as_str(), header.src.as_str(), header.bssid.as_str()), (TEXT2, TEXT3, TEXT1));

    let header = Dot11Header::from_bytes(&frame(0x08, 0x02, &[])).unwrap();
    assert!(!header.frame_control.to_ds && header.frame_control.from_ds);
    assert_eq!((header.dst.as_str(), header.src.as_str(), header.bssid.as_str()), (TEXT3, TEXT1, TEXT2));

    let header = Dot11Header::from_bytes(&frame(0x08, 0x03, &[])).unwrap();
    assert!(header.frame_control.to_ds && header.frame_control.from_ds);
    assert_eq!((header.dst.as_str(), header.src.as_str(), header.bssid.as_str()), (TEXT3, "0a:0b:0c:0d:00:00", ""));
}

#[test]
fn parse_address_without_distribution_system() {
    let roles = Dot11Header::parse_address(
        control(FrameType::Data, FrameSubType::Data, false, false),
        &address_block(),
    );
    assert_eq!(
        roles,
        Ok((TEXT1.to_string(), TEXT2.to_string(), TEXT3.to_string()))
    );
}

#[test]
fn parse_address_to_distribution_system() {
    let roles = Dot11Header::parse_address(
        control(FrameType::Data, FrameSubType::Data, true, false),
        &address_block(),
    );
    assert_eq!(
        roles,
        Ok((TEXT2.to_string(), TEXT3.to_string(), TEXT1.to_string()))
    );
}

#[test]
fn parse_address_from_distribution_system() {
    let roles = Dot11Header::parse_address(
        control(FrameType::Data, FrameSubType::Data, false, true),
        &address_block(),
    );
    assert_eq!(
        roles,
        Ok((TEXT3.to_string(), TEXT1.to_string(), TEXT2.to_string()))
    );
}

#[test]
fn parse_address_between_access_points() {
    let mut block = address_block();
    block.extend_from_slice(&[0x0e, 0x0f]);
    let roles = Dot11Header::parse_address(
        control(FrameType::Data, FrameSubType::Data, true, true),
        &block,
    );
    assert_eq!(
        roles,
        Ok((TEXT3.to_string(), "0a:0b:0c:0d:0e:0f".to_string(), String::new()))
    );
}

#[test]
fn parse_address_needs_the_whole_block() {
    let block = address_block();
    for len in 0..24 {
        for (to_ds, from_ds) in [(false, false), (false, true), (true, false), (true, true)] {
            assert_eq!(
                Dot11Header::parse_address(
                    control(FrameType::Management, FrameSubType::Beacon, to_ds, from_ds),
                    &block[..len]
                ),
                Err(DecodeError::TruncatedInput)
            );
        }
    }
}

#[test]
fn parse_body_selects_the_five_management_bodies() {
    let body = [0xde, 0xad, 0xbe, 0xef];
    let select = |subtype| Dot11Header::parse_body(control(FrameType::Management, subtype, false, false), &body);
    assert_eq!(select(FrameSubType::Beacon), BodyInformation::Beacon(body.to_vec()));
    assert_eq!(select(FrameSubType::ProbeReq), BodyInformation::ProbeRequest(body.to_vec()));
    assert_eq!(select(FrameSubType::ProbeResp), BodyInformation::ProbeResponse(body.to_vec()));
    assert_eq!(select(FrameSubType::AssoReq), BodyInformation::AssociationRequest(body.to_vec()));
    assert_eq!(select(FrameSubType::AssoResp), BodyInformation::AssociationResponse(body.to_vec()));
}

#[test]
fn parse_body_leaves_other_management_frames_unhandled() {
    for subtype in [
        FrameSubType::ReassoReq,
        FrameSubType::ReassoResp,
        FrameSubType::Atim,
        FrameSubType::Disasso,
        FrameSubType::Auth,
        FrameSubType::Deauth,
        FrameSubType::Data,
        FrameSubType::QoS,
        FrameSubType::Reserved,
        FrameSubType::UnHandled,
    ] {
        assert_eq!(
            Dot11Header::parse_body(control(FrameType::Management, subtype, false, false), &[1, 2, 3]),
            BodyInformation::UnHandled(true)
        );
    }
}

#[test]
fn parse_body_leaves_other_frame_types_unhandled() {
    for frame_type in [FrameType::Control, FrameType::Data, FrameType::Unknown] {
        for subtype in [
            FrameSubType::Beacon,
            FrameSubType::ProbeReq,
            FrameSubType::ProbeResp,
            FrameSubType::AssoReq,
            FrameSubType::AssoResp,
        ] {
            assert_eq!(
                Dot11Header::parse_body(control(frame_type, subtype, true, false), &[1, 2, 3]),
                BodyInformation::UnHandled(true)
            );
        }
    }
}

#[test]
fn malformed_body_does_not_fail_the_header() {
    for body in [vec![], vec![0xff], vec![0x00; 3], vec![0xff; 500]] {
        let header = Dot11Header::from_bytes(&frame(0x10, 0x00, &body)).unwrap();
        assert_eq!(header.info, BodyInformation::AssociationResponse(body));
    }
}

#[test]
fn control_frame_with_beacon_code_is_unhandled() {
    let header = Dot11Header::from_bytes(&frame(0x84, 0x00, &[1])).unwrap();
    assert_eq!(header.frame_control.frame_type, FrameType::Control);
    assert_eq!(header.frame_control.frame_subtype, FrameSubType::Beacon);
    assert_eq!(header.info, BodyInformation::UnHandled(true));
}
