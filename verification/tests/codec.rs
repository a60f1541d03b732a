use pcp_portmap::addr::{Ipv4, Ipv6};
use pcp_portmap::proto::opcode_data::{InvalidOpcodeData, MapData, OpcodeData};
use pcp_portmap::proto::request::Request;
use pcp_portmap::proto::response::{DecodeError, Response, MAX_SIZE};
use pcp_portmap::proto::{Opcode, Version};

const NONCE: [u8; 12] = [1, 2, 3, 4, 5, 6, 7, 8, 9, 10, 11, 12];

fn map_request() -> Request {
    Request::mapping(NONCE, 6, 30080, Ipv4::new(10, 0, 0, 5), Some(8080), None, 7200)
}

fn map_request_bytes() -> Vec<u8> {
    let mut b = vec![2, 1, 0, 0, 0, 0, 0x1c, 0x20];
    b.extend_from_slice(&[0, 0, 0, 0, 0, 0, 0, 0, 0, 0, 0xff, 0xff, 10, 0, 0, 5]);
    b.extend_from_slice(&NONCE);
    b.extend_from_slice(&[6, 0, 0, 0, 0x75, 0x80, 0x1f, 0x90]);
    b.extend_from_slice(&[0, 0, 0, 0, 0, 0, 0, 0, 0, 0, 0xff, 0xff, 0, 0, 0, 0]);
    b
}

fn map_response_bytes() -> Vec<u8> {
    let mut b = vec![2, 0x81, 0, 0, 0, 0, 0x1c, 0x20, 0, 0, 0x01, 0x02];
    b.extend_from_slice(&[0; 12]);
    b.extend_from_slice(&NONCE);
    b.extend_from_slice(&[6, 0, 0, 0, 0x75, 0x80, 0x1f, 0x90]);
    b.extend_from_slice(&[0, 0, 0, 0, 0, 0, 0, 0, 0, 0, 0xff, 0xff, 203, 0, 113, 9]);
    b
}

#[test]
fn version_and_opcode_numbers() {
    assert_eq!(Version::Pcp.to_u8(), 2);
    assert_eq!(Version::from_u8(2), Some(Version::Pcp));
    assert_eq!(Version::from_u8(1), None);
    assert_eq!(Opcode::Announce.to_u8(), 0);
    assert_eq!(Opcode::Mapping.to_u8(), 1);
    assert_eq!(Opcode::from_u8(0), Some(Opcode::Announce));
    assert_eq!(Opcode::from_u8(1), Some(Opcode::Mapping));
    assert_eq!(Opcode::from_u8(2), None);
}

#[test]
fn announce_request_is_a_bare_header() {
    let req = Request::announce(Ipv4::new(192, 168, 1, 7).to_ipv6_mapped());
    assert_eq!(req.lifetime_seconds, 0);
    assert_eq!(
        req.encode(),
        vec![2, 0, 0, 0, 0, 0, 0, 0, 0, 0, 0, 0, 0, 0, 0, 0, 0, 0, 0xff, 0xff, 192, 168, 1, 7]
    );
}

#[test]
fn map_request_is_sixty_octets() {
    let bytes = map_request().encode();
    assert_eq!(bytes.len(), 60);
    assert_eq!(bytes, map_request_bytes());
}

#[test]
fn map_request_without_preference_asks_for_port_zero() {
    let req = Request::mapping(NONCE, 17, 53, Ipv4::new(10, 0, 0, 5), None, None, 0);
    let bytes = req.encode();
    assert_eq!(&bytes[4..8], &[0, 0, 0, 0]);
    assert_eq!(bytes[36], 17);
    assert_eq!(&bytes[40..44], &[0, 53, 0, 0]);
}

#[test]
fn map_request_with_preferred_address() {
    let req = Request::mapping(
        NONCE,
        6,
        1,
        Ipv4::new(10, 0, 0, 5),
        Some(65535),
        Some(Ipv4::new(198, 51, 100, 4)),
        1,
    );
    let bytes = req.encode();
    assert_eq!(&bytes[42..44], &[0xff, 0xff]);
    assert_eq!(&bytes[44..60], &[0, 0, 0, 0, 0, 0, 0, 0, 0, 0, 0xff, 0xff, 198, 51, 100, 4]);
}

#[test]
fn request_round_trip() {
    let req = map_request();
    let back = Request::decode(&req.encode()).unwrap();
    assert_eq!(back.version, Version::Pcp);
    assert_eq!(back.lifetime_seconds, 7200);
    assert_eq!(back.client_addr.octets, req.client_addr.octets);
    match (back.opcode_data, req.opcode_data) {
        (OpcodeData::MapData(a), OpcodeData::MapData(b)) => {
            assert_eq!(a.nonce, b.nonce);
            assert_eq!(a.protocol, b.protocol);
            assert_eq!(a.local_port, b.local_port);
            assert_eq!(a.external_port, b.external_port);
            assert_eq!(a.external_address.octets, b.external_address.octets);
        }
        _ => panic!("opcode data changed"),
    }
    let probe = Request::announce(Ipv6 { octets: [9; 16] });
    let back = Request::decode(&probe.encode()).unwrap();
    assert!(matches!(back.opcode_data, OpcodeData::Announce));
    assert_eq!(back.client_addr.octets, [9; 16]);
}

#[test]
fn request_decode_rejects_a_response() {
    assert_eq!(Request::decode(&map_response_bytes()).unwrap_err(), DecodeError::NotARequest);
}

#[test]
fn response_decodes_field_by_field() {
    let r = Response::decode(&map_response_bytes()).unwrap();
    assert_eq!(r.result_code, 0);
    assert!(r.is_success());
    assert_eq!(r.lifetime_seconds, 7200);
    assert_eq!(r.epoch_time, 258);
    match r.data {
        OpcodeData::MapData(m) => {
            assert_eq!(m.nonce, NONCE);
            assert_eq!(m.protocol, 6);
            assert_eq!(m.local_port, 30080);
            assert_eq!(m.external_port, 8080);
            assert_eq!(m.external_address.octets, Ipv4::new(203, 0, 113, 9).to_ipv6_mapped().octets);
        }
        OpcodeData::Announce => panic!("not an announce"),
    }
}

#[test]
fn response_round_trip() {
    let r = Response::decode(&map_response_bytes()).unwrap();
    assert_eq!(r.encode(), map_response_bytes());
    let announce = Response {
        result_code: 0,
        lifetime_seconds: 0xdead_beef,
        epoch_time: 0x0102_0304,
        data: OpcodeData::Announce,
    };
    let bytes = announce.encode();
    assert_eq!(bytes.len(), 24);
    assert_eq!(&bytes[..12], &[2, 0x80, 0, 0, 0xde, 0xad, 0xbe, 0xef, 1, 2, 3, 4]);
    let back = Response::decode(&bytes).unwrap();
    assert_eq!(back.lifetime_seconds, 0xdead_beef);
    assert_eq!(back.epoch_time, 0x0102_0304);
    assert!(matches!(back.data, OpcodeData::Announce));
}

#[test]
fn response_keeps_the_result_code() {
    let mut bytes = map_response_bytes();
    bytes[3] = 8;
    let r = Response::decode(&bytes).unwrap();
    assert_eq!(r.result_code, 8);
    assert!(!r.is_success());
}

#[test]
fn response_shorter_than_a_header_is_malformed() {
    assert_eq!(Response::decode(&[]).unwrap_err(), DecodeError::Malformed);
    assert_eq!(Response::decode(&map_response_bytes()[..23]).unwrap_err(), DecodeError::Malformed);
}

#[test]
fn response_longer_than_the_maximum_is_oversized() {
    let mut bytes = map_response_bytes();
    bytes.resize(MAX_SIZE, 0);
    assert!(Response::decode(&bytes).is_ok());
    bytes.push(0);
    assert_eq!(Response::decode(&bytes).unwrap_err(), DecodeError::Oversized);
}

#[test]
fn response_with_another_version_is_rejected() {
    let mut bytes = map_response_bytes();
    bytes[0] = 1;
    assert_eq!(Response::decode(&bytes).unwrap_err(), DecodeError::UnsupportedVersion(1));
}

#[test]
fn response_without_the_response_bit_is_rejected() {
    assert_eq!(Response::decode(&map_request_bytes()).unwrap_err(), DecodeError::NotAResponse);
}

#[test]
fn response_with_peer_opcode_is_rejected() {
    let mut bytes = map_response_bytes();
    bytes[1] = 0x82;
    assert_eq!(Response::decode(&bytes).unwrap_err(), DecodeError::UnsupportedOpcode(2));
}

#[test]
fn map_response_with_short_data_is_rejected() {
    let bytes = map_response_bytes();
    assert_eq!(Response::decode(&bytes[..59]).unwrap_err(), DecodeError::InvalidOpcodeData);
    assert_eq!(Response::decode(&bytes[..24]).unwrap_err(), DecodeError::InvalidOpcodeData);
}

#[test]
fn options_after_the_data_are_ignored() {
    let mut bytes = map_response_bytes();
    bytes.extend_from_slice(&[1, 0, 0, 4, 9, 9, 9, 9]);
    let r = Response::decode(&bytes).unwrap();
    assert!(matches!(r.data, OpcodeData::MapData(m) if m.external_port == 8080));
    let mut announce = vec![2, 0x80, 0, 0, 0, 0, 0, 0, 0, 0, 0, 0];
    announce.extend_from_slice(&[0; 12]);
    announce.extend_from_slice(&[5; 40]);
    assert!(matches!(Response::decode(&announce).unwrap().data, OpcodeData::Announce));
}

#[test]
fn map_data_decode_and_encode() {
    let bytes = map_response_bytes();
    let m = MapData::decode(&bytes[24..]).unwrap();
    let mut out = vec![0xaa];
    m.encode_into(&mut out);
    assert_eq!(out[0], 0xaa);
    assert_eq!(&out[1..], &bytes[24..]);
    assert_eq!(MapData::decode(&bytes[24..59]).unwrap_err(), InvalidOpcodeData);
    assert_eq!(OpcodeData::MapData(m).encoded_size(), 36);
    assert_eq!(OpcodeData::Announce.encoded_size(), 0);
    assert_eq!(OpcodeData::MapData(m).opcode(), Opcode::Mapping);
    assert_eq!(OpcodeData::Announce.opcode(), Opcode::Announce);
    assert!(matches!(OpcodeData::decode(Opcode::Announce, &[]), Ok(OpcodeData::Announce)));
    assert!(OpcodeData::decode(Opcode::Mapping, &[]).is_err());
}

#[test]
fn request_decode_errors() {
    let bytes = map_request_bytes();
    assert_eq!(Request::decode(&bytes[..10]).unwrap_err(), DecodeError::Malformed);
    assert_eq!(Request::decode(&vec![2; 1101]).unwrap_err(), DecodeError::Oversized);
    let mut other_version = bytes.clone();
    other_version[0] = 0;
    assert_eq!(Request::decode(&other_version).unwrap_err(), DecodeError::UnsupportedVersion(0));
    let mut peer = bytes.clone();
    peer[1] = 2;
    assert_eq!(Request::decode(&peer).unwrap_err(), DecodeError::UnsupportedOpcode(2));
    assert_eq!(Request::decode(&bytes[..40]).unwrap_err(), DecodeError::InvalidOpcodeData);
}

#[test]
fn lifetime_and_epoch_are_big_endian() {
    let mut bytes = map_response_bytes();
    bytes[4..8].copy_from_slice(&[0x01, 0x02, 0x03, 0x04]);
    bytes[8..12].copy_from_slice(&[0xff, 0xfe, 0xfd, 0xfc]);
    let r = Response::decode(&bytes).unwrap();
    assert_eq!(r.lifetime_seconds, 0x0102_0304);
    assert_eq!(r.epoch_time, 0xfffe_fdfc);
}
