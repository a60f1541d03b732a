use pcp_portmap::addr::{Ipv4, Ipv6};
use pcp_portmap::client::{
    validate, validate_map_data, validate_opcode_data, ValidateMapDataError,
    ValidateOpcodeDataError,
};
use pcp_portmap::proto::opcode_data::{MapData, OpcodeData};
use pcp_portmap::proto::request::Request;
use pcp_portmap::proto::response::Response;

fn map_data(nonce: [u8; 12], protocol: u8, local_port: u16) -> MapData {
    MapData {
        nonce,
        protocol,
        local_port,
        external_port: 8080,
        external_address: Ipv4::new(203, 0, 113, 9).to_ipv6_mapped(),
    }
}

#[test]
fn map_data_with_same_selectors_is_accepted() {
    let q = map_data([7; 12], 6, 30080);
    let mut a = map_data([7; 12], 6, 30080);
    a.external_port = 9;
    a.external_address = Ipv6 { octets: [1; 16] };
    assert!(validate_map_data(&q, &a).is_ok());
}

#[test]
fn nonce_mismatch_is_reported_with_both_nonces() {
    let q = map_data([7; 12], 6, 30080);
    let a = map_data([8; 12], 17, 1);
    match validate_map_data(&q, &a) {
        Err(ValidateMapDataError::NonceMismatch { expected, got }) => {
            assert_eq!(expected, [7; 12]);
            assert_eq!(got, [8; 12]);
        }
        other => panic!("unexpected: {:?}", other),
    }
}

#[test]
fn protocol_mismatch_is_reported_after_nonce() {
    let q = map_data([7; 12], 6, 30080);
    let a = map_data([7; 12], 17, 1);
    match validate_map_data(&q, &a) {
        Err(ValidateMapDataError::ProtocolMismatch { expected, got }) => {
            assert_eq!((expected, got), (6, 17));
        }
        other => panic!("unexpected: {:?}", other),
    }
}

#[test]
fn local_port_mismatch_is_reported_last() {
    let q = map_data([7; 12], 6, 30080);
    let a = map_data([7; 12], 6, 30081);
    match validate_map_data(&q, &a) {
        Err(ValidateMapDataError::LocalPortMismatch { expected, got }) => {
            assert_eq!((expected, got), (30080, 30081));
        }
        other => panic!("unexpected: {:?}", other),
    }
}

#[test]
fn opcode_mismatch_both_ways() {
    let m = OpcodeData::MapData(map_data([0; 12], 6, 1));
    assert!(matches!(
        validate_opcode_data(&OpcodeData::Announce, &m),
        Err(ValidateOpcodeDataError::OpcodeMismatch)
    ));
    assert!(matches!(
        validate_opcode_data(&m, &OpcodeData::Announce),
        Err(ValidateOpcodeDataError::OpcodeMismatch)
    ));
    assert!(validate_opcode_data(&OpcodeData::Announce, &OpcodeData::Announce).is_ok());
}

#[test]
fn validate_compares_request_and_response_data() {
    let req = Request::mapping([3; 12], 6, 30080, Ipv4::new(10, 0, 0, 5), Some(8080), None, 7200);
    let good = Response {
        result_code: 0,
        lifetime_seconds: 7200,
        epoch_time: 1,
        data: OpcodeData::MapData(map_data([3; 12], 6, 30080)),
    };
    assert!(validate(&req, &good).is_ok());
    let stale = Response { data: OpcodeData::MapData(map_data([4; 12], 6, 30080)), ..good };
    assert!(matches!(
        validate(&req, &stale),
        Err(ValidateOpcodeDataError::MapData(ValidateMapDataError::NonceMismatch { .. }))
    ));
}
