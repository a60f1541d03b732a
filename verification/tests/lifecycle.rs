use pcp_portmap::addr::{Ipv4, SocketV4};
use pcp_portmap::client::{
    IoFailure, Received, RecvError, RegisterError, RequestError, SendError,
    ValidateMapDataError, ValidateOpcodeDataError,
};
use pcp_portmap::manager::LifecycleError;
use pcp_portmap::mapper::{PcpMapper, Request};
use pcp_portmap::proto::opcode_data::{MapData, OpcodeData};
use pcp_portmap::proto::request::Request as WireRequest;
use pcp_portmap::proto::response::Response as WireResponse;

fn mapper() -> PcpMapper {
    PcpMapper::new(
        Ipv4::new(10, 0, 0, 5),
        SocketV4 { ip: Ipv4::new(10, 0, 0, 1), port: 5351 },
        0x0102_0304,
    )
}

fn tcp(local_port: u16, external_port: u16) -> Request {
    Request { local_port, external_port, protocol: 6 }
}

/// A gateway that grants the port asked for at 203.0.113.9, or `fallback`
/// where no port is asked for.
fn gateway(datagram: &[u8], fallback: u16) -> Vec<u8> {
    let req = WireRequest::decode(datagram).expect("the gateway reads the request");
    let data = match req.opcode_data {
        OpcodeData::Announce => OpcodeData::Announce,
        OpcodeData::MapData(m) => OpcodeData::MapData(MapData {
            external_port: if m.external_port == 0 { fallback } else { m.external_port },
            external_address: Ipv4::new(203, 0, 113, 9).to_ipv6_mapped(),
            ..m
        }),
    };
    WireResponse { result_code: 0, lifetime_seconds: req.lifetime_seconds, epoch_time: 1, data }
        .encode()
}

fn register_ok(m: &mut PcpMapper, key: &str, req: &Request) -> pcp_portmap::mapper::Response {
    let (registration, datagram) = m.register(key.to_string(), req);
    let pending = registration.sent(Ok(datagram.len())).unwrap();
    m.registered(pending, Received::Datagram(gateway(&datagram, 40000)), 1000).unwrap()
}

#[test]
fn nonce_holds_the_counter_least_significant_first() {
    let mut m = mapper();
    assert_eq!(m.next_nonce(), [4, 3, 2, 1, 0, 0, 0, 0, 0, 0, 0, 0]);
    assert_eq!(m.next_nonce(), [5, 3, 2, 1, 0, 0, 0, 0, 0, 0, 0, 0]);
}

#[test]
fn nonce_counter_wraps() {
    let mut m = PcpMapper::new(Ipv4::unspecified(), SocketV4 { ip: Ipv4::unspecified(), port: 1 }, u32::MAX);
    assert_eq!(m.next_nonce(), [255, 255, 255, 255, 0, 0, 0, 0, 0, 0, 0, 0]);
    assert_eq!(m.next_nonce(), [0; 12]);
}

#[test]
fn new_mapper_is_empty() {
    let m = mapper();
    assert_eq!(m.len(), 0);
    assert!(m.mappings().is_empty());
    assert_eq!(m.local_ip().octets, [10, 0, 0, 5]);
    assert_eq!(m.gateway().port, 5351);
    assert_eq!(m.gateway().ip.octets, [10, 0, 0, 1]);
}

#[test]
fn register_asks_for_the_recommended_lifetime_with_a_fresh_nonce() {
    let mut m = mapper();
    let (registration, datagram) = m.register("svc-1".to_string(), &tcp(30080, 8080));
    assert_eq!(registration.key, "svc-1");
    let asked = registration.request;
    assert_eq!(asked.protocol, 6);
    assert_eq!(asked.local_ip.octets, [10, 0, 0, 5]);
    assert_eq!(asked.local_port, 30080);
    assert!(asked.requested_address.is_none());
    assert_eq!(asked.requested_port, Some(8080));
    assert_eq!(asked.requested_lifetime_seconds, 7200);
    assert_eq!(asked.nonce, [4, 3, 2, 1, 0, 0, 0, 0, 0, 0, 0, 0]);
    assert_eq!(datagram, asked.request().encode());
    assert_eq!(m.len(), 0);
    let (again, _) = m.register("svc-1".to_string(), &tcp(30080, 8080));
    assert_eq!(again.request.nonce, [5, 3, 2, 1, 0, 0, 0, 0, 0, 0, 0, 0]);
}

#[test]
fn external_port_zero_states_no_preference() {
    let mut m = mapper();
    let (registration, datagram) = m.register("svc-1".to_string(), &tcp(30080, 0));
    assert_eq!(registration.request.requested_port, None);
    let pending = registration.sent(Ok(datagram.len())).unwrap();
    let granted = m.registered(pending, Received::Datagram(gateway(&datagram, 40000)), 0).unwrap();
    assert_eq!(granted.external.port, 40000);
}

#[test]
fn end_to_end_register_then_unregister() {
    let mut m = mapper();
    let (registration, datagram) = m.register("svc-1".to_string(), &tcp(30080, 8080));
    let pending = registration.sent(Ok(datagram.len())).unwrap();
    let granted = m.registered(pending, Received::Datagram(gateway(&datagram, 1)), 500).unwrap();
    assert_eq!(granted.local.ip.octets, [10, 0, 0, 5]);
    assert_eq!(granted.local.port, 30080);
    assert_eq!(granted.external.ip.octets, [203, 0, 113, 9]);
    assert_eq!(granted.external.port, 8080);
    assert_eq!(granted.lifetime_seconds, 7200);

    assert_eq!(m.len(), 1);
    let stored = m.mappings()[0].clone();
    assert_eq!(stored.key, "svc-1");
    assert_eq!(stored.local_ip.octets, [10, 0, 0, 5]);
    assert_eq!(stored.local_port, 30080);
    assert_eq!(stored.external_ip.octets, [203, 0, 113, 9]);
    assert_eq!(stored.external_port, 8080);
    assert_eq!(stored.protocol, 6);
    assert_eq!(stored.lifetime_seconds, 7200);
    assert_eq!(stored.nonce, [4, 3, 2, 1, 0, 0, 0, 0, 0, 0, 0, 0]);
    assert_eq!(stored.gateway.ip.octets, [10, 0, 0, 1]);
    assert_eq!(stored.gateway.port, 5351);
    assert_eq!(stored.granted_at, 500);
    assert_eq!(stored.renewal_failures, 0);
    assert_eq!(stored.renew_at, 2900);

    let deletions = m.unregister(&"svc-1".to_string());
    assert_eq!(m.len(), 0);
    assert_eq!(deletions.len(), 1);
    assert_eq!(deletions[0].lifetime_seconds, 0);
    assert_eq!(deletions[0].client_addr.octets, Ipv4::new(10, 0, 0, 5).to_ipv6_mapped().octets);
    match deletions[0].opcode_data {
        OpcodeData::MapData(d) => {
            assert_eq!(d.protocol, 6);
            assert_eq!(d.local_port, 30080);
            assert_eq!(d.nonce, stored.nonce);
            assert_eq!(d.external_port, 0);
        }
        OpcodeData::Announce => panic!("a deletion is a map request"),
    }
}

#[test]
fn registering_twice_renews_in_place() {
    let mut m = mapper();
    register_ok(&mut m, "other", &tcp(1000, 2000));
    let first = register_ok(&mut m, "svc-1", &tcp(30080, 8080));
    let nonce_first = m.mappings()[1].nonce;
    let second = register_ok(&mut m, "svc-1", &tcp(30080, 8080));
    assert_eq!(first.external.port, second.external.port);
    assert_eq!(first.external.ip.octets, second.external.ip.octets);
    assert_eq!(m.len(), 2);
    assert_eq!(m.mappings().iter().filter(|x| x.key == "svc-1").count(), 1);
    assert_eq!(m.mappings()[0].key, "other");
    assert_eq!(m.mappings()[1].key, "svc-1");
    assert_eq!(m.mappings()[1].external_port, 8080);
    assert_ne!(m.mappings()[1].nonce, nonce_first);
}

#[test]
fn a_key_may_hold_several_ports() {
    let mut m = mapper();
    register_ok(&mut m, "svc-1", &tcp(30080, 8080));
    register_ok(&mut m, "svc-1", &tcp(30443, 8443));
    register_ok(&mut m, "svc-1", &Request { local_port: 30080, external_port: 8080, protocol: 17 });
    register_ok(&mut m, "svc-2", &tcp(30080, 9090));
    assert_eq!(m.len(), 4);
    assert_eq!(m.find(&"svc-1".to_string(), 6, 30443), 1);
    assert_eq!(m.find(&"svc-1".to_string(), 17, 30080), 2);
    assert_eq!(m.find(&"svc-2".to_string(), 6, 30080), 3);
    assert_eq!(m.find(&"svc-2".to_string(), 17, 30080), 4);
    let deletions = m.unregister(&"svc-1".to_string());
    assert_eq!(deletions.len(), 3);
    let ports: Vec<(u8, u16)> = deletions
        .iter()
        .map(|d| match d.opcode_data {
            OpcodeData::MapData(x) => (x.protocol, x.local_port),
            OpcodeData::Announce => panic!("a deletion is a map request"),
        })
        .collect();
    assert_eq!(ports, vec![(6, 30080), (6, 30443), (17, 30080)]);
    assert_eq!(m.len(), 1);
    assert_eq!(m.mappings()[0].key, "svc-2");
}

#[test]
fn unregister_without_mapping_is_a_no_op() {
    let mut m = mapper();
    assert!(m.unregister(&"svc-1".to_string()).is_empty());
    register_ok(&mut m, "svc-2", &tcp(30080, 8080));
    assert!(m.unregister(&"svc-1".to_string()).is_empty());
    assert_eq!(m.len(), 1);
    assert_eq!(m.unregister(&"svc-2".to_string()).len(), 1);
    assert!(m.unregister(&"svc-2".to_string()).is_empty());
    assert_eq!(m.len(), 0);
}

#[test]
fn failed_send_leaves_the_table() {
    let mut m = mapper();
    let (registration, _) = m.register("svc-1".to_string(), &tcp(30080, 8080));
    let failure = IoFailure { code: None, message: "closed".to_string() };
    assert!(matches!(
        registration.sent(Err(failure)),
        Err(RegisterError::Request(RequestError::Send(SendError::SendTo(_))))
    ));
    let (registration, _) = m.register("svc-1".to_string(), &tcp(30080, 8080));
    assert!(matches!(
        registration.sent(Ok(10)),
        Err(RegisterError::Request(RequestError::Send(SendError::SizeMismatch {
            expected: 60,
            actual: 10
        })))
    ));
    assert_eq!(m.len(), 0);
}

#[test]
fn timeout_leaves_the_table() {
    let mut m = mapper();
    register_ok(&mut m, "svc-1", &tcp(30080, 8080));
    let before = m.mappings()[0].nonce;
    let (registration, datagram) = m.register("svc-1".to_string(), &tcp(30080, 8080));
    let pending = registration.sent(Ok(datagram.len())).unwrap();
    assert!(matches!(
        m.registered(pending, Received::TimedOut, 2000),
        Err(RegisterError::Request(RequestError::Recv(RecvError::Timeout)))
    ));
    assert_eq!(m.len(), 1);
    assert_eq!(m.mappings()[0].nonce, before);
}

#[test]
fn stale_response_leaves_the_table() {
    let mut m = mapper();
    let (first, stale_request) = m.register("svc-1".to_string(), &tcp(30080, 8080));
    let stale = gateway(&stale_request, 1);
    drop(first);
    let (registration, datagram) = m.register("svc-1".to_string(), &tcp(30080, 8080));
    let pending = registration.sent(Ok(datagram.len())).unwrap();
    assert!(matches!(
        m.registered(pending, Received::Datagram(stale), 0),
        Err(RegisterError::Request(RequestError::Validate(ValidateOpcodeDataError::MapData(
            ValidateMapDataError::NonceMismatch { .. }
        ))))
    ));
    assert_eq!(m.len(), 0);
}

#[test]
fn refused_and_unusable_grants_leave_the_table() {
    let mut m = mapper();
    let (registration, datagram) = m.register("svc-1".to_string(), &tcp(30080, 8080));
    let pending = registration.sent(Ok(datagram.len())).unwrap();
    let mut refused = gateway(&datagram, 1);
    refused[3] = 2;
    assert!(matches!(
        m.registered(pending, Received::Datagram(refused), 0),
        Err(RegisterError::ResultCode(2))
    ));

    let (registration, datagram) = m.register("svc-1".to_string(), &tcp(30080, 8080));
    let pending = registration.sent(Ok(datagram.len())).unwrap();
    let mut v6 = gateway(&datagram, 1);
    v6[44] = 0x20;
    assert!(matches!(
        m.registered(pending, Received::Datagram(v6), 0),
        Err(RegisterError::ExternalIpIsNotV4(_))
    ));

    let (registration, datagram) = m.register("svc-1".to_string(), &tcp(30080, 0));
    let pending = registration.sent(Ok(datagram.len())).unwrap();
    assert!(matches!(
        m.registered(pending, Received::Datagram(gateway(&datagram, 0)), 0),
        Err(RegisterError::ExternalPortIsZero)
    ));
    assert_eq!(m.len(), 0);
}

#[test]
fn forget_drops_one_slot_silently() {
    let mut m = mapper();
    register_ok(&mut m, "svc-1", &tcp(30080, 8080));
    register_ok(&mut m, "svc-1", &tcp(30443, 8443));
    assert!(m.forget(&"svc-1".to_string(), 17, 30080).is_none());
    assert_eq!(m.len(), 2);
    let dropped = m.forget(&"svc-1".to_string(), 6, 30080).unwrap();
    assert_eq!(dropped.external_port, 8080);
    assert_eq!(m.len(), 1);
    assert_eq!(m.mappings()[0].local_port, 30443);
    assert!(m.forget(&"svc-1".to_string(), 6, 30080).is_none());
}

fn register_at(m: &mut PcpMapper, key: &str, req: &Request, now: u64) {
    let (registration, datagram) = m.register(key.to_string(), req);
    let pending = registration.sent(Ok(datagram.len())).unwrap();
    m.registered(pending, Received::Datagram(gateway(&datagram, 40000)), now).unwrap();
}

#[test]
fn due_names_the_first_mapping_to_renew() {
    let mut m = mapper();
    assert_eq!(m.due(u64::MAX), 0);
    register_at(&mut m, "a", &tcp(1, 1), 300);
    register_at(&mut m, "b", &tcp(2, 2), 100);
    register_at(&mut m, "c", &tcp(3, 3), 200);
    assert_eq!(m.due(2499), 3);
    assert_eq!(m.due(2500), 1);
    assert_eq!(m.due(2600), 1);
    assert_eq!(m.due(2700), 0);
}

#[test]
fn renewal_registers_the_same_selectors_with_a_fresh_nonce() {
    let mut m = mapper();
    register_at(&mut m, "svc-1", &tcp(30080, 0), 0);
    let old_nonce = m.mappings()[0].nonce;
    assert!(m.renew(1).is_none());
    let (registration, datagram) = m.renew(0).unwrap();
    assert_eq!(registration.key, "svc-1");
    assert_eq!(registration.request.protocol, 6);
    assert_eq!(registration.request.local_port, 30080);
    assert_eq!(registration.request.requested_port, Some(40000));
    assert_eq!(registration.request.requested_lifetime_seconds, 7200);
    let new_nonce = registration.request.nonce;
    assert_ne!(new_nonce, old_nonce);
    assert_eq!(m.mappings()[0].nonce, old_nonce);
    let pending = registration.sent(Ok(datagram.len())).unwrap();
    m.registered(pending, Received::Datagram(gateway(&datagram, 1)), 2400).unwrap();
    assert_eq!(m.len(), 1);
    assert_eq!(m.mappings()[0].nonce, new_nonce);
    assert_eq!(m.mappings()[0].external_port, 40000);
    assert_eq!(m.mappings()[0].granted_at, 2400);
    assert_eq!(m.mappings()[0].renew_at, 4800);
}

#[test]
fn failed_renewals_back_off_and_then_drop_the_mapping() {
    let mut m = mapper();
    let key = "svc-1".to_string();
    register_at(&mut m, "svc-1", &tcp(30080, 8080), 0);
    register_at(&mut m, "svc-2", &tcp(30080, 8081), 5000);
    assert_eq!(m.renewal_failed(&"nobody".to_string(), 6, 30080, 2400), Ok(()));
    let mut now = 2400;
    for (failures, delay) in [(1, 2), (2, 4), (3, 8), (4, 16)] {
        assert_eq!(m.renewal_failed(&key, 6, 30080, now), Ok(()));
        let stored = &m.mappings()[0];
        assert_eq!(stored.renewal_failures, failures);
        assert_eq!(stored.renew_at, now + delay);
        assert_eq!(stored.granted_at, 0);
        assert_eq!(stored.external_port, 8080);
        assert_eq!(m.due(now), 2);
        assert_eq!(m.due(now + delay), 0);
        now += delay;
    }
    assert_eq!(m.renewal_failed(&key, 6, 30080, now), Err(LifecycleError::RenewalExhausted));
    assert_eq!(m.len(), 1);
    assert_eq!(m.mappings()[0].key, "svc-2");
    assert_eq!(m.mappings()[0].renewal_failures, 0);
}

#[test]
fn a_renewal_that_fails_after_the_lifetime_drops_the_mapping() {
    let mut m = mapper();
    let key = "svc-1".to_string();
    register_at(&mut m, "svc-1", &tcp(30080, 8080), 10);
    assert_eq!(m.renewal_failed(&key, 6, 30080, 7210), Err(LifecycleError::RenewalExhausted));
    assert_eq!(m.len(), 0);
}
