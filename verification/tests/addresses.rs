use pcp_portmap::addr::{Ipv4, Ipv6};
use pcp_portmap::proto::bytes::{push_be16, push_be32, push_zeros, read_be16, read_be32};

#[test]
fn ipv4_maps_into_ipv6() {
    let v6 = Ipv4::new(203, 0, 113, 9).to_ipv6_mapped();
    assert_eq!(v6.octets, [0, 0, 0, 0, 0, 0, 0, 0, 0, 0, 0xff, 0xff, 203, 0, 113, 9]);
    assert_eq!(v6.to_ipv4_mapped().unwrap().octets, [203, 0, 113, 9]);
}

#[test]
fn unspecified_is_all_zero() {
    assert_eq!(Ipv4::unspecified().octets, [0, 0, 0, 0]);
}

#[test]
fn only_mapped_addresses_map_back() {
    let mut octets = [0, 0, 0, 0, 0, 0, 0, 0, 0, 0, 0xff, 0xff, 1, 2, 3, 4];
    assert!(Ipv6 { octets }.to_ipv4_mapped().is_some());
    octets[11] = 0xfe;
    assert!(Ipv6 { octets }.to_ipv4_mapped().is_none());
    octets[11] = 0xff;
    octets[10] = 0;
    assert!(Ipv6 { octets }.to_ipv4_mapped().is_none());
    octets[10] = 0xff;
    octets[9] = 1;
    assert!(Ipv6 { octets }.to_ipv4_mapped().is_none());
    octets[9] = 0;
    octets[0] = 0x20;
    assert!(Ipv6 { octets }.to_ipv4_mapped().is_none());
    assert!(Ipv6 { octets: [0; 16] }.to_ipv4_mapped().is_none());
}

#[test]
fn same_compares_octets() {
    assert!(Ipv4::new(1, 2, 3, 4).same(&Ipv4::new(1, 2, 3, 4)));
    assert!(!Ipv4::new(1, 2, 3, 4).same(&Ipv4::new(1, 2, 3, 5)));
    assert!(!Ipv4::new(1, 2, 3, 4).same(&Ipv4::new(0, 2, 3, 4)));
}

#[test]
fn big_endian_numbers() {
    let mut buf = vec![9];
    push_be16(&mut buf, 0x1234);
    push_be32(&mut buf, 0x89ab_cdef);
    push_zeros(&mut buf, 3);
    assert_eq!(buf, vec![9, 0x12, 0x34, 0x89, 0xab, 0xcd, 0xef, 0, 0, 0]);
    assert_eq!(read_be16(&buf, 1), 0x1234);
    assert_eq!(read_be32(&buf, 3), 0x89ab_cdef);
    assert_eq!(read_be16(&[0xff, 0xff], 0), 65535);
    assert_eq!(read_be32(&[0xff, 0xff, 0xff, 0xff], 0), u32::MAX);
}
