use avislya::headers::{
    protocol_to_str, EthHdr, Ipv4Hdr, TcpHdr, UdpHdr, ETHERTYPE_IPV4, ETH_HDR_LEN, IPPROTO_TCP,
    IPPROTO_UDP, IPV4_HDR_LEN, TCP_HDR_LEN, UDP_HDR_LEN,
};
use avislya::reader::BoundsError;

const ETH: [u8; 14] = [
    0xff, 0xff, 0xff, 0xff, 0xff, 0xff, 0x02, 0x00, 0x00, 0x00, 0x00, 0x01, 0x08, 0x00,
];

const IPV4: [u8; 20] = [
    0x45, 0x00, 0x00, 0x28, 0xbe, 0xef, 0x40, 0x00, 0x40, 0x11, 0x00, 0x00, 10, 0, 0, 1, 10, 0, 0,
    2,
];

const TCP: [u8; 20] = [
    0x00, 0x35, 0xc0, 0x01, 0, 0, 0, 1, 0, 0, 0, 2, 0x50, 0x18, 0xff, 0xff, 0, 0, 0, 0,
];

const UDP: [u8; 8] = [0x00, 0x35, 0xc0, 0x01, 0x00, 0x14, 0x00, 0x00];

#[test]
fn header_lengths_are_those_of_the_wire() {
    assert_eq!(ETH_HDR_LEN, 14);
    assert_eq!(IPV4_HDR_LEN, 20);
    assert_eq!(TCP_HDR_LEN, 20);
    assert_eq!(UDP_HDR_LEN, 8);
    assert_eq!(ETHERTYPE_IPV4, 0x0800);
    assert_eq!(IPPROTO_TCP, 6);
    assert_eq!(IPPROTO_UDP, 17);
}

#[test]
fn eth_header_gives_the_ether_type() {
    assert_eq!(EthHdr::read(&ETH, 0), Ok(EthHdr { ether_type: 0x0800 }));
    let mut arp = ETH;
    arp[13] = 0x06;
    assert_eq!(EthHdr::read(&arp, 0), Ok(EthHdr { ether_type: 0x0806 }));
}

#[test]
fn eth_header_is_read_at_its_offset() {
    let mut frame = vec![0xaa, 0xbb, 0xcc];
    frame.extend_from_slice(&ETH);
    assert_eq!(EthHdr::read(&frame, 3), Ok(EthHdr { ether_type: 0x0800 }));
    assert_eq!(EthHdr::read(&frame, 4), Err(BoundsError));
}

#[test]
fn eth_header_needs_fourteen_bytes() {
    for len in 0..14 {
        assert_eq!(EthHdr::read(&ETH[..len], 0), Err(BoundsError));
    }
    assert_eq!(EthHdr::read(&ETH, 1), Err(BoundsError));
    assert_eq!(EthHdr::read(&ETH, usize::MAX), Err(BoundsError));
}

#[test]
fn ipv4_header_gives_its_fields() {
    assert_eq!(
        Ipv4Hdr::read(&IPV4, 0),
        Ok(Ipv4Hdr { ihl: 5, identification: 0xbeef, protocol: 17, source_addr: 0x0a00_0001 })
    );
}

#[test]
fn ipv4_header_length_is_four_bytes_a_word() {
    let read = |first: u8| {
        let mut bytes = IPV4;
        bytes[0] = first;
        Ipv4Hdr::read(&bytes, 0).unwrap()
    };
    assert_eq!(read(0x45).ihl, 5);
    assert_eq!(read(0x45).header_len(), 20);
    assert_eq!(read(0x46).header_len(), 24);
    assert_eq!(read(0x4f).ihl, 15);
    assert_eq!(read(0x4f).header_len(), 60);
    assert_eq!(read(0xff).header_len(), 60);
    assert_eq!(read(0x40).header_len(), 0);
    assert_eq!(read(0xf0).ihl, 0);
}

#[test]
fn ipv4_header_needs_twenty_bytes() {
    for len in 0..20 {
        assert_eq!(Ipv4Hdr::read(&IPV4[..len], 0), Err(BoundsError));
    }
    let mut frame = ETH.to_vec();
    frame.extend_from_slice(&IPV4);
    assert!(Ipv4Hdr::read(&frame, 14).is_ok());
    assert_eq!(Ipv4Hdr::read(&frame[..33], 14), Err(BoundsError));
    assert_eq!(Ipv4Hdr::read(&frame, 15), Err(BoundsError));
}

#[test]
fn tcp_header_gives_port_and_data_offset() {
    assert_eq!(TcpHdr::read(&TCP, 0), Ok(TcpHdr { source_port: 53, data_offset: 5 }));
}

#[test]
fn tcp_header_length_is_four_bytes_a_word() {
    let read = |byte: u8| {
        let mut bytes = TCP;
        bytes[12] = byte;
        TcpHdr::read(&bytes, 0).unwrap()
    };
    assert_eq!(read(0x50).data_offset, 5);
    assert_eq!(read(0x50).header_len(), 20);
    assert_eq!(read(0x5f).header_len(), 20);
    assert_eq!(read(0x80).header_len(), 32);
    assert_eq!(read(0xf0).data_offset, 15);
    assert_eq!(read(0xff).header_len(), 60);
    assert_eq!(read(0x0f).header_len(), 0);
}

#[test]
fn tcp_header_needs_twenty_bytes() {
    for len in 0..20 {
        assert_eq!(TcpHdr::read(&TCP[..len], 0), Err(BoundsError));
    }
    assert_eq!(TcpHdr::read(&TCP, 1), Err(BoundsError));
}

#[test]
fn udp_header_gives_the_port() {
    assert_eq!(UdpHdr::read(&UDP, 0), Ok(UdpHdr { source_port: 53 }));
    let mut other = UDP;
    other[0] = 0x30;
    other[1] = 0x39;
    assert_eq!(UdpHdr::read(&other, 0), Ok(UdpHdr { source_port: 12345 }));
}

#[test]
fn udp_header_needs_eight_bytes() {
    for len in 0..8 {
        assert_eq!(UdpHdr::read(&UDP[..len], 0), Err(BoundsError));
    }
    assert_eq!(UdpHdr::read(&UDP, 1), Err(BoundsError));
}

#[test]
fn protocols_have_their_names() {
    assert_eq!(protocol_to_str(6), "TCP");
    assert_eq!(protocol_to_str(17), "UDP");
    assert_eq!(protocol_to_str(1), "OTHER");
    assert_eq!(protocol_to_str(0), "OTHER");
    assert_eq!(protocol_to_str(255), "OTHER");
    for protocol in 0..=255u8 {
        if protocol != IPPROTO_TCP && protocol != IPPROTO_UDP {
            assert_eq!(protocol_to_str(protocol), "OTHER");
        }
    }
}
