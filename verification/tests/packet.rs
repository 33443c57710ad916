use kytan::packet::{
    ipv4_cksum, ipv4_phdr_cksum, raw_cksum, swap_bytes16, udptcp_cksum, IcmpHeader, Ipv4Header,
    Layout, TcpHeader, UdpHeader, IPV4_HEADER_LEN, UDP_HEADER_LEN,
};

fn zero_ip() -> Ipv4Header {
    Ipv4Header {
        version_ihl: 0,
        type_of_service: 0,
        total_length: 0,
        identification: 0,
        flags_fragment_offset: 0,
        time_to_live: 0,
        protocol: 0,
        header_checksum: 0,
        source_address: 0,
        destination_address: 0,
    }
}

#[test]
fn raw_cksum_test() {
    assert_eq!(raw_cksum(&[], 0), 0);
    assert_eq!(raw_cksum(&[1u8], 1), 1);
    assert_eq!(raw_cksum(&[1u8, 2u8], 2), 2 * 256 + 1);
    assert_eq!(raw_cksum(&[1u8, 2u8, 3u8], 3), 2 * 256 + 1 + 3);
}

#[test]
fn ipv4_cksum_test() {
    let ip = Ipv4Header {
        version_ihl: 0,
        type_of_service: 0,
        total_length: 0,
        identification: 0,
        flags_fragment_offset: 0,
        time_to_live: 0,
        protocol: 0,
        header_checksum: 0,
        source_address: 0,
        destination_address: 0,
    };
    assert_eq!(ipv4_cksum(&ip), !0);
}

#[test]
fn udptcp_cksum_test() {
    let ip = Ipv4Header {
        version_ihl: 0,
        type_of_service: 0,
        total_length: ((IPV4_HEADER_LEN + UDP_HEADER_LEN) as u16).to_be(),
        identification: 0,
        flags_fragment_offset: 0,
        time_to_live: 0,
        protocol: 0,
        header_checksum: 0,
        source_address: 0,
        destination_address: 0,
    };
    let udp = UdpHeader {
        source_port: 0,
        destination_port: 0,
        total_length: (UDP_HEADER_LEN as u16).to_be(),
        checksum: 0,
    };
    assert_eq!(udptcp_cksum(&ip, &udp), 0xefff);
}

#[test]
fn raw_cksum_drops_carries() {
    // 0xffff + 0x0002 = 0x1_0001, of which the low 16 bits stay.
    assert_eq!(raw_cksum(&[0xff, 0xff, 0x02, 0x00], 4), 1);
}

#[test]
fn raw_cksum_reads_only_the_length_given() {
    assert_eq!(raw_cksum(&[1, 2, 3, 4, 5], 2), 0x0201);
    assert_eq!(raw_cksum(&[1, 2, 3, 4, 5], 3), 0x0201 + 3);
    assert_eq!(raw_cksum(&[1, 2, 3, 4, 5], 0), 0);
}

#[test]
fn swap_bytes16_matches_from_be() {
    for x in [0u16, 1, 0x00ff, 0x1234, 0xff00, 0xffff, 28u16.to_be()] {
        assert_eq!(swap_bytes16(x), x.swap_bytes());
    }
    assert_eq!(swap_bytes16(0x1c00), 28);
}

#[test]
fn ipv4_header_layout_is_little_endian_in_field_order() {
    let ip = Ipv4Header {
        version_ihl: 0x45,
        type_of_service: 0x01,
        total_length: 0x0302,
        identification: 0x0504,
        flags_fragment_offset: 0x0706,
        time_to_live: 0x40,
        protocol: 17,
        header_checksum: 0x0a09,
        source_address: 0x0e0d0c0b,
        destination_address: 0x1211100f,
    };
    assert_eq!(
        ip.to_bytes(),
        vec![
            0x45, 0x01, 0x02, 0x03, 0x04, 0x05, 0x06, 0x07, 0x40, 17, 0x09, 0x0a, 0x0b, 0x0c,
            0x0d, 0x0e, 0x0f, 0x10, 0x11, 0x12
        ]
    );
    assert_eq!(ip.to_bytes().len(), IPV4_HEADER_LEN);
}

#[test]
fn other_header_layouts() {
    let udp = UdpHeader { source_port: 0x0201, destination_port: 0x0403, total_length: 0x0605, checksum: 0x0807 };
    assert_eq!(udp.to_bytes(), vec![1, 2, 3, 4, 5, 6, 7, 8]);
    let tcp = TcpHeader {
        source_port: 0x0201,
        destination_port: 0x0403,
        seq_num: 0x08070605,
        ack_sum: 0x0c0b0a09,
        data_offset: 0x0d,
        flags: 0x0e,
        receive_window: 0x100f,
        checksum: 0x1211,
        urg_ptr: 0x1413,
    };
    assert_eq!(tcp.to_bytes(), (1u8..=20).collect::<Vec<u8>>());
    let icmp = IcmpHeader { icmp_type: 1, icmp_code: 2, icmp_checksum: 0x0403, icmp_ident: 0x0605, icmp_seq_num: 0x0807 };
    assert_eq!(icmp.to_bytes(), vec![1, 2, 3, 4, 5, 6, 7, 8]);
    assert_eq!(vec![9u8, 8, 7].to_bytes(), vec![9u8, 8, 7]);
}

#[test]
fn ipv4_cksum_complements_the_sum() {
    let mut ip = zero_ip();
    ip.version_ihl = 0x45;
    ip.time_to_live = 64;
    ip.protocol = 17;
    // words: 0x0045, 0x1140 (ttl low, protocol high)
    let sum: u16 = 0x0045 + 0x1140;
    assert_eq!(ipv4_cksum(&ip), !sum);
}

#[test]
fn ipv4_cksum_keeps_all_ones() {
    let mut ip = zero_ip();
    ip.identification = 0xffff;
    assert_eq!(ipv4_cksum(&ip), 0xffff);
}

#[test]
fn ipv4_phdr_cksum_sums_addresses_protocol_and_length() {
    let mut ip = zero_ip();
    ip.total_length = 28u16.to_be();
    ip.protocol = 17;
    ip.source_address = 0x0001_0002;
    ip.destination_address = 0x0003_0004;
    // words: 2, 1, 4, 3, protocol in the high byte, length 8 in network order
    let expected: u16 = 2 + 1 + 4 + 3 + (17 << 8) + 0x0800;
    assert_eq!(ipv4_phdr_cksum(&ip), expected);
}

#[test]
fn udptcp_cksum_folds_the_carry_and_covers_the_payload() {
    let mut ip = zero_ip();
    ip.total_length = 24u16.to_be();
    ip.source_address = 0xffff_0000;
    let segment: Vec<u8> = vec![0xff, 0xff, 0x01, 0x00, 0xaa, 0xbb];
    // segment words (first 4 bytes only): 0xffff + 0x0001 -> 0x0000 after dropping the carry
    // pseudo header: 0x0000 + 0xffff + length 4 in network order 0x0400 -> 0x03ff
    let sum: u32 = 0x0000 + 0x03ff;
    let folded = (sum >> 16) + (sum & 0xffff);
    assert_eq!(udptcp_cksum(&ip, &segment), !(folded as u16));
}

#[test]
fn udptcp_cksum_sends_zero_as_all_ones() {
    let mut ip = zero_ip();
    ip.total_length = 22u16.to_be();
    // pseudo header sum: length 2 in network order = 0x0200; segment word 0xfdff
    let segment: Vec<u8> = vec![0xff, 0xfd];
    assert_eq!(udptcp_cksum(&ip, &segment), 0xffff);
}
