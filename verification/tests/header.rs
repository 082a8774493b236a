use quicduck::config::{MAX_CONN_ID_LEN, PROTOCOL_VERSION};
use quicduck::header::{parse_header, PacketType};

/// A long header: the kind, the version and the destination connection ID, then
/// an empty source connection ID and `rest`.
fn long(bits: u8, version: u32, dcid: &[u8], rest: &[u8]) -> Vec<u8> {
    let mut datagram = vec![0xc0 | bits << 4];
    datagram.extend_from_slice(&version.to_be_bytes());
    datagram.push(dcid.len() as u8);
    datagram.extend_from_slice(dcid);
    datagram.push(0);
    datagram.extend_from_slice(rest);
    datagram
}

#[test]
fn constants_are_those_of_the_protocol() {
    assert_eq!(MAX_CONN_ID_LEN, quiche::MAX_CONN_ID_LEN);
    assert_eq!(PROTOCOL_VERSION, quiche::PROTOCOL_VERSION);
}

#[test]
fn long_headers_are_parsed() {
    let tag = [0; 16];
    let cases = vec![
        (long(0, 1, b"duck", &[0]), PacketType::Initial),
        (long(1, 1, b"duck", &[]), PacketType::ZeroRTT),
        (long(2, 1, b"duck", &[]), PacketType::Handshake),
        (long(3, 1, b"duck", &tag), PacketType::Retry),
        (long(0, 0, b"duck", &[0, 0, 0, 1]), PacketType::VersionNegotiation),
        (long(0, 0xfaceb00c, b"duck", &[0]), PacketType::Initial),
    ];
    for (datagram, ty) in cases {
        let header = parse_header(&datagram).unwrap();
        assert_eq!(header.ty, ty);
        assert_eq!(header.dcid, b"duck".to_vec());
    }
}

#[test]
fn short_headers_are_parsed() {
    let mut datagram = vec![0x40];
    datagram.extend_from_slice(b"0123456789abcdefghij");
    let header = parse_header(&datagram).unwrap();
    assert_eq!(header.ty, PacketType::Short);
    assert_eq!(header.dcid, b"0123456789abcdefghij".to_vec());
    datagram.push(7);
    let header = parse_header(&datagram).unwrap();
    assert_eq!(header.dcid, b"0123456789abcdefghij".to_vec());
}

#[test]
fn datagrams_without_a_header_are_told() {
    assert!(parse_header(&[]).is_none());
    assert!(parse_header(&[0x40; 20]).is_none());
    assert!(parse_header(&[0xc0, 0, 0, 0, 1]).is_none());
    assert!(parse_header(&long(0, 1, b"duck", &[])).is_none());
    assert!(parse_header(&long(0, 1, &[7; 21], &[0])).is_none());
    assert!(parse_header(&long(3, 1, b"duck", &[0; 15])).is_none());
}

#[test]
fn header_ends_where_the_datagram_does() {
    let datagram = long(0, 1, &[9; 20], &[0]);
    for len in 0..datagram.len() {
        assert!(parse_header(&datagram[..len]).is_none());
    }
    assert_eq!(parse_header(&datagram).unwrap().dcid, vec![9; 20]);
}
