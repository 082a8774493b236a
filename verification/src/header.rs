//! What the server reads of the header of a packet.

use vstd::prelude::*;

use crate::config::MAX_CONN_ID_LEN;

verus! {

/// The kind of a QUIC packet.
#[derive(Clone, Copy, Debug, PartialEq, Eq, Structural)]
pub enum PacketType {
    Initial,
    Retry,
    Handshake,
    ZeroRTT,
    VersionNegotiation,
    Short,
}

/// What the server reads of the header of a packet.
#[derive(Debug)]
pub struct PacketHeader {
    /// The kind of the packet.
    pub ty: PacketType,
    /// The connection ID that the packet is addressed to.
    pub dcid: Vec<u8>,
}

/// Whether `quiche::Header::from_slice` finds a header at the start of
/// `datagram`, where a short header holds a connection ID of `dcid_len` bytes.
pub uninterp spec fn header_parses(datagram: Seq<u8>, dcid_len: int) -> bool;

/// Whether a header is long: the first bit is set.
pub open spec fn is_long(datagram: Seq<u8>) -> bool {
    datagram[0] >= 0x80
}

/// The kind that a header tells: by the third and the fourth bit of a long
/// header, unless its version is zero.
pub open spec fn header_type(datagram: Seq<u8>) -> PacketType {
    let bits = datagram[0] as int / 16 % 4;
    if !is_long(datagram) {
        PacketType::Short
    } else if datagram.subrange(1, 5) == seq![0u8, 0, 0, 0] {
        PacketType::VersionNegotiation
    } else if bits == 0 {
        PacketType::Initial
    } else if bits == 1 {
        PacketType::ZeroRTT
    } else if bits == 2 {
        PacketType::Handshake
    } else {
        PacketType::Retry
    }
}

/// The connection ID that a header is addressed to: in a short header the
/// `dcid_len` bytes after the first, in a long header the bytes whose number
/// follows the version.
pub open spec fn header_dcid(datagram: Seq<u8>, dcid_len: int) -> Seq<u8> {
    if is_long(datagram) {
        datagram.subrange(6, 6 + datagram[5])
    } else {
        datagram.subrange(1, 1 + dcid_len)
    }
}

/// An error of the QUIC implementation.
#[verifier::external_type_specification]
#[verifier::external_body]
pub struct ExQuicheError(quiche::Error);

/// Calls `quiche::Header::from_slice` and returns the kind and the destination
/// connection ID. Trusted: they are those that the bytes tell, and whether
/// there is a header depends on the arguments alone. There is none in an empty
/// datagram; a short one takes its connection ID after the first byte and no
/// more; a long one takes its destination connection ID with the seven bytes
/// before and after it and more, which is not stated.
#[verifier::external_body]
fn header_from_slice(datagram: &[u8], dcid_len: usize) -> (result: Result<
    (PacketType, Vec<u8>),
    quiche::Error,
>)
    ensures
        result is Ok <==> header_parses(datagram@, dcid_len as int),
        result matches Ok((ty, dcid)) ==> ty == header_type(datagram@),
        result matches Ok((ty, dcid)) ==> dcid@ == header_dcid(datagram@, dcid_len as int),
        datagram@.len() == 0 ==> result is Err,
        datagram@.len() > 0 && !is_long(datagram@) ==> (result is Ok <==> datagram@.len()
            > dcid_len),
        result is Ok && is_long(datagram@) ==> datagram@.len() >= 7 + datagram@[5],
{
    let header = quiche::Header::from_slice(&mut datagram.to_vec(), dcid_len)?;
    let ty = match header.ty {
        quiche::Type::Initial => PacketType::Initial,
        quiche::Type::Retry => PacketType::Retry,
        quiche::Type::Handshake => PacketType::Handshake,
        quiche::Type::ZeroRTT => PacketType::ZeroRTT,
        quiche::Type::VersionNegotiation => PacketType::VersionNegotiation,
        quiche::Type::Short => PacketType::Short,
    };
    Ok((ty, header.dcid.to_vec()))
}

/// Whether a datagram holds a header, with the connection IDs of this side.
pub open spec fn has_header(datagram: Seq<u8>) -> bool {
    header_parses(datagram, MAX_CONN_ID_LEN as int)
}

/// The connection ID that a datagram is addressed to.
pub open spec fn addressee(datagram: Seq<u8>) -> Seq<u8> {
    header_dcid(datagram, MAX_CONN_ID_LEN as int)
}

/// Returns the header of a datagram, and `None` where it holds none.
pub fn parse_header(datagram: &[u8]) -> (header: Option<PacketHeader>)
    ensures
        match header {
            Some(header) => has_header(datagram@) && header.ty == header_type(datagram@)
                && header.dcid@ == addressee(datagram@),
            None => !has_header(datagram@),
        },
        header is Some <==> header_parses(datagram@, MAX_CONN_ID_LEN as int),
        datagram@.len() == 0 ==> header is None,
        datagram@.len() > 0 && !is_long(datagram@) ==> (header is Some <==> datagram@.len()
            > MAX_CONN_ID_LEN),
        header matches Some(header) ==> header.dcid@.len() == if is_long(datagram@) {
            datagram@[5] as int
        } else {
            MAX_CONN_ID_LEN as int
        },
{
    match header_from_slice(datagram, MAX_CONN_ID_LEN) {
        Ok((ty, dcid)) => Some(PacketHeader { ty, dcid }),
        Err(_) => None,
    }
}

/// Every header that the QUIC implementation finds is read, however long the
/// datagram is, and no other.
pub proof fn law_every_header_is_read(datagram: Seq<u8>)
    ensures
        has_header(datagram) <==> header_parses(datagram, 20),
{
}

/// A short header is addressed to the connection ID that stands after its first
/// byte, whatever follows.
pub proof fn law_short_header_names_its_connection(first: u8, dcid: Seq<u8>, rest: Seq<u8>)
    requires
        first < 0x80,
        dcid.len() == 20,
    ensures
        header_type(seq![first] + dcid + rest) == PacketType::Short,
        addressee(seq![first] + dcid + rest) == dcid,
{
    let datagram = seq![first] + dcid + rest;
    assert(datagram[0] == first);
    assert(datagram.subrange(1, 21) =~= dcid);
}

/// A long header is addressed to the connection ID whose length stands before it,
/// whatever follows. It tells its kind by the two bits after the first two,
/// unless its version is zero.
pub proof fn law_long_header_names_its_connection(
    low: u8,
    kind: int,
    version: Seq<u8>,
    dcid: Seq<u8>,
    rest: Seq<u8>,
)
    requires
        low < 16,
        0 <= kind < 4,
        version.len() == 4,
        dcid.len() < 256,
    ensures
        ({
            let first = (0xc0 + 16 * kind + low) as u8;
            let datagram = seq![first] + version + seq![dcid.len() as u8] + dcid + rest;
            let ty = header_type(datagram);
            &&& addressee(datagram) == dcid
            &&& ty is VersionNegotiation <==> version == seq![0u8, 0, 0, 0]
            &&& version != seq![0u8, 0, 0, 0] ==> {
                &&& ty is Initial <==> kind == 0
                &&& ty is ZeroRTT <==> kind == 1
                &&& ty is Handshake <==> kind == 2
                &&& ty is Retry <==> kind == 3
            }
        }),
{
    let first = (0xc0 + 16 * kind + low) as u8;
    let datagram = seq![first] + version + seq![dcid.len() as u8] + dcid + rest;
    assert(datagram[0] == first);
    assert(datagram[5] == dcid.len());
    assert(datagram.subrange(1, 5) =~= version);
    assert(datagram.subrange(6, 6 + dcid.len() as int) =~= dcid);
    assert(first as int / 16 % 4 == kind);
}

} // verus!
