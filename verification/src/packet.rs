//! Headers of the packets the tunnel carries, and the ones'-complement style
//! sums computed over them.
//!
//! A header is described by the bytes it occupies in memory on a little-endian
//! host, field after field without padding. Multi-byte fields hold what such a
//! host reads from that memory, so a field that travels in network order, like
//! `total_length`, is stored byte-swapped.

use crate::bytes::{bytes16, bytes32, push16, push32};
use vstd::prelude::*;

verus! {

/// Number of bytes an `Ipv4Header` occupies.
pub const IPV4_HEADER_LEN: usize = 20;

/// Number of bytes a `UdpHeader` occupies.
pub const UDP_HEADER_LEN: usize = 8;

/// Fixed part of an IPv4 header.
#[derive(Debug, Clone, Copy, PartialEq, Eq)]
pub struct Ipv4Header {
    /// IP version in the high nibble, header length in the low one.
    pub version_ihl: u8,
    pub type_of_service: u8,
    /// Total length in octets, in network order.
    pub total_length: u16,
    pub identification: u16,
    /// Three flag bits and the fragment offset.
    pub flags_fragment_offset: u16,
    pub time_to_live: u8,
    pub protocol: u8,
    pub header_checksum: u16,
    pub source_address: u32,
    pub destination_address: u32,
}

/// UDP header.
#[derive(Debug, Clone, Copy, PartialEq, Eq)]
pub struct UdpHeader {
    pub source_port: u16,
    pub destination_port: u16,
    pub total_length: u16,
    pub checksum: u16,
}

/// Fixed part of a TCP header.
#[derive(Debug, Clone, Copy, PartialEq, Eq)]
pub struct TcpHeader {
    pub source_port: u16,
    pub destination_port: u16,
    pub seq_num: u32,
    pub ack_sum: u32,
    pub data_offset: u8,
    pub flags: u8,
    pub receive_window: u16,
    pub checksum: u16,
    pub urg_ptr: u16,
}

/// ICMP echo header.
#[derive(Debug, Clone, Copy, PartialEq, Eq)]
pub struct IcmpHeader {
    pub icmp_type: u8,
    pub icmp_code: u8,
    pub icmp_checksum: u16,
    pub icmp_ident: u16,
    pub icmp_seq_num: u16,
}

/// A 16-bit value with its two bytes exchanged: the conversion between
/// network order and the order of a little-endian host.
pub open spec fn swap16(x: u16) -> u16 {
    ((x % 256) * 256 + x / 256) as u16
}

/// Sum of the 16-bit little-endian words of `bytes`; a last odd byte counts
/// as it is.
pub open spec fn word_sum(bytes: Seq<u8>) -> int
    decreases bytes.len(),
{
    if bytes.len() == 0 {
        0
    } else if bytes.len() % 2 == 1 {
        word_sum(bytes.drop_last()) + bytes.last() as int
    } else {
        word_sum(bytes.take(bytes.len() - 2)) + bytes[bytes.len() - 2] as int + 256
            * bytes.last() as int
    }
}

/// The word sum reduced to 16 bits by dropping the carries.
pub open spec fn raw_sum(bytes: Seq<u8>) -> u16 {
    (word_sum(bytes) % 65536) as u16
}

/// A value that can be laid out as the bytes it occupies in a packet.
pub trait Layout {
    /// The bytes of the value, in memory order.
    spec fn image(&self) -> Seq<u8>;

    /// Writes the value out as its bytes.
    fn to_bytes(&self) -> (out: Vec<u8>)
        ensures
            out@ == self.image(),
    ;
}

impl Layout for Ipv4Header {
    open spec fn image(&self) -> Seq<u8> {
        seq![self.version_ihl, self.type_of_service] + bytes16(self.total_length) + bytes16(
            self.identification,
        ) + bytes16(self.flags_fragment_offset) + seq![self.time_to_live, self.protocol]
            + bytes16(self.header_checksum) + bytes32(self.source_address) + bytes32(
            self.destination_address,
        )
    }

    fn to_bytes(&self) -> (out: Vec<u8>) {
        let mut out: Vec<u8> = Vec::new();
        out.push(self.version_ihl);
        out.push(self.type_of_service);
        assert(out@ =~= seq![self.version_ihl, self.type_of_service]);
        push16(&mut out, self.total_length);
        push16(&mut out, self.identification);
        push16(&mut out, self.flags_fragment_offset);
        let ghost before = out@;
        out.push(self.time_to_live);
        out.push(self.protocol);
        assert(out@ =~= before + seq![self.time_to_live, self.protocol]);
        push16(&mut out, self.header_checksum);
        push32(&mut out, self.source_address);
        push32(&mut out, self.destination_address);
        out
    }
}

impl Layout for UdpHeader {
    open spec fn image(&self) -> Seq<u8> {
        bytes16(self.source_port) + bytes16(self.destination_port) + bytes16(self.total_length)
            + bytes16(self.checksum)
    }

    fn to_bytes(&self) -> (out: Vec<u8>) {
        let mut out: Vec<u8> = Vec::new();
        push16(&mut out, self.source_port);
        assert(out@ =~= bytes16(self.source_port));
        push16(&mut out, self.destination_port);
        push16(&mut out, self.total_length);
        push16(&mut out, self.checksum);
        out
    }
}

impl Layout for TcpHeader {
    open spec fn image(&self) -> Seq<u8> {
        bytes16(self.source_port) + bytes16(self.destination_port) + bytes32(self.seq_num)
            + bytes32(self.ack_sum) + seq![self.data_offset, self.flags] + bytes16(
            self.receive_window,
        ) + bytes16(self.checksum) + bytes16(self.urg_ptr)
    }

    fn to_bytes(&self) -> (out: Vec<u8>) {
        let mut out: Vec<u8> = Vec::new();
        push16(&mut out, self.source_port);
        assert(out@ =~= bytes16(self.source_port));
        push16(&mut out, self.destination_port);
        push32(&mut out, self.seq_num);
        push32(&mut out, self.ack_sum);
        let ghost before = out@;
        out.push(self.data_offset);
        out.push(self.flags);
        assert(out@ =~= before + seq![self.data_offset, self.flags]);
        push16(&mut out, self.receive_window);
        push16(&mut out, self.checksum);
        push16(&mut out, self.urg_ptr);
        out
    }
}

impl Layout for IcmpHeader {
    open spec fn image(&self) -> Seq<u8> {
        seq![self.icmp_type, self.icmp_code] + bytes16(self.icmp_checksum) + bytes16(
            self.icmp_ident,
        ) + bytes16(self.icmp_seq_num)
    }

    fn to_bytes(&self) -> (out: Vec<u8>) {
        let mut out: Vec<u8> = Vec::new();
        out.push(self.icmp_type);
        out.push(self.icmp_code);
        assert(out@ =~= seq![self.icmp_type, self.icmp_code]);
        push16(&mut out, self.icmp_checksum);
        push16(&mut out, self.icmp_ident);
        push16(&mut out, self.icmp_seq_num);
        out
    }
}

/// A run of bytes is its own layout: a header followed by its payload.
impl Layout for Vec<u8> {
    open spec fn image(&self) -> Seq<u8> {
        self@
    }

    fn to_bytes(&self) -> (out: Vec<u8>) {
        self.clone()
    }
}

/// Exchanges the two bytes of `x`.
pub fn swap_bytes16(x: u16) -> (r: u16)
    ensures
        r == swap16(x),
{
    (x % 256) * 256 + x / 256
}

/// Sums the first `len` bytes of `buf` as 16-bit little-endian words, a last
/// odd byte added as it is, and keeps the low 16 bits of the sum.
pub fn raw_cksum(buf: &[u8], len: usize) -> (sum: u16)
    requires
        len <= buf@.len(),
    ensures
        sum == raw_sum(buf@.take(len as int)),
{
    let mut acc: u32 = 0;
    let mut i: usize = 0;
    while len - i >= 2
        invariant
            i <= len <= buf@.len(),
            i % 2 == 0,
            acc < 65536,
            acc == word_sum(buf@.take(i as int)) % 65536,
        decreases len - i,
    {
        let word: u32 = buf[i] as u32 + 256 * (buf[i + 1] as u32);
        proof {
            let next = buf@.take(i + 2);
            assert(next.take(next.len() - 2) =~= buf@.take(i as int));
            assert(word_sum(next) == word_sum(buf@.take(i as int)) + word);
        }
        acc = (acc + word) % 65536;
        i = i + 2;
    }
    if len - i == 1 {
        proof {
            let all = buf@.take(len as int);
            assert(all.drop_last() =~= buf@.take(i as int));
            assert(word_sum(all) == word_sum(buf@.take(i as int)) + buf@[i as int]);
        }
        acc = (acc + buf[i] as u32) % 65536;
    }
    acc as u16
}

/// Checksum of an IPv4 header: the complement of the raw sum of its bytes,
/// except that an all-ones sum is kept as it is.
pub open spec fn spec_ipv4_cksum(header: Ipv4Header) -> u16 {
    let sum = raw_sum(header.image());
    if sum == 0xffff {
        sum
    } else {
        (0xffff - sum) as u16
    }
}

/// Number of bytes that follow the IPv4 header, by the total length it
/// announces.
pub open spec fn payload_length(header: Ipv4Header) -> int {
    swap16(header.total_length) - IPV4_HEADER_LEN
}

/// Bytes of the pseudo header that UDP and TCP sum in: both addresses, a
/// zero byte, the protocol and the length of the segment in network order.
pub open spec fn pseudo_header_image(header: Ipv4Header) -> Seq<u8> {
    bytes32(header.source_address) + bytes32(header.destination_address) + seq![
        0u8,
        header.protocol,
    ] + bytes16(swap16(payload_length(header) as u16))
}

/// Checksum of a UDP or TCP segment of `payload_length(header)` bytes at the
/// start of `segment`: the raw sums of segment and pseudo header are added,
/// the carry is folded in once, the result is complemented, and zero is sent
/// as all ones.
pub open spec fn spec_udptcp_cksum(header: Ipv4Header, segment: Seq<u8>) -> u16 {
    let sum = raw_sum(segment.take(payload_length(header))) + raw_sum(
        pseudo_header_image(header),
    );
    let folded = sum / 65536 + sum % 65536;
    if folded == 0xffff {
        0xffffu16
    } else {
        (0xffff - folded) as u16
    }
}

/// Computes the checksum of an IPv4 header.
pub fn ipv4_cksum(buf: &Ipv4Header) -> (sum: u16)
    ensures
        sum == spec_ipv4_cksum(*buf),
{
    let bytes = buf.to_bytes();
    assert(bytes@.take(bytes@.len() as int) =~= bytes@);
    let cksum = raw_cksum(bytes.as_slice(), bytes.len());
    if cksum == 0xffff {
        cksum
    } else {
        0xffff - cksum
    }
}

/// Computes the raw sum of the pseudo header that belongs to `ip`.
pub fn ipv4_phdr_cksum(ip: &Ipv4Header) -> (sum: u16)
    requires
        payload_length(*ip) >= 0,
    ensures
        sum == raw_sum(pseudo_header_image(*ip)),
{
    let mut bytes: Vec<u8> = Vec::new();
    push32(&mut bytes, ip.source_address);
    assert(bytes@ =~= bytes32(ip.source_address));
    push32(&mut bytes, ip.destination_address);
    let ghost before = bytes@;
    bytes.push(0);
    bytes.push(ip.protocol);
    assert(bytes@ =~= before + seq![0u8, ip.protocol]);
    let length: u16 = swap_bytes16(ip.total_length) - (IPV4_HEADER_LEN as u16);
    push16(&mut bytes, swap_bytes16(length));
    assert(bytes@.take(bytes@.len() as int) =~= bytes@);
    raw_cksum(bytes.as_slice(), bytes.len())
}

/// Computes the checksum of the UDP or TCP segment that `l4` starts with and
/// that `ip` announces.
pub fn udptcp_cksum<T: Layout>(ip: &Ipv4Header, l4: &T) -> (sum: u16)
    requires
        0 <= payload_length(*ip) <= l4.image().len(),
    ensures
        sum == spec_udptcp_cksum(*ip, l4.image()),
{
    let l4_len: usize = (swap_bytes16(ip.total_length) as usize) - IPV4_HEADER_LEN;
    let segment = l4.to_bytes();
    let sum: u32 = raw_cksum(segment.as_slice(), l4_len) as u32 + ipv4_phdr_cksum(ip) as u32;
    let folded: u32 = sum / 65536 + sum % 65536;
    if folded == 0xffff {
        0xffff
    } else {
        (0xffff - folded) as u16
    }
}

} // verus!
