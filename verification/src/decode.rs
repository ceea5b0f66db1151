//! The frame decoder: read-only interpretation of raw byte buffers as
//! Ethernet and IPv6 header views, for diagnostics. A buffer too short for
//! the requested header is a decode error, reported to the caller and never
//! fatal; no accessor reads past the buffer's length.

use vstd::prelude::*;

verus! {

/// The buffer is too short for the requested header.
#[derive(Clone, Copy, Debug, PartialEq, Eq, Structural)]
pub enum DecodeError {
    TooShort,
}

/// The length of an Ethernet header in bytes.
pub const ETH_HEADER_LEN: usize = 14;

/// The length of an IPv6 header in bytes.
pub const IPV6_HEADER_LEN: usize = 40;

/// The ethertype value that marks an IPv6 payload.
pub const ETHERTYPE_IPV6: u16 = 0x86DD;

/// A non-owning interpretation of the first 14 bytes of a frame:
/// destination MAC, source MAC, ethertype. Never mutated by this system.
#[derive(Clone, Copy, Debug)]
pub struct EthernetView {
    pub dest: [u8; 6],
    pub source: [u8; 6],
    pub ethertype: u16,
}

impl EthernetView {
    /// Whether the ethertype marks the payload as an IPv6 packet.
    pub fn is_ipv6(&self) -> (r: bool)
        ensures
            r == (self.ethertype == ETHERTYPE_IPV6),
    {
        self.ethertype == ETHERTYPE_IPV6
    }
}

/// A read-only interpretation of a 40-byte region as an IPv6 header.
#[derive(Clone, Copy, Debug)]
pub struct Ipv6View {
    /// The high nibble of byte 0.
    pub version: u8,
    /// Eight bits split across bytes 0 and 1.
    pub traffic_class: u8,
    /// The low 20 bits of bytes 1..4.
    pub flow_label: u32,
    /// Bytes 4..6, big-endian.
    pub payload_length: u16,
    /// Byte 6.
    pub next_header: u8,
    /// Byte 7.
    pub hop_limit: u8,
    /// Bytes 8..24.
    pub source: [u8; 16],
    /// Bytes 24..40.
    pub dest: [u8; 16],
}

/// Decodes the Ethernet header at the start of `buffer`. A buffer shorter
/// than 14 bytes is a decode error; otherwise every field is read from its
/// wire position.
pub fn decode_ethernet(buffer: &[u8]) -> (r: Result<EthernetView, DecodeError>)
    ensures
        buffer@.len() < 14 ==> r == Err::<EthernetView, DecodeError>(DecodeError::TooShort),
        buffer@.len() >= 14 ==> (r matches Ok(v)
            && v.dest@ == buffer@.subrange(0, 6)
            && v.source@ == buffer@.subrange(6, 12)
            && v.ethertype == (buffer@[12] as int) * 256 + (buffer@[13] as int)),
{
    if buffer.len() < ETH_HEADER_LEN {
        return Err(DecodeError::TooShort);
    }
    let dest: [u8; 6] = [buffer[0], buffer[1], buffer[2], buffer[3], buffer[4], buffer[5]];
    let source: [u8; 6] = [buffer[6], buffer[7], buffer[8], buffer[9], buffer[10], buffer[11]];
    let ethertype: u16 = (buffer[12] as u16) * 256 + (buffer[13] as u16);
    proof {
        assert(dest@ =~= buffer@.subrange(0, 6));
        assert(source@ =~= buffer@.subrange(6, 12));
    }
    Ok(EthernetView { dest, source, ethertype })
}

/// Decodes the IPv6 header at the start of `data`. A region shorter than 40
/// bytes is a decode error; otherwise every field is extracted at its
/// documented bit offset.
pub fn decode_ipv6(data: &[u8]) -> (r: Result<Ipv6View, DecodeError>)
    ensures
        data@.len() < 40 ==> r == Err::<Ipv6View, DecodeError>(DecodeError::TooShort),
        data@.len() >= 40 ==> (r matches Ok(v)
            && v.version == data@[0] >> 4
            && v.traffic_class == ((data@[0] & 0x0F) << 4) | (data@[1] >> 4)
            && v.flow_label == ((data@[1] & 0x0F) as int) * 0x10000 + (data@[2] as int) * 0x100
                + (data@[3] as int)
            && v.payload_length == (data@[4] as int) * 256 + (data@[5] as int)
            && v.next_header == data@[6]
            && v.hop_limit == data@[7]
            && v.source@ == data@.subrange(8, 24)
            && v.dest@ == data@.subrange(24, 40)),
{
    if data.len() < IPV6_HEADER_LEN {
        return Err(DecodeError::TooShort);
    }
    let version: u8 = data[0] >> 4;
    let traffic_class: u8 = ((data[0] & 0x0F) << 4) | (data[1] >> 4);
    let flow_label: u32 = ((data[1] & 0x0F) as u32) * 0x10000 + (data[2] as u32) * 0x100
        + (data[3] as u32);
    let payload_length: u16 = (data[4] as u16) * 256 + (data[5] as u16);
    let source: [u8; 16] = [
        data[8], data[9], data[10], data[11], data[12], data[13], data[14], data[15],
        data[16], data[17], data[18], data[19], data[20], data[21], data[22], data[23],
    ];
    let dest: [u8; 16] = [
        data[24], data[25], data[26], data[27], data[28], data[29], data[30], data[31],
        data[32], data[33], data[34], data[35], data[36], data[37], data[38], data[39],
    ];
    proof {
        assert(source@ =~= data@.subrange(8, 24));
        assert(dest@ =~= data@.subrange(24, 40));
    }
    Ok(Ipv6View {
        version,
        traffic_class,
        flow_label,
        payload_length,
        next_header: data[6],
        hop_limit: data[7],
        source,
        dest,
    })
}

} // verus!
