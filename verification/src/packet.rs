//! Wire framing for every message that crosses the local channel.
//!
//! A packet is an 8-byte header followed by a data section:
//!
//! ```text
//!   0   1   2   3   4   5   6   7
//!  'v' '0' '.' '1'  L   H   R   R
//! ```
//!
//! Bytes 0 to 3 are the ASCII protocol-version tag.  Bytes 4 and 5 hold the
//! data length as a 16-bit integer, little-endian (`N = L + 256 * H`).
//! Bytes 6 and 7 are reserved and must be zero.  The data section holds
//! exactly as many bytes as the header declares.

use vstd::arithmetic::div_mod::lemma_fundamental_div_mod;
use vstd::prelude::*;

verus! {

/// The ASCII protocol-version tag `v0.1` that opens every header.
pub const PACKET_VERSION: [u8; 4] = [118, 48, 46, 49];

/// True when the first four bytes of a header carry the version tag.
pub open spec fn spec_magic_ok(h: Seq<u8>) -> bool {
    h.len() == 8 && h[0] == 118u8 && h[1] == 48u8 && h[2] == 46u8 && h[3] == 49u8
}

/// True when the two reserved bytes of a header are zero.
pub open spec fn spec_reserved_ok(h: Seq<u8>) -> bool {
    h.len() == 8 && h[6] == 0u8 && h[7] == 0u8
}

/// The data length a header declares: its two length bytes read
/// little-endian.
pub open spec fn spec_len_of_header(h: Seq<u8>) -> int {
    h[4] + 256 * h[5]
}

/// The header that frames a data section of `len` bytes.
pub open spec fn spec_header(len: u16) -> Seq<u8> {
    seq![118u8, 48u8, 46u8, 49u8, (len % 256) as u8, (len / 256) as u8, 0u8, 0u8]
}

/// Every built header passes validation and declares the length it was
/// built from.
pub proof fn lemma_header_round_trip(len: u16)
    ensures
        spec_magic_ok(spec_header(len)),
        spec_reserved_ok(spec_header(len)),
        spec_len_of_header(spec_header(len)) == len,
{
    lemma_fundamental_div_mod(len as int, 256);
}

/// The frame that a payload constructs, if it constructs one: a payload
/// over the 16-bit length bound has no frame, and every other payload sits
/// under the header built for its exact length.
pub open spec fn spec_frame(data: Seq<u8>) -> Option<PacketView> {
    if data.len() <= u16::MAX {
        Some(PacketView { header: spec_header(data.len() as u16), data })
    } else {
        None
    }
}

/// Length bound: framing a payload of 65536 bytes or more fails; framing
/// any payload that fits — the largest, 65535 bytes, included — succeeds,
/// and its header validates and declares the payload's exact length.
pub proof fn lemma_length_bound(data: Seq<u8>)
    ensures
        spec_frame(data) is None <==> data.len() > u16::MAX,
        spec_frame(data) matches Some(p) ==> spec_magic_ok(p.header) && spec_reserved_ok(p.header)
            && spec_len_of_header(p.header) == data.len() && p.data == data,
{
    if data.len() <= u16::MAX {
        lemma_header_round_trip(data.len() as u16);
    }
}

/// One framed unit of wire data: a header and the data it declares.
pub struct Packet {
    header: [u8; 8],
    data: Vec<u8>,
}

/// The mathematical content of a [`Packet`]: both parts as byte sequences.
pub struct PacketView {
    pub header: Seq<u8>,
    pub data: Seq<u8>,
}

impl View for Packet {
    type V = PacketView;

    closed spec fn view(&self) -> PacketView {
        PacketView { header: self.header@, data: self.data@ }
    }
}

impl Packet {
    /// Frames `data`, which must fit the 16-bit length field.
    pub fn new(data: Vec<u8>) -> (r: Packet)
        requires
            data@.len() <= u16::MAX,
        ensures
            r@.header == spec_header(data@.len() as u16),
            r@.data == data@,
    {
        let len: u16 = data.len() as u16;
        let header: [u8; 8] = [
            PACKET_VERSION[0],
            PACKET_VERSION[1],
            PACKET_VERSION[2],
            PACKET_VERSION[3],
            (len % 256) as u8,
            (len / 256) as u8,
            0,
            0,
        ];
        proof {
            assert(header@ =~= spec_header(len));
        }
        Packet { header, data }
    }

    /// Frames `data` when it fits the 16-bit length field; rejects it
    /// otherwise, so that an oversized payload is never silently truncated.
    pub fn try_new(data: Vec<u8>) -> (r: Option<Packet>)
        ensures
            match spec_frame(data@) {
                Some(p) => r matches Some(pk) && pk@ == p,
                None => r is None,
            },
    {
        if data.len() > u16::MAX as usize {
            None
        } else {
            Some(Packet::new(data))
        }
    }

    /// The packet as it goes on the wire: header bytes, then data bytes.
    pub fn into_bytes(self) -> (r: Vec<u8>)
        ensures
            r@ == self@.header + self@.data,
    {
        let mut bytes: Vec<u8> = Vec::new();
        let mut i: usize = 0;
        while i < 8
            invariant
                i <= 8,
                bytes@ =~= self@.header.take(i as int),
            decreases 8 - i,
        {
            bytes.push(self.header[i]);
            i = i + 1;
        }
        proof {
            assert(bytes@ =~= self@.header);
        }
        let mut data = self.data;
        bytes.append(&mut data);
        bytes
    }

    /// The header bytes of this packet.
    pub fn header(&self) -> (r: &[u8; 8])
        ensures
            r@ == self@.header,
    {
        &self.header
    }

    /// The data section of this packet.
    pub fn data(&self) -> (r: &[u8])
        ensures
            r@ == self@.data,
    {
        self.data.as_slice()
    }

    /// Replaces the data section and rebuilds the header, so the frame
    /// keeps declaring exactly the length of the data it holds.
    pub fn set_data(&mut self, data: Vec<u8>)
        requires
            data@.len() <= u16::MAX,
        ensures
            final(self)@.header == spec_header(data@.len() as u16),
            final(self)@.data == data@,
    {
        *self = Packet::new(data);
    }

    /// Validates a header and reads the data length it declares.
    ///
    /// Rejects any header whose first four bytes differ from the version
    /// tag, and any header whose reserved bytes are not zero, whatever the
    /// rest of the header holds.
    pub fn len_from_header(header: &[u8; 8]) -> (r: Result<usize, PacketError>)
        ensures
            !spec_magic_ok(header@) ==> r == Err::<usize, PacketError>(PacketError::BadVersion),
            spec_magic_ok(header@) && !spec_reserved_ok(header@) ==> r == Err::<
                usize,
                PacketError,
            >(PacketError::ReservedNotZero),
            spec_magic_ok(header@) && spec_reserved_ok(header@) ==> (r matches Ok(l) && l
                == spec_len_of_header(header@)),
    {
        let good_version = header[0] == PACKET_VERSION[0] && header[1] == PACKET_VERSION[1]
            && header[2] == PACKET_VERSION[2] && header[3] == PACKET_VERSION[3];

        if !good_version {
            return Err(PacketError::BadVersion);
        }

        if header[6] != 0 || header[7] != 0 {
            return Err(PacketError::ReservedNotZero);
        }

        let len_low = header[4] as usize;
        let len_high = header[5] as usize;
        Ok(len_low + 256 * len_high)
    }
}

/// Why a header was rejected.
#[derive(Debug, Clone, Copy, PartialEq, Eq, Structural)]
pub enum PacketError {
    /// The first four bytes differ from the protocol-version tag.
    BadVersion,
    /// The reserved bytes are not zero.
    ReservedNotZero,
}

} // verus!
