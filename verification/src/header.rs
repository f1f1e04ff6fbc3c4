//! The 8-byte SMP header: bit-exact packing and unpacking.
//!
//! Layout on the wire:
//! byte 0: bits 4..3 hold the protocol version, bits 2..0 the operation;
//! byte 1: flags; bytes 2..3: payload length (big endian);
//! bytes 4..5: group id (big endian); byte 6: sequence number;
//! byte 7: command id.

use vstd::prelude::*;

verus! {

/// Size of the SMP header in bytes.
pub const SMP_HEADER_SIZE: usize = 8;

/// SMP operation code: read request.
pub const OP_READ: u8 = 0;
/// SMP operation code: read response.
pub const OP_READ_RSP: u8 = 1;
/// SMP operation code: write request.
pub const OP_WRITE: u8 = 2;
/// SMP operation code: write response.
pub const OP_WRITE_RSP: u8 = 3;

/// The decoded form of the 8-byte SMP header.
#[derive(Clone, Copy, Debug, PartialEq, Eq, Structural)]
pub struct SmpHeader {
    /// Protocol version (2 bits on the wire).
    pub ver: u8,
    /// Operation (3 bits on the wire): read, read response, write, write response.
    pub op: u8,
    /// Flag byte; always zero in the traffic this library produces.
    pub flags: u8,
    /// Number of payload bytes that follow the header.
    pub data_length: u16,
    /// Command group identifier.
    pub group_id: u16,
    /// Sequence number matching responses to requests.
    pub sequence_num: u8,
    /// Command identifier within the group.
    pub command_id: u8,
}

impl SmpHeader {
    /// A header is in wire range when its version and operation fit their bit fields.
    pub open spec fn wf(self) -> bool {
        self.ver < 4 && self.op < 8
    }

    /// The wire bytes of a header.
    pub open spec fn spec_to_bytes(self) -> Seq<u8> {
        seq![
            (((self.ver & 3) << 3) | (self.op & 7)) as u8,
            self.flags,
            (self.data_length >> 8) as u8,
            (self.data_length & 0xff) as u8,
            (self.group_id >> 8) as u8,
            (self.group_id & 0xff) as u8,
            self.sequence_num,
            self.command_id,
        ]
    }

    /// The header a wire byte sequence denotes.
    pub open spec fn spec_from_bytes(data: Seq<u8>) -> SmpHeader
        recommends
            data.len() == 8,
    {
        SmpHeader {
            ver: ((data[0] >> 3) & 3) as u8,
            op: (data[0] & 7) as u8,
            flags: data[1],
            data_length: (((data[2] as u16) << 8) | (data[3] as u16)) as u16,
            group_id: (((data[4] as u16) << 8) | (data[5] as u16)) as u16,
            sequence_num: data[6],
            command_id: data[7],
        }
    }

    /// Decodes the 8 header bytes into their fields.
    pub fn from_bytes(data: [u8; 8]) -> (r: SmpHeader)
        ensures
            r == Self::spec_from_bytes(data@),
            r.wf(),
    {
        let b0 = data[0];
        let ver = (b0 >> 3) & 3;
        let op = b0 & 7;
        proof {
            assert(ver < 4 && op < 8) by (bit_vector)
                requires
                    ver == (b0 >> 3) & 3 && op == b0 & 7,
            ;
        }
        SmpHeader {
            ver,
            op,
            flags: data[1],
            data_length: ((data[2] as u16) << 8) | (data[3] as u16),
            group_id: ((data[4] as u16) << 8) | (data[5] as u16),
            sequence_num: data[6],
            command_id: data[7],
        }
    }

    /// Encodes the header fields into their 8 wire bytes.
    pub fn to_bytes(self) -> (r: [u8; 8])
        ensures
            r@ == self.spec_to_bytes(),
    {
        let r = [
            ((self.ver & 3) << 3) | (self.op & 7),
            self.flags,
            (self.data_length >> 8) as u8,
            (self.data_length & 0xff) as u8,
            (self.group_id >> 8) as u8,
            (self.group_id & 0xff) as u8,
            self.sequence_num,
            self.command_id,
        ];
        proof {
            assert(r@ =~= self.spec_to_bytes());
        }
        r
    }
}

/// Packing then unpacking an in-range header restores every field.
pub proof fn lemma_header_roundtrip(h: SmpHeader)
    requires
        h.wf(),
    ensures
        SmpHeader::spec_from_bytes(h.spec_to_bytes()) == h,
{
    let b = h.spec_to_bytes();
    let ver = h.ver;
    let op = h.op;
    let dl = h.data_length;
    let gid = h.group_id;
    assert(((((ver & 3) << 3) | (op & 7)) >> 3) & 3 == ver && ((((ver & 3) << 3) | (op & 7)) & 7)
        == op) by (bit_vector)
        requires
            ver < 4 && op < 8,
    ;
    assert((((dl >> 8) as u8 as u16) << 8) | ((dl & 0xff) as u8 as u16) == dl) by (bit_vector);
    assert((((gid >> 8) as u8 as u16) << 8) | ((gid & 0xff) as u8 as u16) == gid) by (bit_vector);
    assert(SmpHeader::spec_from_bytes(b) == h);
}

} // verus!
