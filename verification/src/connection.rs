//! The SMP protocol engine: a connection owns a byte transport, allocates
//! sequence numbers, frames requests, and matches responses by sequence
//! number, group, command, and operation.

use vstd::prelude::*;

use crate::cbor::{parse_cbor, Cbor, CborValue};
use crate::cbor::spec_cbor;
use crate::commands::{
    decode_error_envelope, spec_error_verdict, ErrorVerdict, McuMgrCommand,
};
use crate::errors::DeviceError;
use crate::errors::{ExecuteError, ReceiveError, SendError, TransportError};

use crate::framing::{encode_packet, FeedOutcome, FrameAccumulator};
use crate::header::{SmpHeader, OP_READ, OP_READ_RSP, OP_WRITE, OP_WRITE_RSP, SMP_HEADER_SIZE};

verus! {

/// A duplex byte stream that carries newline-terminated records, with a
/// configurable read deadline. Implementations live outside the library
/// (a serial port, a socket) or in tests (a scripted transport).
pub trait Transport {
    /// Writes all of `data` to the stream.
    fn write_all(&mut self, data: &[u8]) -> Result<(), TransportError>;

    /// Reads one record, up to and excluding the next newline terminator.
    fn read_line(&mut self) -> Result<Vec<u8>, TransportError>;

    /// Changes the read deadline, in milliseconds.
    fn set_read_timeout_ms(&mut self, ms: u64) -> Result<(), TransportError>;
}

/// A transport for tests: hands out a fixed script of incoming records and
/// keeps everything written to it.
pub struct ScriptedTransport {
    /// The records still to be handed out, in order.
    pub script: Vec<Vec<u8>>,
    /// How many records of the script were already handed out.
    pub consumed: usize,
    /// Everything written, one `write_all` call per entry.
    pub sent: Vec<Vec<u8>>,
}

impl ScriptedTransport {
    /// A transport that will hand out the given records.
    pub fn new(script: Vec<Vec<u8>>) -> (r: ScriptedTransport)
        ensures
            r.script == script,
            r.consumed == 0,
            r.sent@.len() == 0,
    {
        ScriptedTransport { script, consumed: 0, sent: Vec::new() }
    }
}

impl Transport for ScriptedTransport {
    fn write_all(&mut self, data: &[u8]) -> (r: Result<(), TransportError>) {
        let copy = crate::framing::copy_range(data, 0, data.len());
        self.sent.push(copy);
        Ok(())
    }

    fn read_line(&mut self) -> (r: Result<Vec<u8>, TransportError>) {
        if self.consumed < self.script.len() {
            let line = crate::framing::copy_range(
                self.script[self.consumed].as_slice(),
                0,
                self.script[self.consumed].len(),
            );
            self.consumed = self.consumed + 1;
            Ok(line)
        } else {
            Err(TransportError::Timeout)
        }
    }

    fn set_read_timeout_ms(&mut self, _ms: u64) -> (r: Result<(), TransportError>) {
        Ok(())
    }
}

/// What the receive loop does with one reassembled packet.
#[derive(Debug, Clone, Copy, PartialEq, Eq, Structural)]
pub enum FrameDisposition {
    /// The sequence number does not match: drop the packet silently.
    Skip,
    /// The sequence number matches and so do group, command, operation,
    /// and declared length: this is the response.
    Accept,
    /// The sequence number matches but something else does not: fail.
    Reject,
}

/// The operation code a response to a request must carry.
pub open spec fn spec_expected_op(write_operation: bool) -> u8 {
    if write_operation {
        OP_WRITE_RSP
    } else {
        OP_READ_RSP
    }
}

/// Classifies a response header against the request it may answer: a
/// non-matching sequence number is skipped silently; a matching one is
/// accepted only if group, command, operation (request operation plus one),
/// and declared payload length all agree, and rejected otherwise.
pub open spec fn spec_classify(
    h: SmpHeader,
    body_len: int,
    write_operation: bool,
    seq: u8,
    group: u16,
    cmd: u8,
) -> FrameDisposition {
    if h.sequence_num != seq {
        FrameDisposition::Skip
    } else if h.group_id != group || h.command_id != cmd || h.op != spec_expected_op(
        write_operation,
    ) || h.data_length != body_len {
        FrameDisposition::Reject
    } else {
        FrameDisposition::Accept
    }
}

/// Sequence matching: a response is silently dropped exactly when its
/// sequence number differs from the request's; one with the right sequence
/// number is rejected exactly when its group, command, operation, or
/// declared payload length is wrong, and accepted otherwise.
pub proof fn lemma_sequence_matching(
    h: SmpHeader,
    body_len: int,
    write_operation: bool,
    seq: u8,
    group: u16,
    cmd: u8,
)
    ensures
        spec_classify(h, body_len, write_operation, seq, group, cmd) == FrameDisposition::Skip
            <==> h.sequence_num != seq,
        spec_classify(h, body_len, write_operation, seq, group, cmd) == FrameDisposition::Reject
            <==> (h.sequence_num == seq && (h.group_id != group || h.command_id != cmd || h.op
            != spec_expected_op(write_operation) || h.data_length != body_len)),
        spec_classify(h, body_len, write_operation, seq, group, cmd) == FrameDisposition::Accept
            <==> (h.sequence_num == seq && h.group_id == group && h.command_id == cmd && h.op
            == spec_expected_op(write_operation) && h.data_length == body_len),
{
}

/// Classifies a response header against the request it may answer.
pub fn classify_response(
    h: &SmpHeader,
    body_len: usize,
    write_operation: bool,
    seq: u8,
    group: u16,
    cmd: u8,
) -> (r: FrameDisposition)
    ensures
        r == spec_classify(*h, body_len as int, write_operation, seq, group, cmd),
{
    let expected_op = if write_operation {
        OP_WRITE_RSP
    } else {
        OP_READ_RSP
    };
    if h.sequence_num != seq {
        FrameDisposition::Skip
    } else if h.group_id != group || h.command_id != cmd || h.op != expected_op || !(body_len
        <= 0xffff && h.data_length == body_len as u16) {
        FrameDisposition::Reject
    } else {
        FrameDisposition::Accept
    }
}

/// Relies on `rand::random`: a byte drawn from thread-local randomness;
/// nothing is promised of its value.
#[verifier::external_body]
pub(crate) fn random_byte() -> u8 {
    rand::random()
}

/// Largest request payload that still fits one SMP packet beside the
/// header: the frame's 16-bit length prefix counts the packet and its CRC.
pub const MAX_PAYLOAD_SIZE: usize = 65525;

/// How many records a single receive may consume before giving up; stale
/// responses and log noise count against it, so it is far above anything a
/// well-behaved device produces.
pub const MAX_RECEIVE_RECORDS: usize = 65536;

/// An SMP protocol connection to a device over a byte transport.
pub struct Connection<T: Transport> {
    /// The byte transport the connection owns.
    pub transport: T,
    /// The sequence number the next request will carry.
    pub next_seqnum: u8,
}

impl<T: Transport> Connection<T> {
    /// A connection over the given transport, starting at a random
    /// sequence number.
    pub fn new(transport: T) -> (r: Connection<T>)
        ensures
            r.transport == transport,
    {
        Connection { transport, next_seqnum: random_byte() }
    }

    /// Changes the transport's read deadline, in milliseconds.
    pub fn set_timeout_ms(&mut self, ms: u64) -> (r: Result<(), TransportError>)
        ensures
            final(self).next_seqnum == old(self).next_seqnum,
    {
        self.transport.set_read_timeout_ms(ms)
    }

    /// Frames one request and writes it to the transport. Fails with
    /// `DataTooBig` exactly when the payload cannot be declared in the
    /// header's 16-bit length field together with the packet length prefix.
    pub fn send_frame(
        &mut self,
        write_operation: bool,
        sequence_num: u8,
        group_id: u16,
        command_id: u8,
        data: &[u8],
    ) -> (r: Result<(), SendError>)
        ensures
            data@.len() > MAX_PAYLOAD_SIZE ==> r == Result::<(), SendError>::Err(
                SendError::DataTooBig,
            ),
            r == Result::<(), SendError>::Err(SendError::DataTooBig) ==> data@.len()
                > MAX_PAYLOAD_SIZE,
            final(self).next_seqnum == old(self).next_seqnum,
    {
        if data.len() > MAX_PAYLOAD_SIZE {
            return Err(SendError::DataTooBig);
        }
        let header = SmpHeader {
            ver: 1,
            op: if write_operation {
                OP_WRITE
            } else {
                OP_READ
            },
            flags: 0,
            data_length: data.len() as u16,
            group_id,
            sequence_num,
            command_id,
        };
        let header_bytes = header.to_bytes();
        let mut packet: Vec<u8> = Vec::new();
        packet.extend_from_slice(header_bytes.as_slice());
        packet.extend_from_slice(data);
        let wire = encode_packet(packet.as_slice());
        match self.transport.write_all(wire.as_slice()) {
            Ok(()) => Ok(()),
            Err(e) => Err(SendError::TransportError(e)),
        }
    }

    /// Reads records until a packet arrives whose header answers the given
    /// request: a packet too short for a header is a framing error; packets
    /// with another sequence number are dropped silently; a packet with the
    /// right sequence number but the wrong group, command, operation, or
    /// declared length is an unexpected response.
    pub fn receive_frame(
        &mut self,
        write_operation: bool,
        sequence_num: u8,
        group_id: u16,
        command_id: u8,
    ) -> (r: Result<(SmpHeader, Vec<u8>), ReceiveError>)
        ensures
            r matches Ok((h, body)) ==> spec_classify(
                h,
                body@.len() as int,
                write_operation,
                sequence_num,
                group_id,
                command_id,
            ) == FrameDisposition::Accept && h.wf(),
            final(self).next_seqnum == old(self).next_seqnum,
    {
        let mut acc = FrameAccumulator::new();
        let mut reads: usize = 0;
        while reads < MAX_RECEIVE_RECORDS
            invariant
                self.next_seqnum == old(self).next_seqnum,
            decreases MAX_RECEIVE_RECORDS - reads,
        {
            reads = reads + 1;
            let line = match self.transport.read_line() {
                Ok(line) => line,
                Err(e) => {
                    return Err(ReceiveError::TransportError(e));
                },
            };
            let packet = match acc.feed(line.as_slice()) {
                FeedOutcome::Complete(packet) => packet,
                FeedOutcome::Failed => {
                    return Err(ReceiveError::Framing);
                },
                _ => {
                    continue ;
                },
            };
            if packet.len() < SMP_HEADER_SIZE {
                // a packet too short for the header is a broken frame
                return Err(ReceiveError::Framing);
            }
            let mut header_bytes: [u8; 8] = [0; 8];
            let mut i: usize = 0;
            while i < 8
                invariant
                    i <= 8,
                    packet@.len() >= 8,
                    forall|j: int| 0 <= j < i ==> header_bytes@[j] == packet@[j],
                decreases 8 - i,
            {
                header_bytes[i] = packet[i];
                i = i + 1;
            }
            let header = SmpHeader::from_bytes(header_bytes);
            let body = crate::framing::copy_range(packet.as_slice(), 8, packet.len());
            match classify_response(
                &header,
                body.len(),
                write_operation,
                sequence_num,
                group_id,
                command_id,
            ) {
                FrameDisposition::Skip => {
                    continue ;
                },
                FrameDisposition::Reject => {
                    return Err(ReceiveError::UnexpectedResponse);
                },
                FrameDisposition::Accept => {
                    return Ok((header, body));
                },
            }
        }
        Err(ReceiveError::TransportError(TransportError::Timeout))
    }

    /// Executes a typed SMP command: encodes the payload, allocates the next
    /// sequence number (wrapping at 256), exchanges one request and response,
    /// decodes the generic error envelope, and then the typed response.
    pub fn execute_command<R: McuMgrCommand>(&mut self, request: &R) -> (r: Result<
        R::Response,
        ExecuteError,
    >)
        ensures
            final(self).next_seqnum == (old(self).next_seqnum + 1) % 256,
            spec_cbor(request.spec_payload()).len() > MAX_PAYLOAD_SIZE <==> r matches Err(
                ExecuteError::SendFailed(SendError::DataTooBig),
            ),
            r matches Err(ExecuteError::ErrorResponse(e)) ==> (e matches DeviceError::V1 {
                rc,
                ..
            } ==> rc != 0),
            r matches Ok(resp) ==> exists|v: Cbor|
                #[trigger] R::response_matches(v, resp) && spec_error_verdict(v)
                    == ErrorVerdict::NoError,
    {
        let payload = request.encode_payload();
        let sequence_num = self.next_seqnum;
        self.next_seqnum = self.next_seqnum.wrapping_add(1);
        let write_operation = request.is_write_operation();
        let group_id = request.group_id();
        let command_id = request.command_id();

        if let Err(e) = self.send_frame(
            write_operation,
            sequence_num,
            group_id,
            command_id,
            payload.as_slice(),
        ) {
            return Err(ExecuteError::SendFailed(e));
        }
        let (_header, body) = match self.receive_frame(
            write_operation,
            sequence_num,
            group_id,
            command_id,
        ) {
            Ok(ok) => ok,
            Err(e) => {
                return Err(ExecuteError::ReceiveFailed(e));
            },
        };
        let value = match parse_cbor(body.as_slice()) {
            Some(value) => value,
            None => {
                return Err(ExecuteError::DecodeFailed);
            },
        };
        match decode_error_envelope(&value) {
            Ok(None) => {},
            Ok(Some(device_error)) => {
                proof {
                    lemma_v1_error_nonzero(value@, device_error);
                }
                return Err(ExecuteError::ErrorResponse(device_error));
            },
            Err(()) => {
                return Err(ExecuteError::DecodeFailed);
            },
        }
        let result: Result<R::Response, ExecuteError> = match R::decode_response(&value) {
            Some(resp) => Ok(resp),
            None => Err(ExecuteError::DecodeFailed),
        };
        proof {
            if result is Ok {
                assert(R::response_matches(value@, result->Ok_0));
                assert(spec_error_verdict(value@) == ErrorVerdict::NoError);
            }
        }
        result
    }

    /// Executes a raw SMP command: the payload travels as given and the raw
    /// response payload comes back undecoded, except that the generic error
    /// envelope is still checked and a reported device error surfaces.
    pub fn execute_raw_command(
        &mut self,
        write_operation: bool,
        group_id: u16,
        command_id: u8,
        data: &[u8],
    ) -> (r: Result<Vec<u8>, ExecuteError>)
        ensures
            final(self).next_seqnum == (old(self).next_seqnum + 1) % 256,
            data@.len() > MAX_PAYLOAD_SIZE <==> r matches Err(
                ExecuteError::SendFailed(SendError::DataTooBig),
            ),
            r matches Err(ExecuteError::ErrorResponse(e)) ==> (e matches DeviceError::V1 {
                rc,
                ..
            } ==> rc != 0),
    {
        let sequence_num = self.next_seqnum;
        self.next_seqnum = self.next_seqnum.wrapping_add(1);
        if let Err(e) = self.send_frame(write_operation, sequence_num, group_id, command_id, data) {
            return Err(ExecuteError::SendFailed(e));
        }
        let (_header, body) = match self.receive_frame(
            write_operation,
            sequence_num,
            group_id,
            command_id,
        ) {
            Ok(ok) => ok,
            Err(e) => {
                return Err(ExecuteError::ReceiveFailed(e));
            },
        };
        let value = match parse_cbor(body.as_slice()) {
            Some(value) => value,
            None => {
                return Err(ExecuteError::DecodeFailed);
            },
        };
        match decode_error_envelope(&value) {
            Ok(None) => Ok(body),
            Ok(Some(device_error)) => {
                proof {
                    lemma_v1_error_nonzero(value@, device_error);
                }
                Err(ExecuteError::ErrorResponse(device_error))
            },
            Err(()) => Err(ExecuteError::DecodeFailed),
        }
    }
}

/// A version 1 device error decoded from an envelope always carries a
/// nonzero code: a zero `rc` is success and never surfaces as an error.
proof fn lemma_v1_error_nonzero(v: Cbor, e: DeviceError)
    requires
        ({
            match spec_error_verdict(v) {
                ErrorVerdict::V2(g, c) => e matches DeviceError::V2 { group, rc } && group == g
                    && rc == c,
                ErrorVerdict::V1(c, t) => e matches DeviceError::V1 { rc, .. } && rc == c,
                _ => false,
            }
        }),
    ensures
        e matches DeviceError::V1 { rc, .. } ==> rc != 0,
{
}

/// Sequence wrap: from any starting point, 256 successive increments
/// (wrapping at 256) pass through every sequence number once, so 257
/// consecutive requests reuse the first number exactly at the end.
pub proof fn lemma_sequence_wrap(s: Seq<u8>)
    requires
        s.len() >= 257,
        forall|i: int| 0 <= i < 256 ==> s[i + 1] == (#[trigger] s[i] + 1) % 256,
    ensures
        forall|b: u8| #[trigger] s.take(256).contains(b),
        s[256] == s[0],
{
    assert forall|b: u8| #[trigger] s.take(256).contains(b) by {
        let s0 = s[0] as int;
        let i = ((b as int) - s0) % 256;
        assert(0 <= i < 256);
        lemma_seq_step(s, i);
        vstd::arithmetic::div_mod::lemma_small_mod(s[0] as nat, 256);
        vstd::arithmetic::div_mod::lemma_small_mod(b as nat, 256);
        vstd::arithmetic::div_mod::lemma_add_mod_noop(s0, (b as int) - s0, 256);
        assert((s0 + i) % 256 == (s0 % 256 + ((b as int) - s0) % 256) % 256);
        assert((s0 % 256 + ((b as int) - s0) % 256) % 256 == (s0 + ((b as int) - s0)) % 256);
        assert(s[i] == b);
        assert(s.take(256)[i] == b);
    }
    lemma_seq_step(s, 256);
    vstd::arithmetic::div_mod::lemma_small_mod(s[0] as nat, 256);
    vstd::arithmetic::div_mod::lemma_add_mod_noop(s[0] as int, 256int, 256);
    assert((s[0] + 256) % 256 == s[0] as int % 256);
}

/// Each element of an incrementing sequence is the start offset by its index.
#[verifier::rlimit(100)]
#[verifier::spinoff_prover]
proof fn lemma_seq_step(s: Seq<u8>, i: int)
    requires
        s.len() >= 257,
        forall|k: int| 0 <= k < 256 ==> s[k + 1] == (#[trigger] s[k] + 1) % 256,
        0 <= i <= 256,
    ensures
        s[i] == (s[0] + i) % 256,
    decreases i,
{
    if i == 0 {
        vstd::arithmetic::div_mod::lemma_small_mod(s[0] as nat, 256);
        assert(s[0] as int == (s[0] + 0) % 256);
    } else {
        lemma_seq_step(s, i - 1);
        assert(s[i] == (s[i - 1] + 1) % 256);
        vstd::arithmetic::div_mod::lemma_small_mod(1nat, 256);
        vstd::arithmetic::div_mod::lemma_add_mod_noop(s[0] as int + (i - 1), 1int, 256);
        assert(((s[0] + (i - 1)) % 256 + 1) % 256 == (s[0] + i) % 256);
    }
}

} // verus!
