//! The SMP wire framing: a packet travels as one or more newline-terminated
//! records. The first record starts with the marker bytes `06 09`,
//! continuation records with `04 14`; the rest of each record is base64 text.
//! The base64 texts of the records of one packet decode, joined, to a
//! 2-byte big-endian length (the packet plus its two CRC bytes), the packet
//! itself, and a 2-byte big-endian CRC-16/XMODEM of the packet.

use vstd::prelude::*;
use vstd::slice::{slice_subrange, slice_to_vec};

use crate::b64::{b64_decode, b64_encode, b64_encoding, is_base64_byte};
use crate::crc16::{crc16, crc16_xmodem};

verus! {

/// Largest packet (header plus payload) a frame can carry: the 16-bit
/// length prefix counts the packet and the two CRC bytes.
pub const MAX_PACKET_SIZE: usize = 65533;

/// Bytes of frame body carried per record: 124 base64 characters.
pub const CHUNK_RAW_LEN: usize = 93;

/// First byte of the start-of-packet record marker.
pub const MARKER_START_0: u8 = 0x06;
/// Second byte of the start-of-packet record marker.
pub const MARKER_START_1: u8 = 0x09;
/// First byte of the continuation record marker.
pub const MARKER_CONT_0: u8 = 0x04;
/// Second byte of the continuation record marker.
pub const MARKER_CONT_1: u8 = 0x14;
/// Record terminator.
pub const RECORD_TERMINATOR: u8 = 0x0a;

/// Big-endian bytes of a 16-bit value.
pub open spec fn be16(n: u16) -> Seq<u8> {
    seq![(n >> 8) as u8, (n & 0xff) as u8]
}

/// The frame body of a packet: length prefix (the packet plus the two CRC
/// bytes), the packet, and its CRC.
pub open spec fn frame_body(p: Seq<u8>) -> Seq<u8>
    recommends
        p.len() <= MAX_PACKET_SIZE,
{
    be16((p.len() + 2) as u16) + p + be16(crc16_xmodem(p))
}

/// The two marker bytes of a record.
pub open spec fn marker(first: bool) -> Seq<u8> {
    if first {
        seq![MARKER_START_0, MARKER_START_1]
    } else {
        seq![MARKER_CONT_0, MARKER_CONT_1]
    }
}

/// How many records a frame body needs.
pub open spec fn chunk_count(body: Seq<u8>) -> int {
    if body.len() <= CHUNK_RAW_LEN {
        1
    } else {
        (body.len() + CHUNK_RAW_LEN - 1) / (CHUNK_RAW_LEN as int)
    }
}

/// The `i`-th 93-byte slice of a frame body (the last one may be shorter).
pub open spec fn chunk_of(body: Seq<u8>, i: int) -> Seq<u8> {
    body.subrange(
        i * CHUNK_RAW_LEN,
        if (i + 1) * CHUNK_RAW_LEN <= body.len() {
            (i + 1) * CHUNK_RAW_LEN
        } else {
            body.len() as int
        },
    )
}

/// The wire bytes of a frame body, split into marked records.
pub open spec fn spec_wire(body: Seq<u8>, first: bool) -> Seq<u8>
    decreases body.len(),
{
    if body.len() <= CHUNK_RAW_LEN {
        marker(first) + b64_encoding(body) + seq![RECORD_TERMINATOR]
    } else {
        marker(first) + b64_encoding(body.take(CHUNK_RAW_LEN as int)) + seq![RECORD_TERMINATOR]
            + spec_wire(body.skip(CHUNK_RAW_LEN as int), false)
    }
}

/// The full wire form of a packet.
pub open spec fn spec_encode_packet(p: Seq<u8>) -> Seq<u8>
    recommends
        p.len() <= MAX_PACKET_SIZE,
{
    spec_wire(frame_body(p), true)
}

/// The records of a wire byte sequence, each terminated by a newline,
/// joined back into one sequence.
pub open spec fn join_records(lines: Seq<Seq<u8>>) -> Seq<u8>
    decreases lines.len(),
{
    if lines.len() == 0 {
        Seq::empty()
    } else {
        lines[0] + seq![RECORD_TERMINATOR] + join_records(lines.skip(1))
    }
}

/// Length of the prefix of `w` before its first newline (all of `w` if none).
pub open spec fn first_nl(w: Seq<u8>) -> int
    decreases w.len(),
{
    if w.len() == 0 {
        0
    } else if w[0] == RECORD_TERMINATOR {
        0
    } else {
        1 + first_nl(w.skip(1))
    }
}

/// The newline-terminated records of a wire byte sequence, terminators
/// stripped; a trailing unterminated fragment is dropped.
pub open spec fn spec_split(w: Seq<u8>) -> Seq<Seq<u8>>
    decreases w.len(),
{
    if w.len() == 0 {
        seq![]
    } else {
        let k = first_nl(w);
        if k < 0 || k >= w.len() {
            seq![]
        } else {
            seq![w.take(k)] + spec_split(w.skip(k + 1))
        }
    }
}

/// `w` consists exactly of the records that carry `body`: one start record
/// and continuations, each holding the base64 text of one 93-byte slice.
pub open spec fn wire_is_frame_of(w: Seq<u8>, body: Seq<u8>) -> bool {
    &&& body.len() >= 1
    &&& spec_split(w).len() == chunk_count(body)
    &&& forall|i: int|
        0 <= i < chunk_count(body) ==> spec_split(w)[i] == marker(i == 0) + b64_encoding(
            chunk_of(body, i),
        )
}

/// `first_nl` is determined by the position of the first newline.
proof fn lemma_first_nl_position(w: Seq<u8>, k: int)
    requires
        0 <= k <= w.len(),
        forall|i: int| 0 <= i < k ==> w[i] != RECORD_TERMINATOR,
        k < w.len() ==> w[k] == RECORD_TERMINATOR,
    ensures
        first_nl(w) == k,
    decreases w.len(),
{
    if w.len() == 0 {
    } else if w[0] == RECORD_TERMINATOR {
        assert(k == 0);
    } else {
        assert(k >= 1);
        lemma_first_nl_position(w.skip(1), k - 1);
    }
}

/// Splitting records that were joined with terminators restores them, as
/// long as no record holds a newline of its own.
proof fn lemma_split_join(lines: Seq<Seq<u8>>)
    requires
        forall|i: int, j: int|
            0 <= i < lines.len() && 0 <= j < lines[i].len() ==> lines[i][j] != RECORD_TERMINATOR,
    ensures
        spec_split(join_records(lines)) == lines,
    decreases lines.len(),
{
    let w = join_records(lines);
    if lines.len() == 0 {
        assert(spec_split(w) =~= lines);
    } else {
        let l0 = lines[0];
        let rest = join_records(lines.skip(1));
        assert(w == l0 + seq![RECORD_TERMINATOR] + rest);
        assert(w.len() == l0.len() + 1 + rest.len());
        assert(forall|i: int| 0 <= i < l0.len() ==> w[i] == l0[i]);
        assert(w[l0.len() as int] == RECORD_TERMINATOR);
        lemma_first_nl_position(w, l0.len() as int);
        assert(w.len() != 0);
        assert(first_nl(w) == l0.len() < w.len());
        assert(w.take(l0.len() as int) =~= l0);
        assert(w.skip(l0.len() as int + 1) =~= rest);
        lemma_split_join(lines.skip(1));
        assert(spec_split(w) =~= seq![l0] + spec_split(rest));
        assert(seq![l0] + lines.skip(1) =~= lines);
    }
}

/// Joining one more record appends its bytes and a terminator.
proof fn lemma_join_snoc(lines: Seq<Seq<u8>>, l: Seq<u8>)
    ensures
        join_records(lines.push(l)) == join_records(lines) + l + seq![RECORD_TERMINATOR],
    decreases lines.len(),
{
    if lines.len() == 0 {
        assert(lines.push(l).skip(1) =~= Seq::<Seq<u8>>::empty());
        assert(lines.push(l)[0] == l);
        assert(join_records(Seq::<Seq<u8>>::empty()) == Seq::<u8>::empty());
        assert(join_records(lines.push(l)) == lines.push(l)[0] + seq![RECORD_TERMINATOR]
            + join_records(lines.push(l).skip(1)));
        assert(join_records(lines.push(l)) =~= l + seq![RECORD_TERMINATOR]);
        assert(join_records(lines) + l + seq![RECORD_TERMINATOR] =~= l + seq![RECORD_TERMINATOR]);
    } else {
        assert(lines.push(l).skip(1) =~= lines.skip(1).push(l));
        assert(lines.push(l)[0] == lines[0]);
        lemma_join_snoc(lines.skip(1), l);
        assert(join_records(lines.push(l)) =~= join_records(lines) + l + seq![RECORD_TERMINATOR]);
    }
}

/// Encodes a packet into its wire form: one start record and as many
/// continuation records as the frame body needs, each holding at most 124
/// base64 characters and ending in a newline, so no record exceeds 127 bytes.
pub fn encode_packet(packet: &[u8]) -> (r: Vec<u8>)
    requires
        packet@.len() <= MAX_PACKET_SIZE,
    ensures
        r@ == spec_encode_packet(packet@),
        wire_is_frame_of(r@, frame_body(packet@)),
        forall|i: int| 0 <= i < spec_split(r@).len() ==> (#[trigger] spec_split(r@)[i]).len() <= 126,
{
    let len16: u16 = (packet.len() + 2) as u16;
    let crc = crc16(packet);
    let mut body: Vec<u8> = Vec::new();
    body.push((len16 >> 8) as u8);
    body.push((len16 & 0xff) as u8);
    body.extend_from_slice(packet);
    body.push((crc >> 8) as u8);
    body.push((crc & 0xff) as u8);
    proof {
        assert(body@ =~= frame_body(packet@));
    }
    let n = body.len();
    let nchunks = (n + 92) / 93;
    proof {
        assert(nchunks == chunk_count(body@) && 93 * (nchunks - 1) < n <= 93 * nchunks);
    }

    let mut out: Vec<u8> = Vec::new();
    let ghost mut lines: Seq<Seq<u8>> = Seq::empty();
    proof {
        assert(join_records(Seq::<Seq<u8>>::empty()) == Seq::<u8>::empty());
        assert(body@.skip(0) =~= body@);
    }
    let mut k: usize = 0;
    while k < nchunks
        invariant
            packet@.len() <= MAX_PACKET_SIZE,
            body@ == frame_body(packet@),
            n == body@.len(),
            4 <= n <= 65539,
            nchunks == chunk_count(body@),
            93 * (nchunks - 1) < n <= 93 * nchunks,
            k <= nchunks,
            lines.len() == k,
            out@ == join_records(lines),
            forall|i: int, j: int|
                0 <= i < lines.len() && 0 <= j < lines[i].len() ==> lines[i][j]
                    != RECORD_TERMINATOR,
            forall|i: int|
                0 <= i < lines.len() ==> #[trigger] lines[i] == marker(i == 0) + b64_encoding(
                    chunk_of(body@, i),
                ) && lines[i].len() <= 126,
            k < nchunks ==> spec_wire(body@, true) == out@ + spec_wire(
                body@.skip(93 * k),
                k == 0,
            ),
            k == nchunks ==> spec_wire(body@, true) == out@,
        decreases nchunks - k,
    {
        let off = k * 93;
        proof {
            assert(off < n);
        }
        let end = if off + 93 <= n {
            off + 93
        } else {
            n
        };
        let mut line: Vec<u8> = Vec::new();
        if k == 0 {
            line.push(MARKER_START_0);
            line.push(MARKER_START_1);
        } else {
            line.push(MARKER_CONT_0);
            line.push(MARKER_CONT_1);
        }
        let chunk = copy_range(body.as_slice(), off, end);
        let ghost chunk_seq = chunk@;
        let mut enc = b64_encode(chunk.as_slice());
        proof {
            assert(chunk_seq == chunk_of(body@, k as int));
            assert(enc@.len() <= 124);
        }
        line.append(&mut enc);
        let ghost lseq = line@;
        proof {
            assert(lseq =~= marker(k == 0) + b64_encoding(chunk_of(body@, k as int)));
            assert(forall|j: int| 0 <= j < lseq.len() ==> lseq[j] != RECORD_TERMINATOR) by {
                assert(forall|j: int|
                    2 <= j < lseq.len() ==> is_base64_byte(#[trigger] lseq[j]));
            }
        }
        out.append(&mut line);
        out.push(RECORD_TERMINATOR);
        proof {
            lemma_join_snoc(lines, lseq);
            lines = lines.push(lseq);
            assert(out@ == join_records(lines));
            // peel one record off the remaining wire form
            let rest = body@.skip(93 * k as int);
            if k + 1 < nchunks {
                assert(rest.len() > 93);
                assert(rest.take(93) =~= chunk_of(body@, k as int));
                assert(rest.skip(93) =~= body@.skip(93 * (k + 1)));
                assert(spec_wire(rest, k == 0) == marker(k == 0) + b64_encoding(
                    chunk_of(body@, k as int),
                ) + seq![RECORD_TERMINATOR] + spec_wire(body@.skip(93 * (k + 1)), false));
            } else {
                assert(rest.len() <= 93);
                assert(rest =~= chunk_of(body@, k as int));
                assert(spec_wire(rest, k == 0) == marker(k == 0) + b64_encoding(
                    chunk_of(body@, k as int),
                ) + seq![RECORD_TERMINATOR]);
            }
            assert(spec_wire(body@, true) == join_records(lines) + if k + 1 < nchunks {
                spec_wire(body@.skip(93 * (k + 1)), false)
            } else {
                Seq::<u8>::empty()
            });
        }
        k = k + 1;
    }
    proof {
        lemma_split_join(lines);
        assert(out@ == spec_encode_packet(packet@));
        assert(wire_is_frame_of(out@, frame_body(packet@)));
    }
    out
}

/// Copies `data[start..end]` into a fresh vector.
pub fn copy_range(data: &[u8], start: usize, end: usize) -> (r: Vec<u8>)
    requires
        start <= end <= data@.len(),
    ensures
        r@ == data@.subrange(start as int, end as int),
{
    slice_to_vec(slice_subrange(data, start, end))
}

/// What feeding one record to the accumulator produced.
pub enum FeedOutcome {
    /// The record was not part of a frame and was discarded as noise.
    Ignored,
    /// The record was accepted; the frame is not complete yet.
    Progress,
    /// The record completed a frame whose length and CRC checks passed.
    Complete(Vec<u8>),
    /// The record completed or broke a frame; the frame was discarded.
    Failed,
}

/// What an accumulated frame body prefix denotes.
pub enum AccOutcome {
    /// More records are needed.
    Progress,
    /// The accumulated bytes cannot be a frame body.
    Failed,
    /// A full frame body whose checks passed, carrying this packet.
    Complete(Seq<u8>),
}

/// The total length a frame body announces in its first two bytes: the
/// prefix counts the packet and the CRC, so the body adds the two prefix
/// bytes on top.
pub open spec fn expected_len(acc: Seq<u8>) -> int
    recommends
        acc.len() >= 2,
{
    (acc[0] as int) * 256 + (acc[1] as int) + 2
}

/// Classifies an accumulated frame body prefix: still growing, broken,
/// or complete with a valid CRC.
pub open spec fn acc_outcome(acc: Seq<u8>) -> AccOutcome {
    if acc.len() < 2 {
        AccOutcome::Progress
    } else {
        let e = expected_len(acc);
        if e < 4 {
            AccOutcome::Failed
        } else if acc.len() < e {
            AccOutcome::Progress
        } else if acc.len() > e {
            AccOutcome::Failed
        } else {
            let p = acc.subrange(2, e - 2);
            if (acc[e - 2] as int) * 256 + (acc[e - 1] as int) == crc16_xmodem(p) as int {
                AccOutcome::Complete(p)
            } else {
                AccOutcome::Failed
            }
        }
    }
}

/// Relates the result and the state after a `feed` call to the bytes
/// accumulated so far.
pub open spec fn feed_result_ok(r: FeedOutcome, st: FrameAccumulator, acc2: Seq<u8>) -> bool {
    match acc_outcome(acc2) {
        AccOutcome::Progress => r is Progress && st.started && st.acc@ == acc2,
        AccOutcome::Failed => r is Failed && !st.started && st.acc@.len() == 0,
        AccOutcome::Complete(p) => {
            &&& r is Complete
            &&& r->0@ == p
            &&& !st.started
            &&& st.acc@.len() == 0
        },
    }
}

/// Reassembles one packet from its records, fed one at a time.
pub struct FrameAccumulator {
    /// Whether a start record has been seen for the frame being assembled.
    pub started: bool,
    /// The frame body bytes decoded so far.
    pub acc: Vec<u8>,
}

impl FrameAccumulator {
    /// A fresh accumulator awaiting a start record.
    pub fn new() -> (r: Self)
        ensures
            !r.started,
            r.acc@.len() == 0,
    {
        FrameAccumulator { started: false, acc: Vec::new() }
    }

    fn reset(&mut self)
        ensures
            !final(self).started,
            final(self).acc@.len() == 0,
    {
        self.started = false;
        self.acc.clear();
    }

    /// Feeds one record (without its newline terminator). A record that does
    /// not start with a frame marker is noise and is ignored; a start record
    /// begins a frame (dropping any half-assembled one); a continuation
    /// record extends the current frame. When the accumulated bytes reach
    /// the announced length, the CRC decides between a packet and a failure.
    pub fn feed(&mut self, line: &[u8]) -> (r: FeedOutcome)
        ensures
            ({
                let is_start = line@.len() >= 2 && line@[0] == MARKER_START_0 && line@[1]
                    == MARKER_START_1;
                let is_cont = line@.len() >= 2 && line@[0] == MARKER_CONT_0 && line@[1]
                    == MARKER_CONT_1 && old(self).started;
                &&& (!is_start && !is_cont) ==> r is Ignored && *final(self) == *old(self)
                &&& is_start ==> forall|c: Seq<u8>|
                    line@.skip(2) == #[trigger] b64_encoding(c) ==> feed_result_ok(
                        r,
                        *final(self),
                        c,
                    )
                &&& (is_cont && !is_start) ==> forall|c: Seq<u8>|
                    line@.skip(2) == #[trigger] b64_encoding(c) ==> feed_result_ok(
                        r,
                        *final(self),
                        old(self).acc@ + c,
                    )
            }),
    {
        if line.len() < 2 {
            return FeedOutcome::Ignored;
        }
        let m0 = line[0];
        let m1 = line[1];
        let is_start = m0 == MARKER_START_0 && m1 == MARKER_START_1;
        let is_cont = m0 == MARKER_CONT_0 && m1 == MARKER_CONT_1 && self.started;
        if !is_start && !is_cont {
            return FeedOutcome::Ignored;
        }
        let text = copy_range(line, 2, line.len());
        let decoded = b64_decode(text.as_slice());
        let mut chunk = match decoded {
            Some(chunk) => chunk,
            None => {
                self.reset();
                return FeedOutcome::Failed;
            },
        };
        if is_start {
            self.acc.clear();
            self.started = true;
        }
        self.acc.append(&mut chunk);
        if self.acc.len() < 2 {
            return FeedOutcome::Progress;
        }
        let e = (self.acc[0] as usize) * 256 + (self.acc[1] as usize) + 2;
        if e < 4 {
            self.reset();
            return FeedOutcome::Failed;
        }
        if self.acc.len() < e {
            return FeedOutcome::Progress;
        }
        if self.acc.len() > e {
            self.reset();
            return FeedOutcome::Failed;
        }
        let packet = copy_range(self.acc.as_slice(), 2, e - 2);
        let crc = crc16(packet.as_slice());
        let rx: u32 = (self.acc[e - 2] as u32) * 256 + (self.acc[e - 1] as u32);
        self.reset();
        if crc as u32 == rx {
            FeedOutcome::Complete(packet)
        } else {
            FeedOutcome::Failed
        }
    }
}

/// Splits wire bytes into newline-terminated records, terminators stripped;
/// a trailing unterminated fragment is dropped.
pub fn split_lines(wire: &[u8]) -> (r: Vec<Vec<u8>>)
    ensures
        r@.len() == spec_split(wire@).len(),
        forall|i: int| 0 <= i < r@.len() ==> (#[trigger] r@[i])@ == spec_split(wire@)[i],
{
    let mut r: Vec<Vec<u8>> = Vec::new();
    let mut pos: usize = 0;
    proof {
        assert(wire@.skip(0) =~= wire@);
    }
    loop
        invariant
            pos <= wire@.len(),
            spec_split(wire@).len() == r@.len() + spec_split(wire@.skip(pos as int)).len(),
            forall|i: int|
                0 <= i < r@.len() ==> (#[trigger] r@[i])@ == spec_split(wire@)[i],
            forall|i: int|
                0 <= i < spec_split(wire@.skip(pos as int)).len() ==> spec_split(
                    wire@.skip(pos as int),
                )[i] == spec_split(wire@)[r@.len() + i],
        decreases wire@.len() - pos,
    {
        let ghost rest = wire@.skip(pos as int);
        let mut j = pos;
        while j < wire.len() && wire[j] != RECORD_TERMINATOR
            invariant
                pos <= j <= wire@.len(),
                forall|i: int| pos <= i < j ==> wire@[i] != RECORD_TERMINATOR,
            decreases wire@.len() - j,
        {
            j = j + 1;
        }
        proof {
            assert(forall|i: int| 0 <= i < j - pos ==> rest[i] == wire@[pos + i]);
        }
        if j == wire.len() {
            proof {
                lemma_first_nl_position(rest, rest.len() as int);
                assert(spec_split(rest).len() == 0);
            }
            return r;
        }
        proof {
            lemma_first_nl_position(rest, j - pos);
            assert(rest.take(j - pos) =~= wire@.subrange(pos as int, j as int));
            assert(rest.skip(j - pos + 1) =~= wire@.skip(j as int + 1));
            assert(spec_split(rest) == seq![wire@.subrange(pos as int, j as int)] + spec_split(
                wire@.skip(j as int + 1),
            ));
        }
        let line = copy_range(wire, pos, j);
        let ghost old_r = r@;
        let ghost old_split_rest = spec_split(rest);
        r.push(line);
        pos = j + 1;
        proof {
            assert(r@ =~= old_r.push(line));
            assert(old_split_rest[0] == line@);
            assert(forall|i: int|
                0 <= i < spec_split(wire@.skip(pos as int)).len() ==> #[trigger] spec_split(
                    wire@.skip(pos as int),
                )[i] == old_split_rest[i + 1]);
        }
    }
}

/// Decodes the full wire form of one packet, tolerating interleaved noise
/// records: the inverse of `encode_packet`.
pub fn decode_packet(wire: &[u8]) -> (r: Option<Vec<u8>>)
    ensures
        forall|body: Seq<u8>|
            #[trigger] wire_is_frame_of(wire@, body) && acc_outcome(body) is Complete ==> r
                is Some && r->0@ == acc_outcome(body)->Complete_0,
{
    let lines = split_lines(wire);
    let mut acc = FrameAccumulator::new();
    let mut i: usize = 0;
    while i < lines.len()
        invariant
            lines@.len() == spec_split(wire@).len(),
            forall|k: int| 0 <= k < lines@.len() ==> (#[trigger] lines@[k])@ == spec_split(wire@)[k],
            i <= lines@.len(),
            forall|body: Seq<u8>|
                #[trigger] wire_is_frame_of(wire@, body) && acc_outcome(body) is Complete ==> i
                    < chunk_count(body) && acc.started == (i > 0) && acc.acc@ == body.take(
                    93 * i as int,
                ),
        decreases lines@.len() - i,
    {
        let outcome = acc.feed(lines[i].as_slice());
        let ghost pre_i = i as int;
        proof {
            assert forall|body: Seq<u8>|
                #[trigger] wire_is_frame_of(wire@, body) && acc_outcome(body)
                    is Complete implies feed_result_ok(
                outcome,
                acc,
                body.take(
                    if 93 * (pre_i + 1) <= body.len() {
                        93 * (pre_i + 1)
                    } else {
                        body.len() as int
                    },
                ),
            ) by {
                let m = chunk_count(body);
                let line = spec_split(wire@)[pre_i];
                assert(line == marker(pre_i == 0) + b64_encoding(chunk_of(body, pre_i)));
                assert(line.skip(2) =~= b64_encoding(chunk_of(body, pre_i)));
                let hi = if 93 * (pre_i + 1) <= body.len() {
                    93 * (pre_i + 1)
                } else {
                    body.len() as int
                };
                assert(body.take(93 * pre_i) + chunk_of(body, pre_i) =~= body.take(hi));
            }
        }
        match outcome {
            FeedOutcome::Complete(p) => {
                proof {
                    assert forall|body: Seq<u8>|
                        #[trigger] wire_is_frame_of(wire@, body) && acc_outcome(body)
                            is Complete implies p@ == acc_outcome(body)->Complete_0 by {
                        lemma_take_outcome(body, pre_i);
                    }
                }
                return Some(p);
            },
            FeedOutcome::Failed => {
                proof {
                    assert forall|body: Seq<u8>|
                        #[trigger] wire_is_frame_of(wire@, body) && acc_outcome(body)
                            is Complete implies false by {
                        lemma_take_outcome(body, pre_i);
                    }
                }
                return None;
            },
            _ => {
                proof {
                    assert forall|body: Seq<u8>|
                        #[trigger] wire_is_frame_of(wire@, body) && acc_outcome(body)
                            is Complete implies pre_i + 1 < chunk_count(body) && acc.started
                        && acc.acc@ == body.take(93 * (pre_i + 1)) by {
                        lemma_take_outcome(body, pre_i);
                    }
                }
            },
        }
        i = i + 1;
    }
    proof {
        assert forall|body: Seq<u8>|
            #[trigger] wire_is_frame_of(wire@, body) && acc_outcome(body)
                is Complete implies false by {
            assert(chunk_count(body) <= spec_split(wire@).len());
        }
    }
    None
}

/// On a frame body that classifies as complete, every proper prefix cut at a
/// record boundary classifies as still in progress.
proof fn lemma_take_outcome(body: Seq<u8>, i: int)
    requires
        acc_outcome(body) is Complete,
        0 <= i < chunk_count(body),
    ensures
        93 * (i + 1) < body.len() ==> i + 1 < chunk_count(body) && acc_outcome(
            body.take(93 * (i + 1)),
        ) is Progress,
        93 * (i + 1) >= body.len() ==> i + 1 == chunk_count(body) && body.take(body.len() as int)
            == body,
{
    assert(body.len() == expected_len(body) >= 4);
    if 93 * (i + 1) < body.len() {
        let k = 93 * (i + 1);
        let pre = body.take(k);
        assert(pre.len() == k);
        if k >= 2 {
            assert(pre[0] == body[0] && pre[1] == body[1]);
            assert(expected_len(pre) == expected_len(body) == body.len() > k);
        }
        assert(acc_outcome(pre) is Progress);
        if body.len() <= 93 {
            assert(false);
        } else {
            assert(chunk_count(body) == (body.len() + 92) / 93);
            assert(i + 1 < chunk_count(body)) by (nonlinear_arith)
                requires
                    93 * (i + 1) < body.len(),
                    chunk_count(body) == (body.len() + 92) / 93,
            ;
        }
    } else {
        assert(body.take(body.len() as int) =~= body);
        if body.len() <= 93 {
            assert(chunk_count(body) == 1 && i == 0);
        } else {
            assert(i + 1 >= chunk_count(body)) by (nonlinear_arith)
                requires
                    93 * (i + 1) >= body.len() > 93,
                    chunk_count(body) == (body.len() + 92) / 93,
            ;
        }
    }
}

/// Framing round trip: decoding the wire form of any packet of at most
/// 65,535 bytes restores the packet exactly.
pub fn frame_roundtrip(packet: &[u8]) -> (r: Vec<u8>)
    requires
        packet@.len() <= MAX_PACKET_SIZE,
    ensures
        r@ == packet@,
{
    let wire = encode_packet(packet);
    proof {
        lemma_frame_body_complete(packet@);
    }
    let decoded = decode_packet(wire.as_slice());
    match decoded {
        Some(p) => p,
        None => {
            proof {
                assert(false);
            }
            unreached()
        },
    }
}

/// The frame body built from a packet always classifies as complete,
/// carrying that packet.
proof fn lemma_frame_body_complete(p: Seq<u8>)
    requires
        p.len() <= MAX_PACKET_SIZE,
    ensures
        acc_outcome(frame_body(p)) == AccOutcome::Complete(p),
{
    let body = frame_body(p);
    let n = (p.len() + 2) as u16;
    assert(body[0] == (n >> 8) as u8 && body[1] == (n & 0xff) as u8);
    assert(((n >> 8) as u8 as int) * 256 + ((n & 0xff) as u8 as int) == n as int) by (bit_vector);
    assert(expected_len(body) == p.len() + 4 == body.len());
    assert(body.subrange(2, body.len() - 2) =~= p);
    let crc = crc16_xmodem(p);
    assert(body[body.len() - 2] == (crc >> 8) as u8 && body[body.len() - 1] == (crc & 0xff) as u8);
    assert(((crc >> 8) as u8 as int) * 256 + ((crc & 0xff) as u8 as int) == crc as int)
        by (bit_vector);
}

} // verus!
