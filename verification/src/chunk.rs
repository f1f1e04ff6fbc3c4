//! Upload chunk sizing: given the device's SMP frame size, how many data
//! bytes one upload request may carry, and the law that the bound is tight.

use vstd::prelude::*;
use vstd::utf8::encode_utf8;

use crate::cbor::{cbor_hdr, spec_cbor_text};

verus! {

/// Size of the SMP header that shares the frame with the payload.
pub const MGMT_HDR_SIZE: usize = 8;

/// The largest data length an upload request may carry, given the frame
/// size and the encoded size `s1` of a probe request holding one data byte:
/// the budget is the frame minus the header and the probe without its data
/// byte, shrunk by the extra length-prefix bytes a data string of that size
/// needs. `None` when nothing is left.
pub open spec fn spec_chunk_from_probe(mtu: int, s1: int) -> Option<int> {
    let est = mtu - 8 - (s1 - 1);
    if est <= 0 {
        None
    } else {
        let extra: int = if est <= 255 {
            1
        } else if est <= 65535 {
            2
        } else if est <= 4294967295 {
            4
        } else {
            8
        };
        let actual = est - extra;
        if actual <= 0 {
            None
        } else {
            Some(actual)
        }
    }
}

/// Computes the largest data length from the frame size and the probe size.
pub fn chunk_from_probe(smp_frame_size: usize, size_with_one_byte: usize) -> (r: Result<
    usize,
    (),
>)
    requires
        size_with_one_byte >= 1,
    ensures
        ({
            match spec_chunk_from_probe(smp_frame_size as int, size_with_one_byte as int) {
                Some(n) => r matches Ok(x) && x == n,
                None => r is Err,
            }
        }),
{
    let size_without_data = size_with_one_byte - 1;
    if smp_frame_size < MGMT_HDR_SIZE {
        return Err(());
    }
    let after_header = smp_frame_size - MGMT_HDR_SIZE;
    if after_header <= size_without_data {
        return Err(());
    }
    let estimated = after_header - size_without_data;
    let extra: usize = if estimated <= 255 {
        1
    } else if estimated <= 65535 {
        2
    } else if estimated <= 4294967295 {
        4
    } else {
        8
    };
    if estimated <= extra {
        return Err(());
    }
    Ok(estimated - extra)
}

/// Chunk-sizer soundness: for frame sizes below 100,000, encoding a
/// worst-case upload whose data is exactly the computed chunk size yields a
/// payload within two bytes of the frame's capacity. `s1` is the encoded
/// size of the probe with one data byte, and the payload size of the same
/// request with `d` data bytes is `s1 - 2` plus the data string's header
/// and the data itself.
pub proof fn lemma_chunk_soundness(mtu: int, s1: int, d: int)
    requires
        4 <= s1,
        spec_chunk_from_probe(mtu, s1) == Some(d),
        mtu < 100000,
    ensures
        mtu - 8 - 2 <= (s1 - 2) + cbor_hdr(2, d as u64).len() + d <= mtu - 8,
{
    let est = mtu - 8 - (s1 - 1);
    if est <= 255 {
        assert(d == est - 1);
        if d < 24 {
            assert(cbor_hdr(2, d as u64).len() == 1);
        } else {
            assert(cbor_hdr(2, d as u64).len() == 2);
        }
    } else if est <= 65535 {
        assert(d == est - 2);
        if d < 256 {
            assert(cbor_hdr(2, d as u64).len() == 2);
        } else {
            assert(cbor_hdr(2, d as u64).len() == 3);
        }
    } else {
        assert(est <= 4294967295);
        assert(d == est - 4);
        if d < 65536 {
            assert(cbor_hdr(2, d as u64).len() == 3);
        } else {
            assert(cbor_hdr(2, d as u64).len() == 5);
        }
    }
}

/// The encoded size of a text string whose characters are all ASCII:
/// one byte per character plus the header.
pub proof fn lemma_ascii_text_len(t: Seq<char>)
    requires
        vstd::utf8::is_ascii_chars(t),
        t.len() < 18446744073709551616,
    ensures
        spec_cbor_text(t).len() == cbor_hdr(3, t.len() as u64).len() + t.len(),
        encode_utf8(t).len() == t.len(),
{
    vstd::utf8::is_ascii_chars_encode_utf8(t);
}

} // verus!
