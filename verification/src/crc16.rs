//! CRC-16/XMODEM: polynomial 0x1021, initial value 0, no reflection, no
//! final xor. Used over the SMP packet inside each frame.

use vstd::prelude::*;

verus! {

/// One shift step of the CRC register.
pub open spec fn crc16_shift(crc: u16) -> u16 {
    if crc & 0x8000 != 0 {
        (((crc << 1) as u16) ^ 0x1021) as u16
    } else {
        (crc << 1) as u16
    }
}

/// `n` shift steps of the CRC register.
pub open spec fn crc16_shifts(crc: u16, n: nat) -> u16
    decreases n,
{
    if n == 0 {
        crc
    } else {
        crc16_shifts(crc16_shift(crc), (n - 1) as nat)
    }
}

/// Folds one input byte into the CRC register.
pub open spec fn crc16_push_byte(crc: u16, b: u8) -> u16 {
    crc16_shifts((crc ^ ((b as u16) << 8)) as u16, 8)
}

/// The CRC register after folding in a prefix of `data` of length `n`.
pub open spec fn crc16_prefix(data: Seq<u8>, n: nat) -> u16
    decreases n,
{
    if n == 0 {
        0
    } else {
        crc16_push_byte(crc16_prefix(data, (n - 1) as nat), data[n - 1])
    }
}

/// The CRC-16/XMODEM checksum of a byte sequence.
pub open spec fn crc16_xmodem(data: Seq<u8>) -> u16 {
    crc16_prefix(data, data.len())
}

/// The checksum depends only on the bytes folded in.
pub proof fn lemma_crc16_prefix_agree(a: Seq<u8>, b: Seq<u8>, n: nat)
    requires
        n <= a.len(),
        n <= b.len(),
        forall|i: int| 0 <= i < n ==> a[i] == b[i],
    ensures
        crc16_prefix(a, n) == crc16_prefix(b, n),
    decreases n,
{
    if n != 0 {
        lemma_crc16_prefix_agree(a, b, (n - 1) as nat);
    }
}

/// Computes the CRC-16/XMODEM checksum of `data`.
pub fn crc16(data: &[u8]) -> (r: u16)
    ensures
        r == crc16_xmodem(data@),
{
    let mut crc: u16 = 0;
    let mut i: usize = 0;
    while i < data.len()
        invariant
            i <= data@.len(),
            crc == crc16_prefix(data@, i as nat),
        decreases data@.len() - i,
    {
        crc = crc ^ ((data[i] as u16) << 8);
        let mut k: usize = 0;
        let ghost crc0 = crc;
        while k < 8
            invariant
                k <= 8,
                crc == crc16_shifts(crc0, k as nat),
            decreases 8 - k,
        {
            proof {
                lemma_crc16_shifts_snoc(crc0, k as nat);
            }
            if crc & 0x8000 != 0 {
                crc = (crc << 1) ^ 0x1021;
            } else {
                crc = crc << 1;
            }
            k = k + 1;
        }
        i = i + 1;
    }
    crc
}

/// Unrolls one step of `crc16_shifts` from the end.
proof fn lemma_crc16_shifts_snoc(crc: u16, n: nat)
    ensures
        crc16_shifts(crc, n + 1) == crc16_shift(crc16_shifts(crc, n)),
    decreases n,
{
    assert(crc16_shifts(crc, n + 1) == crc16_shifts(crc16_shift(crc), n));
    if n == 0 {
        assert(crc16_shifts(crc16_shift(crc), 0) == crc16_shift(crc));
        assert(crc16_shifts(crc, 0) == crc);
    } else {
        lemma_crc16_shifts_snoc(crc16_shift(crc), (n - 1) as nat);
        assert(crc16_shifts(crc, n) == crc16_shifts(crc16_shift(crc), (n - 1) as nat));
    }
}

} // verus!
