//! Reading the two fields of an MCUboot image that the update orchestrator
//! consumes: the version from the image header and the SHA-256 from the TLV
//! trailer.

use vstd::prelude::*;

use crate::numfmt::{spec_dec, u64_to_string};

verus! {

/// The MCUboot image header magic value.
pub const MCUBOOT_IMAGE_MAGIC: u32 = 0x96f3b83d;

/// The TLV type of the SHA-256 entry.
pub const TLV_SHA256: u8 = 0x10;

/// The magic of an unprotected TLV section.
pub const TLV_INFO_MAGIC: u16 = 0x6907;

/// The magic of a protected TLV section.
pub const TLV_PROT_INFO_MAGIC: u16 = 0x6908;

/// The little-endian 32-bit value at `off`.
pub open spec fn le32(data: Seq<u8>, off: int) -> int
    recommends
        0 <= off,
        off + 4 <= data.len(),
{
    (data[off] as int) + (data[off + 1] as int) * 256 + (data[off + 2] as int) * 65536 + (data[off
        + 3] as int) * 16777216
}

/// The little-endian 16-bit value at `off`.
pub open spec fn le16(data: Seq<u8>, off: int) -> int
    recommends
        0 <= off,
        off + 2 <= data.len(),
{
    (data[off] as int) + (data[off + 1] as int) * 256
}

/// Whether the buffer starts with a full MCUboot image header.
pub open spec fn mcuboot_header_ok(data: Seq<u8>) -> bool {
    data.len() >= 32 && le32(data, 0) == MCUBOOT_IMAGE_MAGIC
}

/// Reads the little-endian 32-bit value at `off`.
fn read_le32(data: &[u8], off: usize) -> (r: u32)
    requires
        off + 4 <= data@.len(),
    ensures
        r as int == le32(data@, off as int),
{
    (data[off] as u32) + (data[off + 1] as u32) * 256 + (data[off + 2] as u32) * 65536 + (data[off
        + 3] as u32) * 16777216
}

/// Reads the little-endian 16-bit value at `off`.
fn read_le16(data: &[u8], off: usize) -> (r: u16)
    requires
        off + 2 <= data@.len(),
    ensures
        r as int == le16(data@, off as int),
{
    (data[off] as u16) + (data[off + 1] as u16) * 256
}

/// What the orchestrator reads from an MCUboot image: the version from the
/// header and the SHA-256 from the TLV trailer.
pub struct McubootImageInfo {
    /// The version as text: `major.minor.revision`, with `+build` appended
    /// when the build number is not zero.
    pub version: String,
    /// The SHA-256 entry of the TLV trailer, covering header and body.
    pub hash: [u8; 32],
}

/// The version text of the header's version fields.
pub open spec fn spec_version_text(major: u8, minor: u8, revision: u16, build: u32) -> Seq<char> {
    let base = spec_dec(major as int) + seq!['.'] + spec_dec(minor as int) + seq!['.'] + spec_dec(
        revision as int,
    );
    if build == 0 {
        base
    } else {
        base + seq!['+'] + spec_dec(build as int)
    }
}

/// Renders the version fields as text.
fn version_text(major: u8, minor: u8, revision: u16, build: u32) -> (r: String)
    ensures
        r@ == spec_version_text(major, minor, revision, build),
{
    proof {
        reveal_strlit(".");
        reveal_strlit("+");
    }
    let mut s = u64_to_string(major as u64);
    s.append(".");
    s.append(u64_to_string(minor as u64).as_str());
    s.append(".");
    s.append(u64_to_string(revision as u64).as_str());
    if build != 0 {
        s.append("+");
        s.append(u64_to_string(build as u64).as_str());
    }
    proof {
        assert(s@ =~= spec_version_text(major, minor, revision, build));
    }
    s
}

/// Whether position `e` of the buffer holds a 32-byte SHA-256 TLV entry:
/// the entry's type, its declared length, and room for its value.
pub open spec fn sha256_tlv_at(data: Seq<u8>, e: int) -> bool {
    &&& 0 <= e
    &&& e + 36 <= data.len()
    &&& data[e] == TLV_SHA256
    &&& le16(data, e + 2) == 32
}

/// Walks the TLV entries of one section, from `entry` to `end`:
/// `Some(Some(e))` when the first 32-byte SHA-256 entry sits at `e`,
/// `Some(None)` when the entries run out without one, and `None` when an
/// entry's declared length overruns the section.
pub open spec fn spec_tlv_find(data: Seq<u8>, entry: int, end: int) -> Option<Option<int>>
    decreases end - entry,
{
    if end - entry < 4 {
        Some(None)
    } else if le16(data, entry + 2) > end - (entry + 4) {
        None
    } else if data[entry] == TLV_SHA256 && le16(data, entry + 2) == 32 {
        Some(Some(entry))
    } else {
        spec_tlv_find(data, entry + 4 + le16(data, entry + 2), end)
    }
}

/// Scans up to `sections` TLV sections starting at `pos` for a 32-byte
/// SHA-256 entry: its position, or `None` when a section header is missing
/// or carries the wrong magic, a declared length overruns the buffer or the
/// section, or the sections run out without such an entry.
pub open spec fn spec_section_scan(data: Seq<u8>, pos: int, sections: int) -> Option<int>
    decreases sections,
{
    if sections <= 0 {
        None
    } else if data.len() - pos < 4 {
        None
    } else if le16(data, pos) != TLV_INFO_MAGIC && le16(data, pos) != TLV_PROT_INFO_MAGIC {
        None
    } else if le16(data, pos + 2) < 4 || le16(data, pos + 2) > data.len() - pos {
        None
    } else {
        match spec_tlv_find(data, pos + 4, pos + le16(data, pos + 2)) {
            Some(Some(e)) => Some(e),
            Some(None) => spec_section_scan(data, pos + le16(data, pos + 2), sections - 1),
            None => None,
        }
    }
}

/// The position of the SHA-256 TLV entry an MCUboot image parse extracts:
/// the buffer must carry the MCUboot magic, declare header and body sizes
/// that fit, and hold the entry in one of the at most two TLV sections (an
/// optional protected one, then the regular one) that follow the body.
pub open spec fn spec_image_sha_pos(data: Seq<u8>) -> Option<int> {
    if !mcuboot_header_ok(data) {
        None
    } else if le16(data, 8) > data.len() || le32(data, 12) > data.len() - le16(data, 8) {
        None
    } else {
        spec_section_scan(data, le16(data, 8) + le32(data, 12), 2)
    }
}

/// Parses an MCUboot image far enough to extract the version and the
/// SHA-256 TLV. Succeeds exactly when the TLV scan finds a 32-byte SHA-256
/// entry: the buffer must start with the MCUboot magic, declare header and
/// body sizes that fit, and hold such an entry in a well-formed TLV section;
/// in particular, a buffer that does not start with the MCUboot magic never
/// parses. On success the version is the header's version fields rendered
/// as text, and the hash is the value of the entry the scan names.
pub fn get_image_info(data: &[u8]) -> (r: Option<McubootImageInfo>)
    ensures
        r is Some <==> spec_image_sha_pos(data@) is Some,
        !mcuboot_header_ok(data@) ==> r is None,
        r matches Some(info) ==> mcuboot_header_ok(data@) && info.version@ == spec_version_text(
            data@[20] as u8,
            data@[21] as u8,
            le16(data@, 22) as u16,
            le32(data@, 24) as u32,
        ) && (spec_image_sha_pos(data@) matches Some(e) && sha256_tlv_at(data@, e)
            && info.hash@ == data@.subrange(e + 4, e + 36)),
{
    if data.len() < 32 {
        return None;
    }
    let magic = read_le32(data, 0);
    if magic != MCUBOOT_IMAGE_MAGIC {
        return None;
    }
    let hdr_size = read_le16(data, 8) as usize;
    let img_size = read_le32(data, 12) as usize;
    let major = data[20];
    let minor = data[21];
    let revision = read_le16(data, 22);
    let build = read_le32(data, 24);
    let version = version_text(major, minor, revision, build);

    // the TLV trailer follows the header and the image body
    if hdr_size > data.len() || img_size > data.len() - hdr_size {
        return None;
    }
    let mut pos = hdr_size + img_size;
    let n = data.len();
    let mut sections: usize = 0;
    // at most two sections: an optional protected one, then the regular one
    while sections < 2
        invariant
            pos <= n == data@.len(),
            sections <= 2,
            mcuboot_header_ok(data@),
            version@ == spec_version_text(
                data@[20] as u8,
                data@[21] as u8,
                le16(data@, 22) as u16,
                le32(data@, 24) as u32,
            ),
            spec_image_sha_pos(data@) == spec_section_scan(
                data@,
                pos as int,
                2 - sections as int,
            ),
        decreases 2 - sections,
    {
        sections = sections + 1;
        if n - pos < 4 {
            return None;
        }
        let info_magic = read_le16(data, pos);
        let tlv_tot = read_le16(data, pos + 2) as usize;
        if info_magic != TLV_INFO_MAGIC && info_magic != TLV_PROT_INFO_MAGIC {
            return None;
        }
        if tlv_tot < 4 || tlv_tot > n - pos {
            return None;
        }
        let end = pos + tlv_tot;
        let mut entry = pos + 4;
        while end - entry >= 4
            invariant
                entry <= end,
                end <= n == data@.len(),
                sections <= 2,
                mcuboot_header_ok(data@),
                version@ == spec_version_text(
                    data@[20] as u8,
                    data@[21] as u8,
                    le16(data@, 22) as u16,
                    le32(data@, 24) as u32,
                ),
                spec_image_sha_pos(data@) == (match spec_tlv_find(
                    data@,
                    entry as int,
                    end as int,
                ) {
                    Some(Some(e)) => Some(e),
                    Some(None) => spec_section_scan(data@, end as int, 2 - sections as int),
                    None => None,
                }),
            decreases end - entry,
        {
            let tlv_type = data[entry];
            let tlv_len = read_le16(data, entry + 2) as usize;
            if tlv_len > end - (entry + 4) {
                proof {
                    assert(spec_tlv_find(data@, entry as int, end as int) is None);
                }
                return None;
            }
            if tlv_type == TLV_SHA256 && tlv_len == 32 {
                let hash_bytes = crate::framing::copy_range(data, entry + 4, entry + 36);
                let hash = match crate::image::vec_to_hash(&hash_bytes) {
                    Some(h) => h,
                    None => {
                        proof {
                            assert(false);
                        }
                        return None;
                    },
                };
                proof {
                    assert(spec_tlv_find(data@, entry as int, end as int) == Some(
                        Some(entry as int),
                    ));
                    assert(sha256_tlv_at(data@, entry as int));
                    assert(hash@ == data@.subrange(entry as int + 4, entry as int + 36));
                }
                return Some(McubootImageInfo { version, hash });
            }
            proof {
                assert(spec_tlv_find(data@, entry as int, end as int) == spec_tlv_find(
                    data@,
                    entry as int + 4 + tlv_len as int,
                    end as int,
                ));
            }
            entry = entry + 4 + tlv_len;
        }
        pos = end;
    }
    None
}

} // verus!
