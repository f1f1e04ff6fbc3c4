//! The image management group (group 1): image slot states, firmware
//! upload, image erase, and slot information, with the upload chunk sizer
//! and its soundness law.

use vstd::assert_by_contradiction;
use vstd::prelude::*;
use vstd::utf8::encode_utf8;

use crate::cbor::{
    cbor_hdr, encode_cbor, spec_cbor, spec_cbor_entries, spec_cbor_text, spec_view_entries, Cbor,
    CborValue, MapBuilder,
};
use crate::cbor::spec_map_get;
use crate::commands::{
    as_bytes, as_dict, bool_dflt_fld, dict_get, get_bool_dflt_fld, get_opt_bool_fld,
    get_opt_u64_fld, get_txt_fld, get_u32_dflt_fld, get_u32_fld, get_u64_fld, opt_bool_fld,
    txt_fld, u32_dflt_fld, u32_fld, u64_fld, McuMgrCommand,
};

verus! {

/// Copies a 32-byte hash into a vector.
pub fn hash_to_vec(h: &[u8; 32]) -> (r: Vec<u8>)
    ensures
        r@ == h@,
{
    let mut v: Vec<u8> = Vec::new();
    let mut i: usize = 0;
    while i < 32
        invariant
            i <= 32,
            v@ == h@.take(i as int),
        decreases 32 - i,
    {
        v.push(h[i]);
        proof {
            assert(v@ =~= h@.take(i as int + 1));
        }
        i = i + 1;
    }
    proof {
        assert(h@.take(32) =~= h@);
    }
    v
}

/// Copies a 32-byte vector into a hash array.
pub fn vec_to_hash(b: &Vec<u8>) -> (r: Option<[u8; 32]>)
    ensures
        b@.len() == 32 ==> (r matches Some(h) && h@ == b@),
        b@.len() != 32 ==> r is None,
{
    if b.len() != 32 {
        return None;
    }
    let mut h: [u8; 32] = [0; 32];
    let mut i: usize = 0;
    while i < 32
        invariant
            i <= 32,
            b@.len() == 32,
            forall|j: int| 0 <= j < i ==> h@[j] == b@[j],
        decreases 32 - i,
    {
        h[i] = b[i];
        i = i + 1;
    }
    proof {
        assert(h@ =~= b@);
    }
    Some(h)
}

/// An optional 32-byte hash field: `Some(None)` when absent, `None` when
/// present but not a 32-byte byte string.
pub open spec fn opt_hash_fld(v: Cbor, key: Seq<char>) -> Option<Option<Seq<u8>>> {
    match as_dict(v) {
        None => None,
        Some(m) => match spec_map_get(m, key) {
            None => Some(None),
            Some(x) => match as_bytes(x) {
                Some(b) => if b.len() == 32 {
                    Some(Some(b))
                } else {
                    None
                },
                None => None,
            },
        },
    }
}

/// An optional 32-byte hash field.
pub fn get_opt_hash_fld(v: &CborValue, key: &str) -> (r: Option<Option<[u8; 32]>>)
    ensures
        ({
            match opt_hash_fld(v@, key@) {
                None => r is None,
                Some(None) => r == Some(Option::<[u8; 32]>::None),
                Some(Some(b)) => r matches Some(o) && o matches Some(h) && h@ == b,
            }
        }),
{
    match v {
        CborValue::Dict(_) => {},
        _ => {
            return None;
        },
    }
    let x = match dict_get(v, key) {
        None => {
            return Some(None);
        },
        Some(x) => x,
    };
    let b = match x {
        CborValue::Bytes(b) => b,
        _ => {
            return None;
        },
    };
    match vec_to_hash(b) {
        Some(h) => Some(Some(h)),
        None => None,
    }
}

/// The state of one image slot.
#[derive(Debug, Clone)]
pub struct ImageState {
    /// Image number; zero when the device omits it.
    pub image: u32,
    /// Slot number within the image.
    pub slot: u32,
    /// The image version text.
    pub version: String,
    /// SHA-256 over the image header and body from the MCUboot TLV section;
    /// absent when the slot is empty.
    pub hash: Option<[u8; 32]>,
    /// The image is bootable.
    pub bootable: bool,
    /// The image is set for the next swap.
    pub pending: bool,
    /// The image has been confirmed.
    pub confirmed: bool,
    /// The image is the currently running application.
    pub active: bool,
    /// The image stays in its slot after the next boot.
    pub permanent: bool,
}

/// Whether a map decodes as an image slot state.
pub open spec fn image_state_decodes(c: Cbor) -> bool {
    &&& u32_dflt_fld(c, "image"@) is Some
    &&& u32_fld(c, "slot"@) is Some
    &&& txt_fld(c, "version"@) is Some
    &&& opt_hash_fld(c, "hash"@) is Some
    &&& bool_dflt_fld(c, "bootable"@) is Some
    &&& bool_dflt_fld(c, "pending"@) is Some
    &&& bool_dflt_fld(c, "confirmed"@) is Some
    &&& bool_dflt_fld(c, "active"@) is Some
    &&& bool_dflt_fld(c, "permanent"@) is Some
}

/// Whether `s` is what an image slot state map decodes to.
pub open spec fn image_state_matches(c: Cbor, s: ImageState) -> bool {
    &&& u32_dflt_fld(c, "image"@) == Some(s.image)
    &&& u32_fld(c, "slot"@) == Some(s.slot)
    &&& txt_fld(c, "version"@) matches Some(t) && s.version@ == t
    &&& (match opt_hash_fld(c, "hash"@) {
        Some(None) => s.hash is None,
        Some(Some(b)) => s.hash matches Some(h) && h@ == b,
        None => false,
    })
    &&& bool_dflt_fld(c, "bootable"@) == Some(s.bootable)
    &&& bool_dflt_fld(c, "pending"@) == Some(s.pending)
    &&& bool_dflt_fld(c, "confirmed"@) == Some(s.confirmed)
    &&& bool_dflt_fld(c, "active"@) == Some(s.active)
    &&& bool_dflt_fld(c, "permanent"@) == Some(s.permanent)
}

/// Decodes one image slot state.
pub fn decode_image_state(c: &CborValue) -> (r: Option<ImageState>)
    ensures
        image_state_decodes(c@) ==> r is Some,
        r matches Some(s) ==> image_state_matches(c@, s),
{
    let image = match get_u32_dflt_fld(c, "image") {
        Some(x) => x,
        None => {
            return None;
        },
    };
    let slot = match get_u32_fld(c, "slot") {
        Some(x) => x,
        None => {
            return None;
        },
    };
    let version = match get_txt_fld(c, "version") {
        Some(x) => x,
        None => {
            return None;
        },
    };
    let hash = match get_opt_hash_fld(c, "hash") {
        Some(x) => x,
        None => {
            return None;
        },
    };
    let bootable = match get_bool_dflt_fld(c, "bootable") {
        Some(x) => x,
        None => {
            return None;
        },
    };
    let pending = match get_bool_dflt_fld(c, "pending") {
        Some(x) => x,
        None => {
            return None;
        },
    };
    let confirmed = match get_bool_dflt_fld(c, "confirmed") {
        Some(x) => x,
        None => {
            return None;
        },
    };
    let active = match get_bool_dflt_fld(c, "active") {
        Some(x) => x,
        None => {
            return None;
        },
    };
    let permanent = match get_bool_dflt_fld(c, "permanent") {
        Some(x) => x,
        None => {
            return None;
        },
    };
    Some(
        ImageState {
            image,
            slot,
            version,
            hash,
            bootable,
            pending,
            confirmed,
            active,
            permanent,
        },
    )
}

/// Get-image-state command: no request body.
pub struct GetImageState;

/// Response to [`GetImageState`] and [`SetImageState`].
pub struct ImageStateResponse {
    /// All image slots and their states.
    pub images: Vec<ImageState>,
}

/// Whether a payload decodes as an image state response.
pub open spec fn image_state_response_decodes(v: Cbor) -> bool {
    match crate::commands::arr_fld(v, "images"@) {
        Some(a) => forall|i: int| 0 <= i < a.len() ==> image_state_decodes(#[trigger] a[i]),
        None => false,
    }
}

/// Whether `r` is what an image state response payload decodes to.
pub open spec fn image_state_response_matches(v: Cbor, r: ImageStateResponse) -> bool {
    match crate::commands::arr_fld(v, "images"@) {
        Some(a) => r.images@.len() == a.len() && forall|i: int|
            0 <= i < a.len() ==> image_state_matches(a[i], #[trigger] r.images@[i]),
        None => false,
    }
}

/// Decodes the image list of an image state response.
pub fn decode_image_state_response(v: &CborValue) -> (r: Option<ImageStateResponse>)
    ensures
        image_state_response_decodes(v@) ==> r is Some,
        r matches Some(x) ==> image_state_response_matches(v@, x),
{
    let arr_val = match dict_get(v, "images") {
        Some(x) => x,
        None => {
            return None;
        },
    };
    let items = match arr_val {
        CborValue::Array(items) => items,
        _ => {
            proof {
                assert(crate::commands::as_array(arr_val@) is None);
            }
            return None;
        },
    };
    let ghost a = crate::cbor::spec_view_seq(items@);
    proof {
        crate::cbor::lemma_view_seq_index(items@);
    }
    let mut images: Vec<ImageState> = Vec::new();
    let mut i: usize = 0;
    while i < items.len()
        invariant
            i <= items@.len(),
            crate::commands::arr_fld(v@, "images"@) == Some(a),
            a == crate::cbor::spec_view_seq(items@),
            a.len() == items@.len(),
            forall|k: int|
                0 <= k < items@.len() ==> a[k] == crate::cbor::spec_view(items@[k]),
            images@.len() == i,
            forall|k: int| 0 <= k < i ==> image_state_matches(a[k], #[trigger] images@[k]),
        decreases items@.len() - i,
    {
        let state = match decode_image_state(&items[i]) {
            Some(s) => s,
            None => {
                proof {
                    assert(!image_state_decodes(a[i as int]));
                    assert_by_contradiction!(!image_state_response_decodes(v@), {
                        assert(image_state_decodes(
                            (crate::commands::arr_fld(v@, "images"@)->0)[i as int],
                        ));
                    });
                }
                return None;
            },
        };
        images.push(state);
        i = i + 1;
    }
    Some(ImageStateResponse { images })
}

impl McuMgrCommand for GetImageState {
    type Response = ImageStateResponse;

    open spec fn spec_write_operation(&self) -> bool {
        false
    }

    open spec fn spec_group_id(&self) -> u16 {
        1
    }

    open spec fn spec_command_id(&self) -> u8 {
        0
    }

    open spec fn spec_payload(&self) -> Cbor {
        Cbor::Dict(Seq::empty())
    }

    open spec fn response_decodes(v: Cbor) -> bool {
        image_state_response_decodes(v)
    }

    open spec fn response_matches(v: Cbor, r: ImageStateResponse) -> bool {
        image_state_response_matches(v, r)
    }

    fn is_write_operation(&self) -> bool {
        false
    }

    fn group_id(&self) -> u16 {
        1
    }

    fn command_id(&self) -> u8 {
        0
    }

    fn encode_payload(&self) -> (r: Vec<u8>) {
        let b = MapBuilder::new();
        let v = b.build();
        encode_cbor(&v)
    }

    fn decode_response(v: &CborValue) -> (r: Option<ImageStateResponse>) {
        decode_image_state_response(v)
    }
}

/// Set-image-state command: marks an image for test or confirms it.
pub struct SetImageState {
    /// The hash of the image to act on; the running image when absent.
    pub hash: Option<[u8; 32]>,
    /// Confirm the image instead of scheduling a test boot.
    pub confirm: bool,
}

impl McuMgrCommand for SetImageState {
    type Response = ImageStateResponse;

    open spec fn spec_write_operation(&self) -> bool {
        true
    }

    open spec fn spec_group_id(&self) -> u16 {
        1
    }

    open spec fn spec_command_id(&self) -> u8 {
        0
    }

    open spec fn spec_payload(&self) -> Cbor {
        Cbor::Dict(
            (match self.hash {
                Some(h) => seq![("hash"@, Cbor::Bytes(h@))],
                None => Seq::empty(),
            }) + seq![("confirm"@, Cbor::Bool(self.confirm))],
        )
    }

    open spec fn response_decodes(v: Cbor) -> bool {
        image_state_response_decodes(v)
    }

    open spec fn response_matches(v: Cbor, r: ImageStateResponse) -> bool {
        image_state_response_matches(v, r)
    }

    fn is_write_operation(&self) -> bool {
        true
    }

    fn group_id(&self) -> u16 {
        1
    }

    fn command_id(&self) -> u8 {
        0
    }

    fn encode_payload(&self) -> (r: Vec<u8>) {
        let mut b = MapBuilder::new();
        if let Some(h) = &self.hash {
            b.field("hash", CborValue::Bytes(hash_to_vec(h)));
        }
        b.field("confirm", CborValue::Bool(self.confirm));
        let ghost ents = spec_view_entries(b.entries@);
        let v = b.build();
        proof {
            assert(ents =~= (self.spec_payload())->Dict_0);
        }
        encode_cbor(&v)
    }

    fn decode_response(v: &CborValue) -> (r: Option<ImageStateResponse>) {
        decode_image_state_response(v)
    }
}

/// Image upload command: one chunk of a firmware image.
pub struct ImageUpload {
    /// Image number; only sent on the first chunk.
    pub image: Option<u32>,
    /// Total image length; must be sent on the first chunk.
    pub len: Option<u64>,
    /// Offset of this chunk.
    pub off: u64,
    /// SHA-256 of the whole image; only sent on the first chunk.
    pub sha: Option<[u8; 32]>,
    /// The chunk data.
    pub data: Vec<u8>,
    /// Reject downgrades; only sent on the first chunk.
    pub upgrade: Option<bool>,
}

/// Response to [`ImageUpload`].
#[derive(Debug, Clone, Copy, PartialEq, Eq, Structural)]
pub struct ImageUploadResponse {
    /// Offset of the last byte the device has written.
    pub off: u64,
    /// Whether the uploaded data matched the provided hash, when reported.
    pub hash_match: Option<bool>,
}

impl McuMgrCommand for ImageUpload {
    type Response = ImageUploadResponse;

    open spec fn spec_write_operation(&self) -> bool {
        true
    }

    open spec fn spec_group_id(&self) -> u16 {
        1
    }

    open spec fn spec_command_id(&self) -> u8 {
        1
    }

    open spec fn spec_payload(&self) -> Cbor {
        Cbor::Dict(
            (match self.image {
                Some(n) => seq![("image"@, Cbor::UInt(n as u64))],
                None => Seq::empty(),
            }) + (match self.len {
                Some(n) => seq![("len"@, Cbor::UInt(n))],
                None => Seq::empty(),
            }) + seq![("off"@, Cbor::UInt(self.off))] + (match self.sha {
                Some(h) => seq![("sha"@, Cbor::Bytes(h@))],
                None => Seq::empty(),
            }) + seq![("data"@, Cbor::Bytes(self.data@))] + (match self.upgrade {
                Some(u) => seq![("upgrade"@, Cbor::Bool(u))],
                None => Seq::empty(),
            }),
        )
    }

    open spec fn response_decodes(v: Cbor) -> bool {
        u64_fld(v, "off"@) is Some && opt_bool_fld(v, "match"@) is Some
    }

    open spec fn response_matches(v: Cbor, r: ImageUploadResponse) -> bool {
        u64_fld(v, "off"@) == Some(r.off) && opt_bool_fld(v, "match"@) == Some(r.hash_match)
    }

    fn is_write_operation(&self) -> bool {
        true
    }

    fn group_id(&self) -> u16 {
        1
    }

    fn command_id(&self) -> u8 {
        1
    }

    fn encode_payload(&self) -> (r: Vec<u8>) {
        let mut b = MapBuilder::new();
        if let Some(n) = self.image {
            b.field("image", CborValue::UInt(n as u64));
        }
        if let Some(n) = self.len {
            b.field("len", CborValue::UInt(n));
        }
        b.field("off", CborValue::UInt(self.off));
        if let Some(h) = &self.sha {
            b.field("sha", CborValue::Bytes(hash_to_vec(h)));
        }
        let data_copy = crate::framing::copy_range(self.data.as_slice(), 0, self.data.len());
        proof {
            assert(data_copy@ =~= self.data@);
        }
        b.field("data", CborValue::Bytes(data_copy));
        if let Some(u) = self.upgrade {
            b.field("upgrade", CborValue::Bool(u));
        }
        let ghost ents = spec_view_entries(b.entries@);
        let v = b.build();
        proof {
            assert(ents =~= (self.spec_payload())->Dict_0);
        }
        encode_cbor(&v)
    }

    fn decode_response(v: &CborValue) -> (r: Option<ImageUploadResponse>) {
        let off = match get_u64_fld(v, "off") {
            Some(x) => x,
            None => {
                return None;
            },
        };
        let hash_match = match get_opt_bool_fld(v, "match") {
            Some(x) => x,
            None => {
                return None;
            },
        };
        Some(ImageUploadResponse { off, hash_match })
    }
}

/// Image erase command.
pub struct ImageErase {
    /// Slot to erase; the device assumes slot 1 when absent.
    pub slot: Option<u32>,
}

/// Response to [`ImageErase`]: carries nothing.
#[derive(Debug, Clone, Copy, PartialEq, Eq, Structural, Default)]
pub struct ImageEraseResponse;

impl McuMgrCommand for ImageErase {
    type Response = ImageEraseResponse;

    open spec fn spec_write_operation(&self) -> bool {
        true
    }

    open spec fn spec_group_id(&self) -> u16 {
        1
    }

    open spec fn spec_command_id(&self) -> u8 {
        5
    }

    open spec fn spec_payload(&self) -> Cbor {
        Cbor::Dict(
            match self.slot {
                Some(n) => seq![("slot"@, Cbor::UInt(n as u64))],
                None => Seq::empty(),
            },
        )
    }

    open spec fn response_decodes(v: Cbor) -> bool {
        as_dict(v) is Some
    }

    open spec fn response_matches(v: Cbor, r: ImageEraseResponse) -> bool {
        as_dict(v) is Some
    }

    fn is_write_operation(&self) -> bool {
        true
    }

    fn group_id(&self) -> u16 {
        1
    }

    fn command_id(&self) -> u8 {
        5
    }

    fn encode_payload(&self) -> (r: Vec<u8>) {
        let mut b = MapBuilder::new();
        if let Some(n) = self.slot {
            b.field("slot", CborValue::UInt(n as u64));
        }
        let ghost ents = spec_view_entries(b.entries@);
        let v = b.build();
        proof {
            assert(ents =~= (self.spec_payload())->Dict_0);
        }
        encode_cbor(&v)
    }

    fn decode_response(v: &CborValue) -> (r: Option<ImageEraseResponse>) {
        if crate::commands::is_dict(v) {
            Some(ImageEraseResponse)
        } else {
            None
        }
    }
}

/// The worst-case image upload payload: every optional field at its widest,
/// offset and length at their maxima, and the given chunk data.
pub open spec fn image_upload_worst(d: Seq<u8>) -> Cbor {
    Cbor::Dict(
        seq![
            ("image"@, Cbor::UInt(0xffffffff)),
            ("len"@, Cbor::UInt(0xffffffffffffffff)),
            ("off"@, Cbor::UInt(0xffffffffffffffff)),
            ("sha"@, Cbor::Bytes(Seq::new(32, |i: int| 0xffu8))),
            ("data"@, Cbor::Bytes(d)),
            ("upgrade"@, Cbor::Bool(true)),
        ],
    )
}

/// The encoded size of a worst-case image upload: a fixed 90 bytes beside
/// the data string's header and the data itself.
pub proof fn lemma_image_upload_worst_len(d: Seq<u8>)
    requires
        d.len() < 18446744073709551616,
    ensures
        spec_cbor(image_upload_worst(d)).len() == 90 + cbor_hdr(2, d.len() as u64).len() + d.len(),
{
    let m = (image_upload_worst(d))->Dict_0;
    reveal_with_fuel(spec_cbor_entries, 8);
    reveal_strlit("image");
    reveal_strlit("len");
    reveal_strlit("off");
    reveal_strlit("sha");
    reveal_strlit("data");
    reveal_strlit("upgrade");
    assert(vstd::utf8::is_ascii_chars("image"@));
    assert(vstd::utf8::is_ascii_chars("len"@));
    assert(vstd::utf8::is_ascii_chars("off"@));
    assert(vstd::utf8::is_ascii_chars("sha"@));
    assert(vstd::utf8::is_ascii_chars("data"@));
    assert(vstd::utf8::is_ascii_chars("upgrade"@));
    proof_ascii_key(m[0].0, "image"@);
    proof_ascii_key(m[1].0, "len"@);
    proof_ascii_key(m[2].0, "off"@);
    proof_ascii_key(m[3].0, "sha"@);
    proof_ascii_key(m[4].0, "data"@);
    proof_ascii_key(m[5].0, "upgrade"@);
    assert(m.subrange(1, 6)[0] == m[1]);
    assert(m.subrange(1, 6).subrange(1, 5) =~= m.subrange(2, 6));
    assert(m.subrange(2, 6)[0] == m[2]);
    assert(m.subrange(2, 6).subrange(1, 4) =~= m.subrange(3, 6));
    assert(m.subrange(3, 6)[0] == m[3]);
    assert(m.subrange(3, 6).subrange(1, 3) =~= m.subrange(4, 6));
    assert(m.subrange(4, 6)[0] == m[4]);
    assert(m.subrange(4, 6).subrange(1, 2) =~= m.subrange(5, 6));
    assert(m.subrange(5, 6)[0] == m[5]);
    assert(m.subrange(5, 6).subrange(1, 1) =~= Seq::<(Seq<char>, Cbor)>::empty());
    assert(spec_cbor_text("image"@).len() == 6);
    assert(spec_cbor_text("len"@).len() == 4);
    assert(spec_cbor_text("off"@).len() == 4);
    assert(spec_cbor_text("sha"@).len() == 4);
    assert(spec_cbor_text("data"@).len() == 5);
    assert(spec_cbor_text("upgrade"@).len() == 8);
    assert(spec_cbor(Cbor::UInt(0xffffffff)).len() == 5);
    assert(spec_cbor(Cbor::UInt(0xffffffffffffffff)).len() == 9);
    assert(spec_cbor(Cbor::Bytes(Seq::new(32, |i: int| 0xffu8))).len() == 34);
    assert(spec_cbor(Cbor::Bool(true)).len() == 1);
    assert(spec_cbor(Cbor::Bytes(d)).len() == cbor_hdr(2, d.len() as u64).len() + d.len());
    assert(spec_cbor_entries(m).len() == 89 + cbor_hdr(2, d.len() as u64).len() + d.len());
    assert(cbor_hdr(5, 6).len() == 1);
}

/// Establishes that a map key equals a string literal view and is ASCII.
proof fn proof_ascii_key(k: Seq<char>, lit: Seq<char>)
    requires
        k == lit,
        vstd::utf8::is_ascii_chars(lit),
        lit.len() < 24,
    ensures
        spec_cbor_text(k).len() == 1 + lit.len(),
{
    crate::chunk::lemma_ascii_text_len(lit);
    assert(cbor_hdr(3, lit.len() as u64).len() == 1);
}

/// The largest data chunk an image upload may carry at the given SMP frame
/// size, probing with a worst-case request. Fails when the frame cannot
/// carry any data at all.
pub fn image_upload_max_data_chunk_size(smp_frame_size: usize) -> (r: Result<usize, ()>)
    ensures
        ({
            match spec_image_chunk(smp_frame_size as int) {
                Some(n) => r matches Ok(x) && x == n,
                None => r is Err,
            }
        }),
{
    let mut sha_vec: Vec<u8> = Vec::new();
    let mut i: usize = 0;
    while i < 32
        invariant
            i <= 32,
            sha_vec@ =~= Seq::new(i as nat, |k: int| 0xffu8),
        decreases 32 - i,
    {
        sha_vec.push(0xff);
        proof {
            assert(sha_vec@ =~= Seq::new(i as nat + 1, |k: int| 0xffu8));
        }
        i = i + 1;
    }
    let sha = match vec_to_hash(&sha_vec) {
        Some(h) => h,
        None => {
            proof {
                assert(false);
            }
            return Err(());
        },
    };
    let mut one_byte: Vec<u8> = Vec::new();
    one_byte.push(0);
    let probe = ImageUpload {
        image: Some(0xffffffff),
        len: Some(0xffffffffffffffff),
        off: 0xffffffffffffffff,
        sha: Some(sha),
        data: one_byte,
        upgrade: Some(true),
    };
    let bytes = probe.encode_payload();
    proof {
        assert(sha@ =~= Seq::new(32, |k: int| 0xffu8));
        assert(probe.data@ =~= Seq::<u8>::empty().push(0u8));
        assert((probe.spec_payload())->Dict_0 =~= (image_upload_worst(probe.data@))->Dict_0);
        lemma_image_upload_worst_len(probe.data@);
        assert(cbor_hdr(2, 1).len() == 1);
        assert(bytes@.len() == 92);
    }
    crate::chunk::chunk_from_probe(smp_frame_size, bytes.len())
}

/// The image upload chunk size as a function of the frame size.
pub open spec fn spec_image_chunk(mtu: int) -> Option<int> {
    crate::chunk::spec_chunk_from_probe(mtu, 92)
}

/// Chunk-sizer soundness for image uploads: for every frame size below
/// 100,000 for which a chunk size is computed, a worst-case upload carrying
/// exactly that much data encodes to a payload within two bytes of the
/// frame's capacity after the SMP header; and no chunk size is computed
/// exactly for frames below 101 bytes.
pub proof fn lemma_image_chunk_soundness(mtu: int, d: Seq<u8>)
    requires
        mtu < 100000,
        spec_image_chunk(mtu) == Some(d.len() as int),
    ensures
        mtu - 8 - 2 <= spec_cbor(image_upload_worst(d)).len() <= mtu - 8,
{
    crate::chunk::lemma_chunk_soundness(mtu, 92, d.len() as int);
    lemma_image_upload_worst_len(d);
}

/// The image chunk sizer fails exactly on frame sizes below 101 bytes.
pub proof fn lemma_image_chunk_min_viable(mtu: int)
    ensures
        spec_image_chunk(mtu) is None <==> mtu <= 100,
{
}

/// Slot information command: no request body.
pub struct SlotInfo;

/// One slot that can hold an image.
#[derive(Debug, Clone, Copy, PartialEq, Eq, Structural)]
pub struct SlotInfoImageSlot {
    /// The slot number within the image.
    pub slot: u32,
    /// The size of the slot.
    pub size: u64,
    /// The id external tools use to upload into this slot, when reported.
    pub upload_image_id: Option<u32>,
}

/// The slots available for one image number.
pub struct SlotInfoImage {
    /// The image number.
    pub image: u32,
    /// The slots of the image.
    pub slots: Vec<SlotInfoImageSlot>,
    /// Largest application that fits the image, when reported.
    pub max_image_size: Option<u64>,
}

/// Response to [`SlotInfo`].
pub struct SlotInfoResponse {
    /// All image slot collections on the device.
    pub images: Vec<SlotInfoImage>,
}

/// Whether a map decodes as one slot.
pub open spec fn slot_decodes(c: Cbor) -> bool {
    &&& u32_fld(c, "slot"@) is Some
    &&& u64_fld(c, "size"@) is Some
    &&& crate::commands::opt_u32_fld(c, "upload_image_id"@) is Some
}

/// Whether `s` is what a slot map decodes to.
pub open spec fn slot_matches(c: Cbor, s: SlotInfoImageSlot) -> bool {
    &&& u32_fld(c, "slot"@) == Some(s.slot)
    &&& u64_fld(c, "size"@) == Some(s.size)
    &&& crate::commands::opt_u32_fld(c, "upload_image_id"@) == Some(s.upload_image_id)
}

/// Decodes one slot.
fn decode_slot(c: &CborValue) -> (r: Option<SlotInfoImageSlot>)
    ensures
        slot_decodes(c@) ==> r is Some,
        r matches Some(s) ==> slot_matches(c@, s),
{
    let slot = match get_u32_fld(c, "slot") {
        Some(x) => x,
        None => {
            return None;
        },
    };
    let size = match get_u64_fld(c, "size") {
        Some(x) => x,
        None => {
            return None;
        },
    };
    let upload_image_id = match crate::commands::get_opt_u32_fld(c, "upload_image_id") {
        Some(x) => x,
        None => {
            return None;
        },
    };
    Some(SlotInfoImageSlot { slot, size, upload_image_id })
}

/// Whether a map decodes as one image's slot collection.
pub open spec fn slot_image_decodes(c: Cbor) -> bool {
    &&& u32_fld(c, "image"@) is Some
    &&& (match crate::commands::arr_fld(c, "slots"@) {
        Some(a) => forall|i: int| 0 <= i < a.len() ==> slot_decodes(#[trigger] a[i]),
        None => false,
    })
    &&& crate::commands::opt_u64_fld(c, "max_image_size"@) is Some
}

/// Whether `s` is what an image's slot collection map decodes to.
pub open spec fn slot_image_matches(c: Cbor, s: SlotInfoImage) -> bool {
    &&& u32_fld(c, "image"@) == Some(s.image)
    &&& (match crate::commands::arr_fld(c, "slots"@) {
        Some(a) => s.slots@.len() == a.len() && forall|i: int|
            0 <= i < a.len() ==> slot_matches(a[i], #[trigger] s.slots@[i]),
        None => false,
    })
    &&& crate::commands::opt_u64_fld(c, "max_image_size"@) == Some(s.max_image_size)
}

/// Decodes one image's slot collection.
fn decode_slot_image(c: &CborValue) -> (r: Option<SlotInfoImage>)
    ensures
        slot_image_decodes(c@) ==> r is Some,
        r matches Some(s) ==> slot_image_matches(c@, s),
{
    let image = match get_u32_fld(c, "image") {
        Some(x) => x,
        None => {
            return None;
        },
    };
    let max_image_size = match get_opt_u64_fld(c, "max_image_size") {
        Some(x) => x,
        None => {
            return None;
        },
    };
    let arr_val = match dict_get(c, "slots") {
        Some(x) => x,
        None => {
            return None;
        },
    };
    let items = match arr_val {
        CborValue::Array(items) => items,
        _ => {
            proof {
                assert(crate::commands::as_array(arr_val@) is None);
            }
            return None;
        },
    };
    let ghost a = crate::cbor::spec_view_seq(items@);
    proof {
        crate::cbor::lemma_view_seq_index(items@);
    }
    let mut slots: Vec<SlotInfoImageSlot> = Vec::new();
    let mut i: usize = 0;
    while i < items.len()
        invariant
            i <= items@.len(),
            crate::commands::arr_fld(c@, "slots"@) == Some(a),
            a == crate::cbor::spec_view_seq(items@),
            a.len() == items@.len(),
            forall|k: int| 0 <= k < items@.len() ==> a[k] == crate::cbor::spec_view(items@[k]),
            slots@.len() == i,
            forall|k: int| 0 <= k < i ==> slot_matches(a[k], #[trigger] slots@[k]),
        decreases items@.len() - i,
    {
        let slot = match decode_slot(&items[i]) {
            Some(s) => s,
            None => {
                proof {
                    assert(!slot_decodes(a[i as int]));
                    assert_by_contradiction!(!slot_image_decodes(c@), {
                        assert(slot_decodes(
                            (crate::commands::arr_fld(c@, "slots"@)->0)[i as int],
                        ));
                    });
                }
                return None;
            },
        };
        slots.push(slot);
        i = i + 1;
    }
    Some(SlotInfoImage { image, slots, max_image_size })
}

impl McuMgrCommand for SlotInfo {
    type Response = SlotInfoResponse;

    open spec fn spec_write_operation(&self) -> bool {
        false
    }

    open spec fn spec_group_id(&self) -> u16 {
        1
    }

    open spec fn spec_command_id(&self) -> u8 {
        6
    }

    open spec fn spec_payload(&self) -> Cbor {
        Cbor::Dict(Seq::empty())
    }

    open spec fn response_decodes(v: Cbor) -> bool {
        match crate::commands::arr_fld(v, "images"@) {
            Some(a) => forall|i: int| 0 <= i < a.len() ==> slot_image_decodes(#[trigger] a[i]),
            None => false,
        }
    }

    open spec fn response_matches(v: Cbor, r: SlotInfoResponse) -> bool {
        match crate::commands::arr_fld(v, "images"@) {
            Some(a) => r.images@.len() == a.len() && forall|i: int|
                0 <= i < a.len() ==> slot_image_matches(a[i], #[trigger] r.images@[i]),
            None => false,
        }
    }

    fn is_write_operation(&self) -> bool {
        false
    }

    fn group_id(&self) -> u16 {
        1
    }

    fn command_id(&self) -> u8 {
        6
    }

    fn encode_payload(&self) -> (r: Vec<u8>) {
        let b = MapBuilder::new();
        let v = b.build();
        encode_cbor(&v)
    }

    fn decode_response(v: &CborValue) -> (r: Option<SlotInfoResponse>) {
        let arr_val = match dict_get(v, "images") {
            Some(x) => x,
            None => {
                return None;
            },
        };
        let items = match arr_val {
            CborValue::Array(items) => items,
            _ => {
                proof {
                    assert(crate::commands::as_array(arr_val@) is None);
                }
                return None;
            },
        };
        let ghost a = crate::cbor::spec_view_seq(items@);
        proof {
            crate::cbor::lemma_view_seq_index(items@);
        }
        let mut images: Vec<SlotInfoImage> = Vec::new();
        let mut i: usize = 0;
        while i < items.len()
            invariant
                i <= items@.len(),
                crate::commands::arr_fld(v@, "images"@) == Some(a),
                a == crate::cbor::spec_view_seq(items@),
                a.len() == items@.len(),
                forall|k: int|
                    0 <= k < items@.len() ==> a[k] == crate::cbor::spec_view(items@[k]),
                images@.len() == i,
                forall|k: int| 0 <= k < i ==> slot_image_matches(a[k], #[trigger] images@[k]),
            decreases items@.len() - i,
        {
            let img = match decode_slot_image(&items[i]) {
                Some(s) => s,
                None => {
                    proof {
                        assert(!slot_image_decodes(a[i as int]));
                        assert_by_contradiction!(!Self::response_decodes(v@), {
                            assert(slot_image_decodes(
                                (crate::commands::arr_fld(v@, "images"@)->0)[i as int],
                            ));
                        });
                    }
                    return None;
                },
            };
            images.push(img);
            i = i + 1;
        }
        Some(SlotInfoResponse { images })
    }
}


} // verus!
