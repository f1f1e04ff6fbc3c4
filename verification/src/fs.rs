//! The file management group (group 8): download, upload, status, checksum,
//! supported checksum types, and close, with the file upload chunk sizer and
//! its soundness law.

use vstd::assert_by_contradiction;
use vstd::prelude::*;
use vstd::utf8::encode_utf8;

use crate::cbor::{
    cbor_hdr, encode_cbor, spec_cbor, spec_cbor_entries, spec_cbor_text, spec_view_entries, Cbor,
    CborValue, MapBuilder,
};
use crate::commands::{
    as_dict, dict_fld, dict_get, fld, get_bytes_fld, get_opt_u64_fld, get_txt_fld, get_u32_fld,
    get_u64_fld, is_dict, opt_u64_fld, txt_fld, u32_fld, u64_fld, McuMgrCommand,
};
use crate::numfmt::{spec_hex_bytes, spec_hex_pad, u64_to_hex_pad};

verus! {

/// File download command: one chunk starting at `off`.
pub struct FileDownload {
    /// Offset to read from.
    pub off: u64,
    /// Absolute path of the file on the device.
    pub name: String,
}

/// Response to [`FileDownload`].
pub struct FileDownloadResponse {
    /// The offset this chunk starts at.
    pub off: u64,
    /// The chunk read from the file.
    pub data: Vec<u8>,
    /// The file's total length; the device must send it when `off` is zero.
    pub len: Option<u64>,
}

impl McuMgrCommand for FileDownload {
    type Response = FileDownloadResponse;

    open spec fn spec_write_operation(&self) -> bool {
        false
    }

    open spec fn spec_group_id(&self) -> u16 {
        8
    }

    open spec fn spec_command_id(&self) -> u8 {
        0
    }

    open spec fn spec_payload(&self) -> Cbor {
        Cbor::Dict(seq![("off"@, Cbor::UInt(self.off)), ("name"@, Cbor::Text(self.name@))])
    }

    open spec fn response_decodes(v: Cbor) -> bool {
        &&& u64_fld(v, "off"@) is Some
        &&& crate::commands::bytes_fld(v, "data"@) is Some
        &&& opt_u64_fld(v, "len"@) is Some
    }

    open spec fn response_matches(v: Cbor, r: FileDownloadResponse) -> bool {
        &&& u64_fld(v, "off"@) == Some(r.off)
        &&& crate::commands::bytes_fld(v, "data"@) matches Some(b) && r.data@ == b
        &&& opt_u64_fld(v, "len"@) == Some(r.len)
    }

    fn is_write_operation(&self) -> bool {
        false
    }

    fn group_id(&self) -> u16 {
        8
    }

    fn command_id(&self) -> u8 {
        0
    }

    fn encode_payload(&self) -> (r: Vec<u8>) {
        let mut b = MapBuilder::new();
        b.field("off", CborValue::UInt(self.off));
        b.field("name", CborValue::Text(self.name.clone()));
        let ghost ents = spec_view_entries(b.entries@);
        let v = b.build();
        proof {
            assert(ents =~= (self.spec_payload())->Dict_0);
        }
        encode_cbor(&v)
    }

    fn decode_response(v: &CborValue) -> (r: Option<FileDownloadResponse>) {
        let off = match get_u64_fld(v, "off") {
            Some(x) => x,
            None => {
                return None;
            },
        };
        let data = match get_bytes_fld(v, "data") {
            Some(x) => x,
            None => {
                return None;
            },
        };
        let len = match get_opt_u64_fld(v, "len") {
            Some(x) => x,
            None => {
                return None;
            },
        };
        Some(FileDownloadResponse { off, data, len })
    }
}

/// File upload command: one chunk written at `off`.
pub struct FileUpload {
    /// Offset to write at.
    pub off: u64,
    /// The chunk to write.
    pub data: Vec<u8>,
    /// Absolute path of the file on the device.
    pub name: String,
    /// Total file length; must be sent on the first chunk.
    pub len: Option<u64>,
}

/// Response to [`FileUpload`].
#[derive(Debug, Clone, Copy, PartialEq, Eq, Structural)]
pub struct FileUploadResponse {
    /// Offset of the last byte the device has written.
    pub off: u64,
}

impl McuMgrCommand for FileUpload {
    type Response = FileUploadResponse;

    open spec fn spec_write_operation(&self) -> bool {
        true
    }

    open spec fn spec_group_id(&self) -> u16 {
        8
    }

    open spec fn spec_command_id(&self) -> u8 {
        0
    }

    open spec fn spec_payload(&self) -> Cbor {
        Cbor::Dict(
            seq![
                ("off"@, Cbor::UInt(self.off)),
                ("data"@, Cbor::Bytes(self.data@)),
                ("name"@, Cbor::Text(self.name@)),
            ] + (match self.len {
                Some(n) => seq![("len"@, Cbor::UInt(n))],
                None => Seq::empty(),
            }),
        )
    }

    open spec fn response_decodes(v: Cbor) -> bool {
        u64_fld(v, "off"@) is Some
    }

    open spec fn response_matches(v: Cbor, r: FileUploadResponse) -> bool {
        u64_fld(v, "off"@) == Some(r.off)
    }

    fn is_write_operation(&self) -> bool {
        true
    }

    fn group_id(&self) -> u16 {
        8
    }

    fn command_id(&self) -> u8 {
        0
    }

    fn encode_payload(&self) -> (r: Vec<u8>) {
        let mut b = MapBuilder::new();
        b.field("off", CborValue::UInt(self.off));
        let data_copy = crate::framing::copy_range(self.data.as_slice(), 0, self.data.len());
        proof {
            assert(data_copy@ =~= self.data@);
        }
        b.field("data", CborValue::Bytes(data_copy));
        b.field("name", CborValue::Text(self.name.clone()));
        if let Some(n) = self.len {
            b.field("len", CborValue::UInt(n));
        }
        let ghost ents = spec_view_entries(b.entries@);
        let v = b.build();
        proof {
            assert(ents =~= (self.spec_payload())->Dict_0);
        }
        encode_cbor(&v)
    }

    fn decode_response(v: &CborValue) -> (r: Option<FileUploadResponse>) {
        match get_u64_fld(v, "off") {
            Some(off) => Some(FileUploadResponse { off }),
            None => None,
        }
    }
}

/// The worst-case file upload payload for a given file name: offset and
/// length at their maxima, and the given chunk data.
pub open spec fn file_upload_worst(name: Seq<char>, d: Seq<u8>) -> Cbor {
    Cbor::Dict(
        seq![
            ("off"@, Cbor::UInt(0xffffffffffffffff)),
            ("data"@, Cbor::Bytes(d)),
            ("name"@, Cbor::Text(name)),
            ("len"@, Cbor::UInt(0xffffffffffffffff)),
        ],
    )
}

/// The encoded size of a worst-case file upload: a fixed 37 bytes beside
/// the name and the data string with its header.
pub proof fn lemma_file_upload_worst_len(name: Seq<char>, d: Seq<u8>)
    requires
        d.len() < 18446744073709551616,
        encode_utf8(name).len() < 18446744073709551616,
    ensures
        spec_cbor(file_upload_worst(name, d)).len() == 37 + spec_cbor_text(name).len() + cbor_hdr(
            2,
            d.len() as u64,
        ).len() + d.len(),
{
    let m = (file_upload_worst(name, d))->Dict_0;
    reveal_with_fuel(spec_cbor_entries, 6);
    reveal_strlit("off");
    reveal_strlit("data");
    reveal_strlit("name");
    reveal_strlit("len");
    assert(vstd::utf8::is_ascii_chars("off"@));
    assert(vstd::utf8::is_ascii_chars("data"@));
    assert(vstd::utf8::is_ascii_chars("name"@));
    assert(vstd::utf8::is_ascii_chars("len"@));
    crate::chunk::lemma_ascii_text_len("off"@);
    crate::chunk::lemma_ascii_text_len("data"@);
    crate::chunk::lemma_ascii_text_len("name"@);
    crate::chunk::lemma_ascii_text_len("len"@);
    assert(m.subrange(1, 4)[0] == m[1]);
    assert(m.subrange(1, 4).subrange(1, 3) =~= m.subrange(2, 4));
    assert(m.subrange(2, 4)[0] == m[2]);
    assert(m.subrange(2, 4).subrange(1, 2) =~= m.subrange(3, 4));
    assert(m.subrange(3, 4)[0] == m[3]);
    assert(m.subrange(3, 4).subrange(1, 1) =~= Seq::<(Seq<char>, Cbor)>::empty());
    assert(spec_cbor(Cbor::UInt(0xffffffffffffffff)).len() == 9);
    assert(spec_cbor(Cbor::Bytes(d)).len() == cbor_hdr(2, d.len() as u64).len() + d.len());
    assert(spec_cbor(Cbor::Text(name)).len() == spec_cbor_text(name).len());
    assert(spec_cbor_entries(m).len() == 36 + spec_cbor_text(name).len() + cbor_hdr(
        2,
        d.len() as u64,
    ).len() + d.len());
    assert(cbor_hdr(5, 4).len() == 1);
}

/// The file upload chunk size as a function of the frame size and the
/// encoded size of the file name.
pub open spec fn spec_file_chunk(mtu: int, name: Seq<char>) -> Option<int> {
    crate::chunk::spec_chunk_from_probe(mtu, 39 + spec_cbor_text(name).len() as int)
}

/// The largest data chunk a file upload may carry at the given SMP frame
/// size and file name, probing with a worst-case request. Fails when the
/// frame cannot carry any data at all.
pub fn file_upload_max_data_chunk_size(smp_frame_size: usize, filename: &str) -> (r: Result<
    usize,
    (),
>)
    ensures
        ({
            match spec_file_chunk(smp_frame_size as int, filename@) {
                Some(n) => r matches Ok(x) && x == n,
                None => r is Err,
            }
        }),
{
    let name_bytes = filename.as_bytes();
    let name_len = name_bytes.len();
    proof {
        assert(encode_utf8(filename@).len() == name_len as int);
    }
    let mut one_byte: Vec<u8> = Vec::new();
    one_byte.push(0);
    let probe = FileUpload {
        off: 0xffffffffffffffff,
        data: one_byte,
        name: String::from_str(filename),
        len: Some(0xffffffffffffffff),
    };
    let bytes = probe.encode_payload();
    proof {
        assert(probe.data@ =~= Seq::<u8>::empty().push(0u8));
        assert((probe.spec_payload())->Dict_0 =~= (file_upload_worst(
            filename@,
            probe.data@,
        ))->Dict_0);
        lemma_file_upload_worst_len(filename@, probe.data@);
        assert(cbor_hdr(2, 1).len() == 1);
        assert(bytes@.len() == 39 + spec_cbor_text(filename@).len());
    }
    crate::chunk::chunk_from_probe(smp_frame_size, bytes.len())
}

/// Chunk-sizer soundness for file uploads: for every frame size below
/// 100,000 for which a chunk size is computed, a worst-case upload with the
/// same name carrying exactly that much data encodes to a payload within
/// two bytes of the frame's capacity after the SMP header.
pub proof fn lemma_file_chunk_soundness(mtu: int, name: Seq<char>, d: Seq<u8>)
    requires
        mtu < 100000,
        encode_utf8(name).len() < 18446744073709551616,
        spec_file_chunk(mtu, name) == Some(d.len() as int),
    ensures
        mtu - 8 - 2 <= spec_cbor(file_upload_worst(name, d)).len() <= mtu - 8,
{
    crate::chunk::lemma_chunk_soundness(
        mtu,
        39 + spec_cbor_text(name).len() as int,
        d.len() as int,
    );
    lemma_file_upload_worst_len(name, d);
}

/// File status command.
pub struct FileStatus {
    /// Absolute path of the file on the device.
    pub name: String,
}

/// Response to [`FileStatus`].
#[derive(Debug, Clone, Copy, PartialEq, Eq, Structural)]
pub struct FileStatusResponse {
    /// The file's length in bytes.
    pub len: u64,
}

impl McuMgrCommand for FileStatus {
    type Response = FileStatusResponse;

    open spec fn spec_write_operation(&self) -> bool {
        false
    }

    open spec fn spec_group_id(&self) -> u16 {
        8
    }

    open spec fn spec_command_id(&self) -> u8 {
        1
    }

    open spec fn spec_payload(&self) -> Cbor {
        Cbor::Dict(seq![("name"@, Cbor::Text(self.name@))])
    }

    open spec fn response_decodes(v: Cbor) -> bool {
        u64_fld(v, "len"@) is Some
    }

    open spec fn response_matches(v: Cbor, r: FileStatusResponse) -> bool {
        u64_fld(v, "len"@) == Some(r.len)
    }

    fn is_write_operation(&self) -> bool {
        false
    }

    fn group_id(&self) -> u16 {
        8
    }

    fn command_id(&self) -> u8 {
        1
    }

    fn encode_payload(&self) -> (r: Vec<u8>) {
        let mut b = MapBuilder::new();
        b.field("name", CborValue::Text(self.name.clone()));
        let ghost ents = spec_view_entries(b.entries@);
        let v = b.build();
        proof {
            assert(ents =~= (self.spec_payload())->Dict_0);
        }
        encode_cbor(&v)
    }

    fn decode_response(v: &CborValue) -> (r: Option<FileStatusResponse>) {
        match get_u64_fld(v, "len") {
            Some(len) => Some(FileStatusResponse { len }),
            None => None,
        }
    }
}

/// Renders bytes as lower-case hexadecimal text, two digits per byte.
fn hex_encode(data: &[u8]) -> (r: String)
    ensures
        r@ == spec_hex_bytes(data@),
{
    let mut out = String::new();
    let mut i: usize = 0;
    while i < data.len()
        invariant
            i <= data@.len(),
            out@ == spec_hex_bytes(data@.take(i as int)),
        decreases data@.len() - i,
    {
        out.append(u64_to_hex_pad(data[i] as u64, 2).as_str());
        proof {
            lemma_hex_bytes_snoc(data@, i as int);
        }
        i = i + 1;
    }
    proof {
        assert(data@.take(data@.len() as int) =~= data@);
    }
    out
}

/// One more byte extends the hexadecimal text by its two digits.
proof fn lemma_hex_bytes_snoc(b: Seq<u8>, i: int)
    requires
        0 <= i < b.len(),
    ensures
        spec_hex_bytes(b.take(i + 1)) == spec_hex_bytes(b.take(i)) + spec_hex_pad(b[i] as int, 2),
    decreases i + b.len(),
{
    lemma_hex_bytes_take(b.take(i + 1), i);
    assert(b.take(i + 1).take(i) =~= b.take(i));
    assert(b.take(i + 1)[i] == b[i]);
}

/// The hexadecimal text of a sequence splits at its last byte.
proof fn lemma_hex_bytes_take(b: Seq<u8>, i: int)
    requires
        0 <= i,
        b.len() == i + 1,
    ensures
        spec_hex_bytes(b) == spec_hex_bytes(b.take(i)) + spec_hex_pad(b[i] as int, 2),
    decreases b.len(),
{
    if i == 0 {
        assert(b.skip(1) =~= Seq::<u8>::empty());
        assert(b.take(0) =~= Seq::<u8>::empty());
        assert(spec_hex_bytes(Seq::<u8>::empty()) == Seq::<char>::empty());
        assert(spec_hex_bytes(b) =~= spec_hex_bytes(b.take(0)) + spec_hex_pad(b[0] as int, 2));
    } else {
        lemma_hex_bytes_take(b.skip(1), i - 1);
        assert(b.skip(1).take(i - 1) =~= b.take(i).skip(1));
        assert(b.skip(1)[i - 1] == b[i]);
        assert(b.take(i)[0] == b[0]);
        assert(spec_hex_bytes(b) == spec_hex_pad(b[0] as int, 2) + spec_hex_bytes(b.skip(1)));
        assert(spec_hex_bytes(b.take(i)) == spec_hex_pad(b.take(i)[0] as int, 2) + spec_hex_bytes(
            b.take(i).skip(1),
        ));
        assert(spec_hex_bytes(b) =~= spec_hex_bytes(b.take(i)) + spec_hex_pad(b[i] as int, 2));
    }
}

/// The checksum or hash a file checksum response carries: either hash bytes
/// or a checksum integer, depending on the algorithm.
#[derive(Debug, Clone)]
pub enum FileChecksumData {
    /// Hash bytes.
    Hash(Vec<u8>),
    /// A checksum value.
    Checksum(u32),
}

impl FileChecksumData {
    /// The lower-case hexadecimal text of the hash or checksum; a checksum
    /// is rendered as exactly eight digits, big-endian.
    pub fn hex(&self) -> (r: String)
        ensures
            ({
                match self {
                    FileChecksumData::Hash(data) => r@ == spec_hex_bytes(data@),
                    FileChecksumData::Checksum(value) => r@ == spec_hex_pad(*value as int, 8),
                }
            }),
    {
        match self {
            FileChecksumData::Hash(data) => hex_encode(data.as_slice()),
            FileChecksumData::Checksum(value) => u64_to_hex_pad(*value as u64, 8),
        }
    }
}

/// File checksum command.
pub struct FileChecksum {
    /// Absolute path of the file on the device.
    pub name: String,
    /// The checksum or hash algorithm; the device default when absent.
    pub checksum_type: Option<String>,
    /// Offset to start at; only sent when nonzero.
    pub off: u64,
    /// How many bytes to cover; the whole file when absent.
    pub len: Option<u64>,
}

/// Response to [`FileChecksum`].
pub struct FileChecksumResponse {
    /// The algorithm that was used.
    pub checksum_type: String,
    /// Offset the calculation started at; zero when the device omits it.
    pub off: u64,
    /// How many input bytes were covered.
    pub len: u64,
    /// The resulting checksum or hash.
    pub output: FileChecksumData,
}

/// Whether the untagged checksum output field decodes: a byte string is a
/// hash, an unsigned integer that fits 32 bits is a checksum.
pub open spec fn checksum_output_decodes(v: Cbor) -> bool {
    match fld(v, "output"@) {
        Some(Cbor::Bytes(_)) => true,
        Some(Cbor::UInt(n)) => n <= 0xffff_ffff,
        _ => false,
    }
}

impl McuMgrCommand for FileChecksum {
    type Response = FileChecksumResponse;

    open spec fn spec_write_operation(&self) -> bool {
        false
    }

    open spec fn spec_group_id(&self) -> u16 {
        8
    }

    open spec fn spec_command_id(&self) -> u8 {
        2
    }

    open spec fn spec_payload(&self) -> Cbor {
        Cbor::Dict(
            seq![("name"@, Cbor::Text(self.name@))] + (match self.checksum_type {
                Some(t) => seq![("type"@, Cbor::Text(t@))],
                None => Seq::empty(),
            }) + (if self.off != 0 {
                seq![("off"@, Cbor::UInt(self.off))]
            } else {
                Seq::empty()
            }) + (match self.len {
                Some(n) => seq![("len"@, Cbor::UInt(n))],
                None => Seq::empty(),
            }),
        )
    }

    open spec fn response_decodes(v: Cbor) -> bool {
        &&& txt_fld(v, "type"@) is Some
        &&& opt_u64_fld(v, "off"@) is Some
        &&& u64_fld(v, "len"@) is Some
        &&& checksum_output_decodes(v)
    }

    open spec fn response_matches(v: Cbor, r: FileChecksumResponse) -> bool {
        &&& txt_fld(v, "type"@) matches Some(t) && r.checksum_type@ == t
        &&& (match opt_u64_fld(v, "off"@) {
            Some(None) => r.off == 0,
            Some(Some(n)) => r.off == n,
            None => false,
        })
        &&& u64_fld(v, "len"@) == Some(r.len)
        &&& (match fld(v, "output"@) {
            Some(Cbor::Bytes(b)) => r.output matches FileChecksumData::Hash(h) && h@ == b,
            Some(Cbor::UInt(n)) => r.output matches FileChecksumData::Checksum(c) && c == n,
            _ => false,
        })
    }

    fn is_write_operation(&self) -> bool {
        false
    }

    fn group_id(&self) -> u16 {
        8
    }

    fn command_id(&self) -> u8 {
        2
    }

    fn encode_payload(&self) -> (r: Vec<u8>) {
        let mut b = MapBuilder::new();
        b.field("name", CborValue::Text(self.name.clone()));
        if let Some(t) = &self.checksum_type {
            b.field("type", CborValue::Text(t.clone()));
        }
        if self.off != 0 {
            b.field("off", CborValue::UInt(self.off));
        }
        if let Some(n) = self.len {
            b.field("len", CborValue::UInt(n));
        }
        let ghost ents = spec_view_entries(b.entries@);
        let v = b.build();
        proof {
            assert(ents =~= (self.spec_payload())->Dict_0);
        }
        encode_cbor(&v)
    }

    fn decode_response(v: &CborValue) -> (r: Option<FileChecksumResponse>) {
        let checksum_type = match get_txt_fld(v, "type") {
            Some(x) => x,
            None => {
                return None;
            },
        };
        let off = match get_opt_u64_fld(v, "off") {
            Some(Some(n)) => n,
            Some(None) => 0,
            None => {
                return None;
            },
        };
        let len = match get_u64_fld(v, "len") {
            Some(x) => x,
            None => {
                return None;
            },
        };
        let output_val = match dict_get(v, "output") {
            Some(x) => x,
            None => {
                return None;
            },
        };
        let output = match output_val {
            CborValue::Bytes(bytes) => {
                let copied = crate::framing::copy_range(bytes.as_slice(), 0, bytes.len());
                proof {
                    assert(copied@ =~= bytes@);
                }
                FileChecksumData::Hash(copied)
            },
            CborValue::UInt(n) => {
                if *n <= 0xffff_ffff {
                    FileChecksumData::Checksum(*n as u32)
                } else {
                    return None;
                }
            },
            _ => {
                return None;
            },
        };
        Some(FileChecksumResponse { checksum_type, off, len, output })
    }
}

/// Supported checksum types command: no request body.
pub struct SupportedFileChecksumTypes;

/// The data format a checksum algorithm returns.
#[derive(Debug, Copy, Clone, PartialEq, Eq, Structural)]
pub enum FileChecksumDataFormat {
    /// The output is a number.
    Numerical,
    /// The output is a byte array.
    ByteArray,
}

/// Properties of one checksum algorithm.
#[derive(Debug, Copy, Clone, PartialEq, Eq, Structural)]
pub struct FileChecksumProperties {
    /// The format of the algorithm's output.
    pub format: FileChecksumDataFormat,
    /// The size in bytes of the output.
    pub size: u32,
}

/// Response to [`SupportedFileChecksumTypes`].
pub struct SupportedFileChecksumTypesResponse {
    /// The algorithm names with their properties, in the order the device
    /// sent them.
    pub types: Vec<(String, FileChecksumProperties)>,
}

/// Whether a map decodes as checksum algorithm properties.
pub open spec fn checksum_props_decodes(c: Cbor) -> bool {
    &&& (u32_fld(c, "format"@) == Some(0u32) || u32_fld(c, "format"@) == Some(1u32))
    &&& u32_fld(c, "size"@) is Some
}

/// Whether `p` is what a checksum algorithm properties map decodes to.
pub open spec fn checksum_props_matches(c: Cbor, p: FileChecksumProperties) -> bool {
    &&& (match p.format {
        FileChecksumDataFormat::Numerical => u32_fld(c, "format"@) == Some(0u32),
        FileChecksumDataFormat::ByteArray => u32_fld(c, "format"@) == Some(1u32),
    })
    &&& u32_fld(c, "size"@) == Some(p.size)
}

/// Decodes one algorithm's properties.
fn decode_checksum_props(c: &CborValue) -> (r: Option<FileChecksumProperties>)
    ensures
        checksum_props_decodes(c@) ==> r is Some,
        r matches Some(p) ==> checksum_props_matches(c@, p),
{
    let format = match get_u32_fld(c, "format") {
        Some(0) => FileChecksumDataFormat::Numerical,
        Some(1) => FileChecksumDataFormat::ByteArray,
        _ => {
            return None;
        },
    };
    let size = match get_u32_fld(c, "size") {
        Some(x) => x,
        None => {
            return None;
        },
    };
    Some(FileChecksumProperties { format, size })
}

/// Whether a payload decodes as a supported checksum types response.
pub open spec fn checksum_types_response_decodes(v: Cbor) -> bool {
    match dict_fld(v, "types"@) {
        Some(m) => forall|i: int| 0 <= i < m.len() ==> checksum_props_decodes(#[trigger] m[i].1),
        None => false,
    }
}

/// Whether `r` is what a supported checksum types response decodes to.
pub open spec fn checksum_types_response_matches(
    v: Cbor,
    r: SupportedFileChecksumTypesResponse,
) -> bool {
    match dict_fld(v, "types"@) {
        Some(m) => r.types@.len() == m.len() && forall|i: int|
            0 <= i < m.len() ==> (#[trigger] r.types@[i]).0@ == m[i].0 && checksum_props_matches(
                m[i].1,
                r.types@[i].1,
            ),
        None => false,
    }
}

impl McuMgrCommand for SupportedFileChecksumTypes {
    type Response = SupportedFileChecksumTypesResponse;

    open spec fn spec_write_operation(&self) -> bool {
        false
    }

    open spec fn spec_group_id(&self) -> u16 {
        8
    }

    open spec fn spec_command_id(&self) -> u8 {
        3
    }

    open spec fn spec_payload(&self) -> Cbor {
        Cbor::Dict(Seq::empty())
    }

    open spec fn response_decodes(v: Cbor) -> bool {
        checksum_types_response_decodes(v)
    }

    open spec fn response_matches(v: Cbor, r: SupportedFileChecksumTypesResponse) -> bool {
        checksum_types_response_matches(v, r)
    }

    fn is_write_operation(&self) -> bool {
        false
    }

    fn group_id(&self) -> u16 {
        8
    }

    fn command_id(&self) -> u8 {
        3
    }

    fn encode_payload(&self) -> (r: Vec<u8>) {
        let b = MapBuilder::new();
        let v = b.build();
        encode_cbor(&v)
    }

    fn decode_response(v: &CborValue) -> (r: Option<SupportedFileChecksumTypesResponse>) {
        let types_val = match dict_get(v, "types") {
            Some(x) => x,
            None => {
                return None;
            },
        };
        let entries = match types_val {
            CborValue::Dict(entries) => entries,
            _ => {
                proof {
                    assert(as_dict(types_val@) is None);
                }
                return None;
            },
        };
        let ghost m = spec_view_entries(entries@);
        proof {
            crate::cbor::lemma_view_entries_index(entries@);
        }
        let mut types: Vec<(String, FileChecksumProperties)> = Vec::new();
        let mut i: usize = 0;
        while i < entries.len()
            invariant
                i <= entries@.len(),
                dict_fld(v@, "types"@) == Some(m),
                m == spec_view_entries(entries@),
                m.len() == entries@.len(),
                forall|k: int|
                    0 <= k < entries@.len() ==> m[k] == (
                        entries@[k].0@,
                        crate::cbor::spec_view(entries@[k].1),
                    ),
                types@.len() == i,
                forall|k: int|
                    0 <= k < i ==> (#[trigger] types@[k]).0@ == m[k].0 && checksum_props_matches(
                        m[k].1,
                        types@[k].1,
                    ),
            decreases entries@.len() - i,
        {
            let key = entries[i].0.clone();
            let props = match decode_checksum_props(&entries[i].1) {
                Some(p) => p,
                None => {
                    proof {
                        assert(!checksum_props_decodes(m[i as int].1));
                        assert_by_contradiction!(!checksum_types_response_decodes(v@), {
                            assert(checksum_props_decodes(
                                (dict_fld(v@, "types"@)->0)[i as int].1,
                            ));
                        });
                    }
                    return None;
                },
            };
            types.push((key, props));
            i = i + 1;
        }
        Some(SupportedFileChecksumTypesResponse { types })
    }
}

/// File close command: closes every file MCUmgr holds open.
pub struct FileClose;

/// Response to [`FileClose`]: carries nothing.
#[derive(Debug, Clone, Copy, PartialEq, Eq, Structural, Default)]
pub struct FileCloseResponse;

impl McuMgrCommand for FileClose {
    type Response = FileCloseResponse;

    open spec fn spec_write_operation(&self) -> bool {
        true
    }

    open spec fn spec_group_id(&self) -> u16 {
        8
    }

    open spec fn spec_command_id(&self) -> u8 {
        4
    }

    open spec fn spec_payload(&self) -> Cbor {
        Cbor::Dict(Seq::empty())
    }

    open spec fn response_decodes(v: Cbor) -> bool {
        as_dict(v) is Some
    }

    open spec fn response_matches(v: Cbor, r: FileCloseResponse) -> bool {
        as_dict(v) is Some
    }

    fn is_write_operation(&self) -> bool {
        true
    }

    fn group_id(&self) -> u16 {
        8
    }

    fn command_id(&self) -> u8 {
        4
    }

    fn encode_payload(&self) -> (r: Vec<u8>) {
        let b = MapBuilder::new();
        let v = b.build();
        encode_cbor(&v)
    }

    fn decode_response(v: &CborValue) -> (r: Option<FileCloseResponse>) {
        if is_dict(v) {
            Some(FileCloseResponse)
        } else {
            None
        }
    }
}

} // verus!
