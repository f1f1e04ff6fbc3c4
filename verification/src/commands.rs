//! The typed command layer: what every SMP command provides, the helpers the
//! response decoders share, and the generic error envelope every response is
//! checked against first.

use vstd::prelude::*;

use crate::cbor::{
    cbor_wf, map_get, spec_cbor, spec_map_get, spec_parse, spec_view, spec_view_entries, Cbor,
    CborValue,
};

verus! {

/// The unsigned value of an integer item, if it is one.
pub open spec fn as_u64(c: Cbor) -> Option<u64> {
    match c {
        Cbor::UInt(n) => Some(n),
        _ => None,
    }
}

/// The value of an integer item that fits `u32`.
pub open spec fn as_u32(c: Cbor) -> Option<u32> {
    match c {
        Cbor::UInt(n) => if n <= 0xffff_ffff {
            Some(n as u32)
        } else {
            None
        },
        _ => None,
    }
}

/// The value of an integer item that fits `u16`.
pub open spec fn as_u16(c: Cbor) -> Option<u16> {
    match c {
        Cbor::UInt(n) => if n <= 0xffff {
            Some(n as u16)
        } else {
            None
        },
        _ => None,
    }
}

/// The value of an integer item that fits `i32`: unsigned or negative.
pub open spec fn as_i32(c: Cbor) -> Option<i32> {
    match c {
        Cbor::UInt(n) => if n <= 0x7fff_ffff {
            Some(n as i32)
        } else {
            None
        },
        Cbor::NInt(n) => if n <= 0x7fff_ffff {
            Some((-1 - n as int) as i32)
        } else {
            None
        },
        _ => None,
    }
}

/// The characters of a text item, if it is one.
pub open spec fn as_text(c: Cbor) -> Option<Seq<char>> {
    match c {
        Cbor::Text(t) => Some(t),
        _ => None,
    }
}

/// The bytes of a byte-string item, if it is one.
pub open spec fn as_bytes(c: Cbor) -> Option<Seq<u8>> {
    match c {
        Cbor::Bytes(b) => Some(b),
        _ => None,
    }
}

/// The value of a boolean item, if it is one.
pub open spec fn as_bool(c: Cbor) -> Option<bool> {
    match c {
        Cbor::Bool(b) => Some(b),
        _ => None,
    }
}

/// The entries of a map item, if it is one.
pub open spec fn as_dict(c: Cbor) -> Option<Seq<(Seq<char>, Cbor)>> {
    match c {
        Cbor::Dict(m) => Some(m),
        _ => None,
    }
}

/// The items of an array, if it is one.
pub open spec fn as_array(c: Cbor) -> Option<Seq<Cbor>> {
    match c {
        Cbor::Array(a) => Some(a),
        _ => None,
    }
}

/// The unsigned value of an integer item.
pub fn get_u64(c: &CborValue) -> (r: Option<u64>)
    ensures
        r == as_u64(c@),
{
    match c {
        CborValue::UInt(n) => Some(*n),
        _ => None,
    }
}

/// The value of an integer item that fits `u32`.
pub fn get_u32(c: &CborValue) -> (r: Option<u32>)
    ensures
        r == as_u32(c@),
{
    match c {
        CborValue::UInt(n) => if *n <= 0xffff_ffff {
            Some(*n as u32)
        } else {
            None
        },
        _ => None,
    }
}

/// The value of an integer item that fits `u16`.
pub fn get_u16(c: &CborValue) -> (r: Option<u16>)
    ensures
        r == as_u16(c@),
{
    match c {
        CborValue::UInt(n) => if *n <= 0xffff {
            Some(*n as u16)
        } else {
            None
        },
        _ => None,
    }
}

/// The value of an integer item that fits `i32`.
pub fn get_i32(c: &CborValue) -> (r: Option<i32>)
    ensures
        r == as_i32(c@),
{
    match c {
        CborValue::UInt(n) => if *n <= 0x7fff_ffff {
            Some(*n as i32)
        } else {
            None
        },
        CborValue::NInt(n) => if *n <= 0x7fff_ffff {
            Some((-1 - (*n as i64)) as i32)
        } else {
            None
        },
        _ => None,
    }
}

/// The text of a text item, copied out.
pub fn get_text(c: &CborValue) -> (r: Option<String>)
    ensures
        ({
            match as_text(c@) {
                Some(t) => r is Some && r->0@ == t,
                None => r is None,
            }
        }),
{
    match c {
        CborValue::Text(s) => Some(s.clone()),
        _ => None,
    }
}

/// The bytes of a byte-string item, copied out.
pub fn get_bytes(c: &CborValue) -> (r: Option<Vec<u8>>)
    ensures
        ({
            match as_bytes(c@) {
                Some(b) => r is Some && r->0@ == b,
                None => r is None,
            }
        }),
{
    match c {
        CborValue::Bytes(b) => Some(crate::framing::copy_range(b.as_slice(), 0, b.len())),
        _ => None,
    }
}

/// The value of a boolean item.
pub fn get_bool(c: &CborValue) -> (r: Option<bool>)
    ensures
        r == as_bool(c@),
{
    match c {
        CborValue::Bool(b) => Some(*b),
        _ => None,
    }
}

/// Looks a key up in a map item; `None` when the item is not a map or has
/// no such entry.
pub fn dict_get<'a>(c: &'a CborValue, key: &str) -> (r: Option<&'a CborValue>)
    ensures
        ({
            match as_dict(c@) {
                None => r is None,
                Some(m) => match spec_map_get(m, key@) {
                    None => r is None,
                    Some(x) => r is Some && r->0@ == x,
                },
            }
        }),
{
    match c {
        CborValue::Dict(m) => map_get(m, key),
        _ => None,
    }
}

/// The value under `key` in a map item; `None` when the item is not a map
/// or has no such entry.
pub open spec fn fld(v: Cbor, key: Seq<char>) -> Option<Cbor> {
    match as_dict(v) {
        Some(m) => spec_map_get(m, key),
        None => None,
    }
}

/// A required text field: present and a text string.
pub open spec fn txt_fld(v: Cbor, key: Seq<char>) -> Option<Seq<char>> {
    match fld(v, key) {
        Some(x) => as_text(x),
        None => None,
    }
}

/// A required unsigned field.
pub open spec fn u64_fld(v: Cbor, key: Seq<char>) -> Option<u64> {
    match fld(v, key) {
        Some(x) => as_u64(x),
        None => None,
    }
}

/// A required unsigned field that fits `u32`.
pub open spec fn u32_fld(v: Cbor, key: Seq<char>) -> Option<u32> {
    match fld(v, key) {
        Some(x) => as_u32(x),
        None => None,
    }
}

/// A required signed field that fits `i32`.
pub open spec fn i32_fld(v: Cbor, key: Seq<char>) -> Option<i32> {
    match fld(v, key) {
        Some(x) => as_i32(x),
        None => None,
    }
}

/// A required byte-string field.
pub open spec fn bytes_fld(v: Cbor, key: Seq<char>) -> Option<Seq<u8>> {
    match fld(v, key) {
        Some(x) => as_bytes(x),
        None => None,
    }
}

/// A required array field.
pub open spec fn arr_fld(v: Cbor, key: Seq<char>) -> Option<Seq<Cbor>> {
    match fld(v, key) {
        Some(x) => as_array(x),
        None => None,
    }
}

/// A required map field.
pub open spec fn dict_fld(v: Cbor, key: Seq<char>) -> Option<Seq<(Seq<char>, Cbor)>> {
    match fld(v, key) {
        Some(x) => as_dict(x),
        None => None,
    }
}

/// An optional unsigned field: `Some(None)` when absent from a map,
/// `None` when the item is not a map or the field has the wrong type.
pub open spec fn opt_u64_fld(v: Cbor, key: Seq<char>) -> Option<Option<u64>> {
    match as_dict(v) {
        None => None,
        Some(m) => match spec_map_get(m, key) {
            None => Some(None),
            Some(x) => match as_u64(x) {
                Some(n) => Some(Some(n)),
                None => None,
            },
        },
    }
}

/// An optional unsigned field that fits `u32`.
pub open spec fn opt_u32_fld(v: Cbor, key: Seq<char>) -> Option<Option<u32>> {
    match as_dict(v) {
        None => None,
        Some(m) => match spec_map_get(m, key) {
            None => Some(None),
            Some(x) => match as_u32(x) {
                Some(n) => Some(Some(n)),
                None => None,
            },
        },
    }
}

/// An optional boolean field.
pub open spec fn opt_bool_fld(v: Cbor, key: Seq<char>) -> Option<Option<bool>> {
    match as_dict(v) {
        None => None,
        Some(m) => match spec_map_get(m, key) {
            None => Some(None),
            Some(x) => match as_bool(x) {
                Some(b) => Some(Some(b)),
                None => None,
            },
        },
    }
}

/// A boolean field that defaults to false when absent.
pub open spec fn bool_dflt_fld(v: Cbor, key: Seq<char>) -> Option<bool> {
    match opt_bool_fld(v, key) {
        Some(None) => Some(false),
        Some(Some(b)) => Some(b),
        None => None,
    }
}

/// An unsigned 32-bit field that defaults to zero when absent.
pub open spec fn u32_dflt_fld(v: Cbor, key: Seq<char>) -> Option<u32> {
    match opt_u32_fld(v, key) {
        Some(None) => Some(0),
        Some(Some(n)) => Some(n),
        None => None,
    }
}

/// A required text field, copied out.
pub fn get_txt_fld(v: &CborValue, key: &str) -> (r: Option<String>)
    ensures
        ({
            match txt_fld(v@, key@) {
                Some(t) => r is Some && r->0@ == t,
                None => r is None,
            }
        }),
{
    match dict_get(v, key) {
        Some(x) => get_text(x),
        None => None,
    }
}

/// A required unsigned field.
pub fn get_u64_fld(v: &CborValue, key: &str) -> (r: Option<u64>)
    ensures
        r == u64_fld(v@, key@),
{
    match dict_get(v, key) {
        Some(x) => get_u64(x),
        None => None,
    }
}

/// A required unsigned field that fits `u32`.
pub fn get_u32_fld(v: &CborValue, key: &str) -> (r: Option<u32>)
    ensures
        r == u32_fld(v@, key@),
{
    match dict_get(v, key) {
        Some(x) => get_u32(x),
        None => None,
    }
}

/// A required signed field that fits `i32`.
pub fn get_i32_fld(v: &CborValue, key: &str) -> (r: Option<i32>)
    ensures
        r == i32_fld(v@, key@),
{
    match dict_get(v, key) {
        Some(x) => get_i32(x),
        None => None,
    }
}

/// A required byte-string field, copied out.
pub fn get_bytes_fld(v: &CborValue, key: &str) -> (r: Option<Vec<u8>>)
    ensures
        ({
            match bytes_fld(v@, key@) {
                Some(b) => r is Some && r->0@ == b,
                None => r is None,
            }
        }),
{
    match dict_get(v, key) {
        Some(x) => get_bytes(x),
        None => None,
    }
}

/// An optional unsigned field: `Ok` with `None` when absent; fails when the
/// item is not a map or the field has the wrong type.
pub fn get_opt_u64_fld(v: &CborValue, key: &str) -> (r: Option<Option<u64>>)
    ensures
        r == opt_u64_fld(v@, key@),
{
    match v {
        CborValue::Dict(_) => {},
        _ => {
            return None;
        },
    }
    match dict_get(v, key) {
        None => Some(None),
        Some(x) => match get_u64(x) {
            Some(n) => Some(Some(n)),
            None => None,
        },
    }
}

/// An optional unsigned field that fits `u32`.
pub fn get_opt_u32_fld(v: &CborValue, key: &str) -> (r: Option<Option<u32>>)
    ensures
        r == opt_u32_fld(v@, key@),
{
    match v {
        CborValue::Dict(_) => {},
        _ => {
            return None;
        },
    }
    match dict_get(v, key) {
        None => Some(None),
        Some(x) => match get_u32(x) {
            Some(n) => Some(Some(n)),
            None => None,
        },
    }
}

/// An optional boolean field.
pub fn get_opt_bool_fld(v: &CborValue, key: &str) -> (r: Option<Option<bool>>)
    ensures
        r == opt_bool_fld(v@, key@),
{
    match v {
        CborValue::Dict(_) => {},
        _ => {
            return None;
        },
    }
    match dict_get(v, key) {
        None => Some(None),
        Some(x) => match get_bool(x) {
            Some(b) => Some(Some(b)),
            None => None,
        },
    }
}

/// A boolean field that defaults to false when absent.
pub fn get_bool_dflt_fld(v: &CborValue, key: &str) -> (r: Option<bool>)
    ensures
        r == bool_dflt_fld(v@, key@),
{
    match get_opt_bool_fld(v, key) {
        Some(None) => Some(false),
        Some(Some(b)) => Some(b),
        None => None,
    }
}

/// An unsigned 32-bit field that defaults to zero when absent.
pub fn get_u32_dflt_fld(v: &CborValue, key: &str) -> (r: Option<u32>)
    ensures
        r == u32_dflt_fld(v@, key@),
{
    match get_opt_u32_fld(v, key) {
        Some(None) => Some(0),
        Some(Some(n)) => Some(n),
        None => None,
    }
}

/// Whether a parsed response payload is a map at all.
pub fn is_dict(v: &CborValue) -> (r: bool)
    ensures
        r == (as_dict(v@) is Some),
{
    match v {
        CborValue::Dict(_) => true,
        _ => false,
    }
}

/// An SMP command: its identity on the wire, the model of its request
/// payload, and what its response decoder accepts and returns.
pub trait McuMgrCommand: Sized {
    /// The typed response of the command.
    type Response;

    /// Whether the command is a write (operation 2) or a read (operation 0).
    spec fn spec_write_operation(&self) -> bool;

    /// The group id of the command.
    spec fn spec_group_id(&self) -> u16;

    /// The command id within the group.
    spec fn spec_command_id(&self) -> u8;

    /// The CBOR model of the request payload.
    spec fn spec_payload(&self) -> Cbor;

    /// Whether a response payload model decodes to a response.
    spec fn response_decodes(v: Cbor) -> bool;

    /// Whether `r` is the response that a response payload model decodes to.
    spec fn response_matches(v: Cbor, r: Self::Response) -> bool;

    /// Whether the command is a write (operation 2) or a read (operation 0).
    fn is_write_operation(&self) -> (r: bool)
        ensures
            r == self.spec_write_operation(),
    ;

    /// The group id of the command.
    fn group_id(&self) -> (r: u16)
        ensures
            r == self.spec_group_id(),
    ;

    /// The command id within the group.
    fn command_id(&self) -> (r: u8)
        ensures
            r == self.spec_command_id(),
    ;

    /// Encodes the request payload as canonical CBOR.
    fn encode_payload(&self) -> (r: Vec<u8>)
        ensures
            r@ == spec_cbor(self.spec_payload()),
    ;

    /// Decodes a parsed response payload. Decoding must succeed whenever
    /// `response_decodes` holds of the payload, and whatever it returns must
    /// satisfy `response_matches`.
    fn decode_response(v: &CborValue) -> (r: Option<Self::Response>)
        ensures
            Self::response_decodes(v@) ==> r is Some,
            r matches Some(x) ==> Self::response_matches(v@, x),
    ;
}

/// An SMP version 2 group-based error: group id and group error code.
#[derive(Debug, Clone, Copy, PartialEq, Eq, Structural)]
pub struct ErrResponseV2 {
    /// The group the error code belongs to.
    pub group: u16,
    /// The group-based error code.
    pub rc: i32,
}

/// The generic error envelope every response is checked against: a version 1
/// `rc` code (with optional `rsn` text) or a version 2 `err` map.
pub struct ErrResponse {
    /// SMP version 1 error code.
    pub rc: Option<i32>,
    /// Human-readable reason accompanying a version 1 error.
    pub rsn: Option<String>,
    /// SMP version 2 error.
    pub err: Option<ErrResponseV2>,
}

/// What the generic error envelope of a response payload says.
pub enum ErrorVerdict {
    /// The payload is not a map, or its error fields have the wrong types.
    Malformed,
    /// The payload carries no error.
    NoError,
    /// A version 2 error: group and group error code.
    V2(u16, i32),
    /// A version 1 error: code and optional reason text.
    V1(i32, Option<Seq<char>>),
}

/// Classifies the generic error envelope of a response payload model:
/// an `err` map yields a version 2 error; otherwise a nonzero `rc` yields a
/// version 1 error with the optional `rsn` text; an `rc` of zero, or no
/// error field at all, is success.
pub open spec fn spec_error_verdict(v: Cbor) -> ErrorVerdict {
    match as_dict(v) {
        None => ErrorVerdict::Malformed,
        Some(m) => match spec_map_get(m, "err"@) {
            Some(errv) => match as_dict(errv) {
                None => ErrorVerdict::Malformed,
                Some(em) => {
                    let g = spec_map_get(em, "group"@);
                    let c = spec_map_get(em, "rc"@);
                    if g is Some && c is Some && as_u16(g->0) is Some && as_i32(c->0) is Some {
                        ErrorVerdict::V2(as_u16(g->0)->0, as_i32(c->0)->0)
                    } else {
                        ErrorVerdict::Malformed
                    }
                },
            },
            None => match spec_map_get(m, "rc"@) {
                None => ErrorVerdict::NoError,
                Some(rcv) => match as_i32(rcv) {
                    None => ErrorVerdict::Malformed,
                    Some(rc) => {
                        if rc == 0 {
                            ErrorVerdict::NoError
                        } else {
                            match spec_map_get(m, "rsn"@) {
                                None => ErrorVerdict::V1(rc, None),
                                Some(rsnv) => match as_text(rsnv) {
                                    Some(t) => ErrorVerdict::V1(rc, Some(t)),
                                    None => ErrorVerdict::Malformed,
                                },
                            }
                        }
                    },
                },
            },
        },
    }
}

/// Decodes the generic error envelope of a parsed response payload:
/// `Ok(None)` when the payload carries no error, `Ok(Some(_))` when the
/// device reported one, `Err(())` when the envelope is malformed.
pub fn decode_error_envelope(v: &CborValue) -> (r: Result<Option<crate::errors::DeviceError>, ()>)
    ensures
        ({
            match spec_error_verdict(v@) {
                ErrorVerdict::Malformed => r is Err,
                ErrorVerdict::NoError => r == Result::<
                    Option<crate::errors::DeviceError>,
                    (),
                >::Ok(None),
                ErrorVerdict::V2(g, c) => r matches Ok(Some(e)) && e matches
                    crate::errors::DeviceError::V2 { group, rc } && group == g && rc == c,
                ErrorVerdict::V1(c, t) => r matches Ok(Some(e)) && e matches
                    crate::errors::DeviceError::V1 { rc, rsn } && rc == c && (match t {
                    None => rsn is None,
                    Some(txt) => rsn is Some && rsn->0@ == txt,
                }),
            }
        }),
{
    if let Some(errv) = dict_get(v, "err") {
        let group = match dict_get(errv, "group") {
            Some(g) => match get_u16(g) {
                Some(g) => g,
                None => {
                    return Err(());
                },
            },
            None => {
                return Err(());
            },
        };
        let rc = match dict_get(errv, "rc") {
            Some(c) => match get_i32(c) {
                Some(c) => c,
                None => {
                    return Err(());
                },
            },
            None => {
                return Err(());
            },
        };
        return Ok(Some(crate::errors::DeviceError::V2 { group, rc }));
    }
    match v {
        CborValue::Dict(_) => {},
        _ => {
            return Err(());
        },
    }
    let rc = match dict_get(v, "rc") {
        Some(rcv) => match get_i32(rcv) {
            Some(rc) => rc,
            None => {
                return Err(());
            },
        },
        None => {
            return Ok(None);
        },
    };
    if rc == 0 {
        return Ok(None);
    }
    let rsn = match dict_get(v, "rsn") {
        Some(rsnv) => match get_text(rsnv) {
            Some(t) => Some(t),
            None => {
                return Err(());
            },
        },
        None => None,
    };
    Ok(Some(crate::errors::DeviceError::V1 { rc, rsn }))
}

/// The CBOR item of a signed 32-bit value.
pub open spec fn cbor_of_i32(rc: int) -> Cbor {
    if rc >= 0 {
        Cbor::UInt(rc as u64)
    } else {
        Cbor::NInt((-1 - rc) as u64)
    }
}

/// Error decoding: a response without a body carries no error; an `rc` of
/// zero carries no error; a nonzero `rc` is a version 1 error, with the
/// `rsn` text when present; an `err` map is a version 2 error. Each claim
/// covers the canonical wire bytes of the shape, which parse back to it.
#[verifier::rlimit(100)]
#[verifier::spinoff_prover]
pub proof fn lemma_error_decoding(rc: int, rsn: Seq<char>, group: u16, code: int)
    requires
        -0x8000_0000 <= rc < 0x8000_0000,
        -0x8000_0000 <= code < 0x8000_0000,
        vstd::utf8::encode_utf8(rsn).len() < 18446744073709551616,
    ensures
        ({
            let empty_map = Cbor::Dict(Seq::empty());
            spec_parse(spec_cbor(empty_map)) == Some((empty_map, spec_cbor(empty_map).len() as int))
                && spec_error_verdict(empty_map) == ErrorVerdict::NoError
        }),
        ({
            let rc_map = Cbor::Dict(seq![("rc"@, cbor_of_i32(rc))]);
            spec_parse(spec_cbor(rc_map)) == Some((rc_map, spec_cbor(rc_map).len() as int))
                && spec_error_verdict(rc_map) == (if rc == 0 {
                ErrorVerdict::NoError
            } else {
                ErrorVerdict::V1(rc as i32, None)
            })
        }),
        ({
            let rsn_map = Cbor::Dict(seq![("rc"@, cbor_of_i32(rc)), ("rsn"@, Cbor::Text(rsn))]);
            spec_parse(spec_cbor(rsn_map)) == Some((rsn_map, spec_cbor(rsn_map).len() as int))
                && spec_error_verdict(rsn_map) == (if rc == 0 {
                ErrorVerdict::NoError
            } else {
                ErrorVerdict::V1(rc as i32, Some(rsn))
            })
        }),
        ({
            let err_map = Cbor::Dict(
                seq![
                    (
                        "err"@,
                        Cbor::Dict(
                            seq![
                                ("group"@, Cbor::UInt(group as u64)),
                                ("rc"@, cbor_of_i32(code)),
                            ],
                        ),
                    ),
                ],
            );
            spec_parse(spec_cbor(err_map)) == Some((err_map, spec_cbor(err_map).len() as int))
                && spec_error_verdict(err_map) == ErrorVerdict::V2(group, code as i32)
        }),
{
    reveal_with_fuel(crate::cbor::spec_map_get, 4);
    reveal_strlit("rc");
    reveal_strlit("rsn");
    reveal_strlit("err");
    reveal_strlit("group");
    assert("rc"@.len() == 2 && "rsn"@.len() == 3 && "err"@.len() == 3 && "group"@.len() == 5);
    assert("rc"@ != "err"@ && "rsn"@ != "err"@ && "rsn"@ != "rc"@);
    assert("group"@ != "rc"@);

    let empty_map = Cbor::Dict(Seq::<(Seq<char>, Cbor)>::empty());
    assert(cbor_wf(empty_map));
    crate::cbor::lemma_parse_cbor(empty_map, Seq::empty());
    assert(spec_cbor(empty_map) + Seq::<u8>::empty() =~= spec_cbor(empty_map));
    assert(spec_map_get(Seq::<(Seq<char>, Cbor)>::empty(), "err"@) is None);
    assert(spec_error_verdict(empty_map) == ErrorVerdict::NoError);

    let rcv = cbor_of_i32(rc);
    assert(as_i32(rcv) == Some(rc as i32));
    let rc_entries = seq![("rc"@, rcv)];
    let rc_map = Cbor::Dict(rc_entries);
    assert(cbor_wf(rc_map)) by {
        assert(forall|i: int| 0 <= i < rc_entries.len() ==> cbor_wf(#[trigger] rc_entries[i].1));
        vstd::utf8::is_ascii_chars_encode_utf8("rc"@);
    }
    crate::cbor::lemma_parse_cbor(rc_map, Seq::empty());
    assert(spec_cbor(rc_map) + Seq::<u8>::empty() =~= spec_cbor(rc_map));
    assert(rc_entries.skip(1) =~= Seq::<(Seq<char>, Cbor)>::empty());
    assert(spec_map_get(rc_entries, "err"@) is None);
    assert(spec_map_get(rc_entries, "rc"@) == Some(rcv));
    assert(spec_map_get(rc_entries, "rsn"@) is None);

    let rsn_entries = seq![("rc"@, rcv), ("rsn"@, Cbor::Text(rsn))];
    let rsn_map = Cbor::Dict(rsn_entries);
    assert(cbor_wf(rsn_map)) by {
        assert(forall|i: int|
            0 <= i < rsn_entries.len() ==> cbor_wf(#[trigger] rsn_entries[i].1));
        vstd::utf8::is_ascii_chars_encode_utf8("rc"@);
        vstd::utf8::is_ascii_chars_encode_utf8("rsn"@);
        assert(vstd::utf8::encode_utf8(rsn_entries[0].0).len() < 18446744073709551616);
        assert(vstd::utf8::encode_utf8(rsn_entries[1].0).len() < 18446744073709551616);
    }
    crate::cbor::lemma_parse_cbor(rsn_map, Seq::empty());
    assert(spec_cbor(rsn_map) + Seq::<u8>::empty() =~= spec_cbor(rsn_map));
    assert(rsn_entries.skip(1) =~= seq![("rsn"@, Cbor::Text(rsn))]);
    assert(rsn_entries.skip(1).skip(1) =~= Seq::<(Seq<char>, Cbor)>::empty());
    assert(spec_map_get(rsn_entries, "err"@) is None);
    assert(spec_map_get(rsn_entries, "rc"@) == Some(rcv));
    assert(spec_map_get(rsn_entries, "rsn"@) == Some(Cbor::Text(rsn)));

    let codev = cbor_of_i32(code);
    assert(as_i32(codev) == Some(code as i32));
    let inner = seq![("group"@, Cbor::UInt(group as u64)), ("rc"@, codev)];
    let err_entries = seq![("err"@, Cbor::Dict(inner))];
    let err_map = Cbor::Dict(err_entries);
    assert(cbor_wf(err_map)) by {
        vstd::utf8::is_ascii_chars_encode_utf8("err"@);
        vstd::utf8::is_ascii_chars_encode_utf8("group"@);
        vstd::utf8::is_ascii_chars_encode_utf8("rc"@);
        assert(vstd::utf8::encode_utf8(inner[0].0).len() < 18446744073709551616);
        assert(vstd::utf8::encode_utf8(inner[1].0).len() < 18446744073709551616);
        assert(vstd::utf8::encode_utf8(err_entries[0].0).len() < 18446744073709551616);
        assert(forall|i: int| 0 <= i < inner.len() ==> cbor_wf(#[trigger] inner[i].1));
        assert(cbor_wf(Cbor::Dict(inner)));
        assert(forall|i: int|
            0 <= i < err_entries.len() ==> cbor_wf(#[trigger] err_entries[i].1));
    }
    crate::cbor::lemma_parse_cbor(err_map, Seq::empty());
    assert(spec_cbor(err_map) + Seq::<u8>::empty() =~= spec_cbor(err_map));
    assert(spec_map_get(err_entries, "err"@) == Some(Cbor::Dict(inner)));
    assert(inner.skip(1) =~= seq![("rc"@, codev)]);
    assert(spec_map_get(inner, "group"@) == Some(Cbor::UInt(group as u64)));
    assert(spec_map_get(inner, "rc"@) == Some(codev));
    assert(as_u16(Cbor::UInt(group as u64)) == Some(group));
    assert(spec_error_verdict(err_map) == ErrorVerdict::V2(group, code as i32));
}

} // verus!
