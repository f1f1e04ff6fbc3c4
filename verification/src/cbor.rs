//! The CBOR subset that SMP bodies use: definite-length unsigned and negative
//! integers, byte strings, UTF-8 text strings, booleans, arrays, and maps
//! keyed by text strings, all with minimal-length (canonical) headers.

use vstd::prelude::*;
use vstd::utf8::{decode_utf8, encode_utf8, valid_utf8};

verus! {

/// The mathematical model of a CBOR data item.
pub enum Cbor {
    /// An unsigned integer (major type 0).
    UInt(u64),
    /// A negative integer (major type 1): `NInt(n)` denotes `-1 - n`.
    NInt(u64),
    /// A byte string (major type 2).
    Bytes(Seq<u8>),
    /// A text string (major type 3).
    Text(Seq<char>),
    /// A boolean (major type 7, simple values 20 and 21).
    Bool(bool),
    /// An array (major type 4).
    Array(Seq<Cbor>),
    /// A map with text keys (major type 5).
    Dict(Seq<(Seq<char>, Cbor)>),
}

/// A CBOR data item.
pub enum CborValue {
    /// An unsigned integer (major type 0).
    UInt(u64),
    /// A negative integer (major type 1): `NInt(n)` denotes `-1 - n`.
    NInt(u64),
    /// A byte string (major type 2).
    Bytes(Vec<u8>),
    /// A text string (major type 3).
    Text(String),
    /// A boolean (major type 7, simple values 20 and 21).
    Bool(bool),
    /// An array (major type 4).
    Array(Vec<CborValue>),
    /// A map with text keys (major type 5).
    Dict(Vec<(String, CborValue)>),
}

/// The model of a CBOR data item.
pub open spec fn spec_view(v: CborValue) -> Cbor
    decreases v, 0int,
    via spec_view_dec
{
    match v {
        CborValue::UInt(n) => Cbor::UInt(n),
        CborValue::NInt(n) => Cbor::NInt(n),
        CborValue::Bytes(b) => Cbor::Bytes(b@),
        CborValue::Text(s) => Cbor::Text(s@),
        CborValue::Bool(b) => Cbor::Bool(b),
        CborValue::Array(a) => Cbor::Array(spec_view_seq(a@)),
        CborValue::Dict(m) => Cbor::Dict(spec_view_entries(m@)),
    }
}

/// The models of the items of an array.
pub open spec fn spec_view_seq(a: Seq<CborValue>) -> Seq<Cbor>
    decreases a, 1int,
{
    if a.len() == 0 {
        Seq::empty()
    } else {
        seq![spec_view(a[0])] + spec_view_seq(a.subrange(1, a.len() as int))
    }
}

/// The models of the entries of a map.
pub open spec fn spec_view_entries(m: Seq<(String, CborValue)>) -> Seq<(Seq<char>, Cbor)>
    decreases m, 1int,
{
    if m.len() == 0 {
        Seq::empty()
    } else {
        seq![(m[0].0@, spec_view(m[0].1))] + spec_view_entries(m.subrange(1, m.len() as int))
    }
}

#[via_fn]
proof fn spec_view_dec(v: CborValue) {
    match v {
        CborValue::Array(a) => {
            assert(decreases_to!(v => a));
            assert(decreases_to!(a => a@));
        },
        CborValue::Dict(m) => {
            assert(decreases_to!(v => m));
            assert(decreases_to!(m => m@));
        },
        _ => {},
    }
}

/// The item models of an array, taken one by one.
pub proof fn lemma_view_seq_index(a: Seq<CborValue>)
    ensures
        spec_view_seq(a).len() == a.len(),
        forall|i: int| 0 <= i < a.len() ==> spec_view_seq(a)[i] == spec_view(a[i]),
    decreases a.len(),
{
    if a.len() != 0 {
        lemma_view_seq_index(a.subrange(1, a.len() as int));
    }
}

/// The entry models of a map, taken one by one.
pub proof fn lemma_view_entries_index(m: Seq<(String, CborValue)>)
    ensures
        spec_view_entries(m).len() == m.len(),
        forall|i: int|
            0 <= i < m.len() ==> spec_view_entries(m)[i] == (m[i].0@, spec_view(m[i].1)),
    decreases m.len(),
{
    if m.len() != 0 {
        lemma_view_entries_index(m.subrange(1, m.len() as int));
    }
}

impl View for CborValue {
    type V = Cbor;

    open spec fn view(&self) -> Cbor {
        spec_view(*self)
    }
}

/// The canonical CBOR header for major type `major` and argument `arg`:
/// the shortest of the five definite-length forms that holds `arg`.
pub open spec fn cbor_hdr(major: u8, arg: u64) -> Seq<u8>
    recommends
        major < 8,
{
    if arg < 24 {
        seq![(major * 32 + arg) as u8]
    } else if arg < 256 {
        seq![(major * 32 + 24) as u8, arg as u8]
    } else if arg < 65536 {
        seq![(major * 32 + 25) as u8, (arg / 256) as u8, (arg % 256) as u8]
    } else if arg < 4294967296 {
        seq![
            (major * 32 + 26) as u8,
            ((arg / 16777216) % 256) as u8,
            ((arg / 65536) % 256) as u8,
            ((arg / 256) % 256) as u8,
            (arg % 256) as u8,
        ]
    } else {
        seq![
            (major * 32 + 27) as u8,
            ((arg / 72057594037927936) % 256) as u8,
            ((arg / 281474976710656) % 256) as u8,
            ((arg / 1099511627776) % 256) as u8,
            ((arg / 4294967296) % 256) as u8,
            ((arg / 16777216) % 256) as u8,
            ((arg / 65536) % 256) as u8,
            ((arg / 256) % 256) as u8,
            (arg % 256) as u8,
        ]
    }
}

/// The canonical encoding of a CBOR data item.
pub open spec fn spec_cbor(v: Cbor) -> Seq<u8>
    decreases v, 0int,
{
    match v {
        Cbor::UInt(n) => cbor_hdr(0, n),
        Cbor::NInt(n) => cbor_hdr(1, n),
        Cbor::Bytes(b) => cbor_hdr(2, b.len() as u64) + b,
        Cbor::Text(t) => cbor_hdr(3, encode_utf8(t).len() as u64) + encode_utf8(t),
        Cbor::Bool(b) => seq![if b { 0xf5u8 } else { 0xf4u8 }],
        Cbor::Array(a) => cbor_hdr(4, a.len() as u64) + spec_cbor_seq(a),
        Cbor::Dict(m) => cbor_hdr(5, m.len() as u64) + spec_cbor_entries(m),
    }
}

/// The concatenated encodings of the items of an array.
pub open spec fn spec_cbor_seq(a: Seq<Cbor>) -> Seq<u8>
    decreases a, 1int,
{
    if a.len() == 0 {
        Seq::empty()
    } else {
        spec_cbor(a[0]) + spec_cbor_seq(a.subrange(1, a.len() as int))
    }
}

/// The concatenated key and value encodings of the entries of a map.
pub open spec fn spec_cbor_entries(m: Seq<(Seq<char>, Cbor)>) -> Seq<u8>
    decreases m, 1int,
{
    if m.len() == 0 {
        Seq::empty()
    } else {
        spec_cbor_text(m[0].0) + spec_cbor(m[0].1) + spec_cbor_entries(
            m.subrange(1, m.len() as int),
        )
    }
}

/// The canonical encoding of a text string.
pub open spec fn spec_cbor_text(t: Seq<char>) -> Seq<u8> {
    cbor_hdr(3, encode_utf8(t).len() as u64) + encode_utf8(t)
}

/// Appending an item extends the array encoding by that item's encoding.
pub proof fn lemma_cbor_seq_push(a: Seq<Cbor>, x: Cbor)
    ensures
        spec_cbor_seq(a.push(x)) == spec_cbor_seq(a) + spec_cbor(x),
    decreases a.len(),
{
    if a.len() == 0 {
        assert(a.push(x)[0] == x);
        assert(a.push(x).subrange(1, a.push(x).len() as int) =~= Seq::<Cbor>::empty());
        assert(spec_cbor_seq(Seq::<Cbor>::empty()) == Seq::<u8>::empty());
        assert(spec_cbor_seq(a.push(x)) =~= spec_cbor_seq(a) + spec_cbor(x));
    } else {
        assert(a.push(x)[0] == a[0]);
        assert(a.push(x).subrange(1, a.push(x).len() as int) =~= a.subrange(
            1,
            a.len() as int,
        ).push(x));
        lemma_cbor_seq_push(a.subrange(1, a.len() as int), x);
        assert(spec_cbor_seq(a.push(x)) =~= spec_cbor_seq(a) + spec_cbor(x));
    }
}

/// Appending an entry extends the map encoding by that entry's encoding.
pub proof fn lemma_cbor_entries_push(m: Seq<(Seq<char>, Cbor)>, k: Seq<char>, x: Cbor)
    ensures
        spec_cbor_entries(m.push((k, x))) == spec_cbor_entries(m) + spec_cbor_text(k) + spec_cbor(
            x,
        ),
    decreases m.len(),
{
    if m.len() == 0 {
        assert(m.push((k, x))[0] == (k, x));
        assert(m.push((k, x)).subrange(1, m.push((k, x)).len() as int) =~= Seq::<
            (Seq<char>, Cbor),
        >::empty());
        assert(spec_cbor_entries(Seq::<(Seq<char>, Cbor)>::empty()) == Seq::<u8>::empty());
        assert(spec_cbor_entries(m.push((k, x))) =~= spec_cbor_entries(m) + spec_cbor_text(k)
            + spec_cbor(x));
    } else {
        assert(m.push((k, x))[0] == m[0]);
        assert(m.push((k, x)).subrange(1, m.push((k, x)).len() as int) =~= m.subrange(
            1,
            m.len() as int,
        ).push((k, x)));
        lemma_cbor_entries_push(m.subrange(1, m.len() as int), k, x);
        assert(spec_cbor_entries(m.push((k, x))) =~= spec_cbor_entries(m) + spec_cbor_text(k)
            + spec_cbor(x));
    }
}

/// Appends the canonical CBOR header for `major` and `arg`.
pub fn push_hdr(out: &mut Vec<u8>, major: u8, arg: u64)
    requires
        major < 8,
    ensures
        final(out)@ == old(out)@ + cbor_hdr(major, arg),
{
    let base: u8 = major * 32;
    if arg < 24 {
        out.push(base + arg as u8);
    } else if arg < 256 {
        out.push(base + 24);
        out.push(arg as u8);
    } else if arg < 65536 {
        out.push(base + 25);
        out.push((arg / 256) as u8);
        out.push((arg % 256) as u8);
    } else if arg < 4294967296 {
        out.push(base + 26);
        out.push(((arg / 16777216) % 256) as u8);
        out.push(((arg / 65536) % 256) as u8);
        out.push(((arg / 256) % 256) as u8);
        out.push((arg % 256) as u8);
    } else {
        out.push(base + 27);
        out.push(((arg / 72057594037927936) % 256) as u8);
        out.push(((arg / 281474976710656) % 256) as u8);
        out.push(((arg / 1099511627776) % 256) as u8);
        out.push(((arg / 4294967296) % 256) as u8);
        out.push(((arg / 16777216) % 256) as u8);
        out.push(((arg / 65536) % 256) as u8);
        out.push(((arg / 256) % 256) as u8);
        out.push((arg % 256) as u8);
    }
    proof {
        assert(final(out)@ =~= old(out)@ + cbor_hdr(major, arg));
    }
}

/// Appends the canonical encoding of `v`.
pub fn encode_cbor_into(v: &CborValue, out: &mut Vec<u8>)
    ensures
        final(out)@ == old(out)@ + spec_cbor(v@),
    decreases *v,
{
    match v {
        CborValue::UInt(n) => {
            push_hdr(out, 0, *n);
        },
        CborValue::NInt(n) => {
            push_hdr(out, 1, *n);
        },
        CborValue::Bytes(b) => {
            push_hdr(out, 2, b.len() as u64);
            out.extend_from_slice(b.as_slice());
        },
        CborValue::Text(s) => {
            let bytes = s.as_str().as_bytes();
            push_hdr(out, 3, bytes.len() as u64);
            out.extend_from_slice(bytes);
        },
        CborValue::Bool(b) => {
            if *b {
                out.push(0xf5);
            } else {
                out.push(0xf4);
            }
        },
        CborValue::Array(a) => {
            push_hdr(out, 4, a.len() as u64);
            let ghost base = out@;
            let ghost av = spec_view_seq(a@);
            proof {
                lemma_view_seq_index(a@);
            }
            let mut i: usize = 0;
            while i < a.len()
                invariant
                    *v == CborValue::Array(*a),
                    i <= a@.len(),
                    av == spec_view_seq(a@),
                    av.len() == a@.len(),
                    forall|k: int| 0 <= k < a@.len() ==> av[k] == spec_view(a@[k]),
                    out@ == base + spec_cbor_seq(av.take(i as int)),
                decreases a@.len() - i,
            {
                proof {
                    assert(*v is Array);
                    assert(decreases_to!(*v => v->Array_0));
                    assert(v->Array_0 == *a);
                    assert(decreases_to!(*a => a@));
                    assert(decreases_to!(a@ => a@[i as int]));
                }
                encode_cbor_into(&a[i], out);
                proof {
                    lemma_cbor_seq_push(av.take(i as int), spec_view(a@[i as int]));
                    assert(av.take(i as int).push(av[i as int]) =~= av.take(i as int + 1));
                }
                i = i + 1;
            }
            proof {
                assert(av.take(av.len() as int) =~= av);
            }
        },
        CborValue::Dict(m) => {
            push_hdr(out, 5, m.len() as u64);
            let ghost base = out@;
            let ghost mv = spec_view_entries(m@);
            proof {
                lemma_view_entries_index(m@);
            }
            let mut i: usize = 0;
            while i < m.len()
                invariant
                    *v == CborValue::Dict(*m),
                    i <= m@.len(),
                    mv == spec_view_entries(m@),
                    mv.len() == m@.len(),
                    forall|k: int|
                        0 <= k < m@.len() ==> mv[k] == (m@[k].0@, spec_view(m@[k].1)),
                    out@ == base + spec_cbor_entries(mv.take(i as int)),
                decreases m@.len() - i,
            {
                let entry = &m[i];
                let bytes = entry.0.as_str().as_bytes();
                push_hdr(out, 3, bytes.len() as u64);
                out.extend_from_slice(bytes);
                proof {
                    assert(*v is Dict);
                    assert(decreases_to!(*v => v->Dict_0));
                    assert(v->Dict_0 == *m);
                    assert(decreases_to!(*m => m@));
                    assert(decreases_to!(m@ => m@[i as int]));
                    assert(decreases_to!(m@[i as int] => m@[i as int].1));
                }
                encode_cbor_into(&entry.1, out);
                proof {
                    lemma_cbor_entries_push(
                        mv.take(i as int),
                        m@[i as int].0@,
                        spec_view(m@[i as int].1),
                    );
                    assert(mv.take(i as int).push((m@[i as int].0@, spec_view(m@[i as int].1)))
                        =~= mv.take(i as int + 1));
                }
                i = i + 1;
            }
            proof {
                assert(mv.take(mv.len() as int) =~= mv);
            }
        },
    }
}

/// The canonical encoding of `v` as a fresh vector.
pub fn encode_cbor(v: &CborValue) -> (r: Vec<u8>)
    ensures
        r@ == spec_cbor(v@),
{
    let mut out: Vec<u8> = Vec::new();
    encode_cbor_into(v, &mut out);
    out
}

/// Relies on `core::str::from_utf8`: it succeeds exactly on valid UTF-8 and
/// returns the string those bytes encode.
#[verifier::external_body]
fn bytes_as_str(v: &[u8]) -> (r: Option<&str>)
    ensures
        r is Some <==> valid_utf8(v@),
        r is Some ==> r->0@ == decode_utf8(v@) && encode_utf8(r->0@) == v@,
{
    core::str::from_utf8(v).ok()
}

/// Parses the header at the start of `s`: major type, argument, header
/// length. Only the canonical (minimal-length) argument forms are accepted.
pub open spec fn spec_parse_hdr(s: Seq<u8>) -> Option<(int, int, int)> {
    if s.len() == 0 {
        None
    } else {
        let major = (s[0] as int) / 32;
        let info = (s[0] as int) % 32;
        if info < 24 {
            Some((major, info, 1))
        } else if info == 24 {
            if s.len() >= 2 && s[1] >= 24 {
                Some((major, s[1] as int, 2))
            } else {
                None
            }
        } else if info == 25 {
            if s.len() >= 3 && (s[1] as int) * 256 + (s[2] as int) >= 256 {
                Some((major, (s[1] as int) * 256 + (s[2] as int), 3))
            } else {
                None
            }
        } else if info == 26 {
            let arg = (s[1] as int) * 16777216 + (s[2] as int) * 65536 + (s[3] as int) * 256 + (
            s[4] as int);
            if s.len() >= 5 && arg >= 65536 {
                Some((major, arg, 5))
            } else {
                None
            }
        } else if info == 27 {
            let arg = (s[1] as int) * 72057594037927936 + (s[2] as int) * 281474976710656 + (
            s[3] as int) * 1099511627776 + (s[4] as int) * 4294967296 + (s[5] as int) * 16777216
                + (s[6] as int) * 65536 + (s[7] as int) * 256 + (s[8] as int);
            if s.len() >= 9 && arg >= 4294967296 {
                Some((major, arg, 9))
            } else {
                None
            }
        } else {
            None
        }
    }
}

/// Parses one data item at the start of `s`: the item and the number of
/// bytes it occupies. Accepts exactly the canonical encodings of the
/// modelled subset.
pub open spec fn spec_parse(s: Seq<u8>) -> Option<(Cbor, int)>
    decreases s.len(), 0int,
{
    match spec_parse_hdr(s) {
        None => None,
        Some((major, arg, h)) => {
            if major == 0 {
                Some((Cbor::UInt(arg as u64), h))
            } else if major == 1 {
                Some((Cbor::NInt(arg as u64), h))
            } else if major == 2 {
                if h + arg <= s.len() {
                    Some((Cbor::Bytes(s.subrange(h, h + arg)), h + arg))
                } else {
                    None
                }
            } else if major == 3 {
                if h + arg <= s.len() {
                    let b = s.subrange(h, h + arg);
                    if valid_utf8(b) {
                        Some((Cbor::Text(decode_utf8(b)), h + arg))
                    } else {
                        None
                    }
                } else {
                    None
                }
            } else if major == 4 {
                if h >= 1 {
                    match spec_parse_list(s.skip(h), arg) {
                        Some((items, k)) => Some((Cbor::Array(items), h + k)),
                        None => None,
                    }
                } else {
                    None
                }
            } else if major == 5 {
                if h >= 1 {
                    match spec_parse_entries(s.skip(h), arg) {
                        Some((entries, k)) => Some((Cbor::Dict(entries), h + k)),
                        None => None,
                    }
                } else {
                    None
                }
            } else if major == 7 {
                if s[0] == 0xf4 {
                    Some((Cbor::Bool(false), 1))
                } else if s[0] == 0xf5 {
                    Some((Cbor::Bool(true), 1))
                } else {
                    None
                }
            } else {
                None
            }
        },
    }
}

/// Parses `n` consecutive data items at the start of `s`.
pub open spec fn spec_parse_list(s: Seq<u8>, n: int) -> Option<(Seq<Cbor>, int)>
    decreases s.len(), 1int,
{
    if n < 0 {
        None
    } else if n == 0 {
        Some((Seq::empty(), 0))
    } else {
        match spec_parse(s) {
            None => None,
            Some((v, k)) => {
                if k < 1 || k > s.len() {
                    None
                } else {
                    match spec_parse_list(s.skip(k), n - 1) {
                        None => None,
                        Some((vs, k2)) => Some((seq![v] + vs, k + k2)),
                    }
                }
            },
        }
    }
}

/// Parses `n` consecutive key/value pairs (text keys) at the start of `s`.
pub open spec fn spec_parse_entries(s: Seq<u8>, n: int) -> Option<(Seq<(Seq<char>, Cbor)>, int)>
    decreases s.len(), 1int,
{
    if n < 0 {
        None
    } else if n == 0 {
        Some((Seq::empty(), 0))
    } else {
        match spec_parse(s) {
            Some((Cbor::Text(t), k)) => {
                if k < 1 || k > s.len() {
                    None
                } else {
                    match spec_parse(s.skip(k)) {
                        None => None,
                        Some((v, k2)) => {
                            if k2 < 1 || k + k2 > s.len() {
                                None
                            } else {
                                match spec_parse_entries(s.skip(k + k2), n - 1) {
                                    None => None,
                                    Some((es, k3)) => Some((seq![(t, v)] + es, k + k2 + k3)),
                                }
                            }
                        },
                    }
                }
            },
            _ => None,
        }
    }
}

/// Parses the canonical header at `s[pos..]`.
fn parse_hdr(s: &[u8], pos: usize) -> (r: Option<(u8, u64, usize)>)
    requires
        pos <= s@.len(),
    ensures
        ({
            let sp = spec_parse_hdr(s@.skip(pos as int));
            match sp {
                None => r is None,
                Some((major, arg, h)) => {
                    &&& r is Some
                    &&& (r->0).0 as int == major
                    &&& (r->0).1 as int == arg
                    &&& (r->0).2 as int == h
                    &&& pos + h <= s@.len()
                },
            }
        }),
{
    let n = s.len();
    if pos >= n {
        return None;
    }
    let b0 = s[pos];
    let major = b0 / 32;
    let info = b0 % 32;
    if info < 24 {
        Some((major, info as u64, 1))
    } else if info == 24 {
        if n - pos >= 2 && s[pos + 1] >= 24 {
            Some((major, s[pos + 1] as u64, 2))
        } else {
            None
        }
    } else if info == 25 {
        if n - pos >= 3 {
            let arg = (s[pos + 1] as u64) * 256 + (s[pos + 2] as u64);
            if arg >= 256 {
                Some((major, arg, 3))
            } else {
                None
            }
        } else {
            None
        }
    } else if info == 26 {
        if n - pos >= 5 {
            let arg = (s[pos + 1] as u64) * 16777216 + (s[pos + 2] as u64) * 65536 + (s[pos
                + 3] as u64) * 256 + (s[pos + 4] as u64);
            if arg >= 65536 {
                Some((major, arg, 5))
            } else {
                None
            }
        } else {
            None
        }
    } else if info == 27 {
        if n - pos >= 9 {
            let arg = (s[pos + 1] as u64) * 72057594037927936 + (s[pos + 2] as u64)
                * 281474976710656 + (s[pos + 3] as u64) * 1099511627776 + (s[pos + 4] as u64)
                * 4294967296 + (s[pos + 5] as u64) * 16777216 + (s[pos + 6] as u64) * 65536 + (
            s[pos + 7] as u64) * 256 + (s[pos + 8] as u64);
            if arg >= 4294967296 {
                Some((major, arg, 9))
            } else {
                None
            }
        } else {
            None
        }
    } else {
        None
    }
}

/// Parses one data item at `s[pos..]`, returning it and the position just
/// after it.
pub fn parse_cbor_at(s: &[u8], pos: usize) -> (r: Option<(CborValue, usize)>)
    requires
        pos <= s@.len(),
    ensures
        ({
            let sp = spec_parse(s@.skip(pos as int));
            match sp {
                None => r is None,
                Some((v, k)) => {
                    &&& r is Some
                    &&& (r->0).0@ == v
                    &&& (r->0).1 as int == pos + k
                    &&& pos < (r->0).1 <= s@.len()
                },
            }
        }),
    decreases s@.len() - pos,
{
    let ghost sp0 = s@.skip(pos as int);
    let slen = s.len();
    let hdr = match parse_hdr(s, pos) {
        Some(hdr) => hdr,
        None => {
            return None;
        },
    };
    let (major, arg, h) = hdr;
    let after = pos + h;
    proof {
        assert(s@.skip(pos as int).skip(h as int) =~= s@.skip(after as int));
    }
    if major == 0 {
        Some((CborValue::UInt(arg), after))
    } else if major == 1 {
        Some((CborValue::NInt(arg), after))
    } else if major == 2 {
        if arg <= (s.len() - after) as u64 {
            let alen = arg as usize;
            let bytes = crate::framing::copy_range(s, after, after + alen);
            proof {
                assert(s@.subrange(after as int, after as int + alen) =~= sp0.subrange(
                    h as int,
                    h as int + alen,
                ));
            }
            Some((CborValue::Bytes(bytes), after + alen))
        } else {
            None
        }
    } else if major == 3 {
        if arg <= (s.len() - after) as u64 {
            let alen = arg as usize;
            let bytes = crate::framing::copy_range(s, after, after + alen);
            proof {
                assert(s@.subrange(after as int, after as int + alen) =~= sp0.subrange(
                    h as int,
                    h as int + alen,
                ));
            }
            match bytes_as_str(bytes.as_slice()) {
                Some(text) => Some((CborValue::Text(String::from_str(text)), after + alen)),
                None => None,
            }
        } else {
            None
        }
    } else if major == 4 {
        let mut items: Vec<CborValue> = Vec::new();
        let mut p = after;
        let mut cnt: u64 = 0;
        let ghost sp_rest = s@.skip(after as int);
        proof {
            assert(spec_parse(sp0) == (match spec_parse_list(sp_rest, arg as int) {
                Some((vs, k)) => Some((Cbor::Array(vs), h + k)),
                None => None,
            }));
        }
        while cnt < arg
            invariant
                spec_parse(sp0) == (match spec_parse_list(sp_rest, arg as int) {
                    Some((vs, k)) => Some((Cbor::Array(vs), h as int + k)),
                    None => None,
                }),
                sp0 == s@.skip(pos as int),
                after == pos + h,
                pos < after <= p <= s@.len(),
                cnt <= arg,
                sp_rest == s@.skip(after as int),
                spec_view_seq(items@).len() == items@.len() == cnt,
                ({
                    let full = spec_parse_list(sp_rest, arg as int);
                    let rest = spec_parse_list(s@.skip(p as int), arg as int - cnt as int);
                    match rest {
                        None => full is None,
                        Some((vs, k)) => full == Some(
                            (spec_view_seq(items@) + vs, (p - after) + k),
                        ),
                    }
                }),
            decreases arg - cnt,
        {
            let ghost rest_pre = s@.skip(p as int);
            let item = match parse_cbor_at(s, p) {
                Some(item) => item,
                None => {
                    return None;
                },
            };
            let ghost k_item = item.1 as int - p as int;
            proof {
                assert(rest_pre.skip(k_item) =~= s@.skip(item.1 as int));
                lemma_view_seq_push(items@, item.0);
            }
            items.push(item.0);
            p = item.1;
            cnt = cnt + 1;
        }
        proof {
            assert(spec_parse_list(s@.skip(p as int), 0) == Some((Seq::<Cbor>::empty(), 0int)));
            assert(spec_view_seq(items@) + Seq::<Cbor>::empty() =~= spec_view_seq(items@));
        }
        Some((CborValue::Array(items), p))
    } else if major == 5 {
        let mut entries: Vec<(String, CborValue)> = Vec::new();
        let mut p = after;
        let mut cnt: u64 = 0;
        let ghost sp_rest = s@.skip(after as int);
        proof {
            assert(spec_parse(sp0) == (match spec_parse_entries(sp_rest, arg as int) {
                Some((es, k)) => Some((Cbor::Dict(es), h + k)),
                None => None,
            }));
        }
        while cnt < arg
            invariant
                spec_parse(sp0) == (match spec_parse_entries(sp_rest, arg as int) {
                    Some((es, k)) => Some((Cbor::Dict(es), h as int + k)),
                    None => None,
                }),
                sp0 == s@.skip(pos as int),
                after == pos + h,
                pos < after <= p <= s@.len(),
                cnt <= arg,
                sp_rest == s@.skip(after as int),
                spec_view_entries(entries@).len() == entries@.len() == cnt,
                ({
                    let full = spec_parse_entries(sp_rest, arg as int);
                    let rest = spec_parse_entries(s@.skip(p as int), arg as int - cnt as int);
                    match rest {
                        None => full is None,
                        Some((es, k)) => full == Some(
                            (spec_view_entries(entries@) + es, (p - after) + k),
                        ),
                    }
                }),
            decreases arg - cnt,
        {
            let ghost rest_pre = s@.skip(p as int);
            let key_item = match parse_cbor_at(s, p) {
                Some(item) => item,
                None => {
                    return None;
                },
            };
            let key = match key_item.0 {
                CborValue::Text(key) => key,
                _ => {
                    return None;
                },
            };
            let ghost k1 = key_item.1 as int - p as int;
            proof {
                assert(rest_pre.skip(k1) =~= s@.skip(key_item.1 as int));
            }
            let val_item = match parse_cbor_at(s, key_item.1) {
                Some(item) => item,
                None => {
                    return None;
                },
            };
            let ghost k2 = val_item.1 as int - key_item.1 as int;
            proof {
                assert(rest_pre.skip(k1 + k2) =~= s@.skip(val_item.1 as int));
                lemma_view_entries_push(entries@, key, val_item.0);
            }
            entries.push((key, val_item.0));
            p = val_item.1;
            cnt = cnt + 1;
        }
        proof {
            assert(spec_parse_entries(s@.skip(p as int), 0) == Some(
                (Seq::<(Seq<char>, Cbor)>::empty(), 0int),
            ));
            assert(spec_view_entries(entries@) + Seq::<(Seq<char>, Cbor)>::empty()
                =~= spec_view_entries(entries@));
        }
        Some((CborValue::Dict(entries), p))
    } else if major == 7 {
        proof {
            assert(sp0[0] == s@[pos as int]);
        }
        let b0 = s[pos];
        if b0 == 0xf4 {
            Some((CborValue::Bool(false), after))
        } else if b0 == 0xf5 {
            Some((CborValue::Bool(true), after))
        } else {
            None
        }
    } else {
        None
    }
}

/// Appending an item extends the item models by its model.
pub proof fn lemma_view_seq_push(a: Seq<CborValue>, x: CborValue)
    ensures
        spec_view_seq(a.push(x)) == spec_view_seq(a) + seq![spec_view(x)],
    decreases a.len(),
{
    if a.len() == 0 {
        assert(a.push(x)[0] == x);
        assert(a.push(x).subrange(1, a.push(x).len() as int) =~= Seq::<CborValue>::empty());
        assert(spec_view_seq(Seq::<CborValue>::empty()) == Seq::<Cbor>::empty());
        assert(spec_view_seq(a.push(x)) =~= spec_view_seq(a) + seq![spec_view(x)]);
    } else {
        assert(a.push(x)[0] == a[0]);
        assert(a.push(x).subrange(1, a.push(x).len() as int) =~= a.subrange(
            1,
            a.len() as int,
        ).push(x));
        lemma_view_seq_push(a.subrange(1, a.len() as int), x);
        assert(spec_view_seq(a.push(x)) =~= spec_view_seq(a) + seq![spec_view(x)]);
    }
}

/// Appending an entry extends the entry models by its model.
pub proof fn lemma_view_entries_push(m: Seq<(String, CborValue)>, k: String, x: CborValue)
    ensures
        spec_view_entries(m.push((k, x))) == spec_view_entries(m) + seq![(k@, spec_view(x))],
    decreases m.len(),
{
    if m.len() == 0 {
        assert(m.push((k, x))[0] == (k, x));
        assert(m.push((k, x)).subrange(1, m.push((k, x)).len() as int) =~= Seq::<
            (String, CborValue),
        >::empty());
        assert(spec_view_entries(Seq::<(String, CborValue)>::empty()) == Seq::<
            (Seq<char>, Cbor),
        >::empty());
        assert(spec_view_entries(m.push((k, x))) =~= spec_view_entries(m) + seq![
            (k@, spec_view(x)),
        ]);
    } else {
        assert(m.push((k, x))[0] == m[0]);
        assert(m.push((k, x)).subrange(1, m.push((k, x)).len() as int) =~= m.subrange(
            1,
            m.len() as int,
        ).push((k, x)));
        lemma_view_entries_push(m.subrange(1, m.len() as int), k, x);
        assert(spec_view_entries(m.push((k, x))) =~= spec_view_entries(m) + seq![
            (k@, spec_view(x)),
        ]);
    }
}

/// A model value whose sizes all fit the wire's 64-bit length fields;
/// every value built by this library's encoder satisfies it.
pub open spec fn cbor_wf(v: Cbor) -> bool
    decreases v,
{
    match v {
        Cbor::UInt(_) => true,
        Cbor::NInt(_) => true,
        Cbor::Bool(_) => true,
        Cbor::Bytes(b) => b.len() < 18446744073709551616,
        Cbor::Text(t) => encode_utf8(t).len() < 18446744073709551616,
        Cbor::Array(a) => a.len() < 18446744073709551616 && (forall|i: int|
            0 <= i < a.len() ==> cbor_wf(#[trigger] a[i])),
        Cbor::Dict(m) => m.len() < 18446744073709551616 && (forall|i: int|
            0 <= i < m.len() ==> cbor_wf(#[trigger] m[i].1) && encode_utf8(m[i].0).len()
                < 18446744073709551616),
    }
}

/// Every encoding is at least one byte long.
pub proof fn lemma_cbor_len(v: Cbor)
    ensures
        spec_cbor(v).len() >= 1,
{
}

/// A 16-bit value is recovered from its two big-endian bytes.
proof fn lemma_digits16(arg: u64)
    requires
        arg < 65536,
    ensures
        ((arg / 256) as u8 as int) * 256 + ((arg % 256) as u8 as int) == arg as int,
{
    assert(((arg / 256) as u8 as u64) * 256 + ((arg % 256) as u8 as u64) == arg) by (bit_vector)
        requires
            arg < 65536,
    ;
}

/// A 32-bit value is recovered from its four big-endian bytes.
proof fn lemma_digits32(arg: u64)
    requires
        arg < 4294967296,
    ensures
        (((arg / 16777216) % 256) as u8 as int) * 16777216 + (((arg / 65536) % 256) as u8 as int)
            * 65536 + (((arg / 256) % 256) as u8 as int) * 256 + ((arg % 256) as u8 as int)
            == arg as int,
{
    assert((((arg / 16777216) % 256) as u8 as u64) * 16777216 + (((arg / 65536)
        % 256) as u8 as u64) * 65536 + (((arg / 256) % 256) as u8 as u64) * 256 + ((arg
        % 256) as u8 as u64) == arg) by (bit_vector)
        requires
            arg < 4294967296,
    ;
}

/// A 64-bit value is recovered from its eight big-endian bytes.
proof fn lemma_digits64(arg: u64)
    ensures
        (((arg / 72057594037927936) % 256) as u8 as int) * 72057594037927936 + (((arg
            / 281474976710656) % 256) as u8 as int) * 281474976710656 + (((arg / 1099511627776)
            % 256) as u8 as int) * 1099511627776 + (((arg / 4294967296) % 256) as u8 as int)
            * 4294967296 + (((arg / 16777216) % 256) as u8 as int) * 16777216 + (((arg / 65536)
            % 256) as u8 as int) * 65536 + (((arg / 256) % 256) as u8 as int) * 256 + ((arg
            % 256) as u8 as int) == arg as int,
{
    assert((((arg / 72057594037927936) % 256) as u8 as u64) * 72057594037927936 + (((arg
        / 281474976710656) % 256) as u8 as u64) * 281474976710656 + (((arg / 1099511627776)
        % 256) as u8 as u64) * 1099511627776 + (((arg / 4294967296) % 256) as u8 as u64)
        * 4294967296 + (((arg / 16777216) % 256) as u8 as u64) * 16777216 + (((arg / 65536)
        % 256) as u8 as u64) * 65536 + (((arg / 256) % 256) as u8 as u64) * 256 + ((arg
        % 256) as u8 as u64) == arg) by (bit_vector);
}

/// The first header byte splits back into its major type and argument info.
proof fn lemma_major_info(major: u8, info: u8)
    requires
        major < 8,
        info < 32,
    ensures
        ((major * 32 + info) as int) / 32 == major as int,
        ((major * 32 + info) as int) % 32 == info as int,
{
    assert((major * 32 + info) / 32 == major && (major * 32 + info) % 32 == info) by (bit_vector)
        requires
            major < 8 && info < 32,
    ;
}

/// The header encoding parses back to its major type and argument.
#[verifier::rlimit(100)]
#[verifier::spinoff_prover]
proof fn lemma_hdr_roundtrip(major: u8, arg: u64, rest: Seq<u8>)
    requires
        major < 8,
    ensures
        spec_parse_hdr(cbor_hdr(major, arg) + rest) == Some(
            (major as int, arg as int, cbor_hdr(major, arg).len() as int),
        ),
{
    let s = cbor_hdr(major, arg) + rest;
    if arg < 24 {
        assert(s[0] == (major * 32 + arg) as u8);
        lemma_major_info(major, arg as u8);
    } else if arg < 256 {
        assert(s[0] == (major * 32 + 24) as u8 && s[1] == arg as u8);
        lemma_major_info(major, 24);
    } else if arg < 65536 {
        assert(s[0] == (major * 32 + 25) as u8 && s[1] == (arg / 256) as u8 && s[2] == (arg
            % 256) as u8);
        lemma_major_info(major, 25);
        lemma_digits16(arg);
    } else if arg < 4294967296 {
        lemma_major_info(major, 26);
        lemma_digits32(arg);
    } else {
        lemma_major_info(major, 27);
        lemma_digits64(arg);
    }
}

/// Parsing inverts encoding: the canonical encoding of a well-formed value,
/// followed by anything, parses to that value.
#[verifier::rlimit(100)]
#[verifier::spinoff_prover]
pub proof fn lemma_parse_cbor(v: Cbor, rest: Seq<u8>)
    requires
        cbor_wf(v),
    ensures
        spec_parse(spec_cbor(v) + rest) == Some((v, spec_cbor(v).len() as int)),
    decreases v, 0int,
{
    broadcast use vstd::utf8::encode_utf8_valid_utf8, vstd::utf8::encode_utf8_decode_utf8;

    let s = spec_cbor(v) + rest;
    match v {
        Cbor::UInt(n) => {
            lemma_hdr_roundtrip(0, n, rest);
        },
        Cbor::NInt(n) => {
            lemma_hdr_roundtrip(1, n, rest);
        },
        Cbor::Bool(b) => {
            assert(s[0] == if b {
                0xf5u8
            } else {
                0xf4u8
            });
        },
        Cbor::Bytes(b) => {
            let hdr = cbor_hdr(2, b.len() as u64);
            lemma_hdr_roundtrip(2, b.len() as u64, b + rest);
            assert(hdr + (b + rest) =~= s);
            assert(s.subrange(hdr.len() as int, hdr.len() as int + b.len() as int) =~= b);
        },
        Cbor::Text(t) => {
            let b = encode_utf8(t);
            let hdr = cbor_hdr(3, b.len() as u64);
            lemma_hdr_roundtrip(3, b.len() as u64, b + rest);
            assert(hdr + (b + rest) =~= s);
            assert(s.subrange(hdr.len() as int, hdr.len() as int + b.len() as int) =~= b);
            assert(valid_utf8(b));
            assert(decode_utf8(b) == t);
        },
        Cbor::Array(a) => {
            let hdr = cbor_hdr(4, a.len() as u64);
            let body = spec_cbor_seq(a);
            lemma_hdr_roundtrip(4, a.len() as u64, body + rest);
            assert(hdr + (body + rest) =~= s);
            assert(s.skip(hdr.len() as int) =~= body + rest);
            lemma_parse_seq(a, rest);
        },
        Cbor::Dict(m) => {
            let hdr = cbor_hdr(5, m.len() as u64);
            let body = spec_cbor_entries(m);
            lemma_hdr_roundtrip(5, m.len() as u64, body + rest);
            assert(hdr + (body + rest) =~= s);
            assert(s.skip(hdr.len() as int) =~= body + rest);
            lemma_parse_dict(m, rest);
        },
    }
}

/// Parsing inverts the encoding of a run of array items.
#[verifier::rlimit(100)]
#[verifier::spinoff_prover]
proof fn lemma_parse_seq(a: Seq<Cbor>, rest: Seq<u8>)
    requires
        forall|i: int| 0 <= i < a.len() ==> cbor_wf(#[trigger] a[i]),
    ensures
        spec_parse_list(spec_cbor_seq(a) + rest, a.len() as int) == Some(
            (a, spec_cbor_seq(a).len() as int),
        ),
    decreases a, 1int,
{
    let s = spec_cbor_seq(a) + rest;
    if a.len() == 0 {
        assert(spec_cbor_seq(a) == Seq::<u8>::empty());
        assert(spec_parse_list(s, 0) == Some((Seq::<Cbor>::empty(), 0int)));
        assert(a =~= Seq::<Cbor>::empty());
    } else {
        let head = a[0];
        let tail = a.subrange(1, a.len() as int);
        let e0 = spec_cbor(head);
        let etail = spec_cbor_seq(tail);
        assert(spec_cbor_seq(a) == e0 + etail);
        assert(e0 + (etail + rest) =~= s);
        lemma_parse_cbor(head, etail + rest);
        lemma_cbor_len(head);
        assert(s.skip(e0.len() as int) =~= etail + rest);
        lemma_parse_seq(tail, rest);
        assert(seq![head] + tail =~= a);
    }
}

/// Parsing inverts the encoding of a run of map entries.
#[verifier::rlimit(100)]
#[verifier::spinoff_prover]
proof fn lemma_parse_dict(m: Seq<(Seq<char>, Cbor)>, rest: Seq<u8>)
    requires
        forall|i: int|
            0 <= i < m.len() ==> cbor_wf(#[trigger] m[i].1) && encode_utf8(m[i].0).len()
                < 18446744073709551616,
    ensures
        spec_parse_entries(spec_cbor_entries(m) + rest, m.len() as int) == Some(
            (m, spec_cbor_entries(m).len() as int),
        ),
    decreases m, 1int,
{
    broadcast use vstd::utf8::encode_utf8_valid_utf8, vstd::utf8::encode_utf8_decode_utf8;

    let s = spec_cbor_entries(m) + rest;
    if m.len() == 0 {
        assert(spec_cbor_entries(m) == Seq::<u8>::empty());
        assert(spec_parse_entries(s, 0) == Some((Seq::<(Seq<char>, Cbor)>::empty(), 0int)));
        assert(m =~= Seq::<(Seq<char>, Cbor)>::empty());
    } else {
        let key = m[0].0;
        let val = m[0].1;
        let tail = m.subrange(1, m.len() as int);
        let ek = spec_cbor_text(key);
        let ev = spec_cbor(val);
        let etail = spec_cbor_entries(tail);
        assert(spec_cbor_entries(m) == ek + ev + etail);
        assert(ek == spec_cbor(Cbor::Text(key)));
        assert(ek + (ev + (etail + rest)) =~= s);
        let kb = encode_utf8(key);
        let khdr = cbor_hdr(3, kb.len() as u64);
        lemma_hdr_roundtrip(3, kb.len() as u64, kb + (ev + (etail + rest)));
        assert(khdr + (kb + (ev + (etail + rest))) =~= s);
        assert(s.subrange(khdr.len() as int, khdr.len() as int + kb.len() as int) =~= kb);
        assert(valid_utf8(kb));
        assert(decode_utf8(kb) == key);
        assert(spec_parse(s) == Some((Cbor::Text(key), ek.len() as int)));
        lemma_cbor_len(Cbor::Text(key));
        assert(s.skip(ek.len() as int) =~= ev + (etail + rest));
        lemma_parse_cbor(val, etail + rest);
        lemma_cbor_len(val);
        assert(s.skip(ek.len() as int).skip(ev.len() as int) =~= etail + rest);
        assert(s.skip(ek.len() as int + ev.len() as int) =~= etail + rest);
        lemma_parse_dict(tail, rest);
        assert(seq![(key, val)] + tail =~= m);
    }
}

/// The value under the first entry of `m` whose key is `key`.
pub open spec fn spec_map_get(m: Seq<(Seq<char>, Cbor)>, key: Seq<char>) -> Option<Cbor>
    decreases m.len(),
{
    if m.len() == 0 {
        None
    } else if m[0].0 == key {
        Some(m[0].1)
    } else {
        spec_map_get(m.skip(1), key)
    }
}

/// Compares two strings by their bytes.
pub fn str_eq(a: &str, b: &str) -> (r: bool)
    ensures
        r == (a@ == b@),
{
    broadcast use vstd::utf8::encode_utf8_decode_utf8;

    let ab = a.as_bytes();
    let bb = b.as_bytes();
    if ab.len() != bb.len() {
        return false;
    }
    let mut i: usize = 0;
    while i < ab.len()
        invariant
            i <= ab@.len() == bb@.len(),
            ab@ == encode_utf8(a@),
            bb@ == encode_utf8(b@),
            forall|j: int| 0 <= j < i ==> ab@[j] == bb@[j],
        decreases ab@.len() - i,
    {
        if ab[i] != bb[i] {
            return false;
        }
        i = i + 1;
    }
    proof {
        assert(ab@ =~= bb@);
        assert(decode_utf8(encode_utf8(a@)) == a@);
        assert(decode_utf8(encode_utf8(b@)) == b@);
    }
    true
}

/// Looks up the first entry of `m` with the given key.
pub fn map_get<'a>(m: &'a Vec<(String, CborValue)>, key: &str) -> (r: Option<&'a CborValue>)
    ensures
        ({
            let sg = spec_map_get(spec_view_entries(m@), key@);
            match sg {
                None => r is None,
                Some(c) => r is Some && r->0@ == c,
            }
        }),
{
    let ghost es = spec_view_entries(m@);
    proof {
        lemma_view_entries_index(m@);
        assert(es.skip(0) =~= es);
    }
    let mut i: usize = 0;
    while i < m.len()
        invariant
            i <= m@.len(),
            es == spec_view_entries(m@),
            es.len() == m@.len(),
            forall|k: int| 0 <= k < m@.len() ==> es[k] == (m@[k].0@, spec_view(m@[k].1)),
            spec_map_get(es, key@) == spec_map_get(es.skip(i as int), key@),
        decreases m@.len() - i,
    {
        let entry = &m[i];
        if str_eq(entry.0.as_str(), key) {
            proof {
                assert(es.skip(i as int)[0] == es[i as int]);
            }
            return Some(&entry.1);
        }
        proof {
            assert(es.skip(i as int)[0] == es[i as int]);
            assert(es.skip(i as int).skip(1) =~= es.skip(i as int + 1));
        }
        i = i + 1;
    }
    proof {
        assert(es.skip(m@.len() as int) =~= Seq::<(Seq<char>, Cbor)>::empty());
    }
    None
}

/// Builds a CBOR map value field by field, in insertion order.
pub struct MapBuilder {
    /// The entries pushed so far.
    pub entries: Vec<(String, CborValue)>,
}

impl MapBuilder {
    /// An empty map.
    pub fn new() -> (r: MapBuilder)
        ensures
            spec_view_entries(r.entries@) == Seq::<(Seq<char>, Cbor)>::empty(),
    {
        let r = MapBuilder { entries: Vec::new() };
        proof {
            assert(spec_view_entries(r.entries@) == Seq::<(Seq<char>, Cbor)>::empty());
        }
        r
    }

    /// Appends one entry.
    pub fn field(&mut self, key: &str, v: CborValue)
        ensures
            spec_view_entries(final(self).entries@) == spec_view_entries(
                old(self).entries@,
            ).push((key@, spec_view(v))),
    {
        let owned = String::from_str(key);
        proof {
            lemma_view_entries_push(self.entries@, owned, v);
            assert(spec_view_entries(self.entries@) + seq![(owned@, spec_view(v))]
                =~= spec_view_entries(self.entries@).push((key@, spec_view(v))));
        }
        self.entries.push((owned, v));
    }

    /// The finished map value.
    pub fn build(self) -> (r: CborValue)
        ensures
            r@ == Cbor::Dict(spec_view_entries(self.entries@)),
    {
        CborValue::Dict(self.entries)
    }
}

/// Parses a byte sequence that holds exactly one data item.
pub fn parse_cbor(s: &[u8]) -> (r: Option<CborValue>)
    ensures
        ({
            let sp = spec_parse(s@);
            match sp {
                Some((v, k)) => {
                    if k == s@.len() {
                        r is Some && r->0@ == v
                    } else {
                        r is None
                    }
                },
                None => r is None,
            }
        }),
{
    proof {
        assert(s@.skip(0) =~= s@);
    }
    match parse_cbor_at(s, 0) {
        Some((v, end)) => {
            if end == s.len() {
                Some(v)
            } else {
                None
            }
        },
        None => None,
    }
}

} // verus!
