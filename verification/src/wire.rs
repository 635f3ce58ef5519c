//! Byte-level primitives of the wire format: big-endian integers and
//! length-prefixed UTF-8 strings.
//!
//! Every field of the framing is written through one of the `push_*`
//! functions and read back through the matching `parse_*` function. Each
//! parser is specified against a spec-level parser over `Seq<u8>`, and for
//! each encoder a lemma shows that the spec parser inverts it exactly.

use vstd::prelude::*;
use vstd::slice::{slice_index_get, slice_subrange};
use vstd::utf8::{decode_utf8, encode_utf8, valid_utf8};

verus! {

// ---------------------------------------------------------------------------
// Big-endian u32
// ---------------------------------------------------------------------------

/// The four bytes of `v`, most significant first.
pub open spec fn be_u32_bytes(v: u32) -> Seq<u8> {
    seq![
        ((v >> 24) & 0xFF) as u8,
        ((v >> 16) & 0xFF) as u8,
        ((v >> 8) & 0xFF) as u8,
        (v & 0xFF) as u8,
    ]
}

/// The value read from four bytes, most significant first.
pub open spec fn be_u32_value(b: Seq<u8>) -> u32
    recommends
        b.len() == 4,
{
    ((b[0] as u32) << 24) | ((b[1] as u32) << 16) | ((b[2] as u32) << 8) | (b[3] as u32)
}

pub proof fn lemma_be_u32_round_trip(v: u32)
    ensures
        be_u32_bytes(v).len() == 4,
        be_u32_value(be_u32_bytes(v)) == v,
{
    assert(((((v >> 24) & 0xFF) as u8 as u32) << 24) | ((((v >> 16) & 0xFF) as u8 as u32) << 16)
        | ((((v >> 8) & 0xFF) as u8 as u32) << 8) | ((v & 0xFF) as u8 as u32) == v)
        by (bit_vector);
}

/// Appends the big-endian bytes of `v` to `out`.
pub fn push_be_u32(out: &mut Vec<u8>, v: u32)
    ensures
        final(out)@ == old(out)@ + be_u32_bytes(v),
{
    proof {
        assert((v >> 24) & 0xFF < 256 && (v >> 16) & 0xFF < 256 && (v >> 8) & 0xFF < 256 && v
            & 0xFF < 256) by (bit_vector);
    }
    out.push(((v >> 24) & 0xFF) as u8);
    out.push(((v >> 16) & 0xFF) as u8);
    out.push(((v >> 8) & 0xFF) as u8);
    out.push((v & 0xFF) as u8);
    assert(out@ =~= old(out)@ + be_u32_bytes(v));
}

/// The spec-level parser of a big-endian u32: the value and the remainder,
/// or `None` when fewer than four bytes are buffered.
pub open spec fn spec_parse_u32(b: Seq<u8>) -> Option<(u32, Seq<u8>)> {
    if b.len() < 4 {
        None
    } else {
        Some((be_u32_value(b.take(4)), b.skip(4)))
    }
}

/// Reads a big-endian u32 from the front of `b`.
pub fn parse_be_u32<'a>(b: &'a [u8]) -> (r: Option<(u32, &'a [u8])>)
    ensures
        r is Some <==> spec_parse_u32(b@) is Some,
        r is Some ==> (r->0).0 == (spec_parse_u32(b@)->0).0,
        r is Some ==> (r->0).1@ == (spec_parse_u32(b@)->0).1,
{
    if b.len() < 4 {
        return None;
    }
    let b0 = *slice_index_get(b, 0);
    let b1 = *slice_index_get(b, 1);
    let b2 = *slice_index_get(b, 2);
    let b3 = *slice_index_get(b, 3);
    let v = ((b0 as u32) << 24) | ((b1 as u32) << 16) | ((b2 as u32) << 8) | (b3 as u32);
    let rest = slice_subrange(b, 4, b.len());
    proof {
        let t = b@.take(4);
        assert(t[0] == b@[0] && t[1] == b@[1] && t[2] == b@[2] && t[3] == b@[3]);
    }
    Some((v, rest))
}

// ---------------------------------------------------------------------------
// Big-endian u64
// ---------------------------------------------------------------------------

/// The eight bytes of `v`, most significant first.
pub open spec fn be_u64_bytes(v: u64) -> Seq<u8> {
    seq![
        ((v >> 56) & 0xFF) as u8,
        ((v >> 48) & 0xFF) as u8,
        ((v >> 40) & 0xFF) as u8,
        ((v >> 32) & 0xFF) as u8,
        ((v >> 24) & 0xFF) as u8,
        ((v >> 16) & 0xFF) as u8,
        ((v >> 8) & 0xFF) as u8,
        (v & 0xFF) as u8,
    ]
}

/// The value read from eight bytes, most significant first.
pub open spec fn be_u64_value(b: Seq<u8>) -> u64
    recommends
        b.len() == 8,
{
    ((b[0] as u64) << 56) | ((b[1] as u64) << 48) | ((b[2] as u64) << 40) | ((b[3] as u64) << 32)
        | ((b[4] as u64) << 24) | ((b[5] as u64) << 16) | ((b[6] as u64) << 8) | (b[7] as u64)
}

pub proof fn lemma_be_u64_round_trip(v: u64)
    ensures
        be_u64_bytes(v).len() == 8,
        be_u64_value(be_u64_bytes(v)) == v,
{
    assert(((((v >> 56) & 0xFF) as u8 as u64) << 56) | ((((v >> 48) & 0xFF) as u8 as u64) << 48)
        | ((((v >> 40) & 0xFF) as u8 as u64) << 40) | ((((v >> 32) & 0xFF) as u8 as u64) << 32)
        | ((((v >> 24) & 0xFF) as u8 as u64) << 24) | ((((v >> 16) & 0xFF) as u8 as u64) << 16)
        | ((((v >> 8) & 0xFF) as u8 as u64) << 8) | ((v & 0xFF) as u8 as u64) == v)
        by (bit_vector);
}

/// Appends the big-endian bytes of `v` to `out`.
pub fn push_be_u64(out: &mut Vec<u8>, v: u64)
    ensures
        final(out)@ == old(out)@ + be_u64_bytes(v),
{
    proof {
        assert((v >> 56) & 0xFF < 256 && (v >> 48) & 0xFF < 256 && (v >> 40) & 0xFF < 256 && (v
            >> 32) & 0xFF < 256 && (v >> 24) & 0xFF < 256 && (v >> 16) & 0xFF < 256 && (v >> 8)
            & 0xFF < 256 && v & 0xFF < 256) by (bit_vector);
    }
    out.push(((v >> 56) & 0xFF) as u8);
    out.push(((v >> 48) & 0xFF) as u8);
    out.push(((v >> 40) & 0xFF) as u8);
    out.push(((v >> 32) & 0xFF) as u8);
    out.push(((v >> 24) & 0xFF) as u8);
    out.push(((v >> 16) & 0xFF) as u8);
    out.push(((v >> 8) & 0xFF) as u8);
    out.push((v & 0xFF) as u8);
    assert(out@ =~= old(out)@ + be_u64_bytes(v));
}

/// The spec-level parser of a big-endian u64.
pub open spec fn spec_parse_u64(b: Seq<u8>) -> Option<(u64, Seq<u8>)> {
    if b.len() < 8 {
        None
    } else {
        Some((be_u64_value(b.take(8)), b.skip(8)))
    }
}

/// Reads a big-endian u64 from the front of `b`.
pub fn parse_be_u64<'a>(b: &'a [u8]) -> (r: Option<(u64, &'a [u8])>)
    ensures
        r is Some <==> spec_parse_u64(b@) is Some,
        r is Some ==> (r->0).0 == (spec_parse_u64(b@)->0).0,
        r is Some ==> (r->0).1@ == (spec_parse_u64(b@)->0).1,
{
    if b.len() < 8 {
        return None;
    }
    let b0 = *slice_index_get(b, 0);
    let b1 = *slice_index_get(b, 1);
    let b2 = *slice_index_get(b, 2);
    let b3 = *slice_index_get(b, 3);
    let b4 = *slice_index_get(b, 4);
    let b5 = *slice_index_get(b, 5);
    let b6 = *slice_index_get(b, 6);
    let b7 = *slice_index_get(b, 7);
    let v = ((b0 as u64) << 56) | ((b1 as u64) << 48) | ((b2 as u64) << 40) | ((b3 as u64) << 32)
        | ((b4 as u64) << 24) | ((b5 as u64) << 16) | ((b6 as u64) << 8) | (b7 as u64);
    let rest = slice_subrange(b, 8, b.len());
    proof {
        let t = b@.take(8);
        assert(t[0] == b@[0] && t[1] == b@[1] && t[2] == b@[2] && t[3] == b@[3] && t[4] == b@[4]
            && t[5] == b@[5] && t[6] == b@[6] && t[7] == b@[7]);
    }
    Some((v, rest))
}

// ---------------------------------------------------------------------------
// Length-prefixed UTF-8 strings
// ---------------------------------------------------------------------------

/// A string can be put on the wire when its UTF-8 encoding fits the 4-byte
/// length prefix.
pub open spec fn str_encodable(s: Seq<char>) -> bool {
    encode_utf8(s).len() < 0x1_0000_0000
}

/// The wire form of a string: a big-endian byte count, then the UTF-8 bytes.
pub open spec fn str_bytes(s: Seq<char>) -> Seq<u8> {
    be_u32_bytes(encode_utf8(s).len() as u32) + encode_utf8(s)
}

/// The spec-level parser of a length-prefixed string. Fails on a short
/// buffer and on bytes that are not valid UTF-8.
pub open spec fn spec_parse_string(b: Seq<u8>) -> Option<(Seq<char>, Seq<u8>)> {
    match spec_parse_u32(b) {
        None => None,
        Some((n, rest)) => {
            if rest.len() < n {
                None
            } else {
                let sb = rest.take(n as int);
                if valid_utf8(sb) {
                    Some((decode_utf8(sb), rest.skip(n as int)))
                } else {
                    None
                }
            }
        },
    }
}

/// Relies on str::from_utf8: it succeeds exactly on valid UTF-8 input, and
/// the returned string slice views exactly the given bytes.
#[verifier::external_body]
fn str_from_utf8<'a>(v: &'a [u8]) -> (r: Option<&'a str>)
    ensures
        r is Some <==> valid_utf8(v@),
        r is Some ==> encode_utf8((r->0)@) == v@,
{
    core::str::from_utf8(v).ok()
}

/// Appends the wire form of `s` to `out`.
pub fn push_string(out: &mut Vec<u8>, s: &str)
    requires
        str_encodable(s@),
    ensures
        final(out)@ == old(out)@ + str_bytes(s@),
{
    let mut bytes = s.as_bytes_vec();
    push_be_u32(out, bytes.len() as u32);
    out.append(&mut bytes);
    assert(out@ =~= old(out)@ + str_bytes(s@));
}

/// Reads a length-prefixed string from the front of `b`.
pub fn parse_string<'a>(b: &'a [u8]) -> (r: Option<(String, &'a [u8])>)
    ensures
        r is Some <==> spec_parse_string(b@) is Some,
        r is Some ==> (r->0).0@ == (spec_parse_string(b@)->0).0,
        r is Some ==> (r->0).1@ == (spec_parse_string(b@)->0).1,
{
    match parse_be_u32(b) {
        None => None,
        Some((n, rest)) => {
            let nu = n as usize;
            if rest.len() < nu {
                None
            } else {
                let sb = slice_subrange(rest, 0, nu);
                match str_from_utf8(sb) {
                    None => None,
                    Some(st) => {
                        let s = st.to_owned();
                        let remain = slice_subrange(rest, nu, rest.len());
                        proof {
                            vstd::utf8::encode_utf8_decode_utf8(st@);
                        }
                        Some((s, remain))
                    },
                }
            }
        },
    }
}

// ---------------------------------------------------------------------------
// Inversion lemmas: parsing what was pushed gives the value back
// ---------------------------------------------------------------------------

pub proof fn lemma_parse_u32_of_bytes(v: u32, rest: Seq<u8>)
    ensures
        spec_parse_u32(be_u32_bytes(v) + rest) is Some,
        (spec_parse_u32(be_u32_bytes(v) + rest)->0).0 == v,
        (spec_parse_u32(be_u32_bytes(v) + rest)->0).1 == rest,
{
    lemma_be_u32_round_trip(v);
    assert((be_u32_bytes(v) + rest).take(4) =~= be_u32_bytes(v));
    assert((be_u32_bytes(v) + rest).skip(4) =~= rest);
}

pub proof fn lemma_parse_u64_of_bytes(v: u64, rest: Seq<u8>)
    ensures
        spec_parse_u64(be_u64_bytes(v) + rest) is Some,
        (spec_parse_u64(be_u64_bytes(v) + rest)->0).0 == v,
        (spec_parse_u64(be_u64_bytes(v) + rest)->0).1 == rest,
{
    lemma_be_u64_round_trip(v);
    assert((be_u64_bytes(v) + rest).take(8) =~= be_u64_bytes(v));
    assert((be_u64_bytes(v) + rest).skip(8) =~= rest);
}

/// The UTF-8 encoding takes at most four bytes per character, so any
/// string of fewer than a quarter of the prefix's range is encodable.
pub proof fn lemma_str_encodable_of_len(s: Seq<char>)
    ensures
        encode_utf8(s).len() <= 4 * s.len(),
        s.len() < 0x4000_0000 ==> str_encodable(s),
    decreases s.len(),
{
    if s.len() > 0 {
        lemma_str_encodable_of_len(s.drop_first());
    }
}

pub proof fn lemma_parse_string_of_bytes(s: Seq<char>, rest: Seq<u8>)
    requires
        str_encodable(s),
    ensures
        spec_parse_string(str_bytes(s) + rest) is Some,
        (spec_parse_string(str_bytes(s) + rest)->0).0 == s,
        (spec_parse_string(str_bytes(s) + rest)->0).1 == rest,
{
    let sb = encode_utf8(s);
    let n = sb.len() as u32;
    assert(str_bytes(s) + rest =~= be_u32_bytes(n) + (sb + rest));
    lemma_parse_u32_of_bytes(n, sb + rest);
    assert((sb + rest).take(n as int) =~= sb);
    assert((sb + rest).skip(n as int) =~= rest);
    vstd::utf8::encode_utf8_valid_utf8(s);
    vstd::utf8::encode_utf8_decode_utf8(s);
}

} // verus!
