//! Byte-level building blocks of the wire format: fixed-width little-endian
//! integers, one-byte booleans and length-prefixed UTF-8 text.
//!
//! Every encoder has a decoder that consumes exactly what the encoder wrote
//! and hands back the bytes that follow, so encodings can be chained.

use vstd::prelude::*;
use vstd::bytes::*;
use vstd::slice::slice_subrange;
use vstd::utf8::*;

verus! {

/// Encoding of a `u32`: four bytes, least significant first.
pub open spec fn enc_u32(v: u32) -> Seq<u8> {
    spec_u32_to_le_bytes(v)
}

/// Encoding of a `u64`: eight bytes, least significant first.
pub open spec fn enc_u64(v: u64) -> Seq<u8> {
    spec_u64_to_le_bytes(v)
}

/// Encoding of an `i64`: its two's complement bit pattern as a `u64`.
pub open spec fn enc_i64(v: i64) -> Seq<u8> {
    spec_u64_to_le_bytes(v as u64)
}

/// Encoding of an index or count: always eight bytes, whatever the width of `usize`.
pub open spec fn enc_usize(v: usize) -> Seq<u8> {
    spec_u64_to_le_bytes(v as u64)
}

/// Encoding of a `bool`: one byte, `1` for true and `0` for false.
pub open spec fn enc_bool(v: bool) -> Seq<u8> {
    seq![if v { 1u8 } else { 0u8 }]
}

/// Whether a text is short enough for its byte length to be written as a `u64`.
pub open spec fn text_fits(s: Seq<char>) -> bool {
    encode_utf8(s).len() <= u64::MAX
}

/// Encoding of a text: the length of its UTF-8 form as a `u64`, then the UTF-8 bytes.
pub open spec fn enc_text(s: Seq<char>) -> Seq<u8> {
    spec_u64_to_le_bytes(encode_utf8(s).len() as u64) + encode_utf8(s)
}

/// Reads a `u32` from the front of `s`; `None` if fewer than four bytes are left.
pub open spec fn dec_u32(s: Seq<u8>) -> Option<(u32, Seq<u8>)> {
    if s.len() >= 4 {
        Some((spec_u32_from_le_bytes(s.take(4)), s.skip(4)))
    } else {
        None
    }
}

/// Reads a `u64` from the front of `s`; `None` if fewer than eight bytes are left.
pub open spec fn dec_u64(s: Seq<u8>) -> Option<(u64, Seq<u8>)> {
    if s.len() >= 8 {
        Some((spec_u64_from_le_bytes(s.take(8)), s.skip(8)))
    } else {
        None
    }
}

/// Reads an `i64` from the front of `s`; `None` if fewer than eight bytes are left.
pub open spec fn dec_i64(s: Seq<u8>) -> Option<(i64, Seq<u8>)> {
    if s.len() >= 8 {
        Some((spec_u64_from_le_bytes(s.take(8)) as i64, s.skip(8)))
    } else {
        None
    }
}

/// Reads an index from the front of `s`; `None` if fewer than eight bytes are
/// left or the number does not fit in `usize`.
pub open spec fn dec_usize(s: Seq<u8>) -> Option<(usize, Seq<u8>)> {
    if s.len() >= 8 && spec_u64_from_le_bytes(s.take(8)) <= usize::MAX {
        Some((spec_u64_from_le_bytes(s.take(8)) as usize, s.skip(8)))
    } else {
        None
    }
}

/// Reads a `bool` from the front of `s`; `None` if `s` is empty or its first
/// byte is neither `0` nor `1`.
pub open spec fn dec_bool(s: Seq<u8>) -> Option<(bool, Seq<u8>)> {
    if s.len() >= 1 && s[0] <= 1 {
        Some((s[0] == 1, s.skip(1)))
    } else {
        None
    }
}

/// Reads a text from the front of `s`; `None` if the length is incomplete,
/// promises more bytes than are left, or the bytes are not UTF-8.
pub open spec fn dec_text(s: Seq<u8>) -> Option<(Seq<char>, Seq<u8>)> {
    match dec_u64(s) {
        Some((n, rest)) => if n <= rest.len() && valid_utf8(rest.take(n as int)) {
            Some((decode_utf8(rest.take(n as int)), rest.skip(n as int)))
        } else {
            None
        },
        None => None,
    }
}

/// A decoder that is given an encoded `u32` followed by `rest` returns the number and `rest`.
pub broadcast proof fn lemma_dec_enc_u32(v: u32, rest: Seq<u8>)
    ensures
        #[trigger] dec_u32(enc_u32(v) + rest) == Some((v, rest)),
{
    lemma_auto_spec_u32_to_from_le_bytes();
    let s = enc_u32(v) + rest;
    assert(s.take(4) =~= enc_u32(v));
    assert(s.skip(4) =~= rest);
}

/// A decoder that is given an encoded `u64` followed by `rest` returns the number and `rest`.
pub broadcast proof fn lemma_dec_enc_u64(v: u64, rest: Seq<u8>)
    ensures
        #[trigger] dec_u64(enc_u64(v) + rest) == Some((v, rest)),
{
    lemma_auto_spec_u64_to_from_le_bytes();
    let s = enc_u64(v) + rest;
    assert(s.take(8) =~= enc_u64(v));
    assert(s.skip(8) =~= rest);
}

/// A decoder that is given an encoded `i64` followed by `rest` returns the number and `rest`.
pub broadcast proof fn lemma_dec_enc_i64(v: i64, rest: Seq<u8>)
    ensures
        #[trigger] dec_i64(enc_i64(v) + rest) == Some((v, rest)),
{
    lemma_auto_spec_u64_to_from_le_bytes();
    let s = enc_i64(v) + rest;
    assert(s.take(8) =~= enc_i64(v));
    assert(s.skip(8) =~= rest);
    assert((v as u64) as i64 == v) by (bit_vector);
}

/// A decoder that is given an encoded index followed by `rest` returns the index and `rest`.
pub broadcast proof fn lemma_dec_enc_usize(v: usize, rest: Seq<u8>)
    ensures
        #[trigger] dec_usize(enc_usize(v) + rest) == Some((v, rest)),
{
    lemma_auto_spec_u64_to_from_le_bytes();
    let s = enc_usize(v) + rest;
    assert(s.take(8) =~= enc_usize(v));
    assert(s.skip(8) =~= rest);
}

/// A decoder that is given an encoded `bool` followed by `rest` returns the value and `rest`.
pub broadcast proof fn lemma_dec_enc_bool(v: bool, rest: Seq<u8>)
    ensures
        #[trigger] dec_bool(enc_bool(v) + rest) == Some((v, rest)),
{
    let s = enc_bool(v) + rest;
    assert(s.skip(1) =~= rest);
}

/// A decoder that is given an encoded text followed by `rest` returns the text and `rest`.
pub broadcast proof fn lemma_dec_enc_text(t: Seq<char>, rest: Seq<u8>)
    requires
        text_fits(t),
    ensures
        #[trigger] dec_text(enc_text(t) + rest) == Some((t, rest)),
{
    let body = encode_utf8(t);
    let n = body.len() as u64;
    let s = enc_text(t) + rest;
    assert(s =~= enc_u64(n) + (body + rest));
    lemma_dec_enc_u64(n, body + rest);
    assert((body + rest).take(n as int) =~= body);
    assert((body + rest).skip(n as int) =~= rest);
    encode_utf8_valid_utf8(t);
    encode_utf8_decode_utf8(t);
}

/// Whatever `dec_u32` reads, the input was its encoding followed by what is left.
pub broadcast proof fn lemma_enc_dec_u32(s: Seq<u8>)
    ensures
        #[trigger] dec_u32(s) matches Some((v, rest)) ==> s == enc_u32(v) + rest,
{
    if s.len() >= 4 {
        lemma_auto_spec_u32_to_from_le_bytes();
        assert(s.take(4).len() == 4);
        assert(s =~= s.take(4) + s.skip(4));
    }
}

/// Whatever `dec_u64` reads, the input was its encoding followed by what is left.
pub broadcast proof fn lemma_enc_dec_u64(s: Seq<u8>)
    ensures
        #[trigger] dec_u64(s) matches Some((v, rest)) ==> s == enc_u64(v) + rest,
{
    if s.len() >= 8 {
        lemma_auto_spec_u64_to_from_le_bytes();
        assert(s.take(8).len() == 8);
        assert(s =~= s.take(8) + s.skip(8));
    }
}

/// Whatever `dec_i64` reads, the input was its encoding followed by what is left.
pub broadcast proof fn lemma_enc_dec_i64(s: Seq<u8>)
    ensures
        #[trigger] dec_i64(s) matches Some((v, rest)) ==> s == enc_i64(v) + rest,
{
    if s.len() >= 8 {
        lemma_auto_spec_u64_to_from_le_bytes();
        let u = spec_u64_from_le_bytes(s.take(8));
        assert(s.take(8).len() == 8);
        assert((u as i64) as u64 == u) by (bit_vector);
        assert(s =~= s.take(8) + s.skip(8));
    }
}

/// Whatever `dec_usize` reads, the input was its encoding followed by what is left.
pub broadcast proof fn lemma_enc_dec_usize(s: Seq<u8>)
    ensures
        #[trigger] dec_usize(s) matches Some((v, rest)) ==> s == enc_usize(v) + rest,
{
    if s.len() >= 8 {
        lemma_auto_spec_u64_to_from_le_bytes();
        assert(s.take(8).len() == 8);
        assert(s =~= s.take(8) + s.skip(8));
    }
}

/// Whatever `dec_bool` reads, the input was its encoding followed by what is left.
pub broadcast proof fn lemma_enc_dec_bool(s: Seq<u8>)
    ensures
        #[trigger] dec_bool(s) matches Some((v, rest)) ==> s == enc_bool(v) + rest,
{
    if s.len() >= 1 && s[0] <= 1 {
        assert(s =~= enc_bool(s[0] == 1) + s.skip(1));
    }
}

/// Whatever `dec_text` reads, the input was its encoding followed by what is left.
pub broadcast proof fn lemma_enc_dec_text(s: Seq<u8>)
    ensures
        #[trigger] dec_text(s) matches Some((t, rest)) ==> text_fits(t) && s == enc_text(t) + rest,
{
    if let Some((n, tail)) = dec_u64(s) {
        if n <= tail.len() && valid_utf8(tail.take(n as int)) {
            lemma_enc_dec_u64(s);
            let body = tail.take(n as int);
            decode_utf8_encode_utf8(body);
            assert(tail =~= body + tail.skip(n as int));
            assert(s =~= enc_text(decode_utf8(body)) + tail.skip(n as int));
        }
    }
}

/// Appends the encoding of a `u32` to `buf`.
pub fn put_u32(buf: &mut Vec<u8>, v: u32)
    ensures
        final(buf)@ == old(buf)@ + enc_u32(v),
{
    let mut bytes = u32_to_le_bytes(v);
    buf.append(&mut bytes);
}

/// Appends the encoding of a `u64` to `buf`.
pub fn put_u64(buf: &mut Vec<u8>, v: u64)
    ensures
        final(buf)@ == old(buf)@ + enc_u64(v),
{
    let mut bytes = u64_to_le_bytes(v);
    buf.append(&mut bytes);
}

/// Appends the encoding of an `i64` to `buf`.
pub fn put_i64(buf: &mut Vec<u8>, v: i64)
    ensures
        final(buf)@ == old(buf)@ + enc_i64(v),
{
    let mut bytes = u64_to_le_bytes(v as u64);
    buf.append(&mut bytes);
}

/// Appends the encoding of an index to `buf`.
pub fn put_usize(buf: &mut Vec<u8>, v: usize)
    ensures
        final(buf)@ == old(buf)@ + enc_usize(v),
{
    let mut bytes = u64_to_le_bytes(v as u64);
    buf.append(&mut bytes);
}

/// Appends the encoding of a `bool` to `buf`.
pub fn put_bool(buf: &mut Vec<u8>, v: bool)
    ensures
        final(buf)@ == old(buf)@ + enc_bool(v),
{
    buf.push(if v { 1u8 } else { 0u8 });
    assert(buf@ =~= old(buf)@ + enc_bool(v));
}

/// Appends a copy of every byte of `bytes` to `buf`.
pub fn put_bytes(buf: &mut Vec<u8>, bytes: &[u8])
    ensures
        final(buf)@ == old(buf)@ + bytes@,
{
    let mut i: usize = 0;
    while i < bytes.len()
        invariant
            i <= bytes@.len(),
            buf@ == old(buf)@ + bytes@.take(i as int),
        decreases bytes@.len() - i,
    {
        buf.push(bytes[i]);
        assert(bytes@.take(i + 1) =~= bytes@.take(i as int).push(bytes@[i as int]));
        assert(buf@ =~= old(buf)@ + bytes@.take(i + 1));
        i += 1;
    }
    assert(bytes@.take(i as int) =~= bytes@);
}

/// Appends the encoding of a text to `buf`.
pub fn put_text(buf: &mut Vec<u8>, text: &str)
    ensures
        text_fits(text@),
        final(buf)@ == old(buf)@ + enc_text(text@),
{
    let bytes = text.as_bytes();
    put_u64(buf, bytes.len() as u64);
    put_bytes(buf, bytes);
    assert(buf@ =~= old(buf)@ + enc_text(text@));
}

/// Reads a `u32` at offset `pos`. On success the second component is the
/// offset of the first byte after it.
pub fn take_u32(bytes: &[u8], pos: usize) -> (r: Option<(u32, usize)>)
    requires
        pos <= bytes@.len(),
    ensures
        match r {
            Some((v, next)) => pos <= next <= bytes@.len() && dec_u32(bytes@.skip(pos as int))
                == Some((v, bytes@.skip(next as int))),
            None => dec_u32(bytes@.skip(pos as int)) is None,
        },
{
    if bytes.len() - pos < 4 {
        return None;
    }
    let part = slice_subrange(bytes, pos, pos + 4);
    let v = u32_from_le_bytes(part);
    proof {
        assert(bytes@.skip(pos as int).take(4) =~= part@);
        assert(bytes@.skip(pos as int).skip(4) =~= bytes@.skip(pos + 4));
    }
    Some((v, pos + 4))
}

/// Reads a `u64` at offset `pos`. On success the second component is the
/// offset of the first byte after it.
pub fn take_u64(bytes: &[u8], pos: usize) -> (r: Option<(u64, usize)>)
    requires
        pos <= bytes@.len(),
    ensures
        match r {
            Some((v, next)) => pos <= next <= bytes@.len() && dec_u64(bytes@.skip(pos as int))
                == Some((v, bytes@.skip(next as int))),
            None => dec_u64(bytes@.skip(pos as int)) is None,
        },
{
    if bytes.len() - pos < 8 {
        return None;
    }
    let part = slice_subrange(bytes, pos, pos + 8);
    let v = u64_from_le_bytes(part);
    proof {
        assert(bytes@.skip(pos as int).take(8) =~= part@);
        assert(bytes@.skip(pos as int).skip(8) =~= bytes@.skip(pos + 8));
    }
    Some((v, pos + 8))
}

/// Reads an `i64` at offset `pos`. On success the second component is the
/// offset of the first byte after it.
pub fn take_i64(bytes: &[u8], pos: usize) -> (r: Option<(i64, usize)>)
    requires
        pos <= bytes@.len(),
    ensures
        match r {
            Some((v, next)) => pos <= next <= bytes@.len() && dec_i64(bytes@.skip(pos as int))
                == Some((v, bytes@.skip(next as int))),
            None => dec_i64(bytes@.skip(pos as int)) is None,
        },
{
    match take_u64(bytes, pos) {
        Some((v, next)) => Some((v as i64, next)),
        None => None,
    }
}

/// Reads an index at offset `pos`. On success the second component is the
/// offset of the first byte after it.
pub fn take_usize(bytes: &[u8], pos: usize) -> (r: Option<(usize, usize)>)
    requires
        pos <= bytes@.len(),
    ensures
        match r {
            Some((v, next)) => pos <= next <= bytes@.len() && dec_usize(bytes@.skip(pos as int))
                == Some((v, bytes@.skip(next as int))),
            None => dec_usize(bytes@.skip(pos as int)) is None,
        },
{
    match take_u64(bytes, pos) {
        Some((v, next)) => if v <= usize::MAX as u64 {
            Some((v as usize, next))
        } else {
            None
        },
        None => None,
    }
}

/// Reads a `bool` at offset `pos`. On success the second component is the
/// offset of the first byte after it.
pub fn take_bool(bytes: &[u8], pos: usize) -> (r: Option<(bool, usize)>)
    requires
        pos <= bytes@.len(),
    ensures
        match r {
            Some((v, next)) => pos <= next <= bytes@.len() && dec_bool(bytes@.skip(pos as int))
                == Some((v, bytes@.skip(next as int))),
            None => dec_bool(bytes@.skip(pos as int)) is None,
        },
{
    if pos >= bytes.len() {
        return None;
    }
    let b = bytes[pos];
    proof {
        assert(bytes@.skip(pos as int)[0] == b);
        assert(bytes@.skip(pos as int).skip(1) =~= bytes@.skip(pos + 1));
    }
    if b <= 1 {
        Some((b == 1, pos + 1))
    } else {
        None
    }
}

/// `std::str::from_utf8`, with the text copied into a `String`: the bytes are
/// accepted exactly when they are well-formed UTF-8, and the text returned is
/// the one that they spell.
#[verifier::external_body]
fn text_from_utf8(bytes: &[u8]) -> (r: Option<String>)
    ensures
        r is Some <==> valid_utf8(bytes@),
        r matches Some(t) ==> t@ == decode_utf8(bytes@),
{
    match std::str::from_utf8(bytes) {
        Ok(t) => Some(t.to_owned()),
        Err(_) => None,
    }
}

/// Reads a text at offset `pos`. On success the second component is the
/// offset of the first byte after it.
pub fn take_text(bytes: &[u8], pos: usize) -> (r: Option<(String, usize)>)
    requires
        pos <= bytes@.len(),
    ensures
        match r {
            Some((t, next)) => pos <= next <= bytes@.len() && dec_text(bytes@.skip(pos as int))
                == Some((t@, bytes@.skip(next as int))),
            None => dec_text(bytes@.skip(pos as int)) is None,
        },
{
    let (n, start) = match take_u64(bytes, pos) {
        Some(pair) => pair,
        None => { return None; },
    };
    if n > (bytes.len() - start) as u64 {
        return None;
    }
    let end = start + n as usize;
    let part = slice_subrange(bytes, start, end);
    proof {
        assert(bytes@.skip(start as int).take(n as int) =~= part@);
        assert(bytes@.skip(start as int).skip(n as int) =~= bytes@.skip(end as int));
    }
    match text_from_utf8(part) {
        Some(t) => Some((t, end)),
        None => None,
    }
}

} // verus!
