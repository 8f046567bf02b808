//! The wire encoding: CBOR (a compact self-describing binary format). The
//! server replies with either a single unsigned integer (the current time) or
//! the frame record, a five-entry map keyed by the field names in declaration
//! order. Every byte of it is produced by verified code against the spec
//! functions below, which follow the shortest-form head encoding.
use crate::frame::WireFrame;
use vstd::prelude::*;

verus! {

/// One byte of `n`: the eight bits starting `k` from the bottom.
pub open spec fn byte_at(n: u64, k: u64) -> u8 {
    ((n >> k) & 0xff) as u8
}

/// `n` as two big-endian bytes.
pub open spec fn be2(n: u64) -> Seq<u8> {
    seq![byte_at(n, 8u64), byte_at(n, 0u64)]
}

/// `n` as four big-endian bytes.
pub open spec fn be4(n: u64) -> Seq<u8> {
    seq![byte_at(n, 24u64), byte_at(n, 16u64), byte_at(n, 8u64), byte_at(n, 0u64)]
}

/// `n` as eight big-endian bytes.
pub open spec fn be8(n: u64) -> Seq<u8> {
    seq![
        byte_at(n, 56u64),
        byte_at(n, 48u64),
        byte_at(n, 40u64),
        byte_at(n, 32u64),
        byte_at(n, 24u64),
        byte_at(n, 16u64),
        byte_at(n, 8u64),
        byte_at(n, 0u64),
    ]
}

/// The CBOR head for major type `major` carrying the value `n`: the major
/// type in the top three bits, and `n` inline, in one extra byte, or in two,
/// four or eight big-endian bytes — always the shortest form that fits.
pub open spec fn spec_head(major: u8, n: u64) -> Seq<u8>
    recommends
        major <= 5,
{
    let tag = (major as u64) * 32;
    if n < 24 {
        seq![(tag + n) as u8]
    } else if n < 0x100 {
        seq![(tag + 24) as u8, n as u8]
    } else if n < 0x10000 {
        seq![(tag + 25) as u8] + be2(n)
    } else if n < 0x100000000 {
        seq![(tag + 26) as u8] + be4(n)
    } else {
        seq![(tag + 27) as u8] + be8(n)
    }
}

/// A CBOR unsigned integer (major type 0).
pub open spec fn spec_uint(n: u64) -> Seq<u8> {
    spec_head(0, n)
}

/// A CBOR byte string (major type 2): the length head, then the raw bytes.
pub open spec fn spec_byte_string(b: Seq<u8>) -> Seq<u8>
    recommends
        b.len() <= u64::MAX,
{
    spec_head(2, b.len() as u64) + b
}

/// A CBOR text string (major type 3) over a short ASCII key.
pub open spec fn spec_text(key: Seq<u8>) -> Seq<u8>
    recommends
        key.len() < 24,
{
    spec_head(3, key.len() as u64) + key
}

/// The UTF-8 bytes of the key "timestamp".
pub open spec fn key_timestamp() -> Seq<u8> {
    seq![116u8, 105u8, 109u8, 101u8, 115u8, 116u8, 97u8, 109u8, 112u8]
}

/// The UTF-8 bytes of the key "send_timestamp".
pub open spec fn key_send_timestamp() -> Seq<u8> {
    seq![
        115u8,
        101u8,
        110u8,
        100u8,
        95u8,
        116u8,
        105u8,
        109u8,
        101u8,
        115u8,
        116u8,
        97u8,
        109u8,
        112u8,
    ]
}

/// The UTF-8 bytes of the key "width".
pub open spec fn key_width() -> Seq<u8> {
    seq![119u8, 105u8, 100u8, 116u8, 104u8]
}

/// The UTF-8 bytes of the key "height".
pub open spec fn key_height() -> Seq<u8> {
    seq![104u8, 101u8, 105u8, 103u8, 104u8, 116u8]
}

/// The UTF-8 bytes of the key "data".
pub open spec fn key_data() -> Seq<u8> {
    seq![100u8, 97u8, 116u8, 97u8]
}

/// The encoded frame reply: a five-entry map, fields in declaration order,
/// the pixels as one byte string.
pub open spec fn spec_wire_frame(
    timestamp: u64,
    send_timestamp: u64,
    width: u32,
    height: u32,
    data: Seq<u8>,
) -> Seq<u8> {
    spec_head(5, 5) + spec_text(key_timestamp()) + spec_uint(timestamp) + spec_text(
        key_send_timestamp(),
    ) + spec_uint(send_timestamp) + spec_text(key_width()) + spec_uint(width as u64) + spec_text(
        key_height(),
    ) + spec_uint(height as u64) + spec_text(key_data()) + spec_byte_string(data)
}

/// One byte of `n`, extracted executably.
fn byte_of(n: u64, k: u64) -> (b: u8)
    requires
        k < 64,
    ensures
        b == byte_at(n, k),
{
    ((n >> k) & 0xff) as u8
}

/// Appends the CBOR head for `major` and `n`.
fn push_head(out: &mut Vec<u8>, major: u8, n: u64)
    requires
        major <= 5,
    ensures
        final (out)@ == old(out)@ + spec_head(major, n),
{
    let tag: u64 = (major as u64) * 32;
    if n < 24 {
        out.push((tag + n) as u8);
    } else if n < 0x100 {
        out.push((tag + 24) as u8);
        out.push(n as u8);
    } else if n < 0x10000 {
        out.push((tag + 25) as u8);
        out.push(byte_of(n, 8));
        out.push(byte_of(n, 0));
    } else if n < 0x100000000 {
        out.push((tag + 26) as u8);
        out.push(byte_of(n, 24));
        out.push(byte_of(n, 16));
        out.push(byte_of(n, 8));
        out.push(byte_of(n, 0));
    } else {
        out.push((tag + 27) as u8);
        out.push(byte_of(n, 56));
        out.push(byte_of(n, 48));
        out.push(byte_of(n, 40));
        out.push(byte_of(n, 32));
        out.push(byte_of(n, 24));
        out.push(byte_of(n, 16));
        out.push(byte_of(n, 8));
        out.push(byte_of(n, 0));
    }
    proof {
        assert(out@ =~= old(out)@ + spec_head(major, n));
    }
}

/// Encodes a single unsigned integer, as the reply to a time request. This
/// is the whole behaviour of a structured-binary encoder on one integer, so
/// it is written and proved here rather than taken on trust.
pub fn encode_uint(n: u64) -> (out: Vec<u8>)
    ensures
        out@ == spec_uint(n),
{
    let mut out: Vec<u8> = Vec::new();
    push_head(&mut out, 0, n);
    out
}

/// Appends the key "timestamp".
fn push_key_timestamp(out: &mut Vec<u8>)
    ensures
        final (out)@ == old(out)@ + spec_text(key_timestamp()),
{
    push_head(out, 3, 9);
    out.push(116);
    out.push(105);
    out.push(109);
    out.push(101);
    out.push(115);
    out.push(116);
    out.push(97);
    out.push(109);
    out.push(112);
    proof {
        assert(out@ =~= old(out)@ + spec_text(key_timestamp()));
    }
}

/// Appends the key "send_timestamp".
fn push_key_send_timestamp(out: &mut Vec<u8>)
    ensures
        final (out)@ == old(out)@ + spec_text(key_send_timestamp()),
{
    push_head(out, 3, 14);
    out.push(115);
    out.push(101);
    out.push(110);
    out.push(100);
    out.push(95);
    out.push(116);
    out.push(105);
    out.push(109);
    out.push(101);
    out.push(115);
    out.push(116);
    out.push(97);
    out.push(109);
    out.push(112);
    proof {
        assert(out@ =~= old(out)@ + spec_text(key_send_timestamp()));
    }
}

/// Appends the key "width".
fn push_key_width(out: &mut Vec<u8>)
    ensures
        final (out)@ == old(out)@ + spec_text(key_width()),
{
    push_head(out, 3, 5);
    out.push(119);
    out.push(105);
    out.push(100);
    out.push(116);
    out.push(104);
    proof {
        assert(out@ =~= old(out)@ + spec_text(key_width()));
    }
}

/// Appends the key "height".
fn push_key_height(out: &mut Vec<u8>)
    ensures
        final (out)@ == old(out)@ + spec_text(key_height()),
{
    push_head(out, 3, 6);
    out.push(104);
    out.push(101);
    out.push(105);
    out.push(103);
    out.push(104);
    out.push(116);
    proof {
        assert(out@ =~= old(out)@ + spec_text(key_height()));
    }
}

/// Appends the key "data".
fn push_key_data(out: &mut Vec<u8>)
    ensures
        final (out)@ == old(out)@ + spec_text(key_data()),
{
    push_head(out, 3, 4);
    out.push(100);
    out.push(97);
    out.push(116);
    out.push(97);
    proof {
        assert(out@ =~= old(out)@ + spec_text(key_data()));
    }
}

/// Appends the pixel buffer as a CBOR byte string.
fn push_byte_string(out: &mut Vec<u8>, data: &Vec<u8>)
    ensures
        final (out)@ == old(out)@ + spec_byte_string(data@),
{
    push_head(out, 2, data.len() as u64);
    out.extend_from_slice(data.as_slice());
    proof {
        assert(out@ =~= old(out)@ + spec_byte_string(data@));
    }
}

/// Encodes the reply to a frame request.
pub fn encode_wire_frame(f: &WireFrame) -> (out: Vec<u8>)
    ensures
        out@ == spec_wire_frame(f.timestamp, f.send_timestamp, f.width, f.height, f.data@),
{
    let mut out: Vec<u8> = Vec::new();
    push_head(&mut out, 5, 5);
    push_key_timestamp(&mut out);
    push_head(&mut out, 0, f.timestamp);
    push_key_send_timestamp(&mut out);
    push_head(&mut out, 0, f.send_timestamp);
    push_key_width(&mut out);
    push_head(&mut out, 0, f.width as u64);
    push_key_height(&mut out);
    push_head(&mut out, 0, f.height as u64);
    push_key_data(&mut out);
    push_byte_string(&mut out, &f.data);
    proof {
        assert(out@ =~= spec_wire_frame(
            f.timestamp,
            f.send_timestamp,
            f.width,
            f.height,
            f.data@,
        ));
    }
    out
}

} // verus!
