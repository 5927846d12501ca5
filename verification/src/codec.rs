//! Wire framing of the remote-administration protocol.
//!
//! Every message, in both directions, is an eight byte header followed by a
//! masked payload: a little-endian `u32` message id, a little-endian `u32`
//! payload length, then that many payload bytes.  The payload is masked by
//! XOR with a repeating key; an empty key leaves it untouched.  The id is
//! echoed by the peer and not interpreted here.

use vstd::prelude::*;
use crate::error::{IoErrorKind, RconError, RconErrorView};
use crate::text::to_chars;

verus! {

/// Number of header bytes in front of every payload.
pub const HEADER_LEN: usize = 8;

/// Largest payload accepted from the peer unless configured otherwise: 1 MiB.
pub const DEFAULT_MAX_PAYLOAD: u32 = 1048576;

/// Reason reported when a length field exceeds the cap or the length field's range.
pub open spec fn oversize_reason() -> Seq<char> {
    "The frame length exceeds the permitted maximum."@
}

/// The four bytes of `x`, least significant first.
pub open spec fn le_bytes(x: u32) -> Seq<u8> {
    seq![
        (x % 256) as u8,
        (x / 256 % 256) as u8,
        (x / 65536 % 256) as u8,
        (x / 16777216) as u8,
    ]
}

/// The number whose least-significant-first bytes are the first four of `b`.
pub open spec fn le_value(b: Seq<u8>) -> int {
    b[0] + 256 * b[1] + 65536 * b[2] + 16777216 * b[3]
}

/// The byte at position `i` of `data` after masking with `key`.
pub open spec fn masked_byte(data: Seq<u8>, key: Seq<u8>, i: int) -> u8 {
    if key.len() == 0 {
        data[i]
    } else {
        data[i] ^ key[i % (key.len() as int)]
    }
}

/// `data` masked with the repeating `key`.
pub open spec fn xor_mask(data: Seq<u8>, key: Seq<u8>) -> Seq<u8> {
    Seq::new(data.len(), |i: int| masked_byte(data, key, i))
}

/// The bytes on the wire for a message `id` carrying `payload`, masked with `key`.
pub open spec fn frame(id: u32, payload: Seq<u8>, key: Seq<u8>) -> Seq<u8> {
    le_bytes(id) + le_bytes(payload.len() as u32) + xor_mask(payload, key)
}

/// What a receiver makes of `bytes`: the id and the unmasked payload of the
/// first frame in them, or the reason why there is none.
pub open spec fn unframe(bytes: Seq<u8>, key: Seq<u8>, cap: u32) -> Result<
    (u32, Seq<u8>),
    RconErrorView,
> {
    if bytes.len() < 8 {
        Err(RconErrorView::IoError(IoErrorKind::UnexpectedEof))
    } else {
        let length = le_value(bytes.subrange(4, 8));
        if length > cap {
            Err(RconErrorView::InvalidData(oversize_reason()))
        } else if bytes.len() < 8 + length {
            Err(RconErrorView::IoError(IoErrorKind::UnexpectedEof))
        } else {
            Ok((le_value(bytes.subrange(0, 4)) as u32, xor_mask(bytes.subrange(8, 8 + length), key)))
        }
    }
}

/// Characters removed from a received text before it is parsed.
pub open spec fn is_layout_char(c: char) -> bool {
    c == '\r' || c == '\n' || c == '\t'
}

/// `text` without carriage returns, line feeds and tabs.
pub open spec fn strip_layout(text: Seq<char>) -> Seq<char> {
    text.filter(|c: char| !is_layout_char(c))
}

/// The text that `String::from_utf8_lossy` makes of `bytes`: the decoded text
/// where the bytes are valid UTF-8, and otherwise the text in which each
/// invalid sequence is replaced by U+FFFD.
pub uninterp spec fn lossy_utf8(bytes: Seq<u8>) -> Seq<char>;

/// The text that a receiver parses: the payload decoded leniently, without layout characters.
pub open spec fn payload_text(payload: Seq<u8>) -> Seq<char> {
    strip_layout(lossy_utf8(payload))
}

/// Decoding is the inverse of encoding.
pub proof fn lemma_le_round_trip(x: u32)
    ensures
        le_bytes(x).len() == 4,
        le_value(le_bytes(x)) == x,
{
}

/// Masking with an empty key changes nothing.
pub proof fn lemma_xor_empty_key_is_identity(data: Seq<u8>)
    ensures
        xor_mask(data, Seq::<u8>::empty()) == data,
{
}

/// Masking twice with the same key restores the data.
pub proof fn lemma_xor_twice_is_identity(data: Seq<u8>, key: Seq<u8>)
    ensures
        xor_mask(xor_mask(data, key), key) == data,
{
    let once = xor_mask(data, key);
    assert forall|i: int| 0 <= i < data.len() implies masked_byte(once, key, i) == data[i] by {
        if key.len() > 0 {
            let a = data[i];
            let b = key[i % (key.len() as int)];
            assert((a ^ b) ^ b == a) by (bit_vector);
        }
    }
}

/// A receiver that uses the sender's key recovers the id and the payload of
/// every frame whose payload fits under the cap, whatever follows the frame.
pub proof fn lemma_frame_round_trip(
    id: u32,
    payload: Seq<u8>,
    key: Seq<u8>,
    cap: u32,
    rest: Seq<u8>,
)
    requires
        payload.len() <= cap,
    ensures
        unframe(frame(id, payload, key) + rest, key, cap) == Ok::<(u32, Seq<u8>), RconErrorView>(
            (id, payload),
        ),
{
    let bytes = frame(id, payload, key) + rest;
    let length = payload.len() as u32;
    lemma_le_round_trip(id);
    lemma_le_round_trip(length);
    assert(bytes.subrange(8, 8 + length) =~= xor_mask(payload, key));
    lemma_xor_twice_is_identity(payload, key);
}

/// The shortest frame carries no payload: it is valid and yields the empty payload.
pub proof fn lemma_empty_frame(id: u32, key: Seq<u8>, cap: u32)
    ensures
        frame(id, Seq::<u8>::empty(), key).len() == 8,
        unframe(frame(id, Seq::<u8>::empty(), key), key, cap) == Ok::<
            (u32, Seq<u8>),
            RconErrorView,
        >((id, Seq::<u8>::empty())),
{
    lemma_frame_round_trip(id, Seq::<u8>::empty(), key, cap, Seq::<u8>::empty());
}

/// Masks `buffer` in place with the repeating `key`.
pub fn apply_xor(buffer: &mut Vec<u8>, key: &[u8])
    ensures
        final(buffer)@ == xor_mask(old(buffer)@, key@),
{
    let klen = key.len();
    if klen == 0 {
        return ;
    }
    let n = buffer.len();
    let mut i: usize = 0;
    while i < n
        invariant
            klen == key@.len(),
            klen > 0,
            n == buffer@.len(),
            n == old(buffer)@.len(),
            i <= n,
            forall|j: int| 0 <= j < i ==> buffer@[j] == masked_byte(old(buffer)@, key@, j),
            forall|j: int| i <= j < n ==> buffer@[j] == old(buffer)@[j],
        decreases n - i,
    {
        let b = buffer[i] ^ key[i % klen];
        buffer.set(i, b);
        i += 1;
    }
}

/// Appends the four bytes of `x`, least significant first, to `out`.
pub fn push_le(out: &mut Vec<u8>, x: u32)
    ensures
        final(out)@ == old(out)@ + le_bytes(x),
{
    out.push((x % 256) as u8);
    out.push((x / 256 % 256) as u8);
    out.push((x / 65536 % 256) as u8);
    out.push((x / 16777216) as u8);
}

/// Reads the little-endian number stored in `bytes[at..at + 4]`.
pub fn read_le(bytes: &[u8], at: usize) -> (x: u32)
    requires
        at + 4 <= bytes@.len(),
    ensures
        x == le_value(bytes@.subrange(at as int, at + 4)),
{
    let b0 = bytes[at] as u32;
    let b1 = bytes[at + 1] as u32;
    let b2 = bytes[at + 2] as u32;
    let b3 = bytes[at + 3] as u32;
    b0 + 256 * b1 + 65536 * b2 + 16777216 * b3
}

/// The parsed header of a frame.
#[derive(Debug, Clone, Copy, PartialEq, Eq, Structural)]
pub struct FrameHeader {
    /// The message id, echoed by the peer.
    pub id: u32,
    /// The number of payload bytes that follow.
    pub length: u32,
}

/// Builds the wire bytes of one message.
///
/// Fails with `InvalidData` exactly when the payload is too long for the
/// length field.
pub fn encode_frame(id: u32, payload: &[u8], key: &[u8]) -> (r: Result<Vec<u8>, RconError>)
    ensures
        match r {
            Ok(bytes) => payload@.len() <= u32::MAX && bytes@ == frame(id, payload@, key@),
            Err(e) => payload@.len() > u32::MAX && e@ == RconErrorView::InvalidData(
                oversize_reason(),
            ),
        },
{
    let n = payload.len();
    if n > u32::MAX as usize {
        return Err(RconError::InvalidData("The frame length exceeds the permitted maximum."));
    }
    let mut out: Vec<u8> = Vec::new();
    push_le(&mut out, id);
    push_le(&mut out, n as u32);
    let klen = key.len();
    let ghost head = out@;
    let mut i: usize = 0;
    while i < n
        invariant
            n == payload@.len(),
            klen == key@.len(),
            i <= n,
            out@.len() == head.len() + i,
            forall|j: int| 0 <= j < head.len() ==> out@[j] == head[j],
            forall|j: int| 0 <= j < i ==> out@[head.len() + j] == masked_byte(payload@, key@, j),
        decreases n - i,
    {
        let b = if klen == 0 {
            payload[i]
        } else {
            payload[i] ^ key[i % klen]
        };
        out.push(b);
        i += 1;
    }
    Ok(out)
}

/// Reads the header of a frame and checks its length field against `cap`.
///
/// Fewer than eight bytes are a short read; a length above `cap` is invalid data.
pub fn decode_header(bytes: &[u8], cap: u32) -> (r: Result<FrameHeader, RconError>)
    ensures
        match r {
            Ok(header) => {
                &&& bytes@.len() >= 8
                &&& header.id == le_value(bytes@.subrange(0, 4))
                &&& header.length == le_value(bytes@.subrange(4, 8))
                &&& header.length <= cap
            },
            Err(e) => if bytes@.len() < 8 {
                e@ == RconErrorView::IoError(IoErrorKind::UnexpectedEof)
            } else {
                le_value(bytes@.subrange(4, 8)) > cap && e@ == RconErrorView::InvalidData(
                    oversize_reason(),
                )
            },
        },
{
    if bytes.len() < HEADER_LEN {
        return Err(RconError::IoError(IoErrorKind::UnexpectedEof));
    }
    let id = read_le(bytes, 0);
    let length = read_le(bytes, 4);
    if length > cap {
        return Err(RconError::InvalidData("The frame length exceeds the permitted maximum."));
    }
    Ok(FrameHeader { id, length })
}

/// A copy of `data` masked with the repeating `key`.
pub fn masked(data: &[u8], key: &[u8]) -> (out: Vec<u8>)
    ensures
        out@ == xor_mask(data@, key@),
{
    let n = data.len();
    let klen = key.len();
    let mut out: Vec<u8> = Vec::new();
    let mut i: usize = 0;
    while i < n
        invariant
            n == data@.len(),
            klen == key@.len(),
            i <= n,
            out@.len() == i,
            forall|j: int| 0 <= j < i ==> out@[j] == masked_byte(data@, key@, j),
        decreases n - i,
    {
        let b = if klen == 0 {
            data[i]
        } else {
            data[i] ^ key[i % klen]
        };
        out.push(b);
        i += 1;
    }
    out
}

/// Splits the first frame off `bytes` and unmasks its payload.
pub fn decode_frame(bytes: &[u8], key: &[u8], cap: u32) -> (r: Result<(u32, Vec<u8>), RconError>)
    ensures
        match r {
            Ok((id, payload)) => unframe(bytes@, key@, cap) == Ok::<(u32, Seq<u8>), RconErrorView>(
                (id, payload@),
            ),
            Err(e) => unframe(bytes@, key@, cap) == Err::<(u32, Seq<u8>), RconErrorView>(e@),
        },
{
    let header = match decode_header(bytes, cap) {
        Ok(header) => header,
        Err(e) => {
            return Err(e);
        },
    };
    let length = header.length as usize;
    if bytes.len() - HEADER_LEN < length {
        return Err(RconError::IoError(IoErrorKind::UnexpectedEof));
    }
    let body = vstd::slice::slice_subrange(bytes, HEADER_LEN, HEADER_LEN + length);
    let payload = masked(body, key);
    Ok((header.id, payload))
}

/// `String::from_utf8_lossy` decodes `bytes` as UTF-8 and replaces what is
/// not valid by U+FFFD; text that is valid comes out unchanged.
#[verifier::external_body]
fn utf8_lossy(bytes: &[u8]) -> (text: String)
    ensures
        text@ == lossy_utf8(bytes@),
        vstd::utf8::valid_utf8(bytes@) ==> text@ == vstd::utf8::decode_utf8(bytes@),
{
    String::from_utf8_lossy(bytes).into_owned()
}

/// `text` without carriage returns, line feeds and tabs.
pub fn without_layout(text: &str) -> (out: String)
    ensures
        out@ == strip_layout(text@),
{
    let chars = to_chars(text);
    let ghost keep = |c: char| !is_layout_char(c);
    let mut out = String::new();
    let mut i: usize = 0;
    proof {
        reveal(Seq::filter);
    }
    while i < chars.len()
        invariant
            i <= chars@.len(),
            keep == (|c: char| !is_layout_char(c)),
            out@ == chars@.take(i as int).filter(keep),
        decreases chars@.len() - i,
    {
        let c = chars[i];
        proof {
            reveal(Seq::filter);
            assert(chars@.take(i + 1).drop_last() =~= chars@.take(i as int));
        }
        if !(c == '\r' || c == '\n' || c == '\t') {
            out.push(c);
        }
        i += 1;
    }
    assert(chars@.take(chars@.len() as int) =~= chars@);
    out
}

/// The text carried by an unmasked payload: decoded leniently, without
/// layout characters.  A payload that is valid UTF-8 gives the text that it
/// encodes, without layout characters; an empty payload is the empty text.
pub fn decode_text(payload: &[u8]) -> (text: String)
    ensures
        text@ == payload_text(payload@),
        vstd::utf8::valid_utf8(payload@) ==> text@ == strip_layout(
            vstd::utf8::decode_utf8(payload@),
        ),
        payload@.len() == 0 ==> text@.len() == 0,
{
    let raw = utf8_lossy(payload);
    proof {
        if payload@.len() == 0 {
            reveal(Seq::filter);
        }
    }
    without_layout(raw.as_str())
}

} // verus!
