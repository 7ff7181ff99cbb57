//! The frame decoder: a three-byte header (domain, timing, payload length)
//! followed by a UTF-8 payload, turned into a [`Request`].
//!
//! Decoding is deliberately permissive about unknown header codes — they map
//! to the `Unsupported` variants and are rejected only at dispatch — and
//! strict about the frame itself: a buffer shorter than the declared frame is
//! a [`FramingError::TruncatedFrame`], a payload that is not valid UTF-8 a
//! [`FramingError::InvalidEncoding`].

use vstd::prelude::*;
use vstd::slice::slice_subrange;
use vstd::slice::slice_to_vec;
use vstd::utf8::decode_utf8;
use vstd::utf8::decode_utf8_encode_utf8;
use vstd::utf8::encode_utf8;
use vstd::utf8::encode_utf8_decode_utf8;
use vstd::utf8::encode_utf8_valid_utf8;
use vstd::utf8::valid_utf8;
use crate::protocol::content_type_of_byte;
use crate::protocol::info_type_of_byte;
use crate::protocol::ContentType;
use crate::protocol::InfoType;
use crate::protocol::Request;
use crate::protocol::RequestModel;

verus! {

/// Ways a raw buffer can fail to hold a well-formed frame.
#[derive(Clone, Copy, Debug, PartialEq, Eq, Structural)]
pub enum FramingError {
    /// The buffer is shorter than the three-byte header plus the declared
    /// payload length.
    TruncatedFrame,
    /// The declared payload bytes are not valid UTF-8.
    InvalidEncoding,
}

/// What decoding a raw buffer yields: the decoded request model, or the
/// framing error that rules the buffer out.
///
/// Byte 0 names the domain, byte 1 the timing, byte 2 the payload byte
/// count; the payload follows. Bytes beyond the declared payload are
/// ignored.
pub open spec fn decode_spec(buf: Seq<u8>) -> Result<RequestModel, FramingError> {
    if buf.len() < 3 {
        Err(FramingError::TruncatedFrame)
    } else if buf.len() < 3 + buf[2] {
        Err(FramingError::TruncatedFrame)
    } else {
        let payload_bytes = buf.subrange(3, 3 + buf[2]);
        if !valid_utf8(payload_bytes) {
            Err(FramingError::InvalidEncoding)
        } else {
            Ok(
                RequestModel {
                    payload: decode_utf8(payload_bytes),
                    info: info_type_of_byte(buf[1]),
                    content_type: content_type_of_byte(buf[0]),
                    content_length: buf[2],
                },
            )
        }
    }
}

/// A well-formed frame for the given header bytes and payload text: the two
/// header bytes, the payload's byte length, then the payload's UTF-8 bytes.
pub open spec fn encode_frame(content_byte: u8, info_byte: u8, payload: Seq<char>) -> Seq<u8>
    recommends
        encode_utf8(payload).len() <= 255,
{
    seq![content_byte, info_byte, encode_utf8(payload).len() as u8] + encode_utf8(payload)
}

/// Decoding a well-formed frame succeeds for every pair of header bytes and
/// every payload whose encoding fits in the one-byte length field, and
/// reproduces exactly the payload text and the fields the header bytes
/// denote.
pub proof fn lemma_decode_encoded_frame(content_byte: u8, info_byte: u8, payload: Seq<char>)
    requires
        encode_utf8(payload).len() <= 255,
    ensures
        decode_spec(encode_frame(content_byte, info_byte, payload)) == Ok::<
            RequestModel,
            FramingError,
        >(
            RequestModel {
                payload: payload,
                info: info_type_of_byte(info_byte),
                content_type: content_type_of_byte(content_byte),
                content_length: encode_utf8(payload).len() as u8,
            },
        ),
{
    let enc = encode_utf8(payload);
    let buf = encode_frame(content_byte, info_byte, payload);
    assert(buf.len() == 3 + enc.len());
    assert(buf[2] == enc.len() as u8);
    assert(buf.subrange(3, 3 + buf[2]) =~= enc);
    encode_utf8_valid_utf8(payload);
    encode_utf8_decode_utf8(payload);
}

/// Unknown header codes are not an error: whenever decoding succeeds, a
/// domain or timing byte outside the two assigned codes merely yields the
/// `Unsupported` variant of its field.
pub proof fn lemma_unknown_header_bytes_decode(buf: Seq<u8>)
    ensures
        decode_spec(buf) matches Ok(m) ==> {
            &&& (buf[0] != 0x01 && buf[0] != 0x02 ==> m.content_type is Unsupported)
            &&& (buf[1] != 0x01 && buf[1] != 0x02 ==> m.info is Unsupported)
        },
{
}

/// The first two header bytes never decide between success and failure: two
/// buffers that differ only there decode to the same outcome, with the same
/// error when they fail. Only the `Unsupported` markers in a decoded request
/// record an unknown code.
pub proof fn lemma_header_bytes_never_fail_decode(buf1: Seq<u8>, buf2: Seq<u8>)
    requires
        buf1.len() == buf2.len(),
        forall|i: int| 2 <= i < buf1.len() ==> buf1[i] == buf2[i],
    ensures
        decode_spec(buf1) is Ok <==> decode_spec(buf2) is Ok,
        decode_spec(buf1) matches Err(e) ==> decode_spec(buf2) == Err::<
            RequestModel,
            FramingError,
        >(e),
{
    if buf1.len() >= 3 {
        assert(buf1[2] == buf2[2]);
        if buf1.len() >= 3 + buf1[2] {
            assert(buf1.subrange(3, 3 + buf1[2]) =~= buf2.subrange(3, 3 + buf2[2]));
        }
    }
}

/// A buffer shorter than the three-byte header plus its declared payload
/// length decodes to `TruncatedFrame`.
pub proof fn lemma_short_buffer_truncated(buf: Seq<u8>)
    requires
        buf.len() < 3 || buf.len() < 3 + buf[2],
    ensures
        decode_spec(buf) == Err::<RequestModel, FramingError>(FramingError::TruncatedFrame),
{
}

/// A frame whose declared payload bytes are present but are not valid UTF-8
/// decodes to `InvalidEncoding`.
pub proof fn lemma_invalid_payload_encoding(buf: Seq<u8>)
    requires
        buf.len() >= 3,
        buf.len() >= 3 + buf[2],
        !valid_utf8(buf.subrange(3, 3 + buf[2])),
    ensures
        decode_spec(buf) == Err::<RequestModel, FramingError>(FramingError::InvalidEncoding),
{
}

/// Relies on `String::from_utf8`: it succeeds exactly when the bytes are
/// valid UTF-8, and then returns the string those bytes encode.
#[verifier::external_body]
fn string_from_utf8(bytes: Vec<u8>) -> (r: Option<String>)
    ensures
        r is Some <==> valid_utf8(bytes@),
        r matches Some(s) ==> s@ == decode_utf8(bytes@),
{
    match String::from_utf8(bytes) {
        Ok(s) => Some(s),
        Err(_) => None,
    }
}

/// Decodes one raw buffer into a [`Request`], exactly as [`decode_spec`]
/// says: total on header codes, failing only on a truncated frame or a
/// payload that is not UTF-8.
pub fn decode_request(buf: &[u8]) -> (r: Result<Request, FramingError>)
    ensures
        r is Ok <==> decode_spec(buf@) is Ok,
        r matches Ok(req) ==> req@ == decode_spec(buf@)->Ok_0 && req.wf(),
        r matches Err(e) ==> e == decode_spec(buf@)->Err_0,
{
    if buf.len() < 3 {
        return Err(FramingError::TruncatedFrame);
    }
    let content_length: u8 = buf[2];
    if buf.len() < 3 + content_length as usize {
        return Err(FramingError::TruncatedFrame);
    }
    let payload_slice = slice_subrange(buf, 3, 3 + content_length as usize);
    let payload_bytes = slice_to_vec(payload_slice);
    match string_from_utf8(payload_bytes) {
        None => Err(FramingError::InvalidEncoding),
        Some(payload) => {
            proof {
                decode_utf8_encode_utf8(buf@.subrange(3, 3 + buf@[2]));
            }
            Ok(
                Request {
                    payload,
                    content_length,
                    content_type: ContentType::from(buf[0]),
                    info: InfoType::from(buf[1]),
                },
            )
        },
    }
}

} // verus!
