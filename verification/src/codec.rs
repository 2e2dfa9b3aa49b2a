//! The frame codec: an eight-character hexadecimal length, then that many
//! bytes of UTF-8 text that must parse as one JSON value.

use crate::json::{json_parse, parse, reading, JsonFault};
use crate::numeral::{
    all_hex, ascii_text, digits_value, hex_digit_value, hex_fixed, is_whitespace,
    lemma_digits_value_bound, lemma_hex_fixed_reads_back, lemma_trim_padded, lemma_trim_shortens,
    numeral_value, parse_hex, parsed_hex, pow16, push_hex, trim,
};
use vstd::prelude::*;
use vstd::slice::slice_subrange;
use vstd::utf8::{
    decode_utf8, decode_utf8_encode_utf8, encode_utf8, encode_utf8_decode_utf8,
    encode_utf8_valid_utf8, valid_utf8,
};

verus! {

/// The number of bytes in a frame's header.
pub const HEADER_LEN: usize = 8;

/// The longest payload that a header can declare.
pub const MAX_PAYLOAD_LEN: usize = 0xFFFF_FFFF;

/// The ways in which bytes fail to be a frame.
#[derive(Clone, Copy, Debug, PartialEq, Eq, Structural)]
pub enum FrameError {
    /// The payload is longer than eight hexadecimal digits can say.
    LengthOverflow,
    /// The header is not eight bytes of UTF-8 that hold, between any white
    /// space, hexadecimal digits and nothing else.
    MalformedHeader,
    /// The source ended before the declared number of bytes came.
    TruncatedPayload,
    /// The payload is not UTF-8.
    InvalidEncoding,
    /// The payload is not JSON.
    MalformedJson(JsonFault),
}

/// The frame for a payload: its length as eight lower-case hexadecimal
/// digits, then the payload itself.
pub open spec fn frame_bytes(payload: Seq<u8>) -> Result<Seq<u8>, FrameError> {
    if payload.len() <= MAX_PAYLOAD_LEN {
        Ok(hex_fixed(payload.len(), 8) + payload)
    } else {
        Err(FrameError::LengthOverflow)
    }
}

/// The length that a header declares: the header is eight bytes of UTF-8
/// whose text, with the white space around it dropped, is one or more
/// hexadecimal digits; anything else is malformed.
pub open spec fn header_outcome(bytes: Seq<u8>) -> Result<usize, FrameError> {
    if bytes.len() == HEADER_LEN && valid_utf8(bytes) {
        match parsed_hex(decode_utf8(bytes)) {
            Some(n) => Ok(n),
            None => Err(FrameError::MalformedHeader),
        }
    } else {
        Err(FrameError::MalformedHeader)
    }
}

/// The bytes of a payload: the first `declared_length` bytes that the source
/// yields before it ends.
pub open spec fn payload_bytes(declared_length: usize, source: Seq<u8>) -> Result<
    Seq<u8>,
    FrameError,
> {
    if source.len() < declared_length {
        Err(FrameError::TruncatedPayload)
    } else {
        Ok(source.take(declared_length as int))
    }
}

/// The text of a payload.
pub open spec fn payload_text(declared_length: usize, source: Seq<u8>) -> Result<
    Seq<char>,
    FrameError,
> {
    match payload_bytes(declared_length, source) {
        Ok(bytes) => if valid_utf8(bytes) {
            Ok(decode_utf8(bytes))
        } else {
            Err(FrameError::InvalidEncoding)
        },
        Err(e) => Err(e),
    }
}

/// What the text of a payload is accepted as.
pub open spec fn message_of(text: Seq<char>) -> Result<serde_json::Value, FrameError> {
    match reading(json_parse(text)) {
        Ok(value) => Ok(value),
        Err(fault) => Err(FrameError::MalformedJson(fault)),
    }
}

/// The message that a payload holds.
pub open spec fn payload_outcome(declared_length: usize, source: Seq<u8>) -> Result<
    serde_json::Value,
    FrameError,
> {
    match payload_text(declared_length, source) {
        Ok(text) => message_of(text),
        Err(e) => Err(e),
    }
}

/// `core::str::from_utf8`: the bytes as text where they are well-formed
/// UTF-8, and nothing where they are not.
#[verifier::external_body]
fn utf8_text(bytes: &[u8]) -> (text: Option<&str>)
    ensures
        match text {
            Some(t) => valid_utf8(bytes@) && t@ == decode_utf8(bytes@),
            None => !valid_utf8(bytes@),
        },
{
    match core::str::from_utf8(bytes) {
        Ok(t) => Some(t),
        Err(_) => None,
    }
}

/// Frames a payload: eight lower-case hexadecimal digits that give its
/// length in bytes, then the payload unchanged.
pub fn encode(payload: &[u8]) -> (r: Result<Vec<u8>, FrameError>)
    ensures
        match r {
            Ok(frame) => frame_bytes(payload@) == Ok::<Seq<u8>, FrameError>(frame@),
            Err(e) => frame_bytes(payload@) == Err::<Seq<u8>, FrameError>(e),
        },
{
    if payload.len() > MAX_PAYLOAD_LEN {
        return Err(FrameError::LengthOverflow);
    }
    let mut frame: Vec<u8> = Vec::new();
    push_hex(&mut frame, payload.len() as u32, 8);
    frame.extend_from_slice(payload);
    assert(frame@ =~= hex_fixed(payload@.len(), 8) + payload@);
    Ok(frame)
}

/// Reads the length that a header declares. The header must be eight bytes
/// of UTF-8 that hold, between any white space, one or more hexadecimal
/// digits of either case and nothing else: a sign makes the header
/// malformed.
pub fn decode_header(bytes: &[u8]) -> (r: Result<usize, FrameError>)
    ensures
        r == header_outcome(bytes@),
{
    if bytes.len() != HEADER_LEN {
        return Err(FrameError::MalformedHeader);
    }
    match utf8_text(bytes) {
        Some(text) => match parse_hex(text) {
            Some(n) => Ok(n),
            None => Err(FrameError::MalformedHeader),
        },
        None => Err(FrameError::MalformedHeader),
    }
}

/// Reads the text of a payload from what its source yielded before it
/// ended: exactly `declared_length` bytes, as UTF-8.
pub fn decode_text<'a>(declared_length: usize, source: &'a [u8]) -> (r: Result<
    &'a str,
    FrameError,
>)
    ensures
        match r {
            Ok(text) => payload_text(declared_length, source@) == Ok::<Seq<char>, FrameError>(
                text@,
            ),
            Err(e) => payload_text(declared_length, source@) == Err::<Seq<char>, FrameError>(e),
        },
{
    if source.len() < declared_length {
        return Err(FrameError::TruncatedPayload);
    }
    match utf8_text(slice_subrange(source, 0, declared_length)) {
        Some(text) => Ok(text),
        None => Err(FrameError::InvalidEncoding),
    }
}

/// Reads a payload from what its source yielded before it ended: exactly
/// `declared_length` bytes, as UTF-8, as one JSON value.
pub fn decode_payload(declared_length: usize, source: &[u8]) -> (r: Result<
    serde_json::Value,
    FrameError,
>)
    ensures
        r == payload_outcome(declared_length, source@),
{
    match decode_text(declared_length, source) {
        Ok(text) => match parse(text) {
            Ok(value) => Ok(value),
            Err(fault) => Err(FrameError::MalformedJson(fault)),
        },
        Err(e) => Err(e),
    }
}

/// Every character takes at least one byte in UTF-8.
pub proof fn lemma_text_fits_bytes(text: Seq<char>)
    ensures
        text.len() <= encode_utf8(text).len(),
    decreases text.len(),
{
    if text.len() > 0 {
        lemma_text_fits_bytes(text.drop_first());
    }
}

/// A frame decodes to the payload it was made from: its first eight bytes
/// declare the payload's length, and the bytes read after them under that
/// length are the payload, so that they hold the message that the payload
/// holds.
pub proof fn law_frame_round_trip(payload: Seq<u8>)
    requires
        payload.len() <= MAX_PAYLOAD_LEN,
    ensures
        frame_bytes(payload) matches Ok(frame) && {
            let declared = payload.len() as usize;
            &&& frame.len() == HEADER_LEN + payload.len()
            &&& header_outcome(frame.take(HEADER_LEN as int)) == Ok::<usize, FrameError>(declared)
            &&& payload_bytes(declared, frame.skip(HEADER_LEN as int)) == Ok::<
                Seq<u8>,
                FrameError,
            >(payload)
            &&& payload_outcome(declared, frame.skip(HEADER_LEN as int)) == payload_outcome(
                declared,
                payload,
            )
        },
{
    let header = hex_fixed(payload.len(), 8);
    let frame = header + payload;
    assert(pow16(8) == 0x1_0000_0000) by {
        reveal_with_fuel(pow16, 9);
    }
    lemma_hex_fixed_reads_back(payload.len(), 8);
    encode_utf8_valid_utf8(ascii_text(header));
    encode_utf8_decode_utf8(ascii_text(header));
    assert(frame.take(HEADER_LEN as int) =~= header);
    assert(frame.skip(HEADER_LEN as int) =~= payload);
    assert(payload.take(payload.len() as int) =~= payload);
}

/// A payload that is the UTF-8 encoding of a text holds whatever the parser
/// makes of that text: where the parser reads the text as a value, decoding
/// the payload under its own length gives that value.
pub proof fn law_payload_reads_text(text: Seq<char>)
    requires
        encode_utf8(text).len() <= usize::MAX,
    ensures
        payload_outcome(encode_utf8(text).len() as usize, encode_utf8(text)) == message_of(text),
        forall|value: serde_json::Value|
            json_parse(text) == Ok::<serde_json::Value, serde_json::Error>(value)
                ==> payload_outcome(encode_utf8(text).len() as usize, encode_utf8(text)) == Ok::<
                serde_json::Value,
                FrameError,
            >(value),
{
    let bytes = encode_utf8(text);
    encode_utf8_valid_utf8(text);
    encode_utf8_decode_utf8(text);
    assert(bytes.take(bytes.len() as int) =~= bytes);
}

/// Bytes that are not eight in number are no header.
pub proof fn law_header_needs_eight_bytes(bytes: Seq<u8>)
    requires
        bytes.len() != HEADER_LEN,
    ensures
        header_outcome(bytes) == Err::<usize, FrameError>(FrameError::MalformedHeader),
{
}

/// An eight-byte header that holds a hexadecimal numeral, with any white
/// space before and after it, declares the number that the numeral denotes.
pub proof fn law_header_value(lead: Seq<char>, numeral: Seq<char>, tail: Seq<char>)
    requires
        forall|i: int| 0 <= i < lead.len() ==> is_whitespace(#[trigger] lead[i]),
        forall|i: int| 0 <= i < tail.len() ==> is_whitespace(#[trigger] tail[i]),
        numeral_value(numeral) is Some,
        encode_utf8(lead + numeral + tail).len() == HEADER_LEN,
    ensures
        numeral_value(numeral)->0 <= MAX_PAYLOAD_LEN,
        header_outcome(encode_utf8(lead + numeral + tail)) == Ok::<usize, FrameError>(
            numeral_value(numeral)->0 as usize,
        ),
{
    let text = lead + numeral + tail;
    encode_utf8_valid_utf8(text);
    encode_utf8_decode_utf8(text);
    lemma_text_fits_bytes(text);
    assert(hex_digit_value(numeral[0]) is Some);
    assert(hex_digit_value(numeral.last()) is Some);
    lemma_trim_padded(lead, numeral, tail);
    lemma_digits_value_bound(numeral);
    assert(pow16(numeral.len()) <= 0x1_0000_0000) by {
        reveal_with_fuel(pow16, 9);
    }
}

/// A header is accepted exactly when it is eight bytes of UTF-8 whose text,
/// with the white space around it dropped, is a run of one or more
/// hexadecimal digits and nothing else; the length it declares is then the
/// number that the digits denote. A sign, a prefix or a separator makes it
/// malformed.
pub proof fn law_header_holds_digits_only(bytes: Seq<u8>)
    ensures
        header_outcome(bytes) is Ok <==> bytes.len() == HEADER_LEN && valid_utf8(bytes) && trim(
            decode_utf8(bytes),
        ).len() > 0 && all_hex(trim(decode_utf8(bytes))),
        header_outcome(bytes) matches Ok(n) ==> n == digits_value(trim(decode_utf8(bytes))) && n
            <= MAX_PAYLOAD_LEN,
        header_outcome(bytes) matches Err(e) ==> e == FrameError::MalformedHeader,
{
    if bytes.len() == HEADER_LEN && valid_utf8(bytes) {
        let text = decode_utf8(bytes);
        decode_utf8_encode_utf8(bytes);
        lemma_text_fits_bytes(text);
        lemma_trim_shortens(text);
        lemma_digits_value_bound(trim(text));
        assert(pow16(trim(text).len()) <= 0x1_0000_0000) by {
            reveal_with_fuel(pow16, 9);
        }
    }
}

/// A source that ends before the declared number of bytes yields no
/// message, whatever the bytes that came.
pub proof fn law_short_source_is_truncated(declared_length: usize, source: Seq<u8>)
    requires
        source.len() < declared_length,
    ensures
        payload_outcome(declared_length, source) == Err::<serde_json::Value, FrameError>(
            FrameError::TruncatedPayload,
        ),
{
}

} // verus!
