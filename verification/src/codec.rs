//! Wire messages exchanged with the remote header-generation service, and
//! their deterministic, self-describing encoding.
//!
//! A message is laid out as: one message tag byte, one direction tag byte, a
//! four-byte big-endian length, and then the variable-length field (the
//! transaction id of a request, the header value of a response). Decoding
//! rejects truncated buffers, unknown tags and trailing bytes rather than
//! guessing, and never substitutes a default value.

use vstd::prelude::*;

verus! {

/// Which half of the HTTP exchange a header event or an enrichment applies
/// to: the request from the client, or the response from the upstream.
#[derive(Clone, Copy, PartialEq, Eq, Hash, Debug, Structural)]
pub enum Direction {
    RequestPath,
    ResponsePath,
}

/// Outbound message: asks the remote service for a header value for one
/// direction of the transaction named by `transaction_id`.
#[derive(Clone, PartialEq, Eq, Debug)]
pub struct HeaderRequest {
    pub direction: Direction,
    pub transaction_id: Vec<u8>,
}

/// Inbound message: the service's answer; `direction` echoes the request.
#[derive(Clone, PartialEq, Eq, Debug)]
pub struct HeaderResponse {
    pub direction: Direction,
    pub header: Vec<u8>,
}

/// Mathematical model of a `HeaderRequest`.
pub struct HeaderRequestView {
    pub direction: Direction,
    pub transaction_id: Seq<u8>,
}

/// Mathematical model of a `HeaderResponse`.
pub struct HeaderResponseView {
    pub direction: Direction,
    pub header: Seq<u8>,
}

impl View for HeaderRequest {
    type V = HeaderRequestView;

    open spec fn view(&self) -> HeaderRequestView {
        HeaderRequestView { direction: self.direction, transaction_id: self.transaction_id@ }
    }
}

impl View for HeaderResponse {
    type V = HeaderResponseView;

    open spec fn view(&self) -> HeaderResponseView {
        HeaderResponseView { direction: self.direction, header: self.header@ }
    }
}

/// Why a buffer was rejected by `decode_request` or `decode_response`.
#[derive(Clone, Copy, PartialEq, Eq, Debug, Structural)]
pub enum DecodeError {
    /// The buffer ends before the fixed header or the announced field does.
    Truncated,
    /// The first byte is not the expected message tag.
    WrongMessageTag,
    /// The direction tag byte names no known direction.
    UnknownDirection,
    /// Bytes follow the announced end of the message.
    TrailingBytes,
}

/// Message tag of a `HeaderRequest` on the wire.
pub const REQUEST_TAG: u8 = 1;

/// Message tag of a `HeaderResponse` on the wire.
pub const RESPONSE_TAG: u8 = 2;

/// Number of bytes before the variable-length field: message tag, direction
/// tag, and the four length bytes.
pub const HEADER_LEN: usize = 6;

/// Largest variable-length field the four-byte length prefix can announce.
pub const MAX_FIELD_LEN: u32 = 0xffff_ffff;

pub open spec fn spec_direction_tag(d: Direction) -> u8 {
    match d {
        Direction::RequestPath => 0,
        Direction::ResponsePath => 1,
    }
}

pub open spec fn spec_direction_of_tag(t: u8) -> Option<Direction> {
    if t == 0 {
        Some(Direction::RequestPath)
    } else if t == 1 {
        Some(Direction::ResponsePath)
    } else {
        None
    }
}

fn direction_tag(d: Direction) -> (r: u8)
    ensures
        r == spec_direction_tag(d),
{
    match d {
        Direction::RequestPath => 0,
        Direction::ResponsePath => 1,
    }
}

/// The four big-endian bytes of `n`.
pub open spec fn spec_be32(n: u32) -> Seq<u8> {
    seq![
        (n >> 24) as u8,
        ((n >> 16) & 0xff) as u8,
        ((n >> 8) & 0xff) as u8,
        (n & 0xff) as u8,
    ]
}

/// The value of four big-endian bytes.
pub open spec fn spec_be32_value(b: Seq<u8>) -> u32
    recommends
        b.len() == 4,
{
    ((b[0] as u32) << 24) | ((b[1] as u32) << 16) | ((b[2] as u32) << 8) | (b[3] as u32)
}

pub proof fn lemma_be32_round_trip(n: u32)
    ensures
        spec_be32(n).len() == 4,
        spec_be32_value(spec_be32(n)) == n,
{
    let b0 = (n >> 24) as u8;
    let b1 = ((n >> 16) & 0xff) as u8;
    let b2 = ((n >> 8) & 0xff) as u8;
    let b3 = (n & 0xff) as u8;
    assert(((b0 as u32) << 24) | ((b1 as u32) << 16) | ((b2 as u32) << 8) | (b3 as u32) == n)
        by (bit_vector)
        requires
            b0 == (n >> 24) as u8,
            b1 == ((n >> 16) & 0xff) as u8,
            b2 == ((n >> 8) & 0xff) as u8,
            b3 == (n & 0xff) as u8,
    ;
}

/// The wire form of one message: tag, direction tag, four length bytes, then
/// the variable-length field.
pub open spec fn spec_encode_message(tag: u8, d: Direction, field: Seq<u8>) -> Seq<u8> {
    seq![tag, spec_direction_tag(d)] + spec_be32(field.len() as u32) + field
}

/// What decoding a buffer against the message tag `tag` yields: the direction
/// and the variable-length field, or the reason the buffer is rejected.
pub open spec fn spec_decode_message(tag: u8, b: Seq<u8>) -> Result<(Direction, Seq<u8>), DecodeError> {
    if b.len() < 6 {
        Err(DecodeError::Truncated)
    } else if b[0] != tag {
        Err(DecodeError::WrongMessageTag)
    } else {
        match spec_direction_of_tag(b[1]) {
            None => Err(DecodeError::UnknownDirection),
            Some(d) => {
                let len = spec_be32_value(b.subrange(2, 6)) as int;
                if b.len() < 6 + len {
                    Err(DecodeError::Truncated)
                } else if b.len() > 6 + len {
                    Err(DecodeError::TrailingBytes)
                } else {
                    Ok((d, b.subrange(6, 6 + len)))
                }
            },
        }
    }
}

pub open spec fn spec_encode_request(m: HeaderRequestView) -> Seq<u8> {
    spec_encode_message(REQUEST_TAG, m.direction, m.transaction_id)
}

pub open spec fn spec_encode_response(m: HeaderResponseView) -> Seq<u8> {
    spec_encode_message(RESPONSE_TAG, m.direction, m.header)
}

pub open spec fn spec_decode_request(b: Seq<u8>) -> Result<HeaderRequestView, DecodeError> {
    match spec_decode_message(REQUEST_TAG, b) {
        Ok((d, field)) => Ok(HeaderRequestView { direction: d, transaction_id: field }),
        Err(e) => Err(e),
    }
}

pub open spec fn spec_decode_response(b: Seq<u8>) -> Result<HeaderResponseView, DecodeError> {
    match spec_decode_message(RESPONSE_TAG, b) {
        Ok((d, field)) => Ok(HeaderResponseView { direction: d, header: field }),
        Err(e) => Err(e),
    }
}

/// Appends every byte of `src` to `dst`.
fn append_bytes(dst: &mut Vec<u8>, src: &Vec<u8>)
    ensures
        final(dst)@ == old(dst)@ + src@,
{
    let mut i: usize = 0;
    while i < src.len()
        invariant
            i <= src.len(),
            dst@ == old(dst)@ + src@.subrange(0, i as int),
        decreases src.len() - i,
    {
        dst.push(src[i]);
        assert(dst@ =~= old(dst)@ + src@.subrange(0, i + 1));
        i = i + 1;
    }
    assert(dst@ =~= old(dst)@ + src@);
}

/// Encodes one message in the common wire form.
pub(crate) fn encode_message(tag: u8, direction: Direction, field: &Vec<u8>) -> (r: Vec<u8>)
    requires
        field@.len() <= MAX_FIELD_LEN,
    ensures
        r@ == spec_encode_message(tag, direction, field@),
{
    let n = field.len() as u32;
    let mut out: Vec<u8> = Vec::new();
    out.push(tag);
    out.push(direction_tag(direction));
    out.push((n >> 24) as u8);
    out.push(((n >> 16) & 0xff) as u8);
    out.push(((n >> 8) & 0xff) as u8);
    out.push((n & 0xff) as u8);
    append_bytes(&mut out, field);
    assert(out@ =~= spec_encode_message(tag, direction, field@));
    out
}

/// Decodes one message in the common wire form against the expected tag.
fn decode_message(tag: u8, data: &[u8]) -> (r: Result<(Direction, Vec<u8>), DecodeError>)
    ensures
        match r {
            Ok((d, field)) => spec_decode_message(tag, data@) == Ok::<(Direction, Seq<u8>), DecodeError>((d, field@)),
            Err(e) => spec_decode_message(tag, data@) == Err::<(Direction, Seq<u8>), DecodeError>(e),
        },
{
    if data.len() < HEADER_LEN {
        return Err(DecodeError::Truncated);
    }
    if data[0] != tag {
        return Err(DecodeError::WrongMessageTag);
    }
    let direction = if data[1] == 0 {
        Direction::RequestPath
    } else if data[1] == 1 {
        Direction::ResponsePath
    } else {
        return Err(DecodeError::UnknownDirection);
    };
    let n = ((data[2] as u32) << 24) | ((data[3] as u32) << 16) | ((data[4] as u32) << 8)
        | (data[5] as u32);
    proof {
        let lb = data@.subrange(2, 6);
        assert(lb[0] == data@[2] && lb[1] == data@[3] && lb[2] == data@[4] && lb[3] == data@[5]);
        assert(n == spec_be32_value(data@.subrange(2, 6)));
    }
    if (data.len() as u64) < 6u64 + (n as u64) {
        return Err(DecodeError::Truncated);
    }
    if (data.len() as u64) > 6u64 + (n as u64) {
        return Err(DecodeError::TrailingBytes);
    }
    let field_len: usize = data.len() - HEADER_LEN;
    let mut field: Vec<u8> = Vec::new();
    let mut i: usize = 0;
    while i < field_len
        invariant
            i <= field_len,
            field_len == data@.len() - 6,
            field_len <= usize::MAX - 6,
            field@ == data@.subrange(6, 6 + i as int),
        decreases field_len - i,
    {
        field.push(data[HEADER_LEN + i]);
        assert(field@ =~= data@.subrange(6, 6 + (i + 1)));
        i = i + 1;
    }
    assert(field@ =~= data@.subrange(6, 6 + n as int));
    Ok((direction, field))
}

/// Encodes a `HeaderRequest` in the deterministic wire form.
pub fn encode_request(m: &HeaderRequest) -> (r: Vec<u8>)
    requires
        m.transaction_id@.len() <= MAX_FIELD_LEN,
    ensures
        r@ == spec_encode_request(m@),
{
    encode_message(REQUEST_TAG, m.direction, &m.transaction_id)
}

/// Encodes a `HeaderResponse` in the deterministic wire form.
pub fn encode_response(m: &HeaderResponse) -> (r: Vec<u8>)
    requires
        m.header@.len() <= MAX_FIELD_LEN,
    ensures
        r@ == spec_encode_response(m@),
{
    encode_message(RESPONSE_TAG, m.direction, &m.header)
}

/// Decodes a `HeaderRequest`, rejecting anything but an exact encoding.
pub fn decode_request(data: &[u8]) -> (r: Result<HeaderRequest, DecodeError>)
    ensures
        match r {
            Ok(m) => spec_decode_request(data@) == Ok::<HeaderRequestView, DecodeError>(m@),
            Err(e) => spec_decode_request(data@) == Err::<HeaderRequestView, DecodeError>(e),
        },
{
    match decode_message(REQUEST_TAG, data) {
        Ok((direction, field)) => Ok(HeaderRequest { direction, transaction_id: field }),
        Err(e) => Err(e),
    }
}

/// Decodes a `HeaderResponse`, rejecting anything but an exact encoding.
pub fn decode_response(data: &[u8]) -> (r: Result<HeaderResponse, DecodeError>)
    ensures
        match r {
            Ok(m) => spec_decode_response(data@) == Ok::<HeaderResponseView, DecodeError>(m@),
            Err(e) => spec_decode_response(data@) == Err::<HeaderResponseView, DecodeError>(e),
        },
{
    match decode_message(RESPONSE_TAG, data) {
        Ok((direction, field)) => Ok(HeaderResponse { direction, header: field }),
        Err(e) => Err(e),
    }
}

proof fn lemma_be32_extract(b0: u8, b1: u8, b2: u8, b3: u8)
    ensures
        ({
            let n = ((b0 as u32) << 24) | ((b1 as u32) << 16) | ((b2 as u32) << 8) | (b3 as u32);
            &&& (n >> 24) as u8 == b0
            &&& ((n >> 16) & 0xff) as u8 == b1
            &&& ((n >> 8) & 0xff) as u8 == b2
            &&& (n & 0xff) as u8 == b3
        }),
{
    let n = ((b0 as u32) << 24) | ((b1 as u32) << 16) | ((b2 as u32) << 8) | (b3 as u32);
    assert((n >> 24) as u8 == b0 && ((n >> 16) & 0xff) as u8 == b1 && ((n >> 8) & 0xff) as u8
        == b2 && (n & 0xff) as u8 == b3) by (bit_vector)
        requires
            n == ((b0 as u32) << 24) | ((b1 as u32) << 16) | ((b2 as u32) << 8) | (b3 as u32),
    ;
}

/// Law: only an exact encoding decodes: a buffer that decodes against `tag`
/// to some direction and field is precisely the encoding of that direction
/// and field, so nothing is ever invented or defaulted.
pub proof fn lemma_decode_sound(tag: u8, b: Seq<u8>)
    requires
        spec_decode_message(tag, b) is Ok,
    ensures
        ({
            let (d, field) = spec_decode_message(tag, b)->Ok_0;
            b == spec_encode_message(tag, d, field)
        }),
{
    let (d, field) = spec_decode_message(tag, b)->Ok_0;
    let lb = b.subrange(2, 6);
    assert(lb[0] == b[2] && lb[1] == b[3] && lb[2] == b[4] && lb[3] == b[5]);
    let n = spec_be32_value(lb);
    lemma_be32_extract(b[2], b[3], b[4], b[5]);
    assert(field.len() == n);
    assert(spec_be32(field.len() as u32) =~= lb);
    assert(spec_direction_of_tag(b[1]) == Some(d));
    assert(spec_direction_tag(d) == b[1]);
    assert(spec_encode_message(tag, d, field) =~= b);
}

/// Law: decoding an encoded message gives back exactly the direction and
/// field that were encoded, for every direction and every field that fits
/// the length prefix.
pub proof fn lemma_message_round_trip(tag: u8, d: Direction, field: Seq<u8>)
    requires
        field.len() <= MAX_FIELD_LEN,
    ensures
        spec_decode_message(tag, spec_encode_message(tag, d, field)) == Ok::<(Direction, Seq<u8>), DecodeError>((d, field)),
{
    let b = spec_encode_message(tag, d, field);
    lemma_be32_round_trip(field.len() as u32);
    assert(b.len() == 6 + field.len());
    assert(b[0] == tag);
    assert(b[1] == spec_direction_tag(d));
    assert(spec_direction_of_tag(spec_direction_tag(d)) == Some(d));
    assert(b.subrange(2, 6) =~= spec_be32(field.len() as u32));
    assert(spec_be32_value(b.subrange(2, 6)) == field.len());
    assert(b.subrange(6, 6 + field.len() as int) =~= field);
}

/// Law: a request decodes back to the request that was encoded.
pub proof fn lemma_request_round_trip(m: HeaderRequestView)
    requires
        m.transaction_id.len() <= MAX_FIELD_LEN,
    ensures
        spec_decode_request(spec_encode_request(m)) == Ok::<HeaderRequestView, DecodeError>(m),
{
    lemma_message_round_trip(REQUEST_TAG, m.direction, m.transaction_id);
}

/// Law: a response decodes back to the response that was encoded.
pub proof fn lemma_response_round_trip(m: HeaderResponseView)
    requires
        m.header.len() <= MAX_FIELD_LEN,
    ensures
        spec_decode_response(spec_encode_response(m)) == Ok::<HeaderResponseView, DecodeError>(m),
{
    lemma_message_round_trip(RESPONSE_TAG, m.direction, m.header);
}

} // verus!
