//! The byte layout of a token request: a two-byte token type, a one-byte
//! truncated key identifier, then the blinded elements behind a two-byte
//! count of the bytes they take. Numbers are big-endian.

use vstd::prelude::*;

verus! {

/// Bytes that one blinded element takes.
pub const ELEMENT_SIZE: usize = 32;

/// Bytes in front of the elements: token type, key identifier, length prefix.
pub const HEADER_SIZE: usize = 5;

/// The most elements whose bytes a two-byte length prefix can count.
pub const MAX_ELEMENTS: usize = 2047;

/// What a token request says, apart from how it is stored.
pub struct RequestView {
    pub token_type: u16,
    pub truncated_token_key_id: u8,
    pub blinded_elements: Seq<Seq<u8>>,
}

/// Why bytes are no token request, or a token request has no bytes.
#[derive(Clone, Copy, Debug, PartialEq, Eq)]
pub enum CodecError {
    /// The buffer ends before the request does, or the length prefix cuts the
    /// last element short.
    EndOfStream,
    /// Bytes follow the request.
    TrailingData,
    /// The elements take more bytes than the length prefix can count.
    InvalidVectorLength,
}

/// The two bytes of a number, high byte first.
pub open spec fn be16(value: u16) -> Seq<u8> {
    seq![(value / 256) as u8, (value % 256) as u8]
}

/// The number that two bytes stand for, high byte first.
pub open spec fn be16_value(high: u8, low: u8) -> u16 {
    (high * 256 + low) as u16
}

/// Every element is of the fixed size.
pub open spec fn well_sized(elements: Seq<Seq<u8>>) -> bool {
    forall|k: int| 0 <= k < elements.len() ==> (#[trigger] elements[k]).len() == ELEMENT_SIZE
}

/// The elements' bytes one after the other.
pub open spec fn flatten(elements: Seq<Seq<u8>>) -> Seq<u8> {
    Seq::new(elements.len() * ELEMENT_SIZE as nat, |i: int| elements[i / 32][i % 32])
}

/// The bytes cut into elements of the fixed size; a rest is left out.
pub open spec fn chunks(bytes: Seq<u8>) -> Seq<Seq<u8>> {
    Seq::new(
        (bytes.len() / ELEMENT_SIZE as nat) as nat,
        |k: int| bytes.subrange(32 * k, 32 * k + 32),
    )
}

/// A request that has a byte form: its elements are of the fixed size and
/// their bytes can be counted in two bytes.
pub open spec fn encodable(request: RequestView) -> bool {
    &&& well_sized(request.blinded_elements)
    &&& request.blinded_elements.len() <= MAX_ELEMENTS
}

/// The byte form of a request.
pub open spec fn wire_of(request: RequestView) -> Seq<u8> {
    be16(request.token_type) + seq![request.truncated_token_key_id] + be16(
        (request.blinded_elements.len() * ELEMENT_SIZE as nat) as u16,
    ) + flatten(request.blinded_elements)
}

/// The request that bytes stand for. The bytes must be used up exactly.
pub open spec fn parse(bytes: Seq<u8>) -> Result<RequestView, CodecError> {
    if bytes.len() < HEADER_SIZE {
        Err(CodecError::EndOfStream)
    } else {
        let declared = be16_value(bytes[3], bytes[4]) as int;
        if bytes.len() < HEADER_SIZE + declared {
            Err(CodecError::EndOfStream)
        } else if bytes.len() > HEADER_SIZE + declared {
            Err(CodecError::TrailingData)
        } else if declared % 32 != 0 {
            Err(CodecError::EndOfStream)
        } else {
            Ok(
                RequestView {
                    token_type: be16_value(bytes[0], bytes[1]),
                    truncated_token_key_id: bytes[2],
                    blinded_elements: chunks(bytes.skip(HEADER_SIZE as int)),
                },
            )
        }
    }
}

/// Joins two bytes into a number, high byte first.
pub fn read_be16(high: u8, low: u8) -> (value: u16)
    ensures
        value == be16_value(high, low),
{
    (high as u16) * 256 + (low as u16)
}

/// Appends the two bytes of a number, high byte first.
pub fn write_be16(bytes: &mut Vec<u8>, value: u16)
    ensures
        final(bytes)@ == old(bytes)@ + be16(value),
{
    bytes.push((value / 256) as u8);
    bytes.push((value % 256) as u8);
    assert(bytes@ =~= old(bytes)@ + be16(value));
}

/// Splitting a number into two bytes and joining them gives the number back.
pub proof fn lemma_be16_round_trip(value: u16)
    ensures
        be16(value).len() == 2,
        be16_value(be16(value)[0], be16(value)[1]) == value,
{
}

/// Cutting the joined bytes of well sized elements gives the elements back.
pub proof fn lemma_chunks_of_flatten(elements: Seq<Seq<u8>>)
    requires
        well_sized(elements),
    ensures
        flatten(elements).len() == elements.len() * 32,
        chunks(flatten(elements)) == elements,
{
    let flat = flatten(elements);
    assert(chunks(flat).len() == elements.len());
    assert forall|k: int| 0 <= k < elements.len() implies chunks(flat)[k] == elements[k] by {
        let piece = flat.subrange(32 * k, 32 * k + 32);
        assert(piece.len() == elements[k].len());
        assert forall|j: int| 0 <= j < 32 implies piece[j] == elements[k][j] by {
            assert((32 * k + j) / 32 == k);
            assert((32 * k + j) % 32 == j);
        }
        assert(piece =~= elements[k]);
    }
    assert(chunks(flat) =~= elements);
}

/// Joining the pieces of bytes whose count is a multiple of the element size
/// gives the bytes back.
pub proof fn lemma_flatten_of_chunks(bytes: Seq<u8>)
    requires
        bytes.len() % 32 == 0,
    ensures
        well_sized(chunks(bytes)),
        flatten(chunks(bytes)) == bytes,
{
    let pieces = chunks(bytes);
    assert(well_sized(pieces));
    assert(flatten(pieces).len() == bytes.len());
    assert forall|i: int| 0 <= i < bytes.len() implies flatten(pieces)[i] == bytes[i] by {
        assert(32 * (i / 32) + i % 32 == i);
    }
    assert(flatten(pieces) =~= bytes);
}

/// The byte form of an encodable request stands for that request.
pub proof fn law_parse_of_wire(request: RequestView)
    requires
        encodable(request),
    ensures
        parse(wire_of(request)) == Ok::<RequestView, CodecError>(request),
{
    let bytes = wire_of(request);
    let count = (request.blinded_elements.len() * 32) as u16;
    lemma_be16_round_trip(request.token_type);
    lemma_be16_round_trip(count);
    lemma_chunks_of_flatten(request.blinded_elements);
    assert(bytes.skip(5) =~= flatten(request.blinded_elements));
    assert(bytes[0] == be16(request.token_type)[0]);
    assert(bytes[1] == be16(request.token_type)[1]);
    assert(bytes[3] == be16(count)[0]);
    assert(bytes[4] == be16(count)[1]);
}

/// Bytes that stand for a request are the byte form of that request, and of
/// no other: a request has one byte form only.
pub proof fn law_wire_of_parse(bytes: Seq<u8>)
    requires
        parse(bytes) is Ok,
    ensures
        encodable(parse(bytes)->Ok_0),
        wire_of(parse(bytes)->Ok_0) == bytes,
{
    let request = parse(bytes)->Ok_0;
    let tail = bytes.skip(5);
    lemma_flatten_of_chunks(tail);
    lemma_be16_round_trip(be16_value(bytes[0], bytes[1]));
    lemma_be16_round_trip(be16_value(bytes[3], bytes[4]));
    assert(be16(be16_value(bytes[0], bytes[1])) =~= seq![bytes[0], bytes[1]]);
    assert(be16(be16_value(bytes[3], bytes[4])) =~= seq![bytes[3], bytes[4]]);
    assert(wire_of(request) =~= bytes);
}

} // verus!
