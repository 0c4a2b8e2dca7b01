//! Token requests: the form with a list that can be shortened, and the
//! checked byte form that is handed on for blind evaluation.

use crate::elements::{held, list_len, list_of, list_pop, list_slice};
use crate::wire::{
    be16, chunks, encodable, flatten, law_parse_of_wire, law_wire_of_parse, parse, read_be16,
    well_sized, wire_of, write_be16, CodecError, RequestView, ELEMENT_SIZE, HEADER_SIZE,
    MAX_ELEMENTS,
};
use tls_codec::TlsVecU16;
use vstd::prelude::*;
use vstd::slice::slice_to_vec;

verus! {

/// The byte sequences of a list of elements.
pub open spec fn element_bytes(elements: Seq<[u8; 32]>) -> Seq<Seq<u8>> {
    Seq::new(elements.len(), |k: int| elements[k]@)
}

/// A request as `max_elements` leaves it: the first `max_elements` blinded
/// elements in their order, or all of them where there are no more.
pub open spec fn governed(request: RequestView, max_elements: nat) -> RequestView {
    RequestView {
        token_type: request.token_type,
        truncated_token_key_id: request.truncated_token_key_id,
        blinded_elements: if request.blinded_elements.len() <= max_elements {
            request.blinded_elements
        } else {
            request.blinded_elements.take(max_elements as int)
        },
    }
}

/// A token request whose list of blinded elements can be shortened.
#[derive(Debug)]
pub struct MyTokenRequest {
    token_type: u16,
    truncated_token_key_id: u8,
    blinded_elements: TlsVecU16<[u8; 32]>,
}

impl View for MyTokenRequest {
    type V = RequestView;

    closed spec fn view(&self) -> RequestView {
        RequestView {
            token_type: self.token_type,
            truncated_token_key_id: self.truncated_token_key_id,
            blinded_elements: element_bytes(held(self.blinded_elements)),
        }
    }
}

impl MyTokenRequest {
    /// A request of the given parts.
    pub fn new(
        token_type: u16,
        truncated_token_key_id: u8,
        blinded_elements: Vec<[u8; 32]>,
    ) -> (request: Self)
        ensures
            request@.token_type == token_type,
            request@.truncated_token_key_id == truncated_token_key_id,
            request@.blinded_elements == element_bytes(blinded_elements@),
            well_sized(request@.blinded_elements),
    {
        MyTokenRequest {
            token_type,
            truncated_token_key_id,
            blinded_elements: list_of(blinded_elements),
        }
    }

    /// Every element of a request has the fixed size.
    pub proof fn lemma_well_sized(&self)
        ensures
            well_sized(self@.blinded_elements),
    {
    }

    /// The token type that the request names.
    pub fn token_type(&self) -> (token_type: u16)
        ensures
            token_type == self@.token_type,
    {
        self.token_type
    }

    /// The truncated identifier of the key that the request asks for.
    pub fn truncated_token_key_id(&self) -> (id: u8)
        ensures
            id == self@.truncated_token_key_id,
    {
        self.truncated_token_key_id
    }

    /// The blinded elements, first to last.
    pub fn blinded_elements(&self) -> (elements: Vec<[u8; 32]>)
        ensures
            element_bytes(elements@) == self@.blinded_elements,
    {
        let held_elements = list_slice(&self.blinded_elements);
        let mut elements: Vec<[u8; 32]> = Vec::new();
        let mut k: usize = 0;
        while k < held_elements.len()
            invariant
                k <= held_elements.len(),
                elements@ == held_elements@.take(k as int),
            decreases held_elements.len() - k,
        {
            elements.push(held_elements[k]);
            k += 1;
            assert(elements@ =~= held_elements@.take(k as int));
        }
        assert(elements@ =~= held_elements@);
        elements
    }

    /// Reads a request from its byte form. The bytes must be used up exactly:
    /// a buffer that ends early, or goes on after the request, is refused.
    pub fn tls_deserialize(bytes: &[u8]) -> (read: Result<Self, CodecError>)
        ensures
            match read {
                Ok(request) => parse(bytes@) == Ok::<RequestView, CodecError>(request@),
                Err(error) => parse(bytes@) == Err::<RequestView, CodecError>(error),
            },
    {
        if bytes.len() < HEADER_SIZE {
            return Err(CodecError::EndOfStream);
        }
        let token_type: u16 = read_be16(bytes[0], bytes[1]);
        let truncated_token_key_id: u8 = bytes[2];
        let declared: usize = read_be16(bytes[3], bytes[4]) as usize;
        if bytes.len() - HEADER_SIZE < declared {
            return Err(CodecError::EndOfStream);
        }
        if bytes.len() - HEADER_SIZE > declared {
            return Err(CodecError::TrailingData);
        }
        if declared % ELEMENT_SIZE != 0 {
            return Err(CodecError::EndOfStream);
        }
        let count: usize = declared / ELEMENT_SIZE;
        let ghost tail = bytes@.skip(HEADER_SIZE as int);
        let mut elements: Vec<[u8; 32]> = Vec::new();
        let mut k: usize = 0;
        while k < count
            invariant
                k <= count,
                count * 32 == declared,
                bytes.len() == HEADER_SIZE + declared,
                tail == bytes@.skip(HEADER_SIZE as int),
                chunks(tail).len() == count,
                elements@.len() == k,
                element_bytes(elements@) == chunks(tail).take(k as int),
            decreases count - k,
        {
            let start: usize = HEADER_SIZE + k * ELEMENT_SIZE;
            let mut element: [u8; 32] = [0u8; 32];
            let mut j: usize = 0;
            while j < ELEMENT_SIZE
                invariant
                    j <= ELEMENT_SIZE,
                    start + ELEMENT_SIZE <= bytes.len(),
                    forall|i: int| 0 <= i < j ==> element@[i] == bytes@[start + i],
                decreases ELEMENT_SIZE - j,
            {
                element[j] = bytes[start + j];
                j += 1;
            }
            assert(element@ =~= chunks(tail)[k as int]);
            let ghost before = elements@;
            elements.push(element);
            k += 1;
            assert(element_bytes(elements@) =~= chunks(tail).take(k as int)) by {
                assert forall|i: int| 0 <= i < k implies element_bytes(elements@)[i] == chunks(
                    tail,
                ).take(k as int)[i] by {
                    if i < k - 1 {
                        assert(elements@[i] == before[i]);
                        assert(element_bytes(before)[i] == chunks(tail).take(k - 1)[i]);
                    }
                }
            }
        }
        assert(element_bytes(elements@) =~= chunks(tail));
        Ok(
            MyTokenRequest {
                token_type,
                truncated_token_key_id,
                blinded_elements: list_of(elements),
            },
        )
    }

    /// Writes the request in its byte form. A request with more elements than
    /// a two-byte length prefix can count has none.
    pub fn tls_serialize_detached(&self) -> (written: Result<Vec<u8>, CodecError>)
        ensures
            match written {
                Ok(bytes) => encodable(self@) && bytes@ == wire_of(self@),
                Err(error) => !encodable(self@) && error == CodecError::InvalidVectorLength,
            },
    {
        let elements = list_slice(&self.blinded_elements);
        let count: usize = elements.len();
        if count > MAX_ELEMENTS {
            return Err(CodecError::InvalidVectorLength);
        }
        let byte_count: u16 = (count * ELEMENT_SIZE) as u16;
        let mut bytes: Vec<u8> = Vec::new();
        write_be16(&mut bytes, self.token_type);
        bytes.push(self.truncated_token_key_id);
        write_be16(&mut bytes, byte_count);
        let ghost head = bytes@;
        let ghost all = element_bytes(elements@);
        assert(head =~= be16(self.token_type) + seq![self.truncated_token_key_id] + be16(
            byte_count,
        ));
        let mut k: usize = 0;
        while k < count
            invariant
                k <= count,
                count == elements@.len(),
                count <= MAX_ELEMENTS,
                all == element_bytes(elements@),
                bytes@ == head + flatten(all.take(k as int)),
            decreases count - k,
        {
            let element: [u8; 32] = elements[k];
            let ghost so_far = bytes@;
            let mut j: usize = 0;
            while j < ELEMENT_SIZE
                invariant
                    j <= ELEMENT_SIZE,
                    bytes@ == so_far + element@.take(j as int),
                decreases ELEMENT_SIZE - j,
            {
                bytes.push(element[j]);
                j += 1;
                assert(bytes@ =~= so_far + element@.take(j as int));
            }
            k += 1;
            assert(bytes@ =~= head + flatten(all.take(k as int))) by {
                let longer = flatten(all.take(k as int));
                let shorter = flatten(all.take(k - 1));
                assert(longer.len() == shorter.len() + 32);
                assert forall|i: int| 0 <= i < longer.len() implies longer[i] == (shorter
                    + element@)[i] by {
                    if i >= shorter.len() {
                        assert(i / 32 == k - 1);
                        assert(i % 32 == i - shorter.len());
                    }
                }
                assert(longer =~= shorter + element@);
                assert(element@.take(32) =~= element@);
            }
        }
        assert(all.take(count as int) =~= all);
        Ok(bytes)
    }

    /// Returns the number of blinded elements
    #[must_use]
    pub fn nr(&self) -> (n: usize)
        ensures
            n == self@.blinded_elements.len(),
    {
        list_len(&self.blinded_elements)
    }

    /// Drops elements from the end until at most `max_elements` are left.
    /// The elements that stay keep their order.
    pub fn truncate(&mut self, max_elements: usize)
        ensures
            final(self)@ == governed(old(self)@, max_elements as nat),
    {
        let n = self.nr();
        if n <= max_elements {
            assert(self@.blinded_elements =~= governed(
                self@,
                max_elements as nat,
            ).blinded_elements);
            return ;
        }
        let ghost before = held(self.blinded_elements);
        let mut left: usize = n;
        while left > max_elements
            invariant
                max_elements <= left <= n,
                n == before.len(),
                held(self.blinded_elements) == before.take(left as int),
                self.token_type == old(self).token_type,
                self.truncated_token_key_id == old(self).truncated_token_key_id,
            decreases left,
        {
            let _ = list_pop(&mut self.blinded_elements);
            left -= 1;
            assert(before.take(left + 1).drop_last() =~= before.take(left as int));
        }
        assert(self@.blinded_elements =~= governed(
            old(self)@,
            max_elements as nat,
        ).blinded_elements);
    }

    /// The request in its checked byte form, for blind evaluation. A request
    /// with more elements than a two-byte length prefix can count has none.
    pub fn to_token_request(&self) -> (converted: Result<TokenRequest, CodecError>)
        ensures
            match converted {
                Ok(request) => encodable(self@) && request@ == self@,
                Err(error) => !encodable(self@) && error == CodecError::InvalidVectorLength,
            },
    {
        match self.tls_serialize_detached() {
            Ok(bytes) => {
                proof {
                    law_parse_of_wire(self@);
                }
                Ok(TokenRequest { bytes })
            },
            Err(error) => Err(error),
        }
    }
}

/// A token request in its checked byte form: the bytes are known to stand
/// for a request. This is what blind evaluation is asked with.
#[derive(Debug)]
pub struct TokenRequest {
    bytes: Vec<u8>,
}

impl View for TokenRequest {
    type V = RequestView;

    closed spec fn view(&self) -> RequestView {
        parse(self.bytes@)->Ok_0
    }
}

impl TokenRequest {
    #[verifier::type_invariant]
    spec fn well_formed(self) -> bool {
        parse(self.bytes@) is Ok
    }

    /// Checks that the bytes stand for a request and keeps them. The bytes
    /// must be used up exactly.
    pub fn tls_deserialize(bytes: &[u8]) -> (read: Result<Self, CodecError>)
        ensures
            match read {
                Ok(request) => parse(bytes@) == Ok::<RequestView, CodecError>(request@),
                Err(error) => parse(bytes@) == Err::<RequestView, CodecError>(error),
            },
    {
        if bytes.len() < HEADER_SIZE {
            return Err(CodecError::EndOfStream);
        }
        let declared: usize = read_be16(bytes[3], bytes[4]) as usize;
        if bytes.len() - HEADER_SIZE < declared {
            return Err(CodecError::EndOfStream);
        }
        if bytes.len() - HEADER_SIZE > declared {
            return Err(CodecError::TrailingData);
        }
        if declared % ELEMENT_SIZE != 0 {
            return Err(CodecError::EndOfStream);
        }
        let kept = slice_to_vec(bytes);
        Ok(TokenRequest { bytes: kept })
    }

    /// The number of blinded elements.
    #[must_use]
    pub fn nr(&self) -> (n: usize)
        ensures
            n == self@.blinded_elements.len(),
            encodable(self@),
    {
        proof {
            use_type_invariant(self);
            law_wire_of_parse(self.bytes@);
        }
        (self.bytes.len() - HEADER_SIZE) / ELEMENT_SIZE
    }

    /// The byte form of the request.
    pub fn as_bytes(&self) -> (bytes: &[u8])
        ensures
            bytes@ == wire_of(self@),
            parse(bytes@) == Ok::<RequestView, CodecError>(self@),
    {
        proof {
            use_type_invariant(self);
            law_wire_of_parse(self.bytes@);
        }
        self.bytes.as_slice()
    }
}

/// Holds a request to the limit of `max_elements` blinded elements: one
/// within the limit is returned as it is, a longer one loses the elements
/// behind the first `max_elements`, and the rest keep their order.
pub fn govern(request: TokenRequest, max_elements: usize) -> (within: TokenRequest)
    ensures
        within@ == governed(request@, max_elements as nat),
{
    if request.nr() <= max_elements {
        return request;
    }
    match MyTokenRequest::tls_deserialize(request.as_bytes()) {
        Ok(mut shortened) => {
            shortened.truncate(max_elements);
            match shortened.to_token_request() {
                Ok(within) => within,
                Err(_) => {
                    proof {
                        shortened.lemma_well_sized();
                    }
                    request
                },
            }
        },
        Err(_) => request,
    }
}

} // verus!
