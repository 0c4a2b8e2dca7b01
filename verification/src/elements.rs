//! The list of blinded elements of a token request. It lives in the codec's
//! vector type with a two-byte length prefix; this module is the only place
//! that touches that type, and it says what each of its methods does.

use tls_codec::TlsVecU16;
use vstd::prelude::*;

verus! {

/// The codec's vector type. Its inside is reached through its methods only.
#[verifier::external_type_specification]
#[verifier::external_body]
#[verifier::reject_recursive_types(T)]
pub struct ExTlsVecU16<T>(TlsVecU16<T>);

/// The elements that a list holds, first to last.
pub uninterp spec fn held(list: TlsVecU16<[u8; 32]>) -> Seq<[u8; 32]>;

/// `TlsVecU16::new`: the list takes over the vector as it is, so it holds the
/// same elements in the same order.
#[verifier::external_body]
pub(crate) fn list_of(elements: Vec<[u8; 32]>) -> (list: TlsVecU16<[u8; 32]>)
    ensures
        held(list) == elements@,
{
    TlsVecU16::new(elements)
}

/// `TlsVecU16::len`: the number of elements held.
#[verifier::external_body]
pub(crate) fn list_len(list: &TlsVecU16<[u8; 32]>) -> (n: usize)
    ensures
        n == held(*list).len(),
{
    list.len()
}

/// `TlsVecU16::pop`: takes the last element off and returns it; on an empty
/// list nothing changes and nothing is returned.
#[verifier::external_body]
pub(crate) fn list_pop(list: &mut TlsVecU16<[u8; 32]>) -> (last: Option<[u8; 32]>)
    ensures
        held(*old(list)).len() == 0 ==> last is None && held(*final(list)) == held(*old(list)),
        held(*old(list)).len() > 0 ==> last == Some(held(*old(list)).last()) && held(*final(list))
            == held(*old(list)).drop_last(),
{
    list.pop()
}

/// `TlsVecU16::as_slice`: a view of the elements held, in order.
#[verifier::external_body]
pub(crate) fn list_slice(list: &TlsVecU16<[u8; 32]>) -> (elements: &[[u8; 32]])
    ensures
        elements@ == held(*list),
{
    list.as_slice()
}

} // verus!
