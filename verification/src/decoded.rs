//! The decoded text that the main screen shows, in a fixed-capacity buffer.

use vstd::prelude::*;

verus! {

/// The fixed-capacity vector of the `heapless` crate.
#[verifier::external_type_specification]
#[verifier::external_body]
#[verifier::reject_recursive_types(T)]
pub struct ExHeaplessVec<T, const N: usize>(heapless::Vec<T, N>);

/// How many decoded bytes are kept.
pub const HISTORY_CAPACITY: usize = 32;

/// The bytes that the buffer holds, oldest first.
pub uninterp spec fn decoded_bytes(decoded: heapless::Vec<u8, 32>) -> Seq<u8>;

/// `heapless::Vec::new`: the new vector is empty.
#[verifier::external_body]
pub(crate) fn decoded_new() -> (decoded: heapless::Vec<u8, 32>)
    ensures
        decoded_bytes(decoded) == Seq::<u8>::empty(),
{
    heapless::Vec::new()
}

/// `heapless::Vec::clear`: the vector is empty afterwards. It does not
/// panic.
#[verifier::external_body]
pub(crate) fn decoded_clear(decoded: &mut heapless::Vec<u8, 32>)
    ensures
        decoded_bytes(*final(decoded)) == Seq::<u8>::empty(),
    no_unwind
{
    decoded.clear()
}

/// `heapless::Vec::extend_from_slice`: appends all of the slice if it still
/// fits the capacity, and otherwise fails and changes nothing. It does not
/// panic.
#[verifier::external_body]
pub(crate) fn decoded_extend(decoded: &mut heapless::Vec<u8, 32>, bytes: &[u8]) -> (r: Result<
    (),
    (),
>)
    ensures
        decoded_bytes(*old(decoded)).len() + bytes@.len() <= HISTORY_CAPACITY ==> r is Ok
            && decoded_bytes(*final(decoded)) == decoded_bytes(*old(decoded)) + bytes@,
        decoded_bytes(*old(decoded)).len() + bytes@.len() > HISTORY_CAPACITY ==> r is Err
            && decoded_bytes(*final(decoded)) == decoded_bytes(*old(decoded)),
    no_unwind
{
    decoded.extend_from_slice(bytes)
}

/// `heapless::Vec::as_slice`: the elements of the vector, in order.
#[verifier::external_body]
pub(crate) fn decoded_slice(decoded: &heapless::Vec<u8, 32>) -> (bytes: &[u8])
    ensures
        bytes@ == decoded_bytes(*decoded),
{
    decoded.as_slice()
}

} // verus!
