//! The fixed-capacity buffer in which a DMA transfer is staged.
//!
//! The buffer is a `heapless::Vec`. Verus does not look inside it: what it
//! holds is named by [`staged`], and each operation used on it is given
//! the contract that the `heapless` source shows for it.

use vstd::prelude::*;

verus! {

/// Capacity of the staging buffer in bytes.
pub const STAGING_CAPACITY: usize = 255;

#[verifier::external_type_specification]
#[verifier::external_body]
#[verifier::reject_recursive_types(T)]
pub struct ExHeaplessVec<T, const N: usize>(heapless::Vec<T, N>);

/// The bytes a staging buffer holds, first to last.
pub uninterp spec fn staged(buffer: heapless::Vec<u8, 255>) -> Seq<u8>;

/// `heapless::Vec::new`: a buffer that holds nothing.
#[verifier::external_body]
pub(crate) fn new_buffer() -> (buffer: heapless::Vec<u8, 255>)
    ensures
        staged(buffer) == Seq::<u8>::empty(),
{
    heapless::Vec::new()
}

/// `heapless::Vec::clear`: afterwards the buffer holds nothing.
#[verifier::external_body]
pub(crate) fn clear(buffer: &mut heapless::Vec<u8, 255>)
    ensures
        staged(*final(buffer)) == Seq::<u8>::empty(),
{
    buffer.clear()
}

/// `heapless::Vec::extend_from_slice`: if the bytes of `other` fit in the
/// free capacity they are appended in order and the call is `Ok`;
/// otherwise the buffer is left as it was and the call is `Err`.
#[verifier::external_body]
pub(crate) fn extend_from_slice(buffer: &mut heapless::Vec<u8, 255>, other: &[u8]) -> (fit: Result<
    (),
    (),
>)
    ensures
        fit is Ok <==> staged(*old(buffer)).len() + other@.len() <= STAGING_CAPACITY,
        fit is Ok ==> staged(*final(buffer)) == staged(*old(buffer)) + other@,
        fit is Err ==> staged(*final(buffer)) == staged(*old(buffer)),
{
    buffer.extend_from_slice(other)
}

/// `heapless::Vec::as_slice`: the bytes held, as a slice.
#[verifier::external_body]
pub(crate) fn as_slice(buffer: &heapless::Vec<u8, 255>) -> (bytes: &[u8])
    ensures
        bytes@ == staged(*buffer),
{
    buffer.as_slice()
}

} // verus!
