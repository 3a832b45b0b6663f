//! Trusted declarations of the fixed-capacity containers from the outside
//! crates `arrayvec` and `bitvec`, with contracts over their contents.

use vstd::prelude::*;

verus! {

#[verifier::external_type_specification]
#[verifier::external_body]
#[verifier::reject_recursive_types(T)]
pub struct ExArrayVec<T, const CAP: usize>(arrayvec::ArrayVec<T, CAP>);

/// The bytes held by a capacity-38 `arrayvec::ArrayVec`, in order.
pub uninterp spec fn buf_seq(a: arrayvec::ArrayVec<u8, 38>) -> Seq<u8>;

/// Relies on `arrayvec::ArrayVec::new`: a fresh vector is empty.
#[verifier::external_body]
pub(crate) fn buf_new() -> (r: arrayvec::ArrayVec<u8, 38>)
    ensures
        buf_seq(r) == Seq::<u8>::empty(),
{
    arrayvec::ArrayVec::new()
}

/// Relies on `arrayvec::ArrayVec::len`: the number of elements held,
/// which never exceeds the capacity.
#[verifier::external_body]
pub(crate) fn buf_len(a: &arrayvec::ArrayVec<u8, 38>) -> (r: usize)
    ensures
        r == buf_seq(*a).len(),
        r <= 38,
{
    a.len()
}

/// Relies on the slice indexing that `arrayvec::ArrayVec` dereferences to.
#[verifier::external_body]
pub(crate) fn buf_get(a: &arrayvec::ArrayVec<u8, 38>, i: usize) -> (r: u8)
    requires
        i < buf_seq(*a).len(),
    ensures
        r == buf_seq(*a)[i as int],
{
    a[i]
}

/// Relies on the mutable slice indexing that `arrayvec::ArrayVec`
/// dereferences to.
#[verifier::external_body]
pub(crate) fn buf_set(a: &mut arrayvec::ArrayVec<u8, 38>, i: usize, v: u8)
    requires
        i < buf_seq(*old(a)).len(),
    ensures
        buf_seq(*final(a)) == buf_seq(*old(a)).update(i as int, v),
{
    a[i] = v;
}

/// Relies on `arrayvec::ArrayVec::push`: appends one element; panics only
/// when the vector is full.
#[verifier::external_body]
pub(crate) fn buf_push(a: &mut arrayvec::ArrayVec<u8, 38>, v: u8)
    requires
        buf_seq(*old(a)).len() < 38,
    ensures
        buf_seq(*final(a)) == buf_seq(*old(a)).push(v),
{
    a.push(v);
}

/// The item ids held by a capacity-8 `arrayvec::ArrayVec`, in order.
pub uninterp spec fn item_seq(a: arrayvec::ArrayVec<u8, 8>) -> Seq<u8>;

/// Relies on `arrayvec::ArrayVec::new`: a fresh vector is empty.
#[verifier::external_body]
pub(crate) fn items_new() -> (r: arrayvec::ArrayVec<u8, 8>)
    ensures
        item_seq(r) == Seq::<u8>::empty(),
{
    arrayvec::ArrayVec::new()
}

/// Relies on `arrayvec::ArrayVec::len`: the number of elements held,
/// which never exceeds the capacity.
#[verifier::external_body]
pub(crate) fn items_len(a: &arrayvec::ArrayVec<u8, 8>) -> (r: usize)
    ensures
        r == item_seq(*a).len(),
        r <= 8,
{
    a.len()
}

/// Relies on the slice indexing that `arrayvec::ArrayVec` dereferences to.
#[verifier::external_body]
pub(crate) fn items_get(a: &arrayvec::ArrayVec<u8, 8>, i: usize) -> (r: u8)
    requires
        i < item_seq(*a).len(),
    ensures
        r == item_seq(*a)[i as int],
{
    a[i]
}

/// Relies on `arrayvec::ArrayVec::push`: appends one element; panics only
/// when the vector is full.
#[verifier::external_body]
pub(crate) fn items_push(a: &mut arrayvec::ArrayVec<u8, 8>, v: u8)
    requires
        item_seq(*old(a)).len() < 8,
    ensures
        item_seq(*final(a)) == item_seq(*old(a)).push(v),
{
    a.push(v);
}

/// A fixed 192-bit store backed by a `bitvec` array over three `usize`
/// words, most significant bit of the first word first. Verus cannot take
/// the bounds on `bitvec::array::BitArray`'s generics, so the array is held
/// opaquely here and spoken of only through `bits_seq`.
#[verifier::external_body]
pub struct BitStore {
    inner: bitvec::array::BitArray<[usize; 3], bitvec::order::Msb0>,
}

/// The bits held by a `BitStore`, in index order.
pub uninterp spec fn bits_seq(a: BitStore) -> Seq<bool>;

/// Relies on `bitvec::array::BitArray::ZERO`: every bit of the storage
/// starts cleared, and `[usize; 3]` storage holds 192 bits.
#[verifier::external_body]
pub(crate) fn bits_new() -> (r: BitStore)
    ensures
        bits_seq(r).len() == 192,
        forall|i: int| 0 <= i < 192 ==> !bits_seq(r)[i],
{
    BitStore { inner: bitvec::array::BitArray::ZERO }
}

/// Relies on `bitvec::slice::BitSlice::set`: writes one bit in place;
/// panics only when the index is out of bounds.
#[verifier::external_body]
pub(crate) fn bits_set(a: &mut BitStore, i: usize, v: bool)
    requires
        i < bits_seq(*old(a)).len(),
    ensures
        bits_seq(*final(a)) == bits_seq(*old(a)).update(i as int, v),
{
    a.inner.as_mut_bitslice().set(i, v);
}

/// Relies on the `Index` impl of `bitvec::slice::BitSlice`: reads one bit;
/// panics only when the index is out of bounds.
#[verifier::external_body]
pub(crate) fn bits_get(a: &BitStore, i: usize) -> (r: bool)
    requires
        i < bits_seq(*a).len(),
    ensures
        r == bits_seq(*a)[i as int],
{
    a.inner.as_bitslice()[i]
}

} // verus!
