//! One-shot ownership transfer of buffers across the boundary.
use vstd::prelude::*;

verus! {

/// Gives a view of a buffer that is safe to hand to a foreign caller: no
/// view at all (a null pointer) when the buffer is empty, the elements
/// otherwise. Some foreign runtimes dereference small non-null pointers
/// automatically, so an empty buffer must never show a dangling one.
pub trait SafePtr {
    /// Element type.
    type Ptr;

    /// The elements the buffer holds.
    spec fn safe_elems(&self) -> Seq<Self::Ptr>;

    /// Returns `None` for an empty buffer and the elements otherwise.
    fn as_safe_ptr(&self) -> (r: Option<&[Self::Ptr]>)
        ensures
            r is None <==> self.safe_elems().len() == 0,
            r matches Some(s) ==> s@ == self.safe_elems(),
    ;
}

impl<T> SafePtr for Vec<T> {
    type Ptr = T;

    open spec fn safe_elems(&self) -> Seq<T> {
        self@
    }

    fn as_safe_ptr(&self) -> (r: Option<&[T]>) {
        if self.len() == 0 {
            None
        } else {
            Some(self.as_slice())
        }
    }
}

/// A buffer handed across the boundary: the elements together with the
/// exclusive right to reclaim them. It is produced once by
/// `vec_into_raw_parts` and consumed once by `vec_from_raw_parts`; being a
/// move-only value, it cannot be reclaimed twice.
pub struct RawParts<T> {
    elems: Vec<T>,
}

impl<T> View for RawParts<T> {
    type V = Seq<T>;

    closed spec fn view(&self) -> Seq<T> {
        self.elems@
    }
}

/// Consumes a buffer and hands its elements over, returning the handle and
/// the number of elements.
pub fn vec_into_raw_parts<T>(v: Vec<T>) -> (r: (RawParts<T>, usize))
    ensures
        r.0@ == v@,
        r.1 == v@.len(),
{
    let len = v.len();
    (RawParts { elems: v }, len)
}

/// Takes back ownership of a buffer handed over by `vec_into_raw_parts`.
pub fn vec_from_raw_parts<T>(ptr: RawParts<T>, len: usize) -> (r: Vec<T>)
    requires
        len == ptr@.len(),
    ensures
        r@ == ptr@,
{
    ptr.elems
}

/// Copies the first `len` elements of a handed-over buffer into a fresh
/// one, leaving the source untouched and still owned by its holder.
pub fn vec_clone_from_raw_parts<T: Clone>(ptr: &RawParts<T>, len: usize) -> (r: Vec<T>)
    requires
        len <= ptr@.len(),
    ensures
        r@.len() == len,
        forall|i: int| 0 <= i < len ==> cloned::<T>(ptr@[i], #[trigger] r@[i]),
{
    let mut out: Vec<T> = Vec::with_capacity(len);
    let mut i: usize = 0;
    while i < len
        invariant
            i <= len,
            len <= ptr@.len(),
            out@.len() == i,
            forall|j: int| 0 <= j < i ==> cloned::<T>(ptr@[j], #[trigger] out@[j]),
        decreases len - i,
    {
        out.push(ptr.elems[i].clone());
        i = i + 1;
    }
    out
}

/// Handing a buffer over with `vec_into_raw_parts` and taking it back with
/// `vec_from_raw_parts` gives the same elements, for empty and non-empty
/// buffers alike.
pub proof fn lemma_raw_parts_round_trip<T>(v: Vec<T>, parts: RawParts<T>, len: usize, back: Vec<T>)
    requires
        parts@ == v@,
        len == v@.len(),
        back@ == parts@,
    ensures
        back@ == v@,
        back@.len() == len,
{
}

} // verus!
