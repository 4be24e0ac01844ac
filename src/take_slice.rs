use vstd::prelude::*;
use vstd::pervasive::cloned;

verus! {

/// A parameter that is either a `Vec<T>` or a slice of `T`.
///
/// `as_slice` reads the elements in place and may be called any number of
/// times; `take` consumes the parameter and yields an owned `Vec<T>`, cloning
/// the elements only when the parameter was a slice.
pub trait TakeSlice<T: Clone> {
    /// The elements that the parameter gives access to, in order.
    spec fn elems(&self) -> Seq<T>;

    /// Whether the parameter holds its elements itself, so that `take` hands
    /// them over without a clone.
    spec fn owns_elems(&self) -> bool;

    /// Reference the elements as a slice.
    fn as_slice(&self) -> (r: &[T])
        ensures
            r@ == self.elems(),
    ;

    /// Take ownership of the elements, or clone them into a new `Vec`, and
    /// drop `self`.
    fn take(self) -> (r: Vec<T>)
        ensures
            r@.len() == self.elems().len(),
            forall|i: int| 0 <= i < r@.len() ==> cloned(self.elems()[i], #[trigger] r@[i]),
            self.owns_elems() ==> r@ == self.elems(),
    ;
}

impl<'a, T: Clone> TakeSlice<T> for &'a [T] {
    open spec fn elems(&self) -> Seq<T> {
        (*self)@
    }

    open spec fn owns_elems(&self) -> bool {
        false
    }

    fn as_slice(&self) -> (r: &[T]) {
        *self
    }

    fn take(self) -> (r: Vec<T>) {
        let mut v: Vec<T> = Vec::new();
        v.extend_from_slice(self);
        v
    }
}

impl<T: Clone> TakeSlice<T> for Vec<T> {
    open spec fn elems(&self) -> Seq<T> {
        self@
    }

    open spec fn owns_elems(&self) -> bool {
        true
    }

    fn as_slice(&self) -> (r: &[T]) {
        Vec::<T>::as_slice(self)
    }

    fn take(self) -> (r: Vec<T>) {
        self
    }
}

/// Reading the elements is repeatable: two calls of `as_slice` on one
/// parameter give equal sequences.
pub proof fn lemma_as_slice_repeatable<T: Clone, P: TakeSlice<T>>(p: &P, a: &[T], b: &[T])
    requires
        call_ensures(P::as_slice, (p,), a),
        call_ensures(P::as_slice, (p,), b),
    ensures
        a@ == b@,
{
}

/// Taking a parameter keeps the order of its elements: the element at each
/// position of the result is a clone of the element at that position of what
/// `as_slice` reads, and where cloning a `T` always gives an equal value the
/// result equals it.
pub proof fn lemma_take_keeps_order<T: Clone, P: TakeSlice<T>>(p: P, s: &[T], r: Vec<T>)
    requires
        call_ensures(P::as_slice, (&p,), s),
        call_ensures(P::take, (p,), r),
    ensures
        r@.len() == s@.len(),
        forall|i: int| 0 <= i < r@.len() ==> cloned(s@[i], #[trigger] r@[i]),
        (forall|x: T, y: T| cloned(x, y) ==> x == y) ==> r@ == s@,
{
    if forall|x: T, y: T| cloned(x, y) ==> x == y {
        assert(r@ =~= s@);
    }
}

} // verus!
