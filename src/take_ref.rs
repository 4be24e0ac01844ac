use vstd::prelude::*;
use vstd::pervasive::strictly_cloned;

verus! {

/// A parameter that is either a value of type `T` or a reference to one.
///
/// `as_ref` reads the value in place and may be called any number of times;
/// `take` consumes the parameter and yields an owned `T`, cloning only when
/// the parameter was a reference.
pub trait TakeRef<T: Clone> {
    /// The value that the parameter gives access to.
    spec fn value(&self) -> T;

    /// Whether the parameter holds its value itself, so that `take` hands it
    /// over without a clone.
    spec fn owns_value(&self) -> bool;

    /// Access the value by reference.
    fn as_ref(&self) -> (r: &T)
        ensures
            *r == self.value(),
    ;

    /// Take ownership of the value, or clone the referenced value, and drop `self`.
    fn take(self) -> (r: T)
        ensures
            self.owns_value() ==> r == self.value(),
            !self.owns_value() ==> strictly_cloned(self.value(), r),
    ;
}

impl<'a, T: Clone> TakeRef<T> for &'a T {
    open spec fn value(&self) -> T {
        **self
    }

    open spec fn owns_value(&self) -> bool {
        false
    }

    fn as_ref(&self) -> (r: &T) {
        *self
    }

    fn take(self) -> (r: T) {
        self.clone()
    }
}

impl<'a, T: Clone> TakeRef<T> for &'a mut T {
    open spec fn value(&self) -> T {
        **self
    }

    open spec fn owns_value(&self) -> bool {
        false
    }

    fn as_ref(&self) -> (r: &T) {
        &**self
    }

    fn take(self) -> (r: T)
        ensures
            *final(self) == *old(self),
    {
        (*self).clone()
    }
}

impl<T: Clone> TakeRef<T> for T {
    open spec fn value(&self) -> T {
        *self
    }

    open spec fn owns_value(&self) -> bool {
        true
    }

    fn as_ref(&self) -> (r: &T) {
        self
    }

    fn take(self) -> (r: T) {
        self
    }
}

/// Reading the value is repeatable: two calls of `as_ref` on one parameter
/// give equal values.
pub proof fn lemma_as_ref_repeatable<T: Clone, P: TakeRef<T>>(p: &P, a: &T, b: &T)
    requires
        call_ensures(P::as_ref, (p,), a),
        call_ensures(P::as_ref, (p,), b),
    ensures
        *a == *b,
{
}

/// Taking a parameter that holds its value hands that value over unchanged.
pub proof fn lemma_take_owned<T: Clone, P: TakeRef<T>>(p: P, r: T)
    requires
        p.owns_value(),
        call_ensures(P::take, (p,), r),
    ensures
        r == p.value(),
{
}

/// Taking a reference yields a clone of what `as_ref` reads from it.
pub proof fn lemma_take_borrowed<T: Clone, P: TakeRef<T>>(p: P, v: &T, r: T)
    requires
        !p.owns_value(),
        call_ensures(P::as_ref, (&p,), v),
        call_ensures(P::take, (p,), r),
    ensures
        strictly_cloned(*v, r),
{
}

} // verus!
