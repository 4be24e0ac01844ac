use vstd::prelude::*;

verus! {

/// A parameter that is either a `String` or a `&str`.
///
/// `as_str` reads the text in place and may be called any number of times;
/// `take` consumes the parameter and yields an owned `String`, copying the
/// text only when the parameter was a `&str`.
pub trait TakeString {
    /// The characters of the text that the parameter gives access to.
    spec fn text(&self) -> Seq<char>;

    /// Reference the text as a `&str`.
    fn as_str(&self) -> (r: &str)
        ensures
            r@ == self.text(),
    ;

    /// Take ownership of the `String`, or copy the text into a new one, and
    /// drop `self`.
    fn take(self) -> (r: String)
        ensures
            r@ == self.text(),
    ;
}

impl<'a> TakeString for &'a str {
    open spec fn text(&self) -> Seq<char> {
        (*self)@
    }

    fn as_str(&self) -> (r: &str) {
        *self
    }

    fn take(self) -> (r: String) {
        self.to_owned()
    }
}

impl TakeString for String {
    open spec fn text(&self) -> Seq<char> {
        self@
    }

    fn as_str(&self) -> (r: &str) {
        String::as_str(self)
    }

    fn take(self) -> (r: String)
        ensures
            r == self,
    {
        self
    }
}

/// Reading the text is repeatable: two calls of `as_str` on one parameter
/// give equal text.
pub proof fn lemma_as_str_repeatable<P: TakeString>(p: &P, a: &str, b: &str)
    requires
        call_ensures(P::as_str, (p,), a),
        call_ensures(P::as_str, (p,), b),
    ensures
        a@ == b@,
{
}

/// Taking a parameter yields the text that `as_str` reads from it.
pub proof fn lemma_take_is_as_str<P: TakeString>(p: P, s: &str, r: String)
    requires
        call_ensures(P::as_str, (&p,), s),
        call_ensures(P::take, (p,), r),
    ensures
        r@ == s@,
{
}

} // verus!
