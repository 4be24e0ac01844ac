//! Parameters that may be passed either as an owned value or as a borrow of
//! one, read in place any number of times, and turned into an owned value at
//! most once, cloning only when the parameter was a borrow.
use vstd::prelude::*;

mod take_ref;
mod take_slice;
mod take_string;

pub use crate::take_ref::TakeRef;
pub use crate::take_slice::TakeSlice;
pub use crate::take_string::TakeString;

verus! {

} // verus!
