pub mod ffi;

use vstd::prelude::*;

verus! {

/// A marker type that is deliberately neither `Copy` nor `Clone`.
pub struct EnforceNoCopy;

} // verus!
