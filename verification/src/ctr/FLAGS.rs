use vstd::prelude::*;

verus! {

/// The function is running under the async-aware subsystem; the JIT does not
/// call the synchronous poll-async method.
pub const FLAG_ASYNC: u32 = 0b000000000000000000000000000000001;

/// Set on the first task state of a chain: only that chain may request that
/// the VM polls.
pub const FLAG_FIRST: u32 = 0b000000000000000000000000000000010;

} // verus!
