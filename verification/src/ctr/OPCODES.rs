use vstd::prelude::*;

verus! {

pub const OPCODE_OK: u32 = 0;

pub const OPCODE_YIELD: u32 = 1;

pub const OPCODE_SLEEP_MS: u32 = 2;

/// The task has suspended on a library call or a VM await.
pub const OPCODE_AWAIT: u32 = 3;

/// The task state has suspended on a forward recursion; async SaVM functions
/// suspend this way too, since none is async without an awaiting library call.
pub const OPCODE_RECURSE: u32 = 4;

} // verus!
