//! Runtime support structures of the Sa virtual machine: the register and
//! type descriptors used to describe foreign calls, the instruction table of
//! the bytecode, and a swappable, reference counted code store guarded by a
//! reader/writer lock word.
pub mod code;
pub mod ctr;
pub mod structures;
