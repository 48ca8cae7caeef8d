//! The firmware's heap allocator handle.
//!
//! Allocation on the target device goes through the SDK kernel's heap
//! calls, which take a size and a heap kind and hand back raw memory.
//! That is foreign, unsafe work the embedding program wires up; the
//! library only owns the handle type standing for the allocator.

use vstd::prelude::*;

verus! {

/// The global allocator handle backed by the SDK kernel heap. The
/// embedding program implements the actual allocation hooks on its copy
/// of this handle; the type carries no state.
pub struct Da14531Allocator;

} // verus!
