//! Word-sized value types shared by the codec and the invocation engine.

use vstd::prelude::*;

verus! {

/// A machine word: the unit carried in every architectural register.
#[derive(Clone, Copy, PartialEq, Eq, Structural, Debug)]
pub struct Word(pub usize);

/// An opaque capability address into the caller's capability space.
/// The kernel, not this layer, decides whether it is valid.
#[derive(Clone, Copy, PartialEq, Eq, Structural, Debug)]
pub struct CPtr(pub Word);

/// Identity of one kernel node in a multi-node configuration.
#[derive(Clone, Copy, PartialEq, Eq, Structural, Debug)]
pub struct NodeId(pub Word);

/// A physical address.
#[derive(Clone, Copy, PartialEq, Eq, Structural, Debug)]
pub struct PAddr(pub Word);

/// A scheduling domain identifier.
#[derive(Clone, Copy, PartialEq, Eq, Structural, Debug)]
pub struct Domain(pub Word);

/// A point in time, in kernel ticks.
#[derive(Clone, Copy, Debug)]
pub struct Time(u64);

} // verus!
