//! Typed handles over capability addresses, one per kind of kernel object.
//!
//! Each is a type-wrapped capability address, much as a POSIX file descriptor
//! is a type-wrapped integer: the handle is combined with an invocation to
//! operate on the kernel-managed object it names.

use vstd::prelude::*;
use crate::types::CPtr;

verus! {

/// A capability-table node.
#[derive(Clone, Copy, PartialEq, Eq, Structural, Debug)]
pub struct CNode(pub CPtr);

/// A handler capability for one interrupt line.
#[derive(Clone, Copy, PartialEq, Eq, Structural, Debug)]
pub struct IRQHandler(pub CPtr);

/// The global interrupt-controller capability.
#[derive(Clone, Copy, PartialEq, Eq, Structural, Debug)]
pub struct IRQControl(pub CPtr);

/// A thread control block.
#[derive(Clone, Copy, PartialEq, Eq, Structural, Debug)]
pub struct TCB(pub CPtr);

/// A block of untyped memory, not yet carved into kernel objects.
#[derive(Clone, Copy, PartialEq, Eq, Structural, Debug)]
pub struct Untyped(pub CPtr);

/// The domain-assignment capability.
#[derive(Clone, Copy, PartialEq, Eq, Structural, Debug)]
pub struct DomainSet(pub CPtr);

/// A scheduling context.
#[derive(Clone, Copy, PartialEq, Eq, Structural, Debug)]
pub struct SchedContext(pub CPtr);

/// The scheduling-control capability of one node.
#[derive(Clone, Copy, PartialEq, Eq, Structural, Debug)]
pub struct SchedControl(pub CPtr);

} // verus!
