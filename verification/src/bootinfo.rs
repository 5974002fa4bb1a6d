//! The initial capability distribution: the well-known slots that the kernel
//! fills in the first thread's root capability table before it starts.

use vstd::prelude::*;

verus! {

/// The well-known initial capability slots, in their fixed slot order.
#[derive(Clone, Copy, PartialEq, Eq, Structural, Debug)]
pub enum InitialCap {
    /// The null capability.
    CapNull,
    /// The initial thread's thread control block.
    CapInitThreadTCB,
    /// The initial thread's root capability-table node.
    CapInitThreadCNode,
    /// The initial thread's address space.
    CapInitThreadVSpace,
    /// The global interrupt controller.
    CapIRQControl,
    /// The global address-space-identifier controller.
    CapASIDControl,
    /// The initial thread's address-space-identifier pool.
    CapInitThreadASIDPool,
    /// The global IO port controller (null where unsupported).
    CapIOPortControl,
    /// The global IO space (null without an IOMMU).
    CapIOSpace,
    /// The frame holding the boot-time descriptor.
    CapBootInfoFrame,
    /// The frame holding the initial thread's message buffer.
    CapInitThreadIPCBuffer,
    /// The global domain controller.
    CapDomain,
    /// The global SMMU stream-identifier controller (null where unsupported).
    CapSMMUSIDControl,
    /// The global SMMU context-bank controller (null where unsupported).
    CapSMMUCBControl,
    /// The initial thread's scheduling context, under the extended
    /// scheduling-context profile.
    CapInitThreadSC,
}

} // verus!
