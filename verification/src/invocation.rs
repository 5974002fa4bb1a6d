//! Syscall invocation engine: the register contract of each call shape.
//!
//! Each shape marshals a fixed set of values into the architectural
//! calling-convention registers, executes one trap, and reads a fixed set of
//! registers back. The marshalling and demarshalling are plain data
//! transformations and are verified here; the trap instruction itself is an
//! architecture intrinsic that lives outside this library.

use vstd::prelude::*;
use crate::types::Word;

verus! {

/// The registers one trap may touch, as they stand immediately before the
/// trap instruction. `None` means the shape does not write the register: its
/// prior contents must survive the call, because the kernel or the caller may
/// rely on them.
#[derive(Clone, Copy, PartialEq, Eq, Debug)]
pub struct TrapFrame {
    /// Capability-address register (destination or source). On receiving
    /// shapes the kernel overwrites it in place with the sender's badge.
    pub cap_reg: Option<Word>,
    /// Call metadata register.
    pub info_reg: Option<Word>,
    /// First message-data register.
    pub mr0_reg: Option<Word>,
    /// Second message-data register.
    pub mr1_reg: Option<Word>,
    /// Third message-data register.
    pub mr2_reg: Option<Word>,
    /// Fourth message-data register.
    pub mr3_reg: Option<Word>,
    /// Reply-capability register, under the extended scheduling-context
    /// profile only.
    pub reply_reg: Option<Word>,
    /// Second destination register, under the extended scheduling-context
    /// profile only.
    pub dest2_reg: Option<Word>,
    /// Syscall-number register; every shape writes it.
    pub sys_reg: Word,
}

/// Registers for a directed one-way send: destination, metadata and the four
/// data words go to the kernel; nothing is read back, and the reply and
/// second-destination registers are left untouched.
pub fn send_registers(sys: Word, dest: Word, info: Word, mr0: Word, mr1: Word, mr2: Word, mr3: Word) -> (f: TrapFrame)
    ensures
        f.cap_reg == Some(dest),
        f.info_reg == Some(info),
        f.mr0_reg == Some(mr0),
        f.mr1_reg == Some(mr1),
        f.mr2_reg == Some(mr2),
        f.mr3_reg == Some(mr3),
        f.reply_reg is None,
        f.dest2_reg is None,
        f.sys_reg == sys,
{
    TrapFrame {
        cap_reg: Some(dest),
        info_reg: Some(info),
        mr0_reg: Some(mr0),
        mr1_reg: Some(mr1),
        mr2_reg: Some(mr2),
        mr3_reg: Some(mr3),
        reply_reg: None,
        dest2_reg: None,
        sys_reg: sys,
    }
}

/// Registers for an undirected reply: metadata and the four data words go to
/// the kernel along the implicit reply channel. The capability-address
/// register is omitted entirely — a reply names no destination.
pub fn reply_registers(sys: Word, info: Word, mr0: Word, mr1: Word, mr2: Word, mr3: Word) -> (f: TrapFrame)
    ensures
        f.cap_reg is None,
        f.info_reg == Some(info),
        f.mr0_reg == Some(mr0),
        f.mr1_reg == Some(mr1),
        f.mr2_reg == Some(mr2),
        f.mr3_reg == Some(mr3),
        f.reply_reg is None,
        f.dest2_reg is None,
        f.sys_reg == sys,
{
    TrapFrame {
        cap_reg: None,
        info_reg: Some(info),
        mr0_reg: Some(mr0),
        mr1_reg: Some(mr1),
        mr2_reg: Some(mr2),
        mr3_reg: Some(mr3),
        reply_reg: None,
        dest2_reg: None,
        sys_reg: sys,
    }
}

/// Registers for a directed send that carries metadata only: the four data
/// registers are intentionally not written, so a minimal one-way signal
/// never clobbers their prior contents.
pub fn send_null_registers(sys: Word, dest: Word, info: Word) -> (f: TrapFrame)
    ensures
        f.cap_reg == Some(dest),
        f.info_reg == Some(info),
        f.mr0_reg is None,
        f.mr1_reg is None,
        f.mr2_reg is None,
        f.mr3_reg is None,
        f.reply_reg is None,
        f.dest2_reg is None,
        f.sys_reg == sys,
{
    TrapFrame {
        cap_reg: Some(dest),
        info_reg: Some(info),
        mr0_reg: None,
        mr1_reg: None,
        mr2_reg: None,
        mr3_reg: None,
        reply_reg: None,
        dest2_reg: None,
        sys_reg: sys,
    }
}

/// Registers for a directed receive: only the source capability address and
/// the syscall number go to the kernel; the badge, metadata and four data
/// words are read back after the trap.
pub fn recv_registers(sys: Word, src: Word) -> (f: TrapFrame)
    ensures
        f.cap_reg == Some(src),
        f.info_reg is None,
        f.mr0_reg is None,
        f.mr1_reg is None,
        f.mr2_reg is None,
        f.mr3_reg is None,
        f.reply_reg is None,
        f.dest2_reg is None,
        f.sys_reg == sys,
{
    TrapFrame {
        cap_reg: Some(src),
        info_reg: None,
        mr0_reg: None,
        mr1_reg: None,
        mr2_reg: None,
        mr3_reg: None,
        reply_reg: None,
        dest2_reg: None,
        sys_reg: sys,
    }
}

/// Registers for the canonical blocking send-and-receive: destination,
/// metadata and the four data words go to the kernel; the trap overwrites
/// the same registers in place with the badge, the returned metadata and the
/// returned data.
pub fn send_recv_registers(sys: Word, dest: Word, info: Word, mr0: Word, mr1: Word, mr2: Word, mr3: Word) -> (f: TrapFrame)
    ensures
        f.cap_reg == Some(dest),
        f.info_reg == Some(info),
        f.mr0_reg == Some(mr0),
        f.mr1_reg == Some(mr1),
        f.mr2_reg == Some(mr2),
        f.mr3_reg == Some(mr3),
        f.reply_reg is None,
        f.dest2_reg is None,
        f.sys_reg == sys,
{
    TrapFrame {
        cap_reg: Some(dest),
        info_reg: Some(info),
        mr0_reg: Some(mr0),
        mr1_reg: Some(mr1),
        mr2_reg: Some(mr2),
        mr3_reg: Some(mr3),
        reply_reg: None,
        dest2_reg: None,
        sys_reg: sys,
    }
}

/// Registers for the extended send-and-receive of the scheduling-context
/// profile: the source goes in the capability-address register, the
/// destination in the second destination register, and the reply capability
/// in its own register rather than being threaded through the normal path.
pub fn nbsend_recv_registers(sys: Word, dest: Word, src: Word, info: Word, mr0: Word, mr1: Word, mr2: Word, mr3: Word, reply: Word) -> (f: TrapFrame)
    ensures
        f.cap_reg == Some(src),
        f.info_reg == Some(info),
        f.mr0_reg == Some(mr0),
        f.mr1_reg == Some(mr1),
        f.mr2_reg == Some(mr2),
        f.mr3_reg == Some(mr3),
        f.reply_reg == Some(reply),
        f.dest2_reg == Some(dest),
        f.sys_reg == sys,
{
    TrapFrame {
        cap_reg: Some(src),
        info_reg: Some(info),
        mr0_reg: Some(mr0),
        mr1_reg: Some(mr1),
        mr2_reg: Some(mr2),
        mr3_reg: Some(mr3),
        reply_reg: Some(reply),
        dest2_reg: Some(dest),
        sys_reg: sys,
    }
}

/// Registers for the null call: the syscall number alone, to trigger a
/// kernel-side action that carries no capability addressing and no data.
pub fn null_registers(sys: Word) -> (f: TrapFrame)
    ensures
        f.cap_reg is None,
        f.info_reg is None,
        f.mr0_reg is None,
        f.mr1_reg is None,
        f.mr2_reg is None,
        f.mr3_reg is None,
        f.reply_reg is None,
        f.dest2_reg is None,
        f.sys_reg == sys,
{
    TrapFrame {
        cap_reg: None,
        info_reg: None,
        mr0_reg: None,
        mr1_reg: None,
        mr2_reg: None,
        mr3_reg: None,
        reply_reg: None,
        dest2_reg: None,
        sys_reg: sys,
    }
}

/// Decodes the registers a receiving shape observes after its trap. The
/// badge is the capability-address register exactly as the kernel left it —
/// overwritten in place with the sender's identity — and the metadata and
/// data outputs are the post-trap register values, never the stale values
/// the caller sent.
pub fn receive_results(
    badge_reg: Word,
    info_reg: Word,
    mr0_reg: Word,
    mr1_reg: Word,
    mr2_reg: Word,
    mr3_reg: Word,
    out_badge: &mut Word,
    out_info: &mut Word,
    out_mr0: &mut Word,
    out_mr1: &mut Word,
    out_mr2: &mut Word,
    out_mr3: &mut Word,
)
    ensures
        *final(out_badge) == badge_reg,
        *final(out_info) == info_reg,
        *final(out_mr0) == mr0_reg,
        *final(out_mr1) == mr1_reg,
        *final(out_mr2) == mr2_reg,
        *final(out_mr3) == mr3_reg,
{
    *out_badge = badge_reg;
    *out_info = info_reg;
    *out_mr0 = mr0_reg;
    *out_mr1 = mr1_reg;
    *out_mr2 = mr2_reg;
    *out_mr3 = mr3_reg;
}

} // verus!
