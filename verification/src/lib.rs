//! User-space binding core for a capability-based microkernel: packed-word
//! codecs for call metadata, access rights and addressing guard data, and the
//! register-marshalling contracts of the syscall invocation shapes.

pub mod bootinfo;
pub mod codec;
pub mod invocation;
pub mod kern_obj_descriptors;
pub mod types;
