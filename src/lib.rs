//! Control-plane logic for DOCA memory maps and comm channels.
//!
//! The native DOCA objects are driven from outside this library; what lives
//! here decides which native call is due, what each native answer means, and
//! how the local bookkeeping changes with it.

pub mod status;
pub mod mmap;
pub mod mmap_laws;
pub mod comm_chan;
