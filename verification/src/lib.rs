//! Coordination of the logical processors of a machine before an operating
//! system runs: the roster of processors, their roles and availability, and
//! the protocol by which the bootstrap processor hands a procedure to the
//! application processors and waits for them.
//!
//! [`mp`] holds the services and their queries, [`role`] the changes of role
//! and availability, [`dispatch`] the dispatch protocol and [`laws`] what
//! holds across them, all over the model in [`roster`]. Beside them stand
//! two small helpers for the code around the services: [`memory`] judges
//! what the memory services handed out, and [`pci`] names the widths of an
//! access to a device.

pub mod dispatch;
pub mod error;
pub mod laws;
pub mod memory;
pub mod mp;
pub mod pci;
pub mod processor;
pub mod role;
pub mod roster;
pub mod status;
pub mod timeout;
