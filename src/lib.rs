//! Capability management for a userland runtime on a capability-based
//! microkernel: untyped-memory bisection, slot-range allocation with scoped
//! reuse, address-space construction, address-space-id pools, IPC channels
//! and child-thread preparation.
//!
//! Every operation that the kernel performs is split in two: the library
//! states the invocation to issue as a plain [`kernel::KernelCall`] value, and
//! takes the raw status that the kernel answered with to decide the outcome.
//! The embedding root task issues the invocations.
pub mod asid;
pub mod cnode;
pub mod error;
pub mod ipc;
pub mod kernel;
pub mod micro_alloc;
pub mod process;
pub mod untyped;
pub mod vspace;
