//! A verified model of the syscall kernel of a gas-metered, content-addressed
//! virtual machine.
//!
//! The kernel is the per-invocation façade an actor program uses to interact
//! with the outside world: it reads and writes content-addressed blocks,
//! sends messages to other actors, manages the actor's state root, performs
//! hashing and signature work, queries chain context, and emits events.
//! Every operation is gas-priced and every failure is classified into a
//! stable taxonomy.
//!
//! The call machinery the kernel drives (state tree, gas tracker, call stack,
//! block store, chain externs) is modelled over plain data, so the kernel's
//! behaviour is verified for every state of that machinery and for every
//! sequence of child-invocation outcomes. Native cryptographic digests and
//! signature checks are reached through small trusted wrappers.

pub mod address;
pub mod blocks;
pub mod bytes;
pub mod call_manager;
pub mod cid;
pub mod crypto;
pub mod digest;
pub mod error;
pub mod event;
pub mod externs;
pub mod gas;
pub mod ipld;
pub mod kernel;
pub mod sector;
pub mod sig;
pub mod state_tree;
pub mod store;
pub mod utf8;
pub mod validation;

pub use error::{ErrorNumber, KernelError, SyscallResult};
