//! Static security policy for WASI calls made by an untrusted WebAssembly
//! guest: per-call statements that map argument predicates to actions, and a
//! load-time scanner that flags imports which a policy always kills.

pub mod abi;
pub mod action;
pub mod bound;
pub mod guard;
pub mod policy;
pub mod stmt;
pub mod wasi;
