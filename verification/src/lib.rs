//! Decision core for launching a child process inside an operating-system
//! zone while divorcing it from the parent's process-contract membership.
//!
//! The library models the contract-template lifecycle, the zone-entry
//! pre-execution sequence, launch-specification construction and output
//! formatting. All privileged system calls are performed by an unverified
//! driver that follows the actions this library hands out.

pub mod errors;
pub mod hook;
pub mod launch;
pub mod output;
pub mod runner;
pub mod template;
