//! A seccomp BPF filter compiler and the decision logic of a process jailer.
//!
//! The compiler turns a description of allowed system calls — including
//! per-argument predicates — into a validated classic-BPF program that can be
//! installed as a kernel seccomp filter.  The jailer half holds the pure
//! decisions of sandbox construction: parameter validation, chroot path
//! computation, descriptor-number discipline and the error taxonomy with its
//! stable message texts.

use vstd::prelude::*;

pub mod bpf;
pub mod condition;
pub mod filter;
pub mod jail;
pub mod laws;
pub mod level;
pub mod numfmt;
pub mod policy;
pub mod rule;
pub mod sysnum;

pub use bpf::{SockFilter, BPF_JUMP, BPF_STMT};
pub use condition::{SeccompCmpOp, SeccompCondition};
pub use filter::SeccompFilterContext;
pub use jail::FirecrackerContext;
pub use level::SeccompLevel;
pub use policy::{allowed_syscalls, default_context};
pub use rule::{SeccompAction, SeccompRule};

verus! {

/// Level of filtering that causes syscall numbers and parameters to be examined.
pub const SECCOMP_LEVEL_ADVANCED: u32 = 2;

/// Level of filtering that causes only syscall numbers to be examined.
pub const SECCOMP_LEVEL_BASIC: u32 = 1;

/// Seccomp filtering disabled.
pub const SECCOMP_LEVEL_NONE: u32 = 0;

/// Seccomp filter compilation and installation errors.
#[derive(Debug, Clone, Copy, PartialEq, Eq, Structural)]
pub enum Error {
    /// A filter context that, translated into BPF code, exceeds the maximum
    /// number of instructions that a BPF program can have.
    ContextTooLarge,
    /// An attempt to associate an empty vector of rules with a syscall.
    EmptyRulesVector,
    /// An argument number that exceeds the maximum value.
    InvalidArgumentNumber,
    /// Failure to load the compiled filter into the kernel, with the errno.
    Load(i32),
}

} // verus!
