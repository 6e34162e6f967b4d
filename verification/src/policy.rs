//! The default advanced policy: the allow-listed syscalls, with their
//! argument conditions, that the jailed binary needs to function, plus the
//! plain allow-list of the basic level.
//!
//! The policy is stated twice: once as the executable table that
//! `default_context` builds, and once as the spec-level model
//! `default_policy_model`, which the contract of `default_context` pins the
//! table to, entry for entry, rule for rule and condition for condition.

use vstd::prelude::*;

use crate::condition::{SeccompCmpOp, SeccompCondition};
use crate::filter::{ctx_wf, entry_wf, SeccompFilterContext};
use crate::rule::{rule_wf, SeccompAction, SeccompRule};
use crate::sysnum::{
    sys_accept, sys_arch_prctl, sys_bind, sys_brk, sys_clone, sys_close, sys_dup,
    sys_epoll_create1, sys_epoll_ctl, sys_epoll_pwait, sys_eventfd2, sys_execve, sys_exit,
    sys_exit_group, sys_fcntl, sys_fstat, sys_futex, sys_getrandom, sys_ioctl, sys_listen,
    sys_lseek, sys_mmap, sys_mprotect, sys_munmap, sys_open, sys_pipe, sys_prctl, sys_read,
    sys_readlink, sys_readv, sys_rt_sigaction, sys_rt_sigprocmask, sys_rt_sigreturn,
    sys_sched_getaffinity, sys_set_tid_address, sys_sigaltstack, sys_socket, sys_stat,
    sys_timerfd_create, sys_timerfd_settime, sys_write, sys_writev,
};
use crate::Error;

verus! {

// epoll operations.  See the kernel's sys/epoll.h.
pub const EPOLL_CTL_ADD: u64 = 1;
pub const EPOLL_CTL_DEL: u64 = 2;

// File status and descriptor flags.  See the kernel's fcntl headers.
pub const O_RDONLY: u64 = 0x00000000;
pub const O_RDWR: u64 = 0x00000002;
pub const O_NONBLOCK: u64 = 0x00004000;
pub const O_CLOEXEC: u64 = 0x02000000;
pub const F_GETFD: u64 = 1;
pub const F_SETFD: u64 = 2;
pub const F_SETFL: u64 = 4;
pub const FD_CLOEXEC: u64 = 1;

// Futex operations.  See the kernel's linux/futex.h.
pub const FUTEX_WAIT: u64 = 0;
pub const FUTEX_WAKE: u64 = 1;
pub const FUTEX_REQUEUE: u64 = 3;
pub const FUTEX_PRIVATE_FLAG: u64 = 128;
pub const FUTEX_WAIT_PRIVATE: u64 = FUTEX_WAIT | FUTEX_PRIVATE_FLAG;
pub const FUTEX_WAKE_PRIVATE: u64 = FUTEX_WAKE | FUTEX_PRIVATE_FLAG;
pub const FUTEX_REQUEUE_PRIVATE: u64 = FUTEX_REQUEUE | FUTEX_PRIVATE_FLAG;

// Terminal and file ioctls.  See the kernel's asm-generic/ioctls.h.
pub const TCGETS: u64 = 0x5401;
pub const TCSETS: u64 = 0x5402;
pub const TIOCGWINSZ: u64 = 0x5413;
pub const FIOCLEX: u64 = 0x5451;
pub const FIONBIO: u64 = 0x5421;

// KVM ioctls.  See the kernel's linux/kvm.h.
pub const KVM_GET_API_VERSION: u64 = 0xae00;
pub const KVM_CREATE_VM: u64 = 0xae01;
pub const KVM_CHECK_EXTENSION: u64 = 0xae03;
pub const KVM_GET_VCPU_MMAP_SIZE: u64 = 0xae04;
pub const KVM_CREATE_VCPU: u64 = 0xae41;
pub const KVM_SET_TSS_ADDR: u64 = 0xae47;
pub const KVM_CREATE_IRQCHIP: u64 = 0xae60;
pub const KVM_RUN: u64 = 0xae80;
pub const KVM_SET_MSRS: u64 = 0x4008ae89;
pub const KVM_SET_CPUID2: u64 = 0x4008ae90;
pub const KVM_SET_USER_MEMORY_REGION: u64 = 0x4020ae46;
pub const KVM_IRQFD: u64 = 0x4020ae76;
pub const KVM_CREATE_PIT2: u64 = 0x4040ae77;
pub const KVM_IOEVENTFD: u64 = 0x4040ae79;
pub const KVM_SET_REGS: u64 = 0x4090ae82;
pub const KVM_SET_SREGS: u64 = 0x4138ae84;
pub const KVM_SET_FPU: u64 = 0x41a0ae8d;
pub const KVM_SET_LAPIC: u64 = 0x4400ae8f;
pub const KVM_GET_SREGS: u64 = 0x8138ae83;
pub const KVM_GET_LAPIC: u64 = 0x8400ae8e;
pub const KVM_GET_SUPPORTED_CPUID: u64 = 0xc008ae05;

// Tun device ioctls.  See the kernel's linux/if_tun.h.
pub const TUNSETIFF: u64 = 0x400454ca;
pub const TUNSETOFFLOAD: u64 = 0x400454d0;
pub const TUNSETVNETHDRSZ: u64 = 0x400454d8;

// Memory protection and mapping flags.  See the kernel's mman headers.
pub const PROT_NONE: u64 = 0x0;
pub const PROT_READ: u64 = 0x1;
pub const PROT_WRITE: u64 = 0x2;
pub const MAP_SHARED: u64 = 0x01;
pub const MAP_PRIVATE: u64 = 0x02;
pub const MAP_ANONYMOUS: u64 = 0x20;
pub const MAP_NORESERVE: u64 = 0x4000;

// Socket families.  See the kernel's socket headers.
pub const PF_LOCAL: u64 = 1;

/// A modelled condition.
pub open spec fn m_cond(arg: u8, op: SeccompCmpOp, value: u64) -> SeccompCondition {
    SeccompCondition { arg_number: arg, operator: op, value }
}

/// The model of an unconditional allow rule.
pub open spec fn m_allow() -> (Seq<SeccompCondition>, SeccompAction) {
    (Seq::empty(), SeccompAction::Allow)
}

/// The model of an allow rule with one equals condition.
pub open spec fn m_eq1(arg: u8, value: u64) -> (Seq<SeccompCondition>, SeccompAction) {
    (seq![m_cond(arg, SeccompCmpOp::Eq, value)], SeccompAction::Allow)
}

/// The model of a chain of equals-allow rules on one argument, one per
/// value, in order.
pub open spec fn m_eq_chain(arg: u8, values: Seq<u64>) -> Seq<
    (Seq<SeccompCondition>, SeccompAction),
> {
    values.map_values(|v: u64| m_eq1(arg, v))
}

/// Whether a rule realises a modelled rule: same conditions, same action.
pub open spec fn rule_models(r: SeccompRule, m: (Seq<SeccompCondition>, SeccompAction)) -> bool {
    r.conditions@ == m.0 && r.action == m.1
}

/// Whether a chain realises a modelled chain, rule for rule.
pub open spec fn chain_models(
    chain: Seq<SeccompRule>,
    m: Seq<(Seq<SeccompCondition>, SeccompAction)>,
) -> bool {
    chain.len() == m.len() && forall|j: int|
        0 <= j < m.len() ==> rule_models(#[trigger] chain[j], m[j])
}

/// The accepted ioctl request codes, compared against the second argument.
pub open spec fn ioctl_codes() -> Seq<u64> {
    seq![
        TCSETS, TCGETS, TIOCGWINSZ, KVM_CHECK_EXTENSION, KVM_CREATE_VM, KVM_GET_API_VERSION,
        KVM_GET_SUPPORTED_CPUID, KVM_GET_VCPU_MMAP_SIZE, KVM_CREATE_IRQCHIP, KVM_CREATE_PIT2,
        KVM_CREATE_VCPU, KVM_IOEVENTFD, KVM_IRQFD, KVM_SET_TSS_ADDR, KVM_SET_USER_MEMORY_REGION,
        FIOCLEX, FIONBIO, TUNSETIFF, TUNSETOFFLOAD, TUNSETVNETHDRSZ, KVM_GET_LAPIC, KVM_GET_SREGS,
        KVM_RUN, KVM_SET_CPUID2, KVM_SET_FPU, KVM_SET_LAPIC, KVM_SET_MSRS, KVM_SET_REGS,
        KVM_SET_SREGS,
    ]
}

/// The accepted `open` flag combinations, compared against the second
/// argument.
pub open spec fn open_flag_codes() -> Seq<u64> {
    seq![
        O_RDWR,
        O_RDWR | O_CLOEXEC,
        O_RDWR | O_NONBLOCK | O_CLOEXEC,
        O_RDONLY,
        O_RDONLY | O_CLOEXEC,
        O_RDONLY | O_NONBLOCK | O_CLOEXEC,
    ]
}

/// The model of the `mmap` chain: an unconditional allow plus the exact
/// flag combinations used for guest memory and shared regions.
pub open spec fn mmap_model() -> Seq<(Seq<SeccompCondition>, SeccompAction)> {
    seq![
        m_allow(),
        (
            seq![
                m_cond(0, SeccompCmpOp::Eq, 0),
                m_cond(2, SeccompCmpOp::Eq, PROT_NONE),
                m_cond(3, SeccompCmpOp::Eq, MAP_PRIVATE | MAP_ANONYMOUS),
                m_cond(4, SeccompCmpOp::Eq, u64::MAX),
                m_cond(5, SeccompCmpOp::Eq, 0),
            ],
            SeccompAction::Allow,
        ),
        (
            seq![
                m_cond(0, SeccompCmpOp::Eq, 0),
                m_cond(2, SeccompCmpOp::Eq, PROT_READ),
                m_cond(3, SeccompCmpOp::Eq, MAP_SHARED),
                m_cond(5, SeccompCmpOp::Eq, 0),
            ],
            SeccompAction::Allow,
        ),
        (
            seq![
                m_cond(0, SeccompCmpOp::Eq, 0),
                m_cond(2, SeccompCmpOp::Eq, PROT_READ | PROT_WRITE),
                m_cond(3, SeccompCmpOp::Eq, MAP_SHARED),
                m_cond(5, SeccompCmpOp::Eq, 0),
            ],
            SeccompAction::Allow,
        ),
        (
            seq![
                m_cond(0, SeccompCmpOp::Eq, 0),
                m_cond(2, SeccompCmpOp::Eq, PROT_READ | PROT_WRITE),
                m_cond(3, SeccompCmpOp::Eq, MAP_SHARED | MAP_ANONYMOUS | MAP_NORESERVE),
                m_cond(4, SeccompCmpOp::Eq, u64::MAX),
                m_cond(5, SeccompCmpOp::Eq, 0),
            ],
            SeccompAction::Allow,
        ),
        (
            seq![
                m_cond(0, SeccompCmpOp::Eq, 0),
                m_cond(2, SeccompCmpOp::Eq, PROT_READ | PROT_WRITE),
                m_cond(3, SeccompCmpOp::Eq, MAP_PRIVATE | MAP_ANONYMOUS),
                m_cond(4, SeccompCmpOp::Eq, u64::MAX),
                m_cond(5, SeccompCmpOp::Eq, 0),
            ],
            SeccompAction::Allow,
        ),
        (
            seq![
                m_cond(0, SeccompCmpOp::Eq, 0),
                m_cond(2, SeccompCmpOp::Eq, PROT_READ | PROT_WRITE),
                m_cond(3, SeccompCmpOp::Eq, MAP_PRIVATE | MAP_ANONYMOUS | MAP_NORESERVE),
                m_cond(4, SeccompCmpOp::Eq, u64::MAX),
                m_cond(5, SeccompCmpOp::Eq, 0),
            ],
            SeccompAction::Allow,
        ),
    ]
}

/// The model of the `fcntl` chain: setting status flags to the accepted
/// combination, setting or reading the close-on-exec flag.
pub open spec fn fcntl_model() -> Seq<(Seq<SeccompCondition>, SeccompAction)> {
    seq![
        (
            seq![
                m_cond(1, SeccompCmpOp::Eq, F_SETFL),
                m_cond(2, SeccompCmpOp::Eq, O_RDONLY | O_NONBLOCK | O_CLOEXEC),
            ],
            SeccompAction::Allow,
        ),
        (
            seq![m_cond(1, SeccompCmpOp::Eq, F_SETFD), m_cond(2, SeccompCmpOp::Eq, FD_CLOEXEC)],
            SeccompAction::Allow,
        ),
        m_eq1(1, F_GETFD),
    ]
}

/// The model of the `eventfd2` chain: zero initial value and no flags.
pub open spec fn eventfd2_model() -> Seq<(Seq<SeccompCondition>, SeccompAction)> {
    seq![
        (
            seq![m_cond(0, SeccompCmpOp::Eq, 0), m_cond(1, SeccompCmpOp::Eq, 0)],
            SeccompAction::Allow,
        ),
    ]
}

/// The model of the `open` chain: an unconditional allow plus the accepted
/// flag combinations.
pub open spec fn open_model() -> Seq<(Seq<SeccompCondition>, SeccompAction)> {
    seq![m_allow()] + m_eq_chain(1, open_flag_codes())
}

/// The whole default policy: syscall number and modelled rule chain of each
/// entry, in the order the table is built; every entry has priority 0.
pub open spec fn default_policy_model() -> Seq<
    (i64, Seq<(Seq<SeccompCondition>, SeccompAction)>),
> {
    seq![
        (43i64, seq![m_allow()]),
        (49i64, seq![m_allow()]),
        (3i64, seq![m_allow()]),
        (32i64, seq![m_allow()]),
        (291i64, seq![m_eq1(0, 0)]),
        (233i64, m_eq_chain(1, seq![EPOLL_CTL_ADD, EPOLL_CTL_DEL])),
        (281i64, seq![m_allow()]),
        (290i64, eventfd2_model()),
        (72i64, fcntl_model()),
        (5i64, seq![m_allow()]),
        (202i64, m_eq_chain(1, seq![FUTEX_WAIT_PRIVATE, FUTEX_WAKE_PRIVATE, FUTEX_REQUEUE_PRIVATE])),
        (16i64, m_eq_chain(1, ioctl_codes())),
        (50i64, seq![m_allow()]),
        (8i64, seq![m_allow()]),
        (9i64, mmap_model()),
        (10i64, seq![m_eq1(2, PROT_READ | PROT_WRITE)]),
        (11i64, seq![m_allow()]),
        (2i64, open_model()),
        (22i64, seq![m_allow()]),
        (0i64, seq![m_allow()]),
        (89i64, seq![m_allow()]),
        (19i64, seq![m_allow()]),
        (41i64, seq![m_eq1(0, PF_LOCAL)]),
        (4i64, seq![m_allow()]),
        (286i64, seq![m_allow()]),
        (1i64, seq![m_allow()]),
        (20i64, seq![m_allow()]),
    ]
}

/// Whether a policy entry realises a modelled entry: same syscall number,
/// priority 0, and a chain that realises the modelled chain.
pub open spec fn entry_matches(
    e: (i64, (i64, Vec<SeccompRule>)),
    m: (i64, Seq<(Seq<SeccompCondition>, SeccompAction)>),
) -> bool {
    e.0 == m.0 && e.1.0 == 0 && chain_models(e.1.1@, m.1)
}

/// Whether a policy table realises the whole default policy model.
pub open spec fn matches_default_policy(s: Seq<(i64, (i64, Vec<SeccompRule>))>) -> bool {
    s.len() == default_policy_model().len() && forall|i: int|
        0 <= i < s.len() ==> entry_matches(#[trigger] s[i], default_policy_model()[i])
}

/// A rule with no conditions: it always matches and allows the syscall.
fn allow_rule() -> (r: SeccompRule)
    ensures
        rule_wf(r),
        rule_models(r, m_allow()),
{
    let conds: Vec<SeccompCondition> = Vec::new();
    proof {
        assert(conds@ =~= Seq::<SeccompCondition>::empty());
    }
    SeccompRule::new(conds, SeccompAction::Allow)
}

/// One condition, from arguments that are known to be in range.
fn cond_of(arg: u8, op: SeccompCmpOp, value: u64) -> (r: SeccompCondition)
    requires
        arg <= 5,
    ensures
        r == m_cond(arg, op, value),
{
    match SeccompCondition::new(arg, op, value) {
        Ok(c) => c,
        Err(_) => {
            proof {
                assert(false);
            }
            SeccompCondition { arg_number: 0, operator: SeccompCmpOp::Eq, value: 0 }
        },
    }
}

/// An allow rule over one argument condition.
fn allow_rule_1(arg: u8, op: SeccompCmpOp, value: u64) -> (r: SeccompRule)
    requires
        arg <= 5,
    ensures
        rule_wf(r),
        rule_models(r, (seq![m_cond(arg, op, value)], SeccompAction::Allow)),
{
    let mut conds: Vec<SeccompCondition> = Vec::new();
    conds.push(cond_of(arg, op, value));
    proof {
        assert(conds@ =~= seq![m_cond(arg, op, value)]);
    }
    SeccompRule::new(conds, SeccompAction::Allow)
}

/// An allow rule over a conjunction of conditions.
fn allow_rule_conds(conds: Vec<SeccompCondition>) -> (r: SeccompRule)
    requires
        forall|i: int| 0 <= i < conds@.len() ==> (#[trigger] conds@[i]).arg_number <= 5,
    ensures
        rule_wf(r),
        r.conditions@ == conds@,
        r.action == SeccompAction::Allow,
{
    SeccompRule::new(conds, SeccompAction::Allow)
}

/// One equals-allow rule per value, all on the same argument.
fn arg_eq_rules(arg: u8, values: &Vec<u64>) -> (r: Vec<SeccompRule>)
    requires
        arg <= 5,
    ensures
        r@.len() == values@.len(),
        forall|j: int| 0 <= j < r@.len() ==> rule_wf(#[trigger] r@[j]),
        forall|j: int|
            0 <= j < r@.len() ==> rule_models(#[trigger] r@[j], m_eq1(arg, values@[j])),
{
    let mut rules: Vec<SeccompRule> = Vec::new();
    let mut i: usize = 0;
    while i < values.len()
        invariant
            arg <= 5,
            0 <= i <= values@.len(),
            rules@.len() == i,
            forall|j: int| 0 <= j < rules@.len() ==> rule_wf(#[trigger] rules@[j]),
            forall|j: int|
                0 <= j < rules@.len() ==> rule_models(
                    #[trigger] rules@[j],
                    m_eq1(arg, values@[j]),
                ),
        decreases values@.len() - i,
    {
        rules.push(allow_rule_1(arg, SeccompCmpOp::Eq, values[i]));
        i = i + 1;
    }
    rules
}

/// Appends one well-formed policy entry for a syscall not yet in the table,
/// keeping all entries well formed and all syscall numbers distinct.
fn push_entry(
    entries: &mut Vec<(i64, (i64, Vec<SeccompRule>))>,
    nr: i64,
    chain: Vec<SeccompRule>,
)
    requires
        chain@.len() > 0,
        forall|j: int| 0 <= j < chain@.len() ==> rule_wf(#[trigger] chain@[j]),
        forall|i: int| 0 <= i < old(entries)@.len() ==> entry_wf(#[trigger] old(entries)@[i]),
        forall|i: int| 0 <= i < old(entries)@.len() ==> (#[trigger] old(entries)@[i]).0 != nr,
        forall|i: int, j: int|
            0 <= i < j < old(entries)@.len() ==> (#[trigger] old(entries)@[i]).0 != (
            #[trigger] old(entries)@[j]).0,
    ensures
        final(entries)@.len() == old(entries)@.len() + 1,
        forall|i: int| 0 <= i < old(entries)@.len() ==> final(entries)@[i] == old(entries)@[i],
        final(entries)@.last().0 == nr,
        final(entries)@.last().1.0 == 0,
        final(entries)@.last().1.1@ == chain@,
        forall|i: int| 0 <= i < final(entries)@.len() ==> entry_wf(#[trigger] final(entries)@[i]),
        forall|i: int, j: int|
            0 <= i < j < final(entries)@.len() ==> (#[trigger] final(entries)@[i]).0 != (
            #[trigger] final(entries)@[j]).0,
{
    let e = (nr, (0i64, chain));
    proof {
        assert(entry_wf(e));
    }
    let ghost pre = entries@;
    entries.push(e);
    proof {
        assert forall|i: int| 0 <= i < entries@.len() implies entry_wf(#[trigger] entries@[i]) by {
            if i < pre.len() {
                assert(entries@[i] == pre[i]);
            } else {
                assert(entries@[i] == e);
            }
        }
        assert forall|i: int, j: int| 0 <= i < j < entries@.len() implies (
        #[trigger] entries@[i]).0 != (#[trigger] entries@[j]).0 by {
            if j < pre.len() {
                assert(entries@[i] == pre[i] && entries@[j] == pre[j]);
            } else {
                assert(entries@[i] == pre[i] && entries@[j] == e);
            }
        }
    }
}

/// A single-rule chain that unconditionally allows the syscall.
fn allow_chain() -> (r: Vec<SeccompRule>)
    ensures
        r@.len() == 1,
        forall|j: int| 0 <= j < r@.len() ==> rule_wf(#[trigger] r@[j]),
        chain_models(r@, seq![m_allow()]),
{
    let mut chain: Vec<SeccompRule> = Vec::new();
    chain.push(allow_rule());
    chain
}

/// The chain of the `ioctl` syscall: each accepted request code, compared
/// against the second argument.
fn ioctl_chain() -> (r: Vec<SeccompRule>)
    ensures
        r@.len() > 0,
        forall|j: int| 0 <= j < r@.len() ==> rule_wf(#[trigger] r@[j]),
        chain_models(r@, m_eq_chain(1, ioctl_codes())),
{
    let mut codes: Vec<u64> = Vec::new();
    codes.push(TCSETS);
    codes.push(TCGETS);
    codes.push(TIOCGWINSZ);
    codes.push(KVM_CHECK_EXTENSION);
    codes.push(KVM_CREATE_VM);
    codes.push(KVM_GET_API_VERSION);
    codes.push(KVM_GET_SUPPORTED_CPUID);
    codes.push(KVM_GET_VCPU_MMAP_SIZE);
    codes.push(KVM_CREATE_IRQCHIP);
    codes.push(KVM_CREATE_PIT2);
    codes.push(KVM_CREATE_VCPU);
    codes.push(KVM_IOEVENTFD);
    codes.push(KVM_IRQFD);
    codes.push(KVM_SET_TSS_ADDR);
    codes.push(KVM_SET_USER_MEMORY_REGION);
    codes.push(FIOCLEX);
    codes.push(FIONBIO);
    codes.push(TUNSETIFF);
    codes.push(TUNSETOFFLOAD);
    codes.push(TUNSETVNETHDRSZ);
    codes.push(KVM_GET_LAPIC);
    codes.push(KVM_GET_SREGS);
    codes.push(KVM_RUN);
    codes.push(KVM_SET_CPUID2);
    codes.push(KVM_SET_FPU);
    codes.push(KVM_SET_LAPIC);
    codes.push(KVM_SET_MSRS);
    codes.push(KVM_SET_REGS);
    codes.push(KVM_SET_SREGS);
    proof {
        assert(codes@ =~= ioctl_codes());
    }
    let rules = arg_eq_rules(1, &codes);
    proof {
        assert forall|j: int| 0 <= j < m_eq_chain(1, ioctl_codes()).len() implies rule_models(
            #[trigger] rules@[j],
            m_eq_chain(1, ioctl_codes())[j],
        ) by {
            assert(rule_models(rules@[j], m_eq1(1, codes@[j])));
        }
    }
    rules
}

/// The chain of the `mmap` syscall: an unconditional allow plus the exact
/// flag combinations used for guest memory and shared regions.
fn mmap_chain() -> (r: Vec<SeccompRule>)
    ensures
        r@.len() > 0,
        forall|j: int| 0 <= j < r@.len() ==> rule_wf(#[trigger] r@[j]),
        chain_models(r@, mmap_model()),
{
    let mut chain: Vec<SeccompRule> = Vec::new();
    chain.push(allow_rule());

    let mut c2: Vec<SeccompCondition> = Vec::new();
    c2.push(cond_of(0, SeccompCmpOp::Eq, 0));
    c2.push(cond_of(2, SeccompCmpOp::Eq, PROT_NONE));
    c2.push(cond_of(3, SeccompCmpOp::Eq, MAP_PRIVATE | MAP_ANONYMOUS));
    c2.push(cond_of(4, SeccompCmpOp::Eq, u64::MAX));
    c2.push(cond_of(5, SeccompCmpOp::Eq, 0));
    proof {
        assert(c2@ =~= mmap_model()[1].0);
    }
    chain.push(allow_rule_conds(c2));

    let mut c3: Vec<SeccompCondition> = Vec::new();
    c3.push(cond_of(0, SeccompCmpOp::Eq, 0));
    c3.push(cond_of(2, SeccompCmpOp::Eq, PROT_READ));
    c3.push(cond_of(3, SeccompCmpOp::Eq, MAP_SHARED));
    c3.push(cond_of(5, SeccompCmpOp::Eq, 0));
    proof {
        assert(c3@ =~= mmap_model()[2].0);
    }
    chain.push(allow_rule_conds(c3));

    let mut c4: Vec<SeccompCondition> = Vec::new();
    c4.push(cond_of(0, SeccompCmpOp::Eq, 0));
    c4.push(cond_of(2, SeccompCmpOp::Eq, PROT_READ | PROT_WRITE));
    c4.push(cond_of(3, SeccompCmpOp::Eq, MAP_SHARED));
    c4.push(cond_of(5, SeccompCmpOp::Eq, 0));
    proof {
        assert(c4@ =~= mmap_model()[3].0);
    }
    chain.push(allow_rule_conds(c4));

    let mut c5: Vec<SeccompCondition> = Vec::new();
    c5.push(cond_of(0, SeccompCmpOp::Eq, 0));
    c5.push(cond_of(2, SeccompCmpOp::Eq, PROT_READ | PROT_WRITE));
    c5.push(cond_of(3, SeccompCmpOp::Eq, MAP_SHARED | MAP_ANONYMOUS | MAP_NORESERVE));
    c5.push(cond_of(4, SeccompCmpOp::Eq, u64::MAX));
    c5.push(cond_of(5, SeccompCmpOp::Eq, 0));
    proof {
        assert(c5@ =~= mmap_model()[4].0);
    }
    chain.push(allow_rule_conds(c5));

    let mut c6: Vec<SeccompCondition> = Vec::new();
    c6.push(cond_of(0, SeccompCmpOp::Eq, 0));
    c6.push(cond_of(2, SeccompCmpOp::Eq, PROT_READ | PROT_WRITE));
    c6.push(cond_of(3, SeccompCmpOp::Eq, MAP_PRIVATE | MAP_ANONYMOUS));
    c6.push(cond_of(4, SeccompCmpOp::Eq, u64::MAX));
    c6.push(cond_of(5, SeccompCmpOp::Eq, 0));
    proof {
        assert(c6@ =~= mmap_model()[5].0);
    }
    chain.push(allow_rule_conds(c6));

    let mut c7: Vec<SeccompCondition> = Vec::new();
    c7.push(cond_of(0, SeccompCmpOp::Eq, 0));
    c7.push(cond_of(2, SeccompCmpOp::Eq, PROT_READ | PROT_WRITE));
    c7.push(cond_of(3, SeccompCmpOp::Eq, MAP_PRIVATE | MAP_ANONYMOUS | MAP_NORESERVE));
    c7.push(cond_of(4, SeccompCmpOp::Eq, u64::MAX));
    c7.push(cond_of(5, SeccompCmpOp::Eq, 0));
    proof {
        assert(c7@ =~= mmap_model()[6].0);
    }
    chain.push(allow_rule_conds(c7));

    proof {
        assert(chain_models(chain@, mmap_model()));
    }
    chain
}

/// The chain of the `fcntl` syscall: setting status flags to the accepted
/// combination, setting or reading the close-on-exec flag.
fn fcntl_chain() -> (r: Vec<SeccompRule>)
    ensures
        r@.len() > 0,
        forall|j: int| 0 <= j < r@.len() ==> rule_wf(#[trigger] r@[j]),
        chain_models(r@, fcntl_model()),
{
    let mut chain: Vec<SeccompRule> = Vec::new();

    let mut c1: Vec<SeccompCondition> = Vec::new();
    c1.push(cond_of(1, SeccompCmpOp::Eq, F_SETFL));
    c1.push(cond_of(2, SeccompCmpOp::Eq, O_RDONLY | O_NONBLOCK | O_CLOEXEC));
    proof {
        assert(c1@ =~= fcntl_model()[0].0);
    }
    chain.push(allow_rule_conds(c1));

    let mut c2: Vec<SeccompCondition> = Vec::new();
    c2.push(cond_of(1, SeccompCmpOp::Eq, F_SETFD));
    c2.push(cond_of(2, SeccompCmpOp::Eq, FD_CLOEXEC));
    proof {
        assert(c2@ =~= fcntl_model()[1].0);
    }
    chain.push(allow_rule_conds(c2));

    chain.push(allow_rule_1(1, SeccompCmpOp::Eq, F_GETFD));
    proof {
        assert(chain_models(chain@, fcntl_model()));
    }
    chain
}

/// The chain of the `open` syscall: an unconditional allow plus the exact
/// accepted flag combinations.
fn open_chain() -> (r: Vec<SeccompRule>)
    ensures
        r@.len() > 0,
        forall|j: int| 0 <= j < r@.len() ==> rule_wf(#[trigger] r@[j]),
        chain_models(r@, open_model()),
{
    let mut flags: Vec<u64> = Vec::new();
    flags.push(O_RDWR);
    flags.push(O_RDWR | O_CLOEXEC);
    flags.push(O_RDWR | O_NONBLOCK | O_CLOEXEC);
    flags.push(O_RDONLY);
    flags.push(O_RDONLY | O_CLOEXEC);
    flags.push(O_RDONLY | O_NONBLOCK | O_CLOEXEC);
    proof {
        assert(flags@ =~= open_flag_codes());
    }
    let mut flag_rules = arg_eq_rules(1, &flags);
    let mut chain: Vec<SeccompRule> = Vec::new();
    chain.push(allow_rule());
    let ghost first = chain@;
    chain.append(&mut flag_rules);
    proof {
        assert forall|j: int| 0 <= j < open_model().len() implies rule_models(
            #[trigger] chain@[j],
            open_model()[j],
        ) by {
            if j == 0 {
                assert(chain@[0] == first[0]);
            } else {
                assert(open_model()[j] == m_eq_chain(1, open_flag_codes())[j - 1]);
                assert(rule_models(chain@[j], m_eq1(1, flags@[j - 1])));
            }
        }
        assert(chain_models(chain@, open_model()));
    }
    chain
}

/// The chain of the `eventfd2` syscall: zero initial value and no flags.
fn eventfd2_chain() -> (r: Vec<SeccompRule>)
    ensures
        r@.len() > 0,
        forall|j: int| 0 <= j < r@.len() ==> rule_wf(#[trigger] r@[j]),
        chain_models(r@, eventfd2_model()),
{
    let mut conds: Vec<SeccompCondition> = Vec::new();
    conds.push(cond_of(0, SeccompCmpOp::Eq, 0));
    conds.push(cond_of(1, SeccompCmpOp::Eq, 0));
    proof {
        assert(conds@ =~= eventfd2_model()[0].0);
    }
    let mut chain: Vec<SeccompRule> = Vec::new();
    chain.push(allow_rule_conds(conds));
    proof {
        assert(chain_models(chain@, eventfd2_model()));
    }
    chain
}

/// A chain of equals-allow rules over one argument.
fn arg_eq_chain(arg: u8, values: Vec<u64>) -> (r: Vec<SeccompRule>)
    requires
        arg <= 5,
        values@.len() > 0,
    ensures
        r@.len() > 0,
        forall|j: int| 0 <= j < r@.len() ==> rule_wf(#[trigger] r@[j]),
        chain_models(r@, m_eq_chain(arg, values@)),
{
    let rules = arg_eq_rules(arg, &values);
    proof {
        assert forall|j: int| 0 <= j < m_eq_chain(arg, values@).len() implies rule_models(
            #[trigger] rules@[j],
            m_eq_chain(arg, values@)[j],
        ) by {
            assert(rule_models(rules@[j], m_eq1(arg, values@[j])));
        }
    }
    rules
}

/// The default context with the allow-listed syscall rules that the jailed
/// binary needs to function, with trap as the default action.  The table
/// realises `default_policy_model` entry for entry.
pub fn default_context() -> (r: Result<SeccompFilterContext, Error>)
    ensures
        r matches Ok(ctx) && ctx_wf(ctx) && ctx.default_action == SeccompAction::Trap
            && matches_default_policy(ctx.rules@),
{
    let mut entries: Vec<(i64, (i64, Vec<SeccompRule>))> = Vec::new();

    push_entry(&mut entries, sys_accept(), allow_chain());

    proof {
        assert(forall|i: int|
            0 <= i < entries@.len() ==> entry_matches(
                #[trigger] entries@[i],
                default_policy_model()[i],
            ));
    }
    push_entry(&mut entries, sys_bind(), allow_chain());

    proof {
        assert(forall|i: int|
            0 <= i < entries@.len() ==> entry_matches(
                #[trigger] entries@[i],
                default_policy_model()[i],
            ));
    }
    push_entry(&mut entries, sys_close(), allow_chain());

    proof {
        assert(forall|i: int|
            0 <= i < entries@.len() ==> entry_matches(
                #[trigger] entries@[i],
                default_policy_model()[i],
            ));
    }
    push_entry(&mut entries, sys_dup(), allow_chain());

    proof {
        assert(forall|i: int|
            0 <= i < entries@.len() ==> entry_matches(
                #[trigger] entries@[i],
                default_policy_model()[i],
            ));
    }

    let mut epoll_create1_chain: Vec<SeccompRule> = Vec::new();
    epoll_create1_chain.push(allow_rule_1(0, SeccompCmpOp::Eq, 0));
    proof {
        assert(chain_models(epoll_create1_chain@, seq![m_eq1(0, 0)]));
    }
    push_entry(&mut entries, sys_epoll_create1(), epoll_create1_chain);

    proof {
        assert(forall|i: int|
            0 <= i < entries@.len() ==> entry_matches(
                #[trigger] entries@[i],
                default_policy_model()[i],
            ));
    }

    let mut epoll_ops: Vec<u64> = Vec::new();
    epoll_ops.push(EPOLL_CTL_ADD);
    epoll_ops.push(EPOLL_CTL_DEL);
    proof {
        assert(epoll_ops@ =~= seq![EPOLL_CTL_ADD, EPOLL_CTL_DEL]);
    }
    push_entry(&mut entries, sys_epoll_ctl(), arg_eq_chain(1, epoll_ops));

    proof {
        assert(forall|i: int|
            0 <= i < entries@.len() ==> entry_matches(
                #[trigger] entries@[i],
                default_policy_model()[i],
            ));
    }

    push_entry(&mut entries, sys_epoll_pwait(), allow_chain());

    proof {
        assert(forall|i: int|
            0 <= i < entries@.len() ==> entry_matches(
                #[trigger] entries@[i],
                default_policy_model()[i],
            ));
    }
    push_entry(&mut entries, sys_eventfd2(), eventfd2_chain());

    proof {
        assert(forall|i: int|
            0 <= i < entries@.len() ==> entry_matches(
                #[trigger] entries@[i],
                default_policy_model()[i],
            ));
    }
    push_entry(&mut entries, sys_fcntl(), fcntl_chain());

    proof {
        assert(forall|i: int|
            0 <= i < entries@.len() ==> entry_matches(
                #[trigger] entries@[i],
                default_policy_model()[i],
            ));
    }
    push_entry(&mut entries, sys_fstat(), allow_chain());

    proof {
        assert(forall|i: int|
            0 <= i < entries@.len() ==> entry_matches(
                #[trigger] entries@[i],
                default_policy_model()[i],
            ));
    }

    let mut futex_ops: Vec<u64> = Vec::new();
    futex_ops.push(FUTEX_WAIT_PRIVATE);
    futex_ops.push(FUTEX_WAKE_PRIVATE);
    futex_ops.push(FUTEX_REQUEUE_PRIVATE);
    proof {
        assert(futex_ops@ =~= seq![FUTEX_WAIT_PRIVATE, FUTEX_WAKE_PRIVATE, FUTEX_REQUEUE_PRIVATE]);
    }
    push_entry(&mut entries, sys_futex(), arg_eq_chain(1, futex_ops));

    proof {
        assert(forall|i: int|
            0 <= i < entries@.len() ==> entry_matches(
                #[trigger] entries@[i],
                default_policy_model()[i],
            ));
    }

    push_entry(&mut entries, sys_ioctl(), ioctl_chain());

    proof {
        assert(forall|i: int|
            0 <= i < entries@.len() ==> entry_matches(
                #[trigger] entries@[i],
                default_policy_model()[i],
            ));
    }
    push_entry(&mut entries, sys_listen(), allow_chain());

    proof {
        assert(forall|i: int|
            0 <= i < entries@.len() ==> entry_matches(
                #[trigger] entries@[i],
                default_policy_model()[i],
            ));
    }
    push_entry(&mut entries, sys_lseek(), allow_chain());

    proof {
        assert(forall|i: int|
            0 <= i < entries@.len() ==> entry_matches(
                #[trigger] entries@[i],
                default_policy_model()[i],
            ));
    }
    push_entry(&mut entries, sys_mmap(), mmap_chain());

    proof {
        assert(forall|i: int|
            0 <= i < entries@.len() ==> entry_matches(
                #[trigger] entries@[i],
                default_policy_model()[i],
            ));
    }

    let mut mprotect_chain: Vec<SeccompRule> = Vec::new();
    mprotect_chain.push(allow_rule_1(2, SeccompCmpOp::Eq, PROT_READ | PROT_WRITE));
    proof {
        assert(chain_models(mprotect_chain@, seq![m_eq1(2, PROT_READ | PROT_WRITE)]));
    }
    push_entry(&mut entries, sys_mprotect(), mprotect_chain);

    proof {
        assert(forall|i: int|
            0 <= i < entries@.len() ==> entry_matches(
                #[trigger] entries@[i],
                default_policy_model()[i],
            ));
    }

    push_entry(&mut entries, sys_munmap(), allow_chain());

    proof {
        assert(forall|i: int|
            0 <= i < entries@.len() ==> entry_matches(
                #[trigger] entries@[i],
                default_policy_model()[i],
            ));
    }
    push_entry(&mut entries, sys_open(), open_chain());

    proof {
        assert(forall|i: int|
            0 <= i < entries@.len() ==> entry_matches(
                #[trigger] entries@[i],
                default_policy_model()[i],
            ));
    }
    push_entry(&mut entries, sys_pipe(), allow_chain());

    proof {
        assert(forall|i: int|
            0 <= i < entries@.len() ==> entry_matches(
                #[trigger] entries@[i],
                default_policy_model()[i],
            ));
    }
    push_entry(&mut entries, sys_read(), allow_chain());

    proof {
        assert(forall|i: int|
            0 <= i < entries@.len() ==> entry_matches(
                #[trigger] entries@[i],
                default_policy_model()[i],
            ));
    }
    push_entry(&mut entries, sys_readlink(), allow_chain());

    proof {
        assert(forall|i: int|
            0 <= i < entries@.len() ==> entry_matches(
                #[trigger] entries@[i],
                default_policy_model()[i],
            ));
    }
    push_entry(&mut entries, sys_readv(), allow_chain());

    proof {
        assert(forall|i: int|
            0 <= i < entries@.len() ==> entry_matches(
                #[trigger] entries@[i],
                default_policy_model()[i],
            ));
    }

    let mut socket_chain: Vec<SeccompRule> = Vec::new();
    socket_chain.push(allow_rule_1(0, SeccompCmpOp::Eq, PF_LOCAL));
    proof {
        assert(chain_models(socket_chain@, seq![m_eq1(0, PF_LOCAL)]));
    }
    push_entry(&mut entries, sys_socket(), socket_chain);

    proof {
        assert(forall|i: int|
            0 <= i < entries@.len() ==> entry_matches(
                #[trigger] entries@[i],
                default_policy_model()[i],
            ));
    }

    push_entry(&mut entries, sys_stat(), allow_chain());

    proof {
        assert(forall|i: int|
            0 <= i < entries@.len() ==> entry_matches(
                #[trigger] entries@[i],
                default_policy_model()[i],
            ));
    }
    push_entry(&mut entries, sys_timerfd_settime(), allow_chain());

    proof {
        assert(forall|i: int|
            0 <= i < entries@.len() ==> entry_matches(
                #[trigger] entries@[i],
                default_policy_model()[i],
            ));
    }
    push_entry(&mut entries, sys_write(), allow_chain());

    proof {
        assert(forall|i: int|
            0 <= i < entries@.len() ==> entry_matches(
                #[trigger] entries@[i],
                default_policy_model()[i],
            ));
    }
    push_entry(&mut entries, sys_writev(), allow_chain());

    proof {
        assert(forall|i: int|
            0 <= i < entries@.len() ==> entry_matches(
                #[trigger] entries@[i],
                default_policy_model()[i],
            ));
    }

    proof {
        assert(matches_default_policy(entries@));
        assert forall|i: int| 0 <= i < entries@.len() implies (#[trigger] entries@[i]).1.1@.len()
            > 0 by {
            assert(entry_wf(entries@[i]));
        }
    }
    let ctx = SeccompFilterContext::new(entries, SeccompAction::Trap)?;
    Ok(ctx)
}

/// The syscall numbers let through at the basic filtering level.
pub fn allowed_syscalls() -> (r: Vec<i64>)
    ensures
        r@ == seq![
            0i64, 1, 2, 3, 4, 5, 8, 9, 10, 11, 12, 13, 14, 15, 16, 19, 20, 22, 32, 41, 43, 49,
            50, 56, 59, 60, 72, 89, 131, 157, 158, 202, 204, 218, 231, 233, 281, 283, 290, 291,
            318,
        ],
{
    let mut v: Vec<i64> = Vec::new();
    v.push(sys_read());
    v.push(sys_write());
    v.push(sys_open());
    v.push(sys_close());
    v.push(sys_stat());
    v.push(sys_fstat());
    v.push(sys_lseek());
    v.push(sys_mmap());
    v.push(sys_mprotect());
    v.push(sys_munmap());
    v.push(sys_brk());
    v.push(sys_rt_sigaction());
    v.push(sys_rt_sigprocmask());
    v.push(sys_rt_sigreturn());
    v.push(sys_ioctl());
    v.push(sys_readv());
    v.push(sys_writev());
    v.push(sys_pipe());
    v.push(sys_dup());
    v.push(sys_socket());
    v.push(sys_accept());
    v.push(sys_bind());
    v.push(sys_listen());
    v.push(sys_clone());
    v.push(sys_execve());
    v.push(sys_exit());
    v.push(sys_fcntl());
    v.push(sys_readlink());
    v.push(sys_sigaltstack());
    v.push(sys_prctl());
    v.push(sys_arch_prctl());
    v.push(sys_futex());
    v.push(sys_sched_getaffinity());
    v.push(sys_set_tid_address());
    v.push(sys_exit_group());
    v.push(sys_epoll_ctl());
    v.push(sys_epoll_pwait());
    v.push(sys_timerfd_create());
    v.push(sys_eventfd2());
    v.push(sys_epoll_create1());
    v.push(sys_getrandom());
    proof {
        assert(v@ =~= seq![
            0i64, 1, 2, 3, 4, 5, 8, 9, 10, 11, 12, 13, 14, 15, 16, 19, 20, 22, 32, 41, 43, 49,
            50, 56, 59, 60, 72, 89, 131, 157, 158, 202, 204, 218, 231, 233, 281, 283, 290, 291,
            318,
        ]);
    }
    v
}

} // verus!
