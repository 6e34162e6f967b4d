//! The rule compiler: a conjunction of conditions plus a terminal action is
//! turned into a self-contained BPF fragment with two entry jumps and an exit
//! action.
//!
//! The fragment is built back to front: the terminal return instruction
//! first, then each condition's fragment with a jump offset equal to the
//! cumulative length of what sits below it.  Classic-BPF jump offsets are
//! unsigned 8-bit, so whenever the next condition would need an offset that
//! no longer fits, a three-instruction helper block is inserted and the
//! running offset resets to 1.

use vstd::prelude::*;

use crate::bpf::{
    stmt, SockFilter, BPF_JA, BPF_JMP, BPF_K, BPF_RET, BPF_STMT, SECCOMP_RET_ALLOW,
    SECCOMP_RET_ERRNO, SECCOMP_RET_KILL, SECCOMP_RET_LOG, SECCOMP_RET_MASK, SECCOMP_RET_TRACE,
    SECCOMP_RET_TRAP,
};
use crate::condition::{cond_bpf, cond_len, SeccompCondition, ARG_NUMBER_MAX, CONDITION_MAX_LEN};

verus! {

/// Actions that seccomp can apply to a process calling a syscall.
#[derive(Debug, Clone, Copy, PartialEq, Eq, Structural)]
pub enum SeccompAction {
    /// Allows the syscall.
    Allow,
    /// Returns from the syscall with the specified error number.
    Errno(u32),
    /// Kills the calling process.
    Kill,
    /// Same as allow but logs the call.
    Log,
    /// Notifies the tracing process of the caller with the respective number.
    Trace(u32),
    /// Sends `SIGSYS` to the calling process.
    Trap,
}

/// The 32-bit BPF return code of an action: the top bits select the action,
/// the low 16 bits carry the data payload.
pub open spec fn action_code(a: SeccompAction) -> u32 {
    match a {
        SeccompAction::Allow => SECCOMP_RET_ALLOW,
        SeccompAction::Errno(x) => SECCOMP_RET_ERRNO | (x & SECCOMP_RET_MASK),
        SeccompAction::Kill => SECCOMP_RET_KILL,
        SeccompAction::Log => SECCOMP_RET_LOG,
        SeccompAction::Trace(x) => SECCOMP_RET_TRACE | (x & SECCOMP_RET_MASK),
        SeccompAction::Trap => SECCOMP_RET_TRAP,
    }
}

impl SeccompAction {
    /// Returns the BPF program return code of the action.
    pub fn code(&self) -> (r: u32)
        ensures
            r == action_code(*self),
    {
        match *self {
            SeccompAction::Allow => SECCOMP_RET_ALLOW,
            SeccompAction::Errno(x) => SECCOMP_RET_ERRNO | (x & SECCOMP_RET_MASK),
            SeccompAction::Kill => SECCOMP_RET_KILL,
            SeccompAction::Log => SECCOMP_RET_LOG,
            SeccompAction::Trace(x) => SECCOMP_RET_TRACE | (x & SECCOMP_RET_MASK),
            SeccompAction::Trap => SECCOMP_RET_TRAP,
        }
    }
}

/// Rule that seccomp attempts to match for a syscall.
///
/// If all conditions match then the rule matches.  The action of the first
/// rule that matches is applied to the calling process.  A rule with no
/// conditions always matches.
#[derive(Debug)]
pub struct SeccompRule {
    /// Conditions that the syscall must all match.
    pub conditions: Vec<SeccompCondition>,
    /// Action applied to the calling process if the rule matches.
    pub action: SeccompAction,
}

/// Well-formedness of a rule: every condition examines a valid argument
/// index.  `SeccompCondition::new` refuses any other index, so every rule
/// assembled through the constructors satisfies this.
pub open spec fn rule_wf(r: SeccompRule) -> bool {
    forall|i: int|
        0 <= i < r.conditions@.len() ==> (#[trigger] r.conditions@[i]).arg_number
            <= ARG_NUMBER_MAX
}

/// The running jump offset to the start of the next rule after the first `i`
/// conditions of a rule have been emitted (back to front).  It starts at 1,
/// the distance past the terminal return, grows by each emitted fragment's
/// length, and resets to 1 whenever a helper block is inserted.
pub open spec fn rule_offset(conds: Seq<SeccompCondition>, i: int) -> int
    decreases i,
{
    if i <= 0 {
        1
    } else {
        let prev = rule_offset(conds, i - 1);
        let base = if prev + CONDITION_MAX_LEN + 1 > 255 {
            1
        } else {
            prev
        };
        base + cond_len(conds[i - 1].operator)
    }
}

/// The three helper jumps inserted when the running offset would overflow:
/// the first continues the condition chain, the second jumps out of the rule
/// to the next rule, the third jumps out of the rule chain of the syscall.
pub open spec fn helper_jumps(prev: int) -> Seq<SockFilter> {
    seq![
        stmt(0x05, 2),
        stmt(0x05, (prev + 1) as u32),
        stmt(0x05, (prev + 1) as u32),
    ]
}

/// The emitted tail of a rule after processing its first `i` conditions: the
/// fragments of conditions `i-1` down to `0` (most recently emitted first),
/// with helper blocks where the offset overflowed, ending with the terminal
/// return of the rule's action.
pub open spec fn rule_suffix(conds: Seq<SeccompCondition>, code: u32, i: int) -> Seq<SockFilter>
    decreases i,
{
    if i <= 0 {
        seq![stmt(0x06, code)]
    } else {
        let prev = rule_offset(conds, i - 1);
        let tail = rule_suffix(conds, code, i - 1);
        if prev + CONDITION_MAX_LEN + 1 > 255 {
            cond_bpf(conds[i - 1], 1) + helper_jumps(prev) + tail
        } else {
            cond_bpf(conds[i - 1], prev as u8) + tail
        }
    }
}

/// The full BPF fragment of a rule: two entry jumps — the first into the
/// rule's body, the second past the rule — followed by the rule's tail.
pub open spec fn rule_bpf(r: SeccompRule) -> Seq<SockFilter> {
    let n = r.conditions@.len() as int;
    let off = rule_offset(r.conditions@, n);
    seq![stmt(0x05, 1), stmt(0x05, (off + 1) as u32)] + rule_suffix(
        r.conditions@,
        action_code(r.action),
        n,
    )
}

/// The running offset always stays between 1 and 254, so it fits an 8-bit
/// jump slot with room for the entry jump's `+ 1`.
pub proof fn lemma_rule_offset_bounds(conds: Seq<SeccompCondition>, i: int)
    ensures
        1 <= rule_offset(conds, i) <= 254,
    decreases i,
{
    if i > 0 {
        lemma_rule_offset_bounds(conds, i - 1);
    }
}

/// Builds the tail of a rule for its first `i` conditions, returning the
/// emitted instructions and the running offset.
fn build_rule_suffix(conds: &Vec<SeccompCondition>, i: usize, code: u32) -> (r: (
    Vec<SockFilter>,
    u8,
))
    requires
        i <= conds@.len(),
        forall|j: int|
            0 <= j < conds@.len() ==> (#[trigger] conds@[j]).arg_number <= ARG_NUMBER_MAX,
    ensures
        r.0@ == rule_suffix(conds@, code, i as int),
        r.1 == rule_offset(conds@, i as int),
    decreases i,
{
    proof {
        lemma_rule_offset_bounds(conds@, i as int);
    }
    if i == 0 {
        let mut v: Vec<SockFilter> = Vec::new();
        v.push(BPF_STMT(BPF_RET + BPF_K, code));
        proof {
            assert(v@ =~= rule_suffix(conds@, code, 0));
        }
        (v, 1)
    } else {
        proof {
            lemma_rule_offset_bounds(conds@, i - 1 as int);
        }
        let (mut tail, prev) = build_rule_suffix(conds, i - 1, code);
        let c = conds[i - 1];
        if prev as u16 + CONDITION_MAX_LEN + 1 > 255 {
            let mut v = c.into_bpf(1);
            let newoff: u8 = 1 + (v.len() as u8);
            v.push(BPF_STMT(BPF_JMP + BPF_JA, 2));
            v.push(BPF_STMT(BPF_JMP + BPF_JA, prev as u32 + 1));
            v.push(BPF_STMT(BPF_JMP + BPF_JA, prev as u32 + 1));
            v.append(&mut tail);
            proof {
                assert(v@ =~= rule_suffix(conds@, code, i as int));
            }
            (v, newoff)
        } else {
            let mut v = c.into_bpf(prev);
            let newoff: u8 = prev + (v.len() as u8);
            v.append(&mut tail);
            proof {
                assert(v@ =~= rule_suffix(conds@, code, i as int));
            }
            (v, newoff)
        }
    }
}

impl SeccompRule {
    /// Creates a new rule.  Rules with no conditions always match.
    pub fn new(conditions: Vec<SeccompCondition>, action: SeccompAction) -> (r: SeccompRule)
        ensures
            r == (SeccompRule { conditions, action }),
    {
        SeccompRule { conditions, action }
    }

    /// Translates the rule into BPF statements.
    ///
    /// Each rule starts with two jump statements: the first enters the rule,
    /// attempting a match; the second jumps past the rule, out of the current
    /// rule chain.
    pub fn into_bpf(self) -> (r: Vec<SockFilter>)
        requires
            rule_wf(self),
        ensures
            r@ == rule_bpf(self),
            r@.len() >= 3,
    {
        let n = self.conditions.len();
        let code = self.action.code();
        let (mut suffix, off) = build_rule_suffix(&self.conditions, n, code);
        proof {
            lemma_rule_offset_bounds(self.conditions@, n as int);
        }
        let mut v: Vec<SockFilter> = Vec::new();
        v.push(BPF_STMT(BPF_JMP + BPF_JA, 1));
        v.push(BPF_STMT(BPF_JMP + BPF_JA, off as u32 + 1));
        v.append(&mut suffix);
        proof {
            assert(v@ =~= rule_bpf(self));
        }
        v
    }
}

} // verus!
