//! Compilation of a filtering level to a whole BPF program: the
//! architecture prologue followed by either the compiled filter context
//! (advanced level), a plain allow-list dispatch (basic level), or nothing
//! at all (filtering disabled).
//!
//! Installing the compiled program into the kernel is the thin unverified
//! edge of the enclosing program; everything the kernel will run is
//! assembled and validated here.

use vstd::prelude::*;

use crate::bpf::{
    allow_syscall_bpf, examine_syscall_bpf, signal_process_bpf, stmt, validate_architecture_bpf,
    SockFilter, ALLOW_SYSCALL, BPF_K, BPF_RET, BPF_STMT, EXAMINE_SYSCALL, VALIDATE_ARCHITECTURE,
};
use crate::filter::{context_bpf, context_fits, ctx_wf, SeccompFilterContext};
use crate::rule::{action_code, SeccompAction};
use crate::sysnum::errno_einval;
use crate::Error;

verus! {

/// Specifies the type of seccomp filtering used.
pub enum SeccompLevel<'a> {
    /// Seccomp filtering by analysing syscall number and argument values.
    Advanced(SeccompFilterContext),
    /// Seccomp filtering by analysing syscall number.
    Basic(&'a [i64]),
    /// No seccomp filtering.
    Disabled,
}

/// Well-formedness of a level: an advanced level carries a well-formed
/// filter context.
pub open spec fn level_wf(level: SeccompLevel) -> bool {
    match level {
        SeccompLevel::Advanced(ctx) => ctx_wf(ctx),
        SeccompLevel::Basic(_) => true,
        SeccompLevel::Disabled => true,
    }
}

/// The allow pairs of a basic-level program, one per allowed syscall, in
/// order.
pub open spec fn allow_list_bpf(allowed: Seq<i64>) -> Seq<SockFilter>
    decreases allowed.len(),
{
    if allowed.len() == 0 {
        Seq::empty()
    } else {
        allow_list_bpf(allowed.drop_last()) + allow_syscall_bpf(allowed.last())
    }
}

/// The whole program of a basic level with a chosen default action:
/// architecture prologue, syscall examination, one allow pair per allowed
/// syscall, and a trailing return of the default action.
pub open spec fn basic_filter_bpf_with(allowed: Seq<i64>, default_code: u32) -> Seq<SockFilter> {
    validate_architecture_bpf() + examine_syscall_bpf() + allow_list_bpf(allowed) + seq![
        stmt(0x06, default_code),
    ]
}

/// The whole program of a basic level with the conventional trapping
/// default.
pub open spec fn basic_filter_bpf(allowed: Seq<i64>) -> Seq<SockFilter> {
    validate_architecture_bpf() + examine_syscall_bpf() + allow_list_bpf(allowed)
        + signal_process_bpf()
}

/// Synthesizes the basic-level program with the default action as a
/// parameter: an unknown syscall falls through every allow pair into
/// `default_action`.
pub fn build_basic_program(allowed: &[i64], default_action: SeccompAction) -> (r: Vec<SockFilter>)
    ensures
        r@ == basic_filter_bpf_with(allowed@, action_code(default_action)),
{
    let mut filters = VALIDATE_ARCHITECTURE();
    let mut examine = EXAMINE_SYSCALL();
    filters.append(&mut examine);
    let ghost head = validate_architecture_bpf() + examine_syscall_bpf();
    proof {
        assert(filters@ =~= head + allow_list_bpf(allowed@.take(0)));
    }
    let mut i: usize = 0;
    while i < allowed.len()
        invariant
            0 <= i <= allowed@.len(),
            head == validate_architecture_bpf() + examine_syscall_bpf(),
            filters@ == head + allow_list_bpf(allowed@.take(i as int)),
        decreases allowed@.len() - i,
    {
        let mut pair = ALLOW_SYSCALL(allowed[i]);
        filters.append(&mut pair);
        proof {
            assert(allowed@.take(i + 1).drop_last() =~= allowed@.take(i as int));
            assert(allowed@.take(i + 1).last() == allowed@[i as int]);
            assert(filters@ =~= head + allow_list_bpf(allowed@.take(i + 1)));
        }
        i = i + 1;
    }
    proof {
        assert(allowed@.take(allowed@.len() as int) =~= allowed@);
    }
    let code = default_action.code();
    filters.push(BPF_STMT(BPF_RET + BPF_K, code));
    proof {
        assert(filters@ =~= basic_filter_bpf_with(allowed@, action_code(default_action)));
    }
    filters
}

/// The whole program of an advanced level: architecture prologue followed by
/// the compiled filter context.
pub open spec fn advanced_filter_bpf(ctx: SeccompFilterContext) -> Seq<SockFilter> {
    validate_architecture_bpf() + context_bpf(ctx)
}

/// Builds the array of filter instructions for a filtering level.
///
/// A disabled level yields no program.  A basic level always compiles.  An
/// advanced level fails with `Load(EINVAL)` exactly when its context
/// exceeds the instruction ceiling.
pub fn build_filter_program<'a>(level: SeccompLevel<'a>) -> (r: Result<
    Option<Vec<SockFilter>>,
    Error,
>)
    requires
        level_wf(level),
    ensures
        (level matches SeccompLevel::Disabled) ==> r == Ok::<Option<Vec<SockFilter>>, Error>(
            Option::None,
        ),
        level matches SeccompLevel::Basic(allowed) ==> (r matches Ok(op) && op matches Some(p)
            && p@ == basic_filter_bpf(allowed@)),
        level matches SeccompLevel::Advanced(ctx) ==> {
            &&& context_fits(ctx) ==> (r matches Ok(op) && op matches Some(p) && p@
                == advanced_filter_bpf(ctx))
            &&& !context_fits(ctx) ==> r == Err::<Option<Vec<SockFilter>>, Error>(
                Error::Load(22),
            )
        },
{
    match level {
        SeccompLevel::Advanced(context) => {
            let mut filters = VALIDATE_ARCHITECTURE();
            let ghost ctx = context;
            match context.into_bpf() {
                Ok(mut compiled) => {
                    filters.append(&mut compiled);
                    proof {
                        assert(filters@ =~= advanced_filter_bpf(ctx));
                    }
                    Ok(Some(filters))
                },
                Err(_) => Err(Error::Load(errno_einval())),
            }
        },
        SeccompLevel::Basic(allowed) => {
            let program = build_basic_program(allowed, SeccompAction::Trap);
            proof {
                assert(program@ =~= basic_filter_bpf(allowed@));
            }
            Ok(Some(program))
        },
        SeccompLevel::Disabled => Ok(Option::None),
    }
}

} // verus!
