//! The universal guarantees of the compiler, stated and proved over the
//! emission specification: the instruction budget, jump safety, the
//! architecture prologue and its behaviour on a foreign architecture, the
//! default-action sandwich, the priority order of chains, and the condition
//! length bound.

use vstd::prelude::*;

use crate::bpf::{
    eval_bpf, jump, lemma_targets_concat, lemma_targets_mono, stmt, targets_within, SockFilter,
    AUDIT_ARCH_X86_64, BPF_MAX_LEN, SECCOMP_RET_KILL,
};
use crate::condition::{cond_bpf, cond_len, SeccompCondition, SeccompCmpOp};
use crate::filter::{
    chain_bpf, chains_bpf, context_bpf, context_fits, lemma_sort_desc_sorted, rules_bpf,
    sort_desc, sorted_by_priority, SeccompFilterContext,
};
use crate::level::{advanced_filter_bpf, allow_list_bpf, basic_filter_bpf};
use crate::rule::{
    action_code, helper_jumps, lemma_rule_offset_bounds, rule_bpf, rule_offset, rule_suffix,
    SeccompRule,
};

verus! {

/// Instruction budget: a policy that compiles yields a program of at most
/// 4096 instructions.  (`SeccompFilterContext::into_bpf` returns
/// `ContextTooLarge` exactly when `context_fits` fails.)
pub proof fn lemma_instruction_budget(ctx: SeccompFilterContext)
    requires
        context_fits(ctx),
    ensures
        context_bpf(ctx).len() <= BPF_MAX_LEN,
{
}

/// Condition length bound: every condition fragment has at most six
/// instructions — exactly four for the equal and not-equal operators, five
/// for the four order comparisons, and six for masked-equal.
pub proof fn lemma_condition_length(c: SeccompCondition, offset: u8)
    ensures
        cond_bpf(c, offset).len() == cond_len(c.operator),
        cond_bpf(c, offset).len() <= 6,
        (c.operator == SeccompCmpOp::Eq || c.operator == SeccompCmpOp::Ne) ==> cond_bpf(
            c,
            offset,
        ).len() == 4,
        (c.operator == SeccompCmpOp::Ge || c.operator == SeccompCmpOp::Gt || c.operator
            == SeccompCmpOp::Le || c.operator == SeccompCmpOp::Lt) ==> cond_bpf(c, offset).len()
            == 5,
        (c.operator matches SeccompCmpOp::MaskedEq(_)) ==> cond_bpf(c, offset).len() == 6,
{
    match c.operator {
        SeccompCmpOp::Eq => {},
        SeccompCmpOp::Ge => {},
        SeccompCmpOp::Gt => {},
        SeccompCmpOp::Le => {},
        SeccompCmpOp::Lt => {},
        SeccompCmpOp::MaskedEq(_) => {},
        SeccompCmpOp::Ne => {},
    }
}

/// Architecture prologue: every emitted program starts with exactly three
/// instructions — load the `arch` field, branch-equal against the x86_64
/// audit identifier skipping one instruction, return kill.
pub proof fn lemma_architecture_prologue_advanced(ctx: SeccompFilterContext)
    ensures
        advanced_filter_bpf(ctx).len() >= 5,
        advanced_filter_bpf(ctx)[0] == stmt(0x20, 4),
        advanced_filter_bpf(ctx)[1] == jump(0x15, AUDIT_ARCH_X86_64, 1, 0),
        advanced_filter_bpf(ctx)[2] == stmt(0x06, SECCOMP_RET_KILL),
{
}

/// Architecture prologue of a basic-level program.
pub proof fn lemma_architecture_prologue_basic(allowed: Seq<i64>)
    ensures
        basic_filter_bpf(allowed).len() >= 5,
        basic_filter_bpf(allowed)[0] == stmt(0x20, 4),
        basic_filter_bpf(allowed)[1] == jump(0x15, AUDIT_ARCH_X86_64, 1, 0),
        basic_filter_bpf(allowed)[2] == stmt(0x06, SECCOMP_RET_KILL),
{
    lemma_allow_list_len(allowed);
}

/// The allow list compiles to two instructions per allowed syscall.
pub proof fn lemma_allow_list_len(allowed: Seq<i64>)
    ensures
        allow_list_bpf(allowed).len() == 2 * allowed.len(),
    decreases allowed.len(),
{
    if allowed.len() > 0 {
        lemma_allow_list_len(allowed.drop_last());
    }
}

/// Architecture mismatch: a program that begins with the prologue, executed
/// on `seccomp_data` whose `arch` word differs from the x86_64 audit
/// identifier, returns kill.
pub proof fn lemma_architecture_mismatch(
    p: Seq<SockFilter>,
    data: spec_fn(u32) -> u32,
    fuel: nat,
)
    requires
        p.len() >= 3,
        p[0] == stmt(0x20, 4),
        p[1] == jump(0x15, AUDIT_ARCH_X86_64, 1, 0),
        p[2] == stmt(0x06, SECCOMP_RET_KILL),
        data(4) != AUDIT_ARCH_X86_64,
        fuel >= 3,
    ensures
        eval_bpf(p, data, 0, 0, fuel) == Some(SECCOMP_RET_KILL),
{
    assert(eval_bpf(p, data, 0, 0, fuel) == eval_bpf(p, data, 1, data(4), (fuel - 1) as nat));
    assert(eval_bpf(p, data, 1, data(4), (fuel - 1) as nat) == eval_bpf(
        p,
        data,
        2,
        data(4),
        (fuel - 2) as nat,
    ));
    assert(eval_bpf(p, data, 2, data(4), (fuel - 2) as nat) == Some(SECCOMP_RET_KILL));
}

/// Architecture mismatch, applied to a compiled advanced-level program.
pub proof fn lemma_architecture_mismatch_advanced(
    ctx: SeccompFilterContext,
    data: spec_fn(u32) -> u32,
    fuel: nat,
)
    requires
        data(4) != AUDIT_ARCH_X86_64,
        fuel >= 3,
    ensures
        eval_bpf(advanced_filter_bpf(ctx), data, 0, 0, fuel) == Some(SECCOMP_RET_KILL),
{
    lemma_architecture_prologue_advanced(ctx);
    lemma_architecture_mismatch(advanced_filter_bpf(ctx), data, fuel);
}

/// Architecture mismatch, applied to a compiled basic-level program.
pub proof fn lemma_architecture_mismatch_basic(
    allowed: Seq<i64>,
    data: spec_fn(u32) -> u32,
    fuel: nat,
)
    requires
        data(4) != AUDIT_ARCH_X86_64,
        fuel >= 3,
    ensures
        eval_bpf(basic_filter_bpf(allowed), data, 0, 0, fuel) == Some(SECCOMP_RET_KILL),
{
    lemma_architecture_prologue_basic(allowed);
    lemma_architecture_mismatch(basic_filter_bpf(allowed), data, fuel);
}

/// Priority order: the compiler emits chains by non-increasing priority, so
/// of two chains with priorities p1 > p2, the chain with p1 comes first.
pub proof fn lemma_priority_order(ctx: SeccompFilterContext, i: int, j: int)
    requires
        0 <= i < j < sort_desc(ctx.rules@).len(),
    ensures
        sort_desc(ctx.rules@)[i].1.0 >= sort_desc(ctx.rules@)[j].1.0,
{
    lemma_sort_desc_sorted(ctx.rules@);
    assert(sorted_by_priority(sort_desc(ctx.rules@)));
}

/// `chains_bpf` of a prefix plus the block of the next entry.
proof fn lemma_chains_bpf_snoc(
    entries: Seq<(i64, (i64, Vec<SeccompRule>))>,
    k: int,
    dcode: u32,
)
    requires
        0 <= k < entries.len(),
    ensures
        chains_bpf(entries.take(k + 1), dcode) == chains_bpf(entries.take(k), dcode) + chain_bpf(
            entries[k].0,
            entries[k].1.1@,
            dcode,
        ),
{
    assert(entries.take(k + 1).drop_last() =~= entries.take(k));
    assert(entries.take(k + 1).last() == entries[k]);
}

/// `chains_bpf` splits at any prefix boundary.
proof fn lemma_chains_bpf_split(
    entries: Seq<(i64, (i64, Vec<SeccompRule>))>,
    k: int,
    dcode: u32,
)
    requires
        0 <= k <= entries.len(),
    ensures
        chains_bpf(entries, dcode) == chains_bpf(entries.take(k), dcode) + chains_bpf(
            entries.skip(k),
            dcode,
        ),
    decreases entries.len(),
{
    if k == entries.len() {
        assert(entries.take(k) =~= entries);
        assert(entries.skip(k) =~= Seq::<(i64, (i64, Vec<SeccompRule>))>::empty());
        assert(chains_bpf(entries, dcode) =~= chains_bpf(entries.take(k), dcode) + chains_bpf(
            entries.skip(k),
            dcode,
        ));
    } else {
        let dl = entries.drop_last();
        lemma_chains_bpf_split(dl, k, dcode);
        assert(dl.take(k) =~= entries.take(k));
        assert(entries.skip(k).drop_last() =~= dl.skip(k));
        assert(entries.skip(k).last() == entries.last());
        assert(entries.skip(k).len() > 0);
        assert(chains_bpf(entries.skip(k), dcode) == chains_bpf(dl.skip(k), dcode) + chain_bpf(
            entries.last().0,
            entries.last().1.1@,
            dcode,
        ));
        assert(chains_bpf(entries, dcode) =~= chains_bpf(entries.take(k), dcode) + chains_bpf(
            entries.skip(k),
            dcode,
        ));
    }
}

/// Default-action sandwich: the compiled program of a context ends with a
/// return of the default action, and each syscall chain ends with a return
/// of the default action just before the next chain (or the final return)
/// begins.  The end of chain `k` sits at index
/// `1 + chains_bpf(sorted.take(k + 1)).len()` of the program.
pub proof fn lemma_default_action_sandwich(ctx: SeccompFilterContext)
    ensures
        context_bpf(ctx).len() >= 2,
        context_bpf(ctx).last() == stmt(0x06, action_code(ctx.default_action)),
        forall|k: int|
            0 <= k < sort_desc(ctx.rules@).len() ==> context_bpf(ctx)[#[trigger] chains_bpf(
                sort_desc(ctx.rules@).take(k + 1),
                action_code(ctx.default_action),
            ).len() as int] == stmt(0x06, action_code(ctx.default_action)),
{
    let sorted = sort_desc(ctx.rules@);
    let dcode = action_code(ctx.default_action);
    let p = context_bpf(ctx);
    assert(p.last() == stmt(0x06, dcode));
    assert forall|k: int| 0 <= k < sorted.len() implies p[#[trigger] chains_bpf(
        sorted.take(k + 1),
        dcode,
    ).len() as int] == stmt(0x06, dcode) by {
        lemma_chains_bpf_snoc(sorted, k, dcode);
        lemma_chains_bpf_split(sorted, k + 1, dcode);
        let prefix = chains_bpf(sorted.take(k + 1), dcode);
        let block = chain_bpf(sorted[k].0, sorted[k].1.1@, dcode);
        assert(prefix.len() >= 1);
        assert(prefix.last() == block.last());
        assert(block.last() == stmt(0x06, dcode));
        let pos = prefix.len() as int;
        assert(p[pos] == chains_bpf(sorted, dcode)[pos - 1]);
        assert(chains_bpf(sorted, dcode)[pos - 1] == prefix[pos - 1]);
    }
}

/// The fragment of one condition keeps its jumps within its own length plus
/// the handed offset.
proof fn lemma_cond_targets(c: SeccompCondition, offset: u8)
    requires
        1 <= offset <= 252,
    ensures
        targets_within(cond_bpf(c, offset), cond_len(c.operator) + offset),
{
    let p = cond_bpf(c, offset);
    match c.operator {
        SeccompCmpOp::Eq => {
            assert(targets_within(p, 4 + offset));
        },
        SeccompCmpOp::Ge => {
            assert(targets_within(p, 5 + offset));
        },
        SeccompCmpOp::Gt => {
            assert(targets_within(p, 5 + offset));
        },
        SeccompCmpOp::Le => {
            assert(targets_within(p, 5 + offset));
        },
        SeccompCmpOp::Lt => {
            assert(targets_within(p, 5 + offset));
        },
        SeccompCmpOp::MaskedEq(_) => {
            assert(targets_within(p, 6 + offset));
        },
        SeccompCmpOp::Ne => {
            assert(targets_within(p, 4 + offset));
        },
    }
}

/// The helper block jumps at most one instruction past the tail it guards.
proof fn lemma_helper_targets(prev: int)
    requires
        1 <= prev <= 254,
    ensures
        targets_within(helper_jumps(prev), prev + 4),
{
    let p = helper_jumps(prev);
    assert(p[0].k == 2 && p[1].k == prev + 1 && p[2].k == prev + 1);
    assert(targets_within(p, prev + 4));
}

/// The emitted tail of a rule keeps every jump within its own length plus
/// one (the extra slot is the out-of-chain jump, which the enclosing chain
/// block accounts for), and the running offset never exceeds the tail's
/// length.
proof fn lemma_rule_suffix_targets(conds: Seq<SeccompCondition>, code: u32, i: int)
    requires
        0 <= i,
    ensures
        rule_suffix(conds, code, i).len() >= 1,
        rule_offset(conds, i) <= rule_suffix(conds, code, i).len(),
        targets_within(rule_suffix(conds, code, i), rule_suffix(conds, code, i).len() as int + 1),
    decreases i,
{
    if i == 0 {
        assert(targets_within(rule_suffix(conds, code, 0), 2));
    } else {
        lemma_rule_suffix_targets(conds, code, i - 1);
        lemma_rule_offset_bounds(conds, i - 1);
        lemma_condition_length(conds[i - 1], 1);
        let prev = rule_offset(conds, i - 1);
        let tail = rule_suffix(conds, code, i - 1);
        let tlen = tail.len() as int;
        if prev + 6 + 1 > 255 {
            let frag = cond_bpf(conds[i - 1], 1);
            let flen = frag.len() as int;
            let whole = rule_suffix(conds, code, i);
            let len = whole.len() as int;
            assert(whole == frag + helper_jumps(prev) + tail);
            assert(len == flen + 3 + tlen);
            lemma_cond_targets(conds[i - 1], 1);
            lemma_helper_targets(prev);
            lemma_targets_mono(frag, flen + 1, len + 1);
            lemma_targets_mono(helper_jumps(prev), prev + 4, tlen + 4);
            lemma_targets_concat(frag, helper_jumps(prev), flen + tlen + 4);
            lemma_targets_mono(frag + helper_jumps(prev), flen + tlen + 4, len + 1);
            lemma_targets_mono(tail, tlen + 1, tlen + 1);
            lemma_targets_concat(frag + helper_jumps(prev), tail, len + 1);
        } else {
            let frag = cond_bpf(conds[i - 1], prev as u8);
            let flen = frag.len() as int;
            let whole = rule_suffix(conds, code, i);
            let len = whole.len() as int;
            assert(whole == frag + tail);
            assert(len == flen + tlen);
            lemma_cond_targets(conds[i - 1], prev as u8);
            lemma_condition_length(conds[i - 1], prev as u8);
            lemma_targets_mono(frag, flen + prev, len + 1);
            lemma_targets_concat(frag, tail, len + 1);
        }
    }
}

/// A whole rule fragment keeps every jump within its own length plus one.
proof fn lemma_rule_targets(r: SeccompRule)
    ensures
        rule_bpf(r).len() >= 3,
        targets_within(rule_bpf(r), rule_bpf(r).len() as int + 1),
{
    let conds = r.conditions@;
    let code = action_code(r.action);
    let n = conds.len() as int;
    lemma_rule_suffix_targets(conds, code, n);
    lemma_rule_offset_bounds(conds, n);
    let off = rule_offset(conds, n);
    let suffix = rule_suffix(conds, code, n);
    let slen = suffix.len() as int;
    let head = seq![stmt(0x05, 1), stmt(0x05, (off + 1) as u32)];
    let p = rule_bpf(r);
    assert(p == head + suffix);
    assert(head[0].k == 1 && head[1].k == off + 1);
    assert(targets_within(head, off + 3));
    lemma_targets_mono(head, off + 3, p.len() as int + 1);
    lemma_targets_mono(suffix, slen + 1, slen + 1);
    lemma_targets_concat(head, suffix, p.len() as int + 1);
}

/// The concatenated rule fragments of a chain keep every jump within the
/// concatenation's length plus one.
proof fn lemma_rules_targets(chain: Seq<SeccompRule>)
    ensures
        targets_within(rules_bpf(chain), rules_bpf(chain).len() as int + 1),
    decreases chain.len(),
{
    if chain.len() == 0 {
    } else {
        let a = rules_bpf(chain.drop_last());
        let b = rule_bpf(chain.last());
        lemma_rules_targets(chain.drop_last());
        lemma_rule_targets(chain.last());
        let total = a.len() as int + b.len() as int;
        lemma_targets_mono(a, a.len() as int + 1, total + 1);
        lemma_targets_concat(a, b, total + 1);
    }
}

/// A chain block keeps every jump within its own length: the guard skips to
/// the second entry jump of the first rule, and a rule's out-jump reaches at
/// most one past the rule, which is still inside or at the end of the block.
proof fn lemma_chain_targets(nr: i64, chain: Seq<SeccompRule>, dcode: u32)
    ensures
        chain_bpf(nr, chain, dcode).len() >= 2,
        targets_within(chain_bpf(nr, chain, dcode), chain_bpf(nr, chain, dcode).len() as int),
{
    let guard = seq![jump(0x15, nr as u32, 0, 1)];
    let rules = rules_bpf(chain);
    let tailret = seq![stmt(0x06, dcode)];
    let p = chain_bpf(nr, chain, dcode);
    assert(p == guard + rules + tailret);
    lemma_rules_targets(chain);
    assert(targets_within(guard, 2));
    lemma_targets_mono(guard, 2, p.len() as int);
    lemma_targets_concat(guard, rules, p.len() as int);
    assert(targets_within(tailret, 0));
    lemma_targets_concat(guard + rules, tailret, p.len() as int);
}

/// The concatenated chain blocks keep every jump within their total length.
proof fn lemma_chains_targets(entries: Seq<(i64, (i64, Vec<SeccompRule>))>, dcode: u32)
    ensures
        targets_within(chains_bpf(entries, dcode), chains_bpf(entries, dcode).len() as int),
    decreases entries.len(),
{
    if entries.len() == 0 {
    } else {
        let a = chains_bpf(entries.drop_last(), dcode);
        let b = chain_bpf(entries.last().0, entries.last().1.1@, dcode);
        lemma_chains_targets(entries.drop_last(), dcode);
        lemma_chain_targets(entries.last().0, entries.last().1.1@, dcode);
        let total = a.len() as int + b.len() as int;
        lemma_targets_mono(a, a.len() as int, total);
        lemma_targets_concat(a, b, total);
    }
}

/// Jump safety of a compiled context: every jump offset fits in 8 bits and
/// lands strictly within the program (conditional offsets are 8-bit by
/// construction; unconditional ones are checked against 255).
pub proof fn lemma_jump_safety_context(ctx: SeccompFilterContext)
    ensures
        targets_within(context_bpf(ctx), context_bpf(ctx).len() as int - 1),
{
    let dcode = action_code(ctx.default_action);
    let sorted = sort_desc(ctx.rules@);
    let chains = chains_bpf(sorted, dcode);
    let p = context_bpf(ctx);
    let head = seq![stmt(0x20, 0)];
    let tailret = seq![stmt(0x06, dcode)];
    assert(p == head + chains + tailret);
    lemma_chains_targets(sorted, dcode);
    assert(targets_within(head, 0));
    lemma_targets_mono(head, 0, p.len() as int - 1);
    lemma_targets_mono(chains, chains.len() as int, chains.len() as int);
    lemma_targets_concat(head, chains, p.len() as int - 1);
    assert(targets_within(tailret, 0));
    lemma_targets_concat(head + chains, tailret, p.len() as int - 1);
}

/// Jump safety of a whole advanced-level program, prologue included.
pub proof fn lemma_jump_safety_advanced(ctx: SeccompFilterContext)
    ensures
        targets_within(advanced_filter_bpf(ctx), advanced_filter_bpf(ctx).len() as int - 1),
{
    let p = advanced_filter_bpf(ctx);
    let prologue = crate::bpf::validate_architecture_bpf();
    let ctxp = context_bpf(ctx);
    assert(p == prologue + ctxp);
    lemma_jump_safety_context(ctx);
    assert(targets_within(prologue, 3));
    assert(ctxp.len() >= 2);
    lemma_targets_mono(prologue, 3, p.len() as int - 1);
    lemma_targets_mono(ctxp, ctxp.len() as int - 1, ctxp.len() as int - 1);
    lemma_targets_concat(prologue, ctxp, p.len() as int - 1);
}

/// Jump safety of a whole basic-level program.
pub proof fn lemma_jump_safety_basic(allowed: Seq<i64>)
    ensures
        targets_within(basic_filter_bpf(allowed), basic_filter_bpf(allowed).len() as int - 1),
{
    let p = basic_filter_bpf(allowed);
    let prologue = crate::bpf::validate_architecture_bpf();
    let examine = crate::bpf::examine_syscall_bpf();
    let list = allow_list_bpf(allowed);
    let trap = crate::bpf::signal_process_bpf();
    assert(p == prologue + examine + list + trap);
    lemma_allow_list_targets(allowed);
    lemma_allow_list_len(allowed);
    assert(targets_within(prologue, 3));
    assert(targets_within(examine, 0));
    lemma_targets_mono(prologue, 3, 4);
    lemma_targets_concat(prologue, examine, 4);
    lemma_targets_mono(prologue + examine, 4, p.len() as int - 1);
    lemma_targets_mono(list, list.len() as int, list.len() as int);
    lemma_targets_concat(prologue + examine, list, p.len() as int - 1);
    assert(targets_within(trap, 0));
    lemma_targets_concat(prologue + examine + list, trap, p.len() as int - 1);
}

/// Each allow pair's failing jump lands on the next pair (or the final
/// trap), so the list keeps jumps within its own length.
proof fn lemma_allow_list_targets(allowed: Seq<i64>)
    ensures
        targets_within(allow_list_bpf(allowed), allow_list_bpf(allowed).len() as int),
    decreases allowed.len(),
{
    if allowed.len() == 0 {
    } else {
        let a = allow_list_bpf(allowed.drop_last());
        let b = crate::bpf::allow_syscall_bpf(allowed.last());
        lemma_allow_list_targets(allowed.drop_last());
        assert(targets_within(b, 2));
        let total = a.len() as int + b.len() as int;
        lemma_targets_mono(a, a.len() as int, total);
        lemma_targets_concat(a, b, total);
    }
}

} // verus!
