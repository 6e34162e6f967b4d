//! The filter compiler: a whole policy — syscall chains with priorities plus
//! a default action — is compiled into a BPF program.
//!
//! Chains are ordered by descending priority, each chain is guarded by a
//! syscall-number comparison and terminated by the default action, a final
//! default action ends the program, and the total length is validated
//! against the 4096-instruction ceiling.

use vstd::prelude::*;

use crate::bpf::{
    jump, stmt, SockFilter, BPF_ABS, BPF_JEQ, BPF_JMP, BPF_K, BPF_LD, BPF_RET, BPF_JUMP, BPF_STMT,
    BPF_W, BPF_MAX_LEN,
};
use crate::rule::{action_code, rule_bpf, rule_wf, SeccompAction, SeccompRule};
use crate::Error;

verus! {

/// Filter context containing rule chains assigned to syscall numbers.
///
/// Each entry associates a syscall number with a priority and a non-empty
/// chain of rules; a syscall number appears in at most one entry.  The
/// default action applies to syscalls that no entry matches.
#[derive(Debug)]
pub struct SeccompFilterContext {
    /// Entries of the policy: syscall number, then priority and rule chain.
    pub rules: Vec<(i64, (i64, Vec<SeccompRule>))>,
    /// Default action for syscall numbers with no matching entry.
    pub default_action: SeccompAction,
}

/// Well-formedness of one policy entry: its rule chain is non-empty and
/// every rule in it is well formed.
pub open spec fn entry_wf(e: (i64, (i64, Vec<SeccompRule>))) -> bool {
    e.1.1@.len() > 0 && forall|j: int| 0 <= j < e.1.1@.len() ==> rule_wf(#[trigger] e.1.1@[j])
}

/// Well-formedness of a context: every entry is well formed and every
/// syscall number has at most one entry, as in a mapping.  The constructors
/// reject empty chains, and rules built through `SeccompCondition::new` are
/// always well formed.
pub open spec fn ctx_wf(ctx: SeccompFilterContext) -> bool {
    &&& forall|i: int| 0 <= i < ctx.rules@.len() ==> entry_wf(#[trigger] ctx.rules@[i])
    &&& forall|i: int, j: int|
        0 <= i < j < ctx.rules@.len() ==> (#[trigger] ctx.rules@[i]).0 != (
        #[trigger] ctx.rules@[j]).0
}

/// First index at which `s` holds an entry for syscall `nr`, or -1.
pub open spec fn find_syscall(s: Seq<(i64, (i64, Vec<SeccompRule>))>, nr: i64) -> int
    decreases s.len(),
{
    if s.len() == 0 {
        -1
    } else if s[0].0 == nr {
        0
    } else {
        let t = find_syscall(s.drop_first(), nr);
        if t == -1 {
            -1
        } else {
            t + 1
        }
    }
}

/// `find_syscall` returns the first matching index: all entries before it
/// name other syscalls, and -1 means no entry matches at all.
pub proof fn lemma_find_syscall_props(s: Seq<(i64, (i64, Vec<SeccompRule>))>, nr: i64)
    ensures
        find_syscall(s, nr) == -1 ==> forall|j: int| 0 <= j < s.len() ==> (#[trigger] s[j]).0 != nr,
        find_syscall(s, nr) != -1 ==> {
            let k = find_syscall(s, nr);
            0 <= k < s.len() && s[k].0 == nr && forall|j: int| 0 <= j < k ==> (#[trigger] s[j]).0
                != nr
        },
    decreases s.len(),
{
    if s.len() > 0 && s[0].0 != nr {
        let d = s.drop_first();
        lemma_find_syscall_props(d, nr);
        if find_syscall(d, nr) == -1 {
            assert forall|j: int| 0 <= j < s.len() implies (#[trigger] s[j]).0 != nr by {
                if j > 0 {
                    assert(d[j - 1] == s[j]);
                }
            }
        } else {
            let k = find_syscall(d, nr);
            assert(s[k + 1] == d[k]);
            assert forall|j: int| 0 <= j < k + 1 implies (#[trigger] s[j]).0 != nr by {
                if j > 0 {
                    assert(d[j - 1] == s[j]);
                }
            }
        }
    }
}

/// Inserts an entry into a priority-descending sequence, after every entry
/// whose priority is at least as high (so that equal priorities keep their
/// relative order).
pub open spec fn insert_desc(
    e: (i64, (i64, Vec<SeccompRule>)),
    s: Seq<(i64, (i64, Vec<SeccompRule>))>,
) -> Seq<(i64, (i64, Vec<SeccompRule>))>
    decreases s.len(),
{
    if s.len() == 0 {
        seq![e]
    } else if s[0].1.0 >= e.1.0 {
        seq![s[0]] + insert_desc(e, s.drop_first())
    } else {
        seq![e] + s
    }
}

/// Stable sort of the policy entries by descending priority: the order in
/// which the compiler emits syscall chains.
pub open spec fn sort_desc(s: Seq<(i64, (i64, Vec<SeccompRule>))>) -> Seq<
    (i64, (i64, Vec<SeccompRule>)),
>
    decreases s.len(),
{
    if s.len() == 0 {
        Seq::empty()
    } else {
        insert_desc(s.last(), sort_desc(s.drop_last()))
    }
}

/// The concatenation of the BPF fragments of a chain of rules, in order.
pub open spec fn rules_bpf(chain: Seq<SeccompRule>) -> Seq<SockFilter>
    decreases chain.len(),
{
    if chain.len() == 0 {
        Seq::empty()
    } else {
        rules_bpf(chain.drop_last()) + rule_bpf(chain.last())
    }
}

/// The BPF block of one syscall chain: a guard comparing the loaded syscall
/// number (fall through on match, skip one instruction otherwise), the rule
/// fragments, and the default action reached when the chain was entered but
/// no rule matched.
pub open spec fn chain_bpf(nr: i64, chain: Seq<SeccompRule>, dcode: u32) -> Seq<SockFilter> {
    seq![jump(0x15, nr as u32, 0, 1)] + rules_bpf(chain) + seq![stmt(0x06, dcode)]
}

/// The concatenation of the chain blocks of a sequence of policy entries.
pub open spec fn chains_bpf(
    entries: Seq<(i64, (i64, Vec<SeccompRule>))>,
    dcode: u32,
) -> Seq<SockFilter>
    decreases entries.len(),
{
    if entries.len() == 0 {
        Seq::empty()
    } else {
        chains_bpf(entries.drop_last(), dcode) + chain_bpf(
            entries.last().0,
            entries.last().1.1@,
            dcode,
        )
    }
}

/// The whole program of a context: load the syscall number, the chain blocks
/// in priority order, then the default action once more, reached when no
/// chain matched.
pub open spec fn context_bpf(ctx: SeccompFilterContext) -> Seq<SockFilter> {
    let dcode = action_code(ctx.default_action);
    seq![stmt(0x20, 0)] + chains_bpf(sort_desc(ctx.rules@), dcode) + seq![stmt(0x06, dcode)]
}

/// Whether the compiled program of a context respects the 4096-instruction
/// ceiling: the compiler fails with `ContextTooLarge` exactly when it does
/// not.
pub open spec fn context_fits(ctx: SeccompFilterContext) -> bool {
    1 + chains_bpf(sort_desc(ctx.rules@), action_code(ctx.default_action)).len() < BPF_MAX_LEN
}

/// A prefix of the entries never emits more instructions than the whole
/// sequence does.
pub proof fn lemma_chains_bpf_prefix(
    entries: Seq<(i64, (i64, Vec<SeccompRule>))>,
    k: int,
    dcode: u32,
)
    requires
        0 <= k <= entries.len(),
    ensures
        chains_bpf(entries.take(k), dcode).len() <= chains_bpf(entries, dcode).len(),
    decreases entries.len(),
{
    if k < entries.len() {
        assert(entries.drop_last().take(k) =~= entries.take(k));
        lemma_chains_bpf_prefix(entries.drop_last(), k, dcode);
    } else {
        assert(entries.take(k) =~= entries);
    }
}

/// `insert_desc` splits at the first position whose priority is lower.
proof fn lemma_insert_desc_at(
    e: (i64, (i64, Vec<SeccompRule>)),
    s: Seq<(i64, (i64, Vec<SeccompRule>))>,
    p: int,
)
    requires
        0 <= p <= s.len(),
        forall|j: int| 0 <= j < p ==> (#[trigger] s[j]).1.0 >= e.1.0,
        p < s.len() ==> s[p].1.0 < e.1.0,
    ensures
        insert_desc(e, s) == s.take(p) + seq![e] + s.skip(p),
    decreases p,
{
    if p == 0 {
        if s.len() == 0 {
            assert(insert_desc(e, s) =~= s.take(0) + seq![e] + s.skip(0));
        } else {
            assert(insert_desc(e, s) =~= s.take(0) + seq![e] + s.skip(0));
        }
    } else {
        assert(s[0].1.0 >= e.1.0);
        lemma_insert_desc_at(e, s.drop_first(), p - 1);
        assert(s.drop_first().take(p - 1) =~= s.take(p).drop_first());
        assert(s.drop_first().skip(p - 1) =~= s.skip(p));
        assert(seq![s[0]] + insert_desc(e, s.drop_first()) =~= s.take(p) + seq![e] + s.skip(p));
    }
}

/// Sorts policy entries by descending priority with a stable insertion sort.
fn sort_entries(entries: Vec<(i64, (i64, Vec<SeccompRule>))>) -> (r: Vec<
    (i64, (i64, Vec<SeccompRule>)),
>)
    ensures
        r@ == sort_desc(entries@),
{
    let ghost orig = entries@;
    let mut rest = entries;
    let mut sorted: Vec<(i64, (i64, Vec<SeccompRule>))> = Vec::new();
    let ghost mut k: int = 0;
    while rest.len() > 0
        invariant
            0 <= k <= orig.len(),
            rest@ == orig.skip(k),
            sorted@ == sort_desc(orig.take(k)),
        decreases rest@.len(),
    {
        let e = rest.remove(0);
        proof {
            assert(e == orig[k]);
            assert(rest@ =~= orig.skip(k + 1));
        }
        let mut p: usize = 0;
        while p < sorted.len() && sorted[p].1.0 >= e.1.0
            invariant
                0 <= p <= sorted@.len(),
                forall|j: int| 0 <= j < p ==> (#[trigger] sorted@[j]).1.0 >= e.1.0,
            decreases sorted@.len() - p,
        {
            p = p + 1;
        }
        proof {
            lemma_insert_desc_at(e, sorted@, p as int);
        }
        let ghost pre = sorted@;
        sorted.insert(p, e);
        proof {
            assert(sorted@ =~= pre.take(p as int) + seq![e] + pre.skip(p as int));
            assert(orig.take(k + 1).drop_last() =~= orig.take(k));
            assert(orig.take(k + 1).last() == orig[k]);
            assert(sorted@ == sort_desc(orig.take(k + 1)));
            k = k + 1;
        }
    }
    proof {
        assert(orig.take(k) =~= orig);
    }
    sorted
}

impl SeccompFilterContext {
    /// Creates a new filter context from a set of policy entries and a
    /// default action.  Fails with `EmptyRulesVector` exactly when some entry
    /// carries an empty rule chain, since such a chain would break the
    /// emitted BPF code.
    pub fn new(
        rules: Vec<(i64, (i64, Vec<SeccompRule>))>,
        default_action: SeccompAction,
    ) -> (r: Result<SeccompFilterContext, Error>)
        ensures
            (forall|i: int|
                0 <= i < rules@.len() ==> (#[trigger] rules@[i]).1.1@.len() > 0) ==> r == Ok::<
                SeccompFilterContext,
                Error,
            >(SeccompFilterContext { rules, default_action }),
            (exists|i: int|
                0 <= i < rules@.len() && (#[trigger] rules@[i]).1.1@.len() == 0) ==> r == Err::<
                SeccompFilterContext,
                Error,
            >(Error::EmptyRulesVector),
    {
        let mut i: usize = 0;
        while i < rules.len()
            invariant
                0 <= i <= rules@.len(),
                forall|j: int| 0 <= j < i ==> (#[trigger] rules@[j]).1.1@.len() > 0,
            decreases rules@.len() - i,
        {
            if rules[i].1.1.len() == 0 {
                return Err(Error::EmptyRulesVector);
            }
            i = i + 1;
        }
        Ok(SeccompFilterContext { rules, default_action })
    }

    /// Adds rules to a syscall number in the filter context.
    ///
    /// When the syscall already has an entry, the rules are appended to its
    /// chain and its priority is kept; otherwise a new entry is created with
    /// `default_priority` (or priority 0 when none is given).  Fails with
    /// `EmptyRulesVector` exactly when `rules` is empty.
    pub fn add_rules(
        &mut self,
        syscall_number: i64,
        default_priority: Option<i64>,
        rules: Vec<SeccompRule>,
    ) -> (r: Result<(), Error>)
        ensures
            old(self).default_action == final(self).default_action,
            rules@.len() == 0 ==> r == Err::<(), Error>(Error::EmptyRulesVector) && *final(self)
                == *old(self),
            rules@.len() > 0 ==> r == Ok::<(), Error>(()) && {
                let s = old(self).rules@;
                let t = final(self).rules@;
                let k = find_syscall(s, syscall_number);
                if k == -1 {
                    let prio = match default_priority {
                        Some(p) => p,
                        None => 0,
                    };
                    t.len() == s.len() + 1 && (forall|j: int| 0 <= j < s.len() ==> t[j] == s[j])
                        && t[s.len() as int].0 == syscall_number && t[s.len() as int].1.0 == prio
                        && t[s.len() as int].1.1@ == rules@
                } else {
                    t.len() == s.len() && (forall|j: int|
                        0 <= j < s.len() && j != k ==> t[j] == s[j]) && t[k].0 == s[k].0
                        && t[k].1.0 == s[k].1.0 && t[k].1.1@ == s[k].1.1@ + rules@
                }
            },
    {
        if rules.len() == 0 {
            return Err(Error::EmptyRulesVector);
        }
        let ghost s = self.rules@;
        let mut to_add = rules;
        let mut i: usize = 0;
        while i < self.rules.len()
            invariant
                0 <= i <= s.len(),
                s == old(self).rules@,
                self.rules@ == s,
                self.default_action == old(self).default_action,
                to_add@ == rules@,
                rules@.len() > 0,
                forall|j: int| 0 <= j < i ==> (#[trigger] s[j]).0 != syscall_number,
            decreases s.len() - i,
        {
            if self.rules[i].0 == syscall_number {
                proof {
                    lemma_find_syscall_first(s, syscall_number, i as int);
                }
                let (nr, (prio, mut chain)) = self.rules.remove(i);
                let ghost chain0 = chain@;
                chain.append(&mut to_add);
                proof {
                    assert(chain@ =~= chain0 + rules@);
                }
                self.rules.insert(i, (nr, (prio, chain)));
                proof {
                    let t = self.rules@;
                    assert(t == s.remove(i as int).insert(i as int, (nr, (prio, chain))));
                    assert forall|j: int| 0 <= j < s.len() && j != i as int implies t[j] == s[j] by {
                        if j < i as int {
                            assert(t[j] == s.remove(i as int).insert(
                                i as int,
                                (nr, (prio, chain)),
                            )[j]);
                        } else {
                            assert(s.remove(i as int)[j - 1] == s[j]);
                        }
                    }
                    assert(t[i as int] == (nr, (prio, chain)));
                }
                return Ok(());
            }
            i = i + 1;
        }
        proof {
            lemma_find_syscall_props(s, syscall_number);
            if find_syscall(s, syscall_number) != -1 {
                let k = find_syscall(s, syscall_number);
                assert(s[k].0 == syscall_number);
                assert(false);
            }
        }
        let prio = match default_priority {
            Some(p) => p,
            None => 0,
        };
        self.rules.push((syscall_number, (prio, to_add)));
        Ok(())
    }

    /// Translates the filter context into BPF instructions.
    ///
    /// The syscall number is loaded, the chains are emitted in descending
    /// priority order, and the default action closes the program.  Fails with
    /// `ContextTooLarge` exactly when the compiled program would reach the
    /// 4096-instruction ceiling.
    pub fn into_bpf(self) -> (r: Result<Vec<SockFilter>, Error>)
        requires
            ctx_wf(self),
        ensures
            context_fits(self) ==> (r matches Ok(p) && p@ == context_bpf(self)),
            !context_fits(self) ==> r == Err::<Vec<SockFilter>, Error>(Error::ContextTooLarge),
    {
        let ghost this = self;
        let dcode = self.default_action.code();
        let sorted = sort_entries(self.rules);
        let ghost sseq = sorted@;
        proof {
            lemma_sort_desc_wf(this.rules@);
        }

        let mut result: Vec<SockFilter> = Vec::new();
        result.push(BPF_STMT(BPF_LD + BPF_W + BPF_ABS, 0));

        let mut rest = sorted;
        let ghost mut k: int = 0;
        while rest.len() > 0
            invariant
                this == self,
                ctx_wf(this),
                dcode == action_code(this.default_action),
                sseq == sort_desc(this.rules@),
                0 <= k <= sseq.len(),
                rest@ == sseq.skip(k),
                forall|i: int| 0 <= i < sseq.len() ==> entry_wf(#[trigger] sseq[i]),
                result@ == seq![stmt(0x20, 0)] + chains_bpf(sseq.take(k), dcode),
                result@.len() < BPF_MAX_LEN,
            decreases rest@.len(),
        {
            let (nr, (_prio, chain)) = rest.remove(0);
            proof {
                assert(sseq.skip(k)[0] == sseq[k]);
                assert(rest@ =~= sseq.skip(k + 1));
            }
            let ghost chain0 = chain@;

            let mut block: Vec<SockFilter> = Vec::new();
            block.push(BPF_JUMP(BPF_JMP + BPF_JEQ + BPF_K, #[verifier::truncate] (nr as u32), 0, 1));

            let mut rules_left = chain;
            let ghost mut j: int = 0;
            while rules_left.len() > 0
                invariant
                    0 <= j <= chain0.len(),
                    rules_left@ == chain0.skip(j),
                    forall|t: int| 0 <= t < chain0.len() ==> rule_wf(#[trigger] chain0[t]),
                    block@ == seq![jump(0x15, nr as u32, 0, 1)] + rules_bpf(chain0.take(j)),
                decreases rules_left@.len(),
            {
                let rule = rules_left.remove(0);
                proof {
                    assert(chain0.skip(j)[0] == chain0[j]);
                    assert(rules_left@ =~= chain0.skip(j + 1));
                }
                let mut rb = rule.into_bpf();
                block.append(&mut rb);
                proof {
                    assert(chain0.take(j + 1).drop_last() =~= chain0.take(j));
                    assert(chain0.take(j + 1).last() == chain0[j]);
                    j = j + 1;
                }
            }
            proof {
                assert(chain0.take(j) =~= chain0);
            }
            block.push(BPF_STMT(BPF_RET + BPF_K, dcode));
            proof {
                assert(block@ =~= chain_bpf(nr, chain0, dcode));
            }

            result.append(&mut block);
            proof {
                assert(sseq.take(k + 1).drop_last() =~= sseq.take(k));
                assert(sseq.take(k + 1).last() == sseq[k]);
                assert(result@ =~= seq![stmt(0x20, 0)] + chains_bpf(sseq.take(k + 1), dcode));
                k = k + 1;
            }
            if result.len() >= BPF_MAX_LEN {
                proof {
                    lemma_chains_bpf_prefix(sseq, k, dcode);
                    assert(result@.len() == 1 + chains_bpf(sseq.take(k), dcode).len());
                    assert(1 + chains_bpf(sseq, dcode).len() >= BPF_MAX_LEN);
                    assert(!context_fits(this));
                }
                return Err(Error::ContextTooLarge);
            }
        }
        proof {
            assert(sseq.take(k) =~= sseq);
        }
        result.push(BPF_STMT(BPF_RET + BPF_K, dcode));
        proof {
            assert(result@ =~= context_bpf(this));
        }
        Ok(result)
    }
}

/// `find_syscall` returns exactly the index of the first match.
proof fn lemma_find_syscall_first(s: Seq<(i64, (i64, Vec<SeccompRule>))>, nr: i64, i: int)
    requires
        0 <= i < s.len(),
        s[i].0 == nr,
        forall|j: int| 0 <= j < i ==> (#[trigger] s[j]).0 != nr,
    ensures
        find_syscall(s, nr) == i,
    decreases i,
{
    if i > 0 {
        assert(s.drop_first()[i - 1] == s[i]);
        assert(forall|j: int|
            0 <= j < i - 1 ==> (#[trigger] s.drop_first()[j]).0 == s[j + 1].0);
        lemma_find_syscall_first(s.drop_first(), nr, i - 1);
    }
}

/// Sorting preserves the per-entry facts that emission relies on: every
/// entry of the sorted sequence is an entry of the original one.
pub proof fn lemma_insert_desc_wf(
    e: (i64, (i64, Vec<SeccompRule>)),
    s: Seq<(i64, (i64, Vec<SeccompRule>))>,
)
    ensures
        forall|i: int|
            0 <= i < insert_desc(e, s).len() ==> (#[trigger] insert_desc(e, s)[i]) == e
                || exists|j: int| 0 <= j < s.len() && insert_desc(e, s)[i] == #[trigger] s[j],
    decreases s.len(),
{
    if s.len() > 0 && s[0].1.0 >= e.1.0 {
        lemma_insert_desc_wf(e, s.drop_first());
        assert forall|i: int| 0 <= i < insert_desc(e, s).len() implies (
        #[trigger] insert_desc(e, s)[i]) == e || exists|j: int|
            0 <= j < s.len() && insert_desc(e, s)[i] == #[trigger] s[j] by {
            if i == 0 {
                assert(insert_desc(e, s)[0] == s[0]);
            } else {
                let v = insert_desc(e, s.drop_first())[i - 1];
                assert(insert_desc(e, s)[i] == v);
                if v != e {
                    let j = choose|j: int|
                        0 <= j < s.drop_first().len() && v == s.drop_first()[j];
                    assert(s.drop_first()[j] == s[j + 1]);
                }
            }
        }
    }
}

/// Every entry of the priority-sorted sequence is an entry of the original
/// policy, so chain well-formedness carries over to emission order.
pub proof fn lemma_sort_desc_wf(s: Seq<(i64, (i64, Vec<SeccompRule>))>)
    ensures
        forall|i: int|
            0 <= i < sort_desc(s).len() ==> exists|j: int|
                0 <= j < s.len() && (#[trigger] sort_desc(s)[i]) == s[j],
    decreases s.len(),
{
    if s.len() > 0 {
        lemma_sort_desc_wf(s.drop_last());
        lemma_insert_desc_wf(s.last(), sort_desc(s.drop_last()));
        assert forall|i: int| 0 <= i < sort_desc(s).len() implies exists|j: int|
            0 <= j < s.len() && (#[trigger] sort_desc(s)[i]) == s[j] by {
            let v = sort_desc(s)[i];
            if v == s.last() {
                assert(v == s[s.len() - 1]);
            } else {
                let t = choose|t: int|
                    0 <= t < sort_desc(s.drop_last()).len() && v == sort_desc(s.drop_last())[t];
                let j = choose|j: int|
                    0 <= j < s.drop_last().len() && sort_desc(s.drop_last())[t] == s.drop_last()[j];
                assert(s.drop_last()[j] == s[j]);
            }
        }
    }
}

/// Decides well-formedness of a context at run time, so that an unverified
/// caller can test the compiler's precondition before compiling.
pub fn check_wf(ctx: &SeccompFilterContext) -> (r: bool)
    ensures
        r == ctx_wf(*ctx),
{
    let mut i: usize = 0;
    while i < ctx.rules.len()
        invariant
            0 <= i <= ctx.rules@.len(),
            forall|x: int| 0 <= x < i ==> entry_wf(#[trigger] ctx.rules@[x]),
        decreases ctx.rules@.len() - i,
    {
        let chain = &ctx.rules[i].1.1;
        if chain.len() == 0 {
            return false;
        }
        let mut j: usize = 0;
        while j < chain.len()
            invariant
                0 <= j <= chain@.len(),
                chain@.len() > 0,
                chain@ == ctx.rules@[i as int].1.1@,
                0 <= i < ctx.rules@.len(),
                forall|y: int| 0 <= y < j ==> rule_wf(#[trigger] chain@[y]),
            decreases chain@.len() - j,
        {
            let conds = &chain[j].conditions;
            let mut k: usize = 0;
            while k < conds.len()
                invariant
                    0 <= k <= conds@.len(),
                    conds@ == chain@[j as int].conditions@,
                    0 <= j < chain@.len(),
                    chain@ == ctx.rules@[i as int].1.1@,
                    0 <= i < ctx.rules@.len(),
                    forall|z: int| 0 <= z < k ==> (#[trigger] conds@[z]).arg_number <= 5,
                decreases conds@.len() - k,
            {
                if conds[k].arg_number > 5 {
                    proof {
                        assert(!rule_wf(chain@[j as int]));
                        assert(!entry_wf(ctx.rules@[i as int]));
                    }
                    return false;
                }
                k = k + 1;
            }
            proof {
                assert(rule_wf(chain@[j as int]));
            }
            j = j + 1;
        }
        proof {
            assert(entry_wf(ctx.rules@[i as int]));
        }
        i = i + 1;
    }
    let mut a: usize = 0;
    while a < ctx.rules.len()
        invariant
            0 <= a <= ctx.rules@.len(),
            forall|x: int| 0 <= x < ctx.rules@.len() ==> entry_wf(#[trigger] ctx.rules@[x]),
            forall|x: int, y: int|
                0 <= x < y < ctx.rules@.len() && x < a ==> (#[trigger] ctx.rules@[x]).0 != (
                #[trigger] ctx.rules@[y]).0,
        decreases ctx.rules@.len() - a,
    {
        let mut b: usize = a + 1;
        while b < ctx.rules.len()
            invariant
                0 <= a < b <= ctx.rules@.len(),
                forall|y: int| a < y < b ==> (#[trigger] ctx.rules@[y]).0 != ctx.rules@[a as int].0,
            decreases ctx.rules@.len() - b,
        {
            if ctx.rules[a].0 == ctx.rules[b].0 {
                return false;
            }
            b = b + 1;
        }
        a = a + 1;
    }
    true
}

/// Non-increasing priority along a sequence of policy entries.
pub open spec fn sorted_by_priority(s: Seq<(i64, (i64, Vec<SeccompRule>))>) -> bool {
    forall|i: int, j: int| 0 <= i < j < s.len() ==> (#[trigger] s[i]).1.0 >= (#[trigger] s[j]).1.0
}

/// Inserting into a priority-sorted sequence keeps it sorted.
pub proof fn lemma_insert_desc_sorted(
    e: (i64, (i64, Vec<SeccompRule>)),
    s: Seq<(i64, (i64, Vec<SeccompRule>))>,
)
    requires
        sorted_by_priority(s),
    ensures
        sorted_by_priority(insert_desc(e, s)),
    decreases s.len(),
{
    if s.len() == 0 {
    } else if s[0].1.0 >= e.1.0 {
        let s1 = s.drop_first();
        assert forall|i: int, j: int| 0 <= i < j < s1.len() implies (#[trigger] s1[i]).1.0 >= (
        #[trigger] s1[j]).1.0 by {
            assert(s1[i] == s[i + 1]);
            assert(s1[j] == s[j + 1]);
        }
        lemma_insert_desc_sorted(e, s1);
        lemma_insert_desc_wf(e, s1);
        let t = insert_desc(e, s1);
        let r = insert_desc(e, s);
        assert(r == seq![s[0]] + t);
        assert forall|i: int, j: int| 0 <= i < j < r.len() implies (#[trigger] r[i]).1.0 >= (
        #[trigger] r[j]).1.0 by {
            if i == 0 {
                let v = t[j - 1];
                assert(r[j] == v);
                if v == e {
                } else {
                    let x = choose|x: int| 0 <= x < s1.len() && v == s1[x];
                    assert(s1[x] == s[x + 1]);
                    assert(s[0].1.0 >= s[x + 1].1.0);
                }
            } else {
                assert(r[i] == t[i - 1]);
                assert(r[j] == t[j - 1]);
            }
        }
    } else {
        let r = insert_desc(e, s);
        assert(r == seq![e] + s);
        assert forall|i: int, j: int| 0 <= i < j < r.len() implies (#[trigger] r[i]).1.0 >= (
        #[trigger] r[j]).1.0 by {
            if i == 0 {
                assert(r[j] == s[j - 1]);
                if j - 1 > 0 {
                    assert(s[0].1.0 >= s[j - 1].1.0);
                }
            } else {
                assert(r[i] == s[i - 1]);
                assert(r[j] == s[j - 1]);
            }
        }
    }
}

/// The emission order of the compiler is sorted by non-increasing priority.
pub proof fn lemma_sort_desc_sorted(s: Seq<(i64, (i64, Vec<SeccompRule>))>)
    ensures
        sorted_by_priority(sort_desc(s)),
    decreases s.len(),
{
    if s.len() > 0 {
        lemma_sort_desc_sorted(s.drop_last());
        lemma_insert_desc_sorted(s.last(), sort_desc(s.drop_last()));
    }
}

} // verus!
