//! The classic-BPF instruction model: the fixed-shape 8-byte instruction
//! record, the opcode constants used by the compiler, and small builders for
//! whole instructions and for the standard program fragments (architecture
//! prologue, syscall examination, allow pair, trap).

use vstd::prelude::*;

verus! {

/// Maximum number of instructions that a BPF program can have.
pub const BPF_MAX_LEN: usize = 4096;

// BPF instruction classes.
pub const BPF_LD: u16 = 0x00;
pub const BPF_ALU: u16 = 0x04;
pub const BPF_JMP: u16 = 0x05;
pub const BPF_RET: u16 = 0x06;

// BPF ld/ldx fields.
pub const BPF_W: u16 = 0x00;
pub const BPF_ABS: u16 = 0x20;

// BPF alu fields.
pub const BPF_AND: u16 = 0x50;

// BPF jmp fields.
pub const BPF_JA: u16 = 0x00;
pub const BPF_JEQ: u16 = 0x10;
pub const BPF_JGT: u16 = 0x20;
pub const BPF_JGE: u16 = 0x30;
pub const BPF_K: u16 = 0x00;

// Return codes for BPF programs.
pub const SECCOMP_RET_ALLOW: u32 = 0x7fff0000;
pub const SECCOMP_RET_ERRNO: u32 = 0x00050000;
pub const SECCOMP_RET_KILL: u32 = 0x00000000;
pub const SECCOMP_RET_LOG: u32 = 0x7ffc0000;
pub const SECCOMP_RET_TRACE: u32 = 0x7ff00000;
pub const SECCOMP_RET_TRAP: u32 = 0x00030000;
pub const SECCOMP_RET_MASK: u32 = 0x0000ffff;

/// x86_64 little-endian architecture identifier, as the kernel's audit
/// subsystem defines it.
pub const AUDIT_ARCH_X86_64: u32 = 62 | 0x8000_0000 | 0x4000_0000;

// `struct seccomp_data` offsets of fields in bytes.
pub const SECCOMP_DATA_NR_OFFSET: u8 = 0;
pub const SECCOMP_DATA_ARCH_OFFSET: u8 = 4;
pub const SECCOMP_DATA_ARGS_OFFSET: u8 = 16;
pub const SECCOMP_DATA_ARG_SIZE: u8 = 8;

/// One classic-BPF instruction: opcode, the two 8-bit relative jump offsets,
/// and the 32-bit immediate.  Wire-compatible with the kernel's
/// `struct sock_filter`.
#[derive(Debug, Clone, Copy, PartialEq, Eq, Structural)]
pub struct SockFilter {
    pub code: u16,
    pub jt: u8,
    pub jf: u8,
    pub k: u32,
}

/// The instruction built by `BPF_STMT`.
pub open spec fn stmt(code: u16, k: u32) -> SockFilter {
    SockFilter { code, jt: 0, jf: 0, k }
}

/// The instruction built by `BPF_JUMP`.
pub open spec fn jump(code: u16, k: u32, jt: u8, jf: u8) -> SockFilter {
    SockFilter { code, jt, jf, k }
}

/// Builds a "jump" BPF instruction.
#[allow(non_snake_case)]
pub fn BPF_JUMP(code: u16, k: u32, jt: u8, jf: u8) -> (r: SockFilter)
    ensures
        r == jump(code, k, jt, jf),
{
    SockFilter { code, jt, jf, k }
}

/// Builds a "statement" BPF instruction.
#[allow(non_snake_case)]
pub fn BPF_STMT(code: u16, k: u32) -> (r: SockFilter)
    ensures
        r == stmt(code, k),
{
    SockFilter { code, jt: 0, jf: 0, k }
}

/// The three-instruction architecture prologue: load the `arch` field of
/// `seccomp_data`, skip one instruction when it matches the x86_64 audit
/// identifier, otherwise return kill.
pub open spec fn validate_architecture_bpf() -> Seq<SockFilter> {
    seq![
        stmt(0x20, 4),
        jump(0x15, AUDIT_ARCH_X86_64, 1, 0),
        stmt(0x06, SECCOMP_RET_KILL),
    ]
}

/// Builds the sequence of BPF instructions that validate the underlying
/// architecture.
#[allow(non_snake_case)]
pub fn VALIDATE_ARCHITECTURE() -> (r: Vec<SockFilter>)
    ensures
        r@ == validate_architecture_bpf(),
{
    let mut v: Vec<SockFilter> = Vec::new();
    v.push(BPF_STMT(BPF_LD + BPF_W + BPF_ABS, 4));
    v.push(BPF_JUMP(BPF_JMP + BPF_JEQ + BPF_K, AUDIT_ARCH_X86_64, 1, 0));
    v.push(BPF_STMT(BPF_RET + BPF_K, SECCOMP_RET_KILL));
    proof {
        assert(v@ =~= validate_architecture_bpf());
    }
    v
}

/// The single instruction that loads the syscall number into the accumulator.
pub open spec fn examine_syscall_bpf() -> Seq<SockFilter> {
    seq![stmt(0x20, 0)]
}

/// Builds the instruction that is followed by syscall examination.
#[allow(non_snake_case)]
pub fn EXAMINE_SYSCALL() -> (r: Vec<SockFilter>)
    ensures
        r@ == examine_syscall_bpf(),
{
    let mut v: Vec<SockFilter> = Vec::new();
    v.push(BPF_STMT(BPF_LD + BPF_W + BPF_ABS, 0));
    proof {
        assert(v@ =~= examine_syscall_bpf());
    }
    v
}

/// The two-instruction pair that lets one syscall number through.
pub open spec fn allow_syscall_bpf(syscall_number: i64) -> Seq<SockFilter> {
    seq![
        jump(0x15, syscall_number as u32, 0, 1),
        stmt(0x06, SECCOMP_RET_ALLOW),
    ]
}

/// Builds the pair of BPF instructions that allow a syscall to go through.
#[allow(non_snake_case)]
pub fn ALLOW_SYSCALL(syscall_number: i64) -> (r: Vec<SockFilter>)
    ensures
        r@ == allow_syscall_bpf(syscall_number),
{
    let mut v: Vec<SockFilter> = Vec::new();
    v.push(BPF_JUMP(BPF_JMP + BPF_JEQ + BPF_K, #[verifier::truncate] (syscall_number as u32), 0, 1));
    v.push(BPF_STMT(BPF_RET + BPF_K, SECCOMP_RET_ALLOW));
    proof {
        assert(v@ =~= allow_syscall_bpf(syscall_number));
    }
    v
}

/// Whether an instruction is a conditional jump (jump-equal, jump-greater,
/// jump-greater-or-equal), whose `jt` and `jf` fields are relative offsets.
pub open spec fn is_cond_jump(ins: SockFilter) -> bool {
    ins.code == 0x15 || ins.code == 0x25 || ins.code == 0x35
}

/// Whether an instruction is an unconditional jump, whose `k` field is the
/// relative offset.
pub open spec fn is_ja(ins: SockFilter) -> bool {
    ins.code == 0x05
}

/// Whether the jump at index `i` of `p` stays at or below `bound`: the
/// kernel resumes at `i + 1 + offset`, so this is the largest index (one
/// past the end of a fragment included) that any jump may reach.  An
/// unconditional jump must also fit the 8-bit offset range.
pub open spec fn jump_targets_ok(p: Seq<SockFilter>, i: int, bound: int) -> bool {
    &&& (is_cond_jump(p[i]) ==> i + 1 + p[i].jt <= bound && i + 1 + p[i].jf <= bound)
    &&& (is_ja(p[i]) ==> p[i].k <= 255 && i + 1 + p[i].k <= bound)
}

/// Every jump of `p` stays at or below `bound`.
pub open spec fn targets_within(p: Seq<SockFilter>, bound: int) -> bool {
    forall|i: int| 0 <= i < p.len() ==> jump_targets_ok(p, i, bound)
}

/// A bound on jump targets can be relaxed.
pub proof fn lemma_targets_mono(p: Seq<SockFilter>, b1: int, b2: int)
    requires
        targets_within(p, b1),
        b1 <= b2,
    ensures
        targets_within(p, b2),
{
    assert forall|i: int| 0 <= i < p.len() implies jump_targets_ok(p, i, b2) by {
        assert(jump_targets_ok(p, i, b1));
    }
}

/// Concatenation keeps jump targets bounded: the first part keeps its bound,
/// and the second part's local bound shifts by the first part's length.
pub proof fn lemma_targets_concat(a: Seq<SockFilter>, b: Seq<SockFilter>, bound: int)
    requires
        targets_within(a, bound),
        targets_within(b, bound - a.len()),
    ensures
        targets_within(a + b, bound),
{
    assert forall|i: int| 0 <= i < (a + b).len() implies jump_targets_ok(a + b, i, bound) by {
        if i < a.len() {
            assert((a + b)[i] == a[i]);
            assert(jump_targets_ok(a, i, bound));
        } else {
            assert((a + b)[i] == b[i - a.len()]);
            assert(jump_targets_ok(b, i - a.len(), bound - a.len()));
        }
    }
}

/// A small-step evaluation of the instruction subset that the compiler
/// emits, enough to state what the kernel does with an emitted program.
/// `data` maps a byte offset of `seccomp_data` to the 32-bit word there;
/// the result is the program's return code, or nothing when evaluation
/// leaves the modelled subset, runs off the program or runs out of fuel.
pub open spec fn eval_bpf(
    p: Seq<SockFilter>,
    data: spec_fn(u32) -> u32,
    pc: int,
    acc: u32,
    fuel: nat,
) -> Option<u32>
    decreases fuel,
{
    if fuel == 0 {
        Option::None
    } else if !(0 <= pc < p.len()) {
        Option::None
    } else {
        let ins = p[pc];
        let rest = (fuel - 1) as nat;
        if ins.code == 0x20 {
            eval_bpf(p, data, pc + 1, data(ins.k), rest)
        } else if ins.code == 0x54 {
            eval_bpf(p, data, pc + 1, acc & ins.k, rest)
        } else if ins.code == 0x06 {
            Option::Some(ins.k)
        } else if ins.code == 0x05 {
            eval_bpf(p, data, pc + 1 + ins.k, acc, rest)
        } else if ins.code == 0x15 {
            let off = if acc == ins.k {
                ins.jt
            } else {
                ins.jf
            };
            eval_bpf(p, data, pc + 1 + off, acc, rest)
        } else if ins.code == 0x25 {
            let off = if acc > ins.k {
                ins.jt
            } else {
                ins.jf
            };
            eval_bpf(p, data, pc + 1 + off, acc, rest)
        } else if ins.code == 0x35 {
            let off = if acc >= ins.k {
                ins.jt
            } else {
                ins.jf
            };
            eval_bpf(p, data, pc + 1 + off, acc, rest)
        } else {
            Option::None
        }
    }
}

/// The single instruction that emits `SIGSYS` when a syscall is denied.
pub open spec fn signal_process_bpf() -> Seq<SockFilter> {
    seq![stmt(0x06, SECCOMP_RET_TRAP)]
}

/// Builds the instruction that traps when a syscall is denied.
#[allow(non_snake_case)]
pub fn SIGNAL_PROCESS() -> (r: Vec<SockFilter>)
    ensures
        r@ == signal_process_bpf(),
{
    let mut v: Vec<SockFilter> = Vec::new();
    v.push(BPF_STMT(BPF_RET + BPF_K, SECCOMP_RET_TRAP));
    proof {
        assert(v@ =~= signal_process_bpf());
    }
    v
}

} // verus!
