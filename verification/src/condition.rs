//! The condition compiler: one per-argument predicate is turned into a short
//! BPF fragment (at most six instructions) that compares a 64-bit syscall
//! argument against a constant.
//!
//! Classic BPF operates on a 32-bit accumulator, so every comparison is split
//! into a most-significant-half compare and a least-significant-half compare,
//! loaded from the kernel's `seccomp_data` layout.  The target is x86_64
//! little-endian: argument `N`'s least significant half lives at byte offset
//! `16 + 8·N` and its most significant half at `16 + 8·N + 4`.

use vstd::prelude::*;

use crate::bpf::{
    jump, stmt, SockFilter, BPF_ABS, BPF_ALU, BPF_AND, BPF_JEQ, BPF_JGE, BPF_JGT, BPF_JMP, BPF_K,
    BPF_LD, BPF_STMT, BPF_JUMP, BPF_W,
};
use crate::Error;

verus! {

/// The maximum argument index of a syscall: arguments are numbered 0 to 5.
pub const ARG_NUMBER_MAX: u8 = 5;

/// The maximum number of BPF statements that one condition translates into.
pub const CONDITION_MAX_LEN: u16 = 6;

/// Comparison to perform when matching a condition.
#[derive(Debug, Clone, Copy, PartialEq, Eq, Structural)]
pub enum SeccompCmpOp {
    /// Argument value is equal to the specified value.
    Eq,
    /// Argument value is greater than or equal to the specified value.
    Ge,
    /// Argument value is greater than the specified value.
    Gt,
    /// Argument value is less than or equal to the specified value.
    Le,
    /// Argument value is less than the specified value.
    Lt,
    /// Masked bits of the argument value equal masked bits of the specified
    /// value.
    MaskedEq(u64),
    /// Argument value is not equal to the specified value.
    Ne,
}

/// Condition that a syscall must match in order to satisfy a rule.
#[derive(Debug, Clone, Copy, PartialEq, Eq, Structural)]
pub struct SeccompCondition {
    /// Index of the syscall argument that is to be compared.
    pub arg_number: u8,
    /// Comparison to perform.
    pub operator: SeccompCmpOp,
    /// The value that the argument is compared against.
    pub value: u64,
}

/// Number of instructions in the fragment emitted for one condition with the
/// given operator.
pub open spec fn cond_len(op: SeccompCmpOp) -> int {
    match op {
        SeccompCmpOp::Eq => 4,
        SeccompCmpOp::Ge => 5,
        SeccompCmpOp::Gt => 5,
        SeccompCmpOp::Le => 5,
        SeccompCmpOp::Lt => 5,
        SeccompCmpOp::MaskedEq(_) => 6,
        SeccompCmpOp::Ne => 4,
    }
}

/// Byte offset, within `seccomp_data`, of the least significant half of the
/// argument a condition examines.
pub open spec fn lsb_offset_of(c: SeccompCondition) -> int {
    16 + c.arg_number * 8
}

/// Byte offset of the most significant half of the argument (little-endian
/// target: the high half sits four bytes above the low half).
pub open spec fn msb_offset_of(c: SeccompCondition) -> int {
    lsb_offset_of(c) + 4
}

/// The BPF fragment emitted for one condition, given the jump offset `offset`
/// to the start of the next rule.  The fragment falls through when the
/// condition holds and jumps `offset` instructions past its own end when it
/// does not.
pub open spec fn cond_bpf(c: SeccompCondition, offset: u8) -> Seq<SockFilter> {
    let msb = (c.value >> 32) as u32;
    let lsb = c.value as u32;
    let msb_off = msb_offset_of(c) as u32;
    let lsb_off = lsb_offset_of(c) as u32;
    match c.operator {
        SeccompCmpOp::Eq => seq![
            stmt(0x20, msb_off),
            jump(0x15, msb, 0, (offset + 2) as u8),
            stmt(0x20, lsb_off),
            jump(0x15, lsb, 0, offset),
        ],
        SeccompCmpOp::Ge => seq![
            stmt(0x20, msb_off),
            jump(0x25, msb, 3, 0),
            jump(0x15, msb, 0, (offset + 2) as u8),
            stmt(0x20, lsb_off),
            jump(0x35, lsb, 0, offset),
        ],
        SeccompCmpOp::Gt => seq![
            stmt(0x20, msb_off),
            jump(0x25, msb, 3, 0),
            jump(0x15, msb, 0, (offset + 2) as u8),
            stmt(0x20, lsb_off),
            jump(0x25, lsb, 0, offset),
        ],
        SeccompCmpOp::Le => seq![
            stmt(0x20, msb_off),
            jump(0x25, msb, (offset + 3) as u8, 0),
            jump(0x15, msb, 0, 2),
            stmt(0x20, lsb_off),
            jump(0x25, lsb, offset, 0),
        ],
        SeccompCmpOp::Lt => seq![
            stmt(0x20, msb_off),
            jump(0x25, msb, (offset + 3) as u8, 0),
            jump(0x15, msb, 0, 2),
            stmt(0x20, lsb_off),
            jump(0x35, lsb, offset, 0),
        ],
        SeccompCmpOp::MaskedEq(mask) => {
            let masked = c.value & mask;
            seq![
                stmt(0x20, msb_off),
                stmt(0x54, (mask >> 32) as u32),
                jump(0x15, (masked >> 32) as u32, 0, (offset + 3) as u8),
                stmt(0x20, lsb_off),
                stmt(0x54, mask as u32),
                jump(0x15, masked as u32, 0, offset),
            ]
        },
        SeccompCmpOp::Ne => seq![
            stmt(0x20, msb_off),
            jump(0x15, msb, 0, 2),
            stmt(0x20, lsb_off),
            jump(0x15, lsb, offset, 0),
        ],
    }
}

impl SeccompCondition {
    /// Creates a new condition from an argument index, a comparison operator
    /// and a comparison value.  Fails with `InvalidArgumentNumber` exactly
    /// when the argument index exceeds 5.
    pub fn new(arg_number: u8, operator: SeccompCmpOp, value: u64) -> (r: Result<
        SeccompCondition,
        Error,
    >)
        ensures
            arg_number <= ARG_NUMBER_MAX ==> r == Ok::<SeccompCondition, Error>(
                SeccompCondition { arg_number, operator, value },
            ),
            arg_number > ARG_NUMBER_MAX ==> r == Err::<SeccompCondition, Error>(
                Error::InvalidArgumentNumber,
            ),
    {
        if arg_number > ARG_NUMBER_MAX {
            return Err(Error::InvalidArgumentNumber);
        }
        Ok(SeccompCondition { arg_number, operator, value })
    }

    /// Splits the condition into 32-bit value halves and argument offsets.
    ///
    /// Returns the most significant half and least significant half of the
    /// `value` field, and the byte offsets, relative to `seccomp_data`, of the
    /// most significant and least significant halves of the argument selected
    /// by `arg_number`.
    pub fn value_segments(&self) -> (r: (u32, u32, u8, u8))
        requires
            self.arg_number <= ARG_NUMBER_MAX,
        ensures
            r.0 == (self.value >> 32) as u32,
            r.1 == self.value as u32,
            r.2 == msb_offset_of(*self),
            r.3 == lsb_offset_of(*self),
    {
        let msb = (self.value >> 32) as u32;
        let lsb = #[verifier::truncate] (self.value as u32);
        let arg_offset: u8 = 16 + self.arg_number * 8;
        let msb_offset: u8 = arg_offset + 4;
        let lsb_offset: u8 = arg_offset;
        (msb, lsb, msb_offset, lsb_offset)
    }

    /// Translates the `eq` (equal) condition into BPF statements.
    ///
    /// `offset` is the jump offset to the start of the next rule, taken when
    /// the condition fails.
    pub fn into_eq_bpf(self, offset: u8) -> (r: Vec<SockFilter>)
        requires
            self.arg_number <= ARG_NUMBER_MAX,
            self.operator == SeccompCmpOp::Eq,
            offset <= 252,
        ensures
            r@ == cond_bpf(self, offset),
    {
        let (msb, lsb, msb_offset, lsb_offset) = self.value_segments();
        let mut v: Vec<SockFilter> = Vec::new();
        v.push(BPF_STMT(BPF_LD + BPF_W + BPF_ABS, msb_offset as u32));
        v.push(BPF_JUMP(BPF_JMP + BPF_JEQ + BPF_K, msb, 0, offset + 2));
        v.push(BPF_STMT(BPF_LD + BPF_W + BPF_ABS, lsb_offset as u32));
        v.push(BPF_JUMP(BPF_JMP + BPF_JEQ + BPF_K, lsb, 0, offset));
        proof {
            assert(v@ =~= cond_bpf(self, offset));
        }
        v
    }

    /// Translates the `ge` (greater than or equal) condition into BPF
    /// statements.
    pub fn into_ge_bpf(self, offset: u8) -> (r: Vec<SockFilter>)
        requires
            self.arg_number <= ARG_NUMBER_MAX,
            self.operator == SeccompCmpOp::Ge,
            offset <= 252,
        ensures
            r@ == cond_bpf(self, offset),
    {
        let (msb, lsb, msb_offset, lsb_offset) = self.value_segments();
        let mut v: Vec<SockFilter> = Vec::new();
        v.push(BPF_STMT(BPF_LD + BPF_W + BPF_ABS, msb_offset as u32));
        v.push(BPF_JUMP(BPF_JMP + BPF_JGT + BPF_K, msb, 3, 0));
        v.push(BPF_JUMP(BPF_JMP + BPF_JEQ + BPF_K, msb, 0, offset + 2));
        v.push(BPF_STMT(BPF_LD + BPF_W + BPF_ABS, lsb_offset as u32));
        v.push(BPF_JUMP(BPF_JMP + BPF_JGE + BPF_K, lsb, 0, offset));
        proof {
            assert(v@ =~= cond_bpf(self, offset));
        }
        v
    }

    /// Translates the `gt` (greater than) condition into BPF statements.
    pub fn into_gt_bpf(self, offset: u8) -> (r: Vec<SockFilter>)
        requires
            self.arg_number <= ARG_NUMBER_MAX,
            self.operator == SeccompCmpOp::Gt,
            offset <= 252,
        ensures
            r@ == cond_bpf(self, offset),
    {
        let (msb, lsb, msb_offset, lsb_offset) = self.value_segments();
        let mut v: Vec<SockFilter> = Vec::new();
        v.push(BPF_STMT(BPF_LD + BPF_W + BPF_ABS, msb_offset as u32));
        v.push(BPF_JUMP(BPF_JMP + BPF_JGT + BPF_K, msb, 3, 0));
        v.push(BPF_JUMP(BPF_JMP + BPF_JEQ + BPF_K, msb, 0, offset + 2));
        v.push(BPF_STMT(BPF_LD + BPF_W + BPF_ABS, lsb_offset as u32));
        v.push(BPF_JUMP(BPF_JMP + BPF_JGT + BPF_K, lsb, 0, offset));
        proof {
            assert(v@ =~= cond_bpf(self, offset));
        }
        v
    }

    /// Translates the `le` (less than or equal) condition into BPF statements.
    pub fn into_le_bpf(self, offset: u8) -> (r: Vec<SockFilter>)
        requires
            self.arg_number <= ARG_NUMBER_MAX,
            self.operator == SeccompCmpOp::Le,
            offset <= 252,
        ensures
            r@ == cond_bpf(self, offset),
    {
        let (msb, lsb, msb_offset, lsb_offset) = self.value_segments();
        let mut v: Vec<SockFilter> = Vec::new();
        v.push(BPF_STMT(BPF_LD + BPF_W + BPF_ABS, msb_offset as u32));
        v.push(BPF_JUMP(BPF_JMP + BPF_JGT + BPF_K, msb, offset + 3, 0));
        v.push(BPF_JUMP(BPF_JMP + BPF_JEQ + BPF_K, msb, 0, 2));
        v.push(BPF_STMT(BPF_LD + BPF_W + BPF_ABS, lsb_offset as u32));
        v.push(BPF_JUMP(BPF_JMP + BPF_JGT + BPF_K, lsb, offset, 0));
        proof {
            assert(v@ =~= cond_bpf(self, offset));
        }
        v
    }

    /// Translates the `lt` (less than) condition into BPF statements.
    pub fn into_lt_bpf(self, offset: u8) -> (r: Vec<SockFilter>)
        requires
            self.arg_number <= ARG_NUMBER_MAX,
            self.operator == SeccompCmpOp::Lt,
            offset <= 252,
        ensures
            r@ == cond_bpf(self, offset),
    {
        let (msb, lsb, msb_offset, lsb_offset) = self.value_segments();
        let mut v: Vec<SockFilter> = Vec::new();
        v.push(BPF_STMT(BPF_LD + BPF_W + BPF_ABS, msb_offset as u32));
        v.push(BPF_JUMP(BPF_JMP + BPF_JGT + BPF_K, msb, offset + 3, 0));
        v.push(BPF_JUMP(BPF_JMP + BPF_JEQ + BPF_K, msb, 0, 2));
        v.push(BPF_STMT(BPF_LD + BPF_W + BPF_ABS, lsb_offset as u32));
        v.push(BPF_JUMP(BPF_JMP + BPF_JGE + BPF_K, lsb, offset, 0));
        proof {
            assert(v@ =~= cond_bpf(self, offset));
        }
        v
    }

    /// Translates the `masked_eq` (masked equal) condition into BPF
    /// statements: the condition holds when the argument ANDed with the mask
    /// equals the comparison value ANDed with the mask.
    pub fn into_masked_eq_bpf(self, offset: u8, mask: u64) -> (r: Vec<SockFilter>)
        requires
            self.arg_number <= ARG_NUMBER_MAX,
            self.operator == SeccompCmpOp::MaskedEq(mask),
            offset <= 252,
        ensures
            r@ == cond_bpf(self, offset),
    {
        let (_, _, msb_offset, lsb_offset) = self.value_segments();
        let masked_value = self.value & mask;
        let msb = (masked_value >> 32) as u32;
        let lsb = #[verifier::truncate] (masked_value as u32);
        let mask_msb = (mask >> 32) as u32;
        let mask_lsb = #[verifier::truncate] (mask as u32);
        let mut v: Vec<SockFilter> = Vec::new();
        v.push(BPF_STMT(BPF_LD + BPF_W + BPF_ABS, msb_offset as u32));
        v.push(BPF_STMT(BPF_ALU + BPF_AND + BPF_K, mask_msb));
        v.push(BPF_JUMP(BPF_JMP + BPF_JEQ + BPF_K, msb, 0, offset + 3));
        v.push(BPF_STMT(BPF_LD + BPF_W + BPF_ABS, lsb_offset as u32));
        v.push(BPF_STMT(BPF_ALU + BPF_AND + BPF_K, mask_lsb));
        v.push(BPF_JUMP(BPF_JMP + BPF_JEQ + BPF_K, lsb, 0, offset));
        proof {
            assert(v@ =~= cond_bpf(self, offset));
        }
        v
    }

    /// Translates the `ne` (not equal) condition into BPF statements.
    pub fn into_ne_bpf(self, offset: u8) -> (r: Vec<SockFilter>)
        requires
            self.arg_number <= ARG_NUMBER_MAX,
            self.operator == SeccompCmpOp::Ne,
            offset <= 252,
        ensures
            r@ == cond_bpf(self, offset),
    {
        let (msb, lsb, msb_offset, lsb_offset) = self.value_segments();
        let mut v: Vec<SockFilter> = Vec::new();
        v.push(BPF_STMT(BPF_LD + BPF_W + BPF_ABS, msb_offset as u32));
        v.push(BPF_JUMP(BPF_JMP + BPF_JEQ + BPF_K, msb, 0, 2));
        v.push(BPF_STMT(BPF_LD + BPF_W + BPF_ABS, lsb_offset as u32));
        v.push(BPF_JUMP(BPF_JMP + BPF_JEQ + BPF_K, lsb, offset, 0));
        proof {
            assert(v@ =~= cond_bpf(self, offset));
        }
        v
    }

    /// Translates the condition into BPF statements, dispatching on the
    /// operator.  The fragment has exactly `cond_len` instructions, which
    /// never exceeds `CONDITION_MAX_LEN`.
    pub fn into_bpf(self, offset: u8) -> (r: Vec<SockFilter>)
        requires
            self.arg_number <= ARG_NUMBER_MAX,
            offset <= 252,
        ensures
            r@ == cond_bpf(self, offset),
            r@.len() == cond_len(self.operator),
            r@.len() <= CONDITION_MAX_LEN,
    {
        match self.operator {
            SeccompCmpOp::Eq => self.into_eq_bpf(offset),
            SeccompCmpOp::Ge => self.into_ge_bpf(offset),
            SeccompCmpOp::Gt => self.into_gt_bpf(offset),
            SeccompCmpOp::Le => self.into_le_bpf(offset),
            SeccompCmpOp::Lt => self.into_lt_bpf(offset),
            SeccompCmpOp::MaskedEq(mask) => self.into_masked_eq_bpf(offset, mask),
            SeccompCmpOp::Ne => self.into_ne_bpf(offset),
        }
    }
}

} // verus!
