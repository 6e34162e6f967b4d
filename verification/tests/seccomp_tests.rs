use seccomp::bpf::{ALLOW_SYSCALL, EXAMINE_SYSCALL, SIGNAL_PROCESS, VALIDATE_ARCHITECTURE};
use seccomp::{
    Error, SeccompAction, SeccompCmpOp, SeccompCondition, SeccompFilterContext, SeccompLevel,
    SeccompRule, SockFilter, BPF_JUMP, BPF_STMT,
};

// Checks that a rule gets translated correctly into BPF statements.
#[test]
fn test_rule_bpf_output() {
    // Builds rule.
    let rule = SeccompRule::new(
        vec![
            SeccompCondition::new(0, SeccompCmpOp::Eq, 1).unwrap(),
            SeccompCondition::new(2, SeccompCmpOp::MaskedEq(0b1010), 14).unwrap(),
        ],
        SeccompAction::Allow,
    );

    // Argument value offsets on the little-endian target.
    let (msb_offset, lsb_offset) = (4, 0);

    // Builds hardcoded BPF instructions.
    let instructions = vec![
        BPF_STMT(0x05, 1),
        BPF_STMT(0x05, 12),
        BPF_STMT(0x20, 32 + msb_offset),
        BPF_STMT(0x54, 0),
        BPF_JUMP(0x15, 0, 0, 8),
        BPF_STMT(0x20, 32 + lsb_offset),
        BPF_STMT(0x54, 0b1010),
        BPF_JUMP(0x15, 14 & 0b1010, 0, 5),
        BPF_STMT(0x20, 16 + msb_offset),
        BPF_JUMP(0x15, 0, 0, 3),
        BPF_STMT(0x20, 16 + lsb_offset),
        BPF_JUMP(0x15, 1, 0, 1),
        BPF_STMT(0x06, 0x7fff0000),
    ];

    // Compares the translated rule with the hardcoded BPF instructions.
    assert_eq!(rule.into_bpf(), instructions);
}

// Checks that a rule with too many conditions gets translated correctly into
// BPF statements using three helper jumps.
#[test]
fn test_rule_many_conditions_bpf_output() {
    // Builds rule.
    let mut conditions = Vec::with_capacity(43);
    for _ in 0..42 {
        conditions.push(SeccompCondition::new(0, SeccompCmpOp::MaskedEq(0), 0).unwrap());
    }
    conditions.push(SeccompCondition::new(0, SeccompCmpOp::Eq, 0).unwrap());
    let rule = SeccompRule::new(conditions, SeccompAction::Allow);

    // Argument value offsets on the little-endian target.
    let (msb_offset, lsb_offset) = (4, 0);

    // Builds hardcoded BPF instructions.
    let mut instructions = vec![
        BPF_STMT(0x05, 1),
        BPF_STMT(0x05, 6),
        BPF_STMT(0x20, 16 + msb_offset),
        BPF_JUMP(0x15, 0, 0, 3),
        BPF_STMT(0x20, 16 + lsb_offset),
        BPF_JUMP(0x15, 0, 0, 1),
        BPF_STMT(0x05, 2),
        BPF_STMT(0x05, 254),
        BPF_STMT(0x05, 254),
    ];
    let mut offset = 253;
    for _ in 0..42 {
        offset -= 6;
        instructions.append(&mut vec![
            BPF_STMT(0x20, 16 + msb_offset),
            BPF_STMT(0x54, 0),
            BPF_JUMP(0x15, 0, 0, offset + 3),
            BPF_STMT(0x20, 16 + lsb_offset),
            BPF_STMT(0x54, 0),
            BPF_JUMP(0x15, 0, 0, offset),
        ]);
    }
    instructions.push(BPF_STMT(0x06, 0x7fff0000));

    // Compares the translated rule with the hardcoded BPF instructions.
    assert_eq!(rule.into_bpf(), instructions);
}

#[test]
fn test_context_bpf_output() {
    // Compares the translated context with a hardcoded BPF program.
    let context = SeccompFilterContext::new(
        vec![
            (
                1,
                (
                    1,
                    vec![
                        SeccompRule::new(
                            vec![
                                SeccompCondition::new(2, SeccompCmpOp::Le, 14).unwrap(),
                                SeccompCondition::new(2, SeccompCmpOp::Ne, 10).unwrap(),
                            ],
                            SeccompAction::Allow,
                        ),
                        SeccompRule::new(
                            vec![
                                SeccompCondition::new(2, SeccompCmpOp::Gt, 20).unwrap(),
                                SeccompCondition::new(2, SeccompCmpOp::Lt, 30).unwrap(),
                            ],
                            SeccompAction::Allow,
                        ),
                    ],
                ),
            ),
            (
                9,
                (
                    0,
                    vec![SeccompRule::new(
                        vec![SeccompCondition::new(1, SeccompCmpOp::MaskedEq(0b100), 36).unwrap()],
                        SeccompAction::Allow,
                    )],
                ),
            ),
        ],
        SeccompAction::Trap,
    )
    .unwrap();
    let instructions = vec![
        BPF_STMT(0x20, 0),
        BPF_JUMP(0x15, 1, 0, 1),
        BPF_STMT(0x05, 1),
        BPF_STMT(0x05, 11),
        BPF_STMT(0x20, 36),
        BPF_JUMP(0x15, 0, 0, 2),
        BPF_STMT(0x20, 32),
        BPF_JUMP(0x15, 10, 6, 0),
        BPF_STMT(0x20, 36),
        BPF_JUMP(0x25, 0, 4, 0),
        BPF_JUMP(0x15, 0, 0, 2),
        BPF_STMT(0x20, 32),
        BPF_JUMP(0x25, 14, 1, 0),
        BPF_STMT(0x06, 0x7fff0000),
        BPF_STMT(0x05, 1),
        BPF_STMT(0x05, 12),
        BPF_STMT(0x20, 36),
        BPF_JUMP(0x25, 0, 9, 0),
        BPF_JUMP(0x15, 0, 0, 2),
        BPF_STMT(0x20, 32),
        BPF_JUMP(0x35, 30, 6, 0),
        BPF_STMT(0x20, 36),
        BPF_JUMP(0x25, 0, 3, 0),
        BPF_JUMP(0x15, 0, 0, 3),
        BPF_STMT(0x20, 32),
        BPF_JUMP(0x25, 20, 0, 1),
        BPF_STMT(0x06, 0x7fff0000),
        BPF_STMT(0x06, 0x00030000),
        BPF_JUMP(0x15, 9, 0, 1),
        BPF_STMT(0x05, 1),
        BPF_STMT(0x05, 8),
        BPF_STMT(0x20, 28),
        BPF_STMT(0x54, 0),
        BPF_JUMP(0x15, 0, 0, 4),
        BPF_STMT(0x20, 24),
        BPF_STMT(0x54, 0b100),
        BPF_JUMP(0x15, 36 & 0b100, 0, 1),
        BPF_STMT(0x06, 0x7fff0000),
        BPF_STMT(0x06, 0x00030000),
        BPF_STMT(0x06, 0x00030000),
    ];

    assert_eq!(context.into_bpf().unwrap(), instructions);
}

#[test]
fn test_bpf_expanding_functions() {
    // Compares the output of the BPF instruction-building functions with
    // hardcoded instructions.
    assert_eq!(
        BPF_STMT(0x00 + 0x00 + 0x20, 16),
        SockFilter {
            code: 0x20,
            jt: 0,
            jf: 0,
            k: 16,
        }
    );
    assert_eq!(
        BPF_JUMP(0x05 + 0x10 + 0x00, 10, 2, 5),
        SockFilter {
            code: 0x15,
            jt: 2,
            jf: 5,
            k: 10,
        }
    );
}

#[test]
fn test_bpf_functions() {
    {
        let ret = VALIDATE_ARCHITECTURE();
        let instructions = vec![
            SockFilter {
                code: 32,
                jt: 0,
                jf: 0,
                k: 4,
            },
            SockFilter {
                code: 21,
                jt: 1,
                jf: 0,
                k: 0xC000003E,
            },
            SockFilter {
                code: 6,
                jt: 0,
                jf: 0,
                k: 0,
            },
        ];
        assert_eq!(ret, instructions);
    }

    {
        let ret = EXAMINE_SYSCALL();
        let instructions = vec![SockFilter {
            code: 32,
            jt: 0,
            jf: 0,
            k: 0,
        }];
        assert_eq!(ret, instructions);
    }

    {
        let ret = ALLOW_SYSCALL(123);
        let instructions = vec![
            SockFilter {
                code: 21,
                jt: 0,
                jf: 1,
                k: 123,
            },
            SockFilter {
                code: 6,
                jt: 0,
                jf: 0,
                k: 0x7FFF0000,
            },
        ];
        assert_eq!(ret, instructions);
    }

    {
        let ret = SIGNAL_PROCESS();
        let instructions = vec![SockFilter {
            code: 6,
            jt: 0,
            jf: 0,
            k: 0x30000,
        }];
        assert_eq!(ret, instructions);
    }
}

// A condition with an argument index over five is rejected; five itself is
// accepted.
#[test]
fn test_condition_argument_number_bound() {
    assert!(matches!(
        SeccompCondition::new(6, SeccompCmpOp::Eq, 0),
        Err(Error::InvalidArgumentNumber)
    ));
    assert!(matches!(
        SeccompCondition::new(7, SeccompCmpOp::MaskedEq(1), 0),
        Err(Error::InvalidArgumentNumber)
    ));
    assert!(matches!(
        SeccompCondition::new(255, SeccompCmpOp::Lt, 3),
        Err(Error::InvalidArgumentNumber)
    ));
    assert!(SeccompCondition::new(5, SeccompCmpOp::Eq, 0).is_ok());
    assert!(SeccompCondition::new(0, SeccompCmpOp::Ne, u64::MAX).is_ok());
}

// Every condition fragment stays within six instructions.
#[test]
fn test_condition_fragment_length_bound() {
    let ops = vec![
        SeccompCmpOp::Eq,
        SeccompCmpOp::Ge,
        SeccompCmpOp::Gt,
        SeccompCmpOp::Le,
        SeccompCmpOp::Lt,
        SeccompCmpOp::MaskedEq(0xff00ff00ff00ff00),
        SeccompCmpOp::Ne,
    ];
    for op in ops {
        let cond = SeccompCondition::new(3, op, 0x1234_5678_9abc_def0).unwrap();
        let fragment = cond.into_bpf(17);
        assert!(fragment.len() <= 6);
    }
}

// Empty rule chains are rejected both at construction and at mutation.
#[test]
fn test_empty_rules_vector_rejection() {
    let bad = SeccompFilterContext::new(vec![(0, (0, vec![]))], SeccompAction::Trap);
    assert!(matches!(bad, Err(Error::EmptyRulesVector)));

    let mut context = SeccompFilterContext::new(vec![], SeccompAction::Trap).unwrap();
    assert!(matches!(
        context.add_rules(1, None, vec![]),
        Err(Error::EmptyRulesVector)
    ));
}

// Adding rules appends to an existing chain and creates missing entries with
// the given (or zero) priority.
#[test]
fn test_add_rules() {
    let mut context = SeccompFilterContext::new(vec![], SeccompAction::Trap).unwrap();
    context
        .add_rules(
            1,
            Some(7),
            vec![SeccompRule::new(vec![], SeccompAction::Allow)],
        )
        .unwrap();
    context
        .add_rules(1, None, vec![SeccompRule::new(vec![], SeccompAction::Kill)])
        .unwrap();
    context
        .add_rules(9, None, vec![SeccompRule::new(vec![], SeccompAction::Log)])
        .unwrap();
    assert_eq!(context.rules.len(), 2);
    assert_eq!(context.rules[0].0, 1);
    assert_eq!(context.rules[0].1 .0, 7);
    assert_eq!(context.rules[0].1 .1.len(), 2);
    assert_eq!(context.rules[1].0, 9);
    assert_eq!(context.rules[1].1 .0, 0);
    assert_eq!(context.rules[1].1 .1.len(), 1);
}

// A policy whose expansion passes the instruction ceiling is rejected, and
// one under it compiles to at most 4096 instructions.
#[test]
fn test_instruction_budget() {
    // Each trivial chain takes five instructions, so 820 chains pass 4096.
    let mut entries = Vec::new();
    for nr in 0..820i64 {
        entries.push((nr, (0i64, vec![SeccompRule::new(vec![], SeccompAction::Allow)])));
    }
    let context = SeccompFilterContext::new(entries, SeccompAction::Trap).unwrap();
    assert!(matches!(context.into_bpf(), Err(Error::ContextTooLarge)));

    let mut entries = Vec::new();
    for nr in 0..800i64 {
        entries.push((nr, (0i64, vec![SeccompRule::new(vec![], SeccompAction::Allow)])));
    }
    let context = SeccompFilterContext::new(entries, SeccompAction::Trap).unwrap();
    let program = context.into_bpf().unwrap();
    assert!(program.len() <= 4096);
    assert_eq!(program.len(), 1 + 800 * 5 + 1);
}

// Chains are emitted by descending priority; the default action follows
// every chain and closes the program.
#[test]
fn test_priority_order_and_default_sandwich() {
    let context = SeccompFilterContext::new(
        vec![
            (7, (0, vec![SeccompRule::new(vec![], SeccompAction::Allow)])),
            (8, (5, vec![SeccompRule::new(vec![], SeccompAction::Allow)])),
            (9, (3, vec![SeccompRule::new(vec![], SeccompAction::Allow)])),
        ],
        SeccompAction::Trap,
    )
    .unwrap();
    let program = context.into_bpf().unwrap();
    // Load, then chains for syscalls 8 (priority 5), 9 (priority 3) and
    // 7 (priority 0), each of five instructions, then the final trap.
    assert_eq!(program[0], BPF_STMT(0x20, 0));
    assert_eq!(program[1], BPF_JUMP(0x15, 8, 0, 1));
    assert_eq!(program[6], BPF_JUMP(0x15, 9, 0, 1));
    assert_eq!(program[11], BPF_JUMP(0x15, 7, 0, 1));
    let trap = BPF_STMT(0x06, 0x00030000);
    assert_eq!(program[5], trap);
    assert_eq!(program[10], trap);
    assert_eq!(program[15], trap);
    assert_eq!(*program.last().unwrap(), trap);
}

// Every jump in a compiled program lands within the program.
#[test]
fn test_jump_targets_land_within_program() {
    let mut conditions = Vec::new();
    for _ in 0..42 {
        conditions.push(SeccompCondition::new(0, SeccompCmpOp::MaskedEq(0), 0).unwrap());
    }
    conditions.push(SeccompCondition::new(0, SeccompCmpOp::Eq, 0).unwrap());
    let context = SeccompFilterContext::new(
        vec![
            (1, (1, vec![SeccompRule::new(conditions, SeccompAction::Allow)])),
            (9, (0, vec![SeccompRule::new(vec![], SeccompAction::Allow)])),
        ],
        SeccompAction::Trap,
    )
    .unwrap();
    let program = context.into_bpf().unwrap();
    let len = program.len();
    for (i, ins) in program.iter().enumerate() {
        match ins.code {
            0x15 | 0x25 | 0x35 => {
                assert!(i + 1 + ins.jt as usize <= len - 1);
                assert!(i + 1 + ins.jf as usize <= len - 1);
            }
            0x05 => {
                assert!(ins.k <= 255);
                assert!(i + 1 + ins.k as usize <= len - 1);
            }
            _ => {}
        }
    }
}

// The action codes follow the kernel return-code layout, with the payload
// masked to the low sixteen bits.
#[test]
fn test_action_codes() {
    assert_eq!(SeccompAction::Allow.code(), 0x7fff0000);
    assert_eq!(SeccompAction::Errno(1).code(), 0x00050001);
    assert_eq!(SeccompAction::Errno(0x1_0005).code(), 0x00050005);
    assert_eq!(SeccompAction::Kill.code(), 0);
    assert_eq!(SeccompAction::Log.code(), 0x7ffc0000);
    assert_eq!(SeccompAction::Trace(9).code(), 0x7ff00009);
    assert_eq!(SeccompAction::Trap.code(), 0x00030000);
}

// A basic-level program is the prologue, the syscall load, one allow pair
// per syscall and a trailing trap.
#[test]
fn test_basic_level_synthesis() {
    let allowed: Vec<i64> = vec![libc::SYS_read, libc::SYS_write, libc::SYS_exit_group];
    let program = seccomp::level::build_filter_program(SeccompLevel::Basic(&allowed))
        .unwrap()
        .unwrap();
    let expected = vec![
        BPF_STMT(0x20, 4),
        BPF_JUMP(0x15, 0xC000003E, 1, 0),
        BPF_STMT(0x06, 0),
        BPF_STMT(0x20, 0),
        BPF_JUMP(0x15, libc::SYS_read as u32, 0, 1),
        BPF_STMT(0x06, 0x7fff0000),
        BPF_JUMP(0x15, libc::SYS_write as u32, 0, 1),
        BPF_STMT(0x06, 0x7fff0000),
        BPF_JUMP(0x15, libc::SYS_exit_group as u32, 0, 1),
        BPF_STMT(0x06, 0x7fff0000),
        BPF_STMT(0x06, 0x00030000),
    ];
    assert_eq!(program, expected);
}

// The basic-level synthesizer takes the default action as a parameter.
#[test]
fn test_basic_level_default_action_parameter() {
    let allowed: Vec<i64> = vec![libc::SYS_read];
    let program = seccomp::level::build_basic_program(&allowed, SeccompAction::Kill);
    let expected = vec![
        BPF_STMT(0x20, 4),
        BPF_JUMP(0x15, 0xC000003E, 1, 0),
        BPF_STMT(0x06, 0),
        BPF_STMT(0x20, 0),
        BPF_JUMP(0x15, libc::SYS_read as u32, 0, 1),
        BPF_STMT(0x06, 0x7fff0000),
        BPF_STMT(0x06, 0),
    ];
    assert_eq!(program, expected);
}

// A disabled level builds no program; an advanced level that does not fit
// fails with the invalid-argument load error.
#[test]
fn test_build_filter_program_levels() {
    assert!(matches!(
        seccomp::level::build_filter_program(SeccompLevel::Disabled),
        Ok(None)
    ));

    let mut entries = Vec::new();
    for nr in 0..820i64 {
        entries.push((nr, (0i64, vec![SeccompRule::new(vec![], SeccompAction::Allow)])));
    }
    let context = SeccompFilterContext::new(entries, SeccompAction::Trap).unwrap();
    assert!(matches!(
        seccomp::level::build_filter_program(SeccompLevel::Advanced(context)),
        Err(Error::Load(e)) if e == libc::EINVAL
    ));

    let context = SeccompFilterContext::new(
        vec![(1, (0, vec![SeccompRule::new(vec![], SeccompAction::Allow)]))],
        SeccompAction::Trap,
    )
    .unwrap();
    let program = seccomp::level::build_filter_program(SeccompLevel::Advanced(context))
        .unwrap()
        .unwrap();
    assert_eq!(program[0], BPF_STMT(0x20, 4));
    assert_eq!(program[1], BPF_JUMP(0x15, 0xC000003E, 1, 0));
    assert_eq!(program[2], BPF_STMT(0x06, 0));
    assert_eq!(program[3], BPF_STMT(0x20, 0));
    assert_eq!(*program.last().unwrap(), BPF_STMT(0x06, 0x00030000));
}
