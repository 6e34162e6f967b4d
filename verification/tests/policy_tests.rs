use seccomp::{allowed_syscalls, default_context, SeccompAction, SeccompRule};

// The basic-level allow list holds exactly the syscall numbers of the C
// library, in the documented order.
#[test]
fn test_allowed_syscalls_match_libc() {
    let expected = vec![
        libc::SYS_read,
        libc::SYS_write,
        libc::SYS_open,
        libc::SYS_close,
        libc::SYS_stat,
        libc::SYS_fstat,
        libc::SYS_lseek,
        libc::SYS_mmap,
        libc::SYS_mprotect,
        libc::SYS_munmap,
        libc::SYS_brk,
        libc::SYS_rt_sigaction,
        libc::SYS_rt_sigprocmask,
        libc::SYS_rt_sigreturn,
        libc::SYS_ioctl,
        libc::SYS_readv,
        libc::SYS_writev,
        libc::SYS_pipe,
        libc::SYS_dup,
        libc::SYS_socket,
        libc::SYS_accept,
        libc::SYS_bind,
        libc::SYS_listen,
        libc::SYS_clone,
        libc::SYS_execve,
        libc::SYS_exit,
        libc::SYS_fcntl,
        libc::SYS_readlink,
        libc::SYS_sigaltstack,
        libc::SYS_prctl,
        libc::SYS_arch_prctl,
        libc::SYS_futex,
        libc::SYS_sched_getaffinity,
        libc::SYS_set_tid_address,
        libc::SYS_exit_group,
        libc::SYS_epoll_ctl,
        libc::SYS_epoll_pwait,
        libc::SYS_timerfd_create,
        libc::SYS_eventfd2,
        libc::SYS_epoll_create1,
        libc::SYS_getrandom,
    ];
    assert_eq!(allowed_syscalls(), expected);
}

// The default context builds, takes additional rules, and compiles within
// the instruction ceiling.
#[test]
fn test_default_context_compiles() {
    let mut context = default_context().unwrap();
    assert!(context
        .add_rules(
            libc::SYS_exit,
            None,
            vec![SeccompRule::new(vec![], SeccompAction::Allow)],
        )
        .is_ok());
    assert!(context
        .add_rules(
            libc::SYS_rt_sigprocmask,
            None,
            vec![SeccompRule::new(vec![], SeccompAction::Allow)],
        )
        .is_ok());
    assert!(context
        .add_rules(
            libc::SYS_set_tid_address,
            None,
            vec![SeccompRule::new(vec![], SeccompAction::Allow)],
        )
        .is_ok());
    assert!(context
        .add_rules(
            libc::SYS_sigaltstack,
            None,
            vec![SeccompRule::new(vec![], SeccompAction::Allow)],
        )
        .is_ok());
    let program = context.into_bpf().unwrap();
    assert!(program.len() <= 4096);
}

// The default context names each allow-listed syscall exactly once, with
// writev as the final entry.
#[test]
fn test_default_context_entries() {
    let context = default_context().unwrap();
    assert_eq!(context.rules.len(), 27);
    assert_eq!(context.rules[26].0, libc::SYS_writev);
    assert_eq!(context.rules[26].1 .1.len(), 1);
    assert!(context.rules[26].1 .1[0].conditions.is_empty());
    for i in 0..context.rules.len() {
        assert!(!context.rules[i].1 .1.is_empty());
        for j in 0..context.rules.len() {
            assert!(i == j || context.rules[i].0 != context.rules[j].0);
        }
    }
}
