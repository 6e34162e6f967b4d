//! Trusted bindings for numeric constants of the C library: the error
//! number used when a filter context cannot be compiled, the signal-number
//! range of the signal validator, and the x86_64 Linux syscall numbers that
//! the default policy tables name.
//!
//! Each function returns one constant of the `libc` crate, and its contract
//! pins the value that `libc` defines for x86_64 Linux.

use vstd::prelude::*;

verus! {

/// Relies on `libc::EINVAL`: the "invalid argument" error number, 22 on Linux.
#[verifier::external_body]
pub fn errno_einval() -> (r: i32)
    ensures
        r == 22,
{
    libc::EINVAL
}

/// Relies on `libc::SIGHUP`: the lowest standard signal number, 1 on Linux.
#[verifier::external_body]
pub fn sig_hup() -> (r: i32)
    ensures
        r == 1,
{
    libc::SIGHUP
}

/// Relies on `libc::SIGSYS`: the highest standard signal number, 31 on
/// x86_64 Linux.
#[verifier::external_body]
pub fn sig_sys() -> (r: i32)
    ensures
        r == 31,
{
    libc::SIGSYS
}

/// Relies on `libc::SYS_read`: the x86_64 Linux number of `read`.
#[verifier::external_body]
pub fn sys_read() -> (r: i64)
    ensures
        r == 0,
{
    libc::SYS_read
}

/// Relies on `libc::SYS_write`: the x86_64 Linux number of `write`.
#[verifier::external_body]
pub fn sys_write() -> (r: i64)
    ensures
        r == 1,
{
    libc::SYS_write
}

/// Relies on `libc::SYS_open`: the x86_64 Linux number of `open`.
#[verifier::external_body]
pub fn sys_open() -> (r: i64)
    ensures
        r == 2,
{
    libc::SYS_open
}

/// Relies on `libc::SYS_close`: the x86_64 Linux number of `close`.
#[verifier::external_body]
pub fn sys_close() -> (r: i64)
    ensures
        r == 3,
{
    libc::SYS_close
}

/// Relies on `libc::SYS_stat`: the x86_64 Linux number of `stat`.
#[verifier::external_body]
pub fn sys_stat() -> (r: i64)
    ensures
        r == 4,
{
    libc::SYS_stat
}

/// Relies on `libc::SYS_fstat`: the x86_64 Linux number of `fstat`.
#[verifier::external_body]
pub fn sys_fstat() -> (r: i64)
    ensures
        r == 5,
{
    libc::SYS_fstat
}

/// Relies on `libc::SYS_lseek`: the x86_64 Linux number of `lseek`.
#[verifier::external_body]
pub fn sys_lseek() -> (r: i64)
    ensures
        r == 8,
{
    libc::SYS_lseek
}

/// Relies on `libc::SYS_mmap`: the x86_64 Linux number of `mmap`.
#[verifier::external_body]
pub fn sys_mmap() -> (r: i64)
    ensures
        r == 9,
{
    libc::SYS_mmap
}

/// Relies on `libc::SYS_mprotect`: the x86_64 Linux number of `mprotect`.
#[verifier::external_body]
pub fn sys_mprotect() -> (r: i64)
    ensures
        r == 10,
{
    libc::SYS_mprotect
}

/// Relies on `libc::SYS_munmap`: the x86_64 Linux number of `munmap`.
#[verifier::external_body]
pub fn sys_munmap() -> (r: i64)
    ensures
        r == 11,
{
    libc::SYS_munmap
}

/// Relies on `libc::SYS_brk`: the x86_64 Linux number of `brk`.
#[verifier::external_body]
pub fn sys_brk() -> (r: i64)
    ensures
        r == 12,
{
    libc::SYS_brk
}

/// Relies on `libc::SYS_rt_sigaction`: the x86_64 Linux number of `rt_sigaction`.
#[verifier::external_body]
pub fn sys_rt_sigaction() -> (r: i64)
    ensures
        r == 13,
{
    libc::SYS_rt_sigaction
}

/// Relies on `libc::SYS_rt_sigprocmask`: the x86_64 Linux number of `rt_sigprocmask`.
#[verifier::external_body]
pub fn sys_rt_sigprocmask() -> (r: i64)
    ensures
        r == 14,
{
    libc::SYS_rt_sigprocmask
}

/// Relies on `libc::SYS_rt_sigreturn`: the x86_64 Linux number of `rt_sigreturn`.
#[verifier::external_body]
pub fn sys_rt_sigreturn() -> (r: i64)
    ensures
        r == 15,
{
    libc::SYS_rt_sigreturn
}

/// Relies on `libc::SYS_ioctl`: the x86_64 Linux number of `ioctl`.
#[verifier::external_body]
pub fn sys_ioctl() -> (r: i64)
    ensures
        r == 16,
{
    libc::SYS_ioctl
}

/// Relies on `libc::SYS_readv`: the x86_64 Linux number of `readv`.
#[verifier::external_body]
pub fn sys_readv() -> (r: i64)
    ensures
        r == 19,
{
    libc::SYS_readv
}

/// Relies on `libc::SYS_writev`: the x86_64 Linux number of `writev`.
#[verifier::external_body]
pub fn sys_writev() -> (r: i64)
    ensures
        r == 20,
{
    libc::SYS_writev
}

/// Relies on `libc::SYS_pipe`: the x86_64 Linux number of `pipe`.
#[verifier::external_body]
pub fn sys_pipe() -> (r: i64)
    ensures
        r == 22,
{
    libc::SYS_pipe
}

/// Relies on `libc::SYS_dup`: the x86_64 Linux number of `dup`.
#[verifier::external_body]
pub fn sys_dup() -> (r: i64)
    ensures
        r == 32,
{
    libc::SYS_dup
}

/// Relies on `libc::SYS_socket`: the x86_64 Linux number of `socket`.
#[verifier::external_body]
pub fn sys_socket() -> (r: i64)
    ensures
        r == 41,
{
    libc::SYS_socket
}

/// Relies on `libc::SYS_accept`: the x86_64 Linux number of `accept`.
#[verifier::external_body]
pub fn sys_accept() -> (r: i64)
    ensures
        r == 43,
{
    libc::SYS_accept
}

/// Relies on `libc::SYS_bind`: the x86_64 Linux number of `bind`.
#[verifier::external_body]
pub fn sys_bind() -> (r: i64)
    ensures
        r == 49,
{
    libc::SYS_bind
}

/// Relies on `libc::SYS_listen`: the x86_64 Linux number of `listen`.
#[verifier::external_body]
pub fn sys_listen() -> (r: i64)
    ensures
        r == 50,
{
    libc::SYS_listen
}

/// Relies on `libc::SYS_clone`: the x86_64 Linux number of `clone`.
#[verifier::external_body]
pub fn sys_clone() -> (r: i64)
    ensures
        r == 56,
{
    libc::SYS_clone
}

/// Relies on `libc::SYS_execve`: the x86_64 Linux number of `execve`.
#[verifier::external_body]
pub fn sys_execve() -> (r: i64)
    ensures
        r == 59,
{
    libc::SYS_execve
}

/// Relies on `libc::SYS_exit`: the x86_64 Linux number of `exit`.
#[verifier::external_body]
pub fn sys_exit() -> (r: i64)
    ensures
        r == 60,
{
    libc::SYS_exit
}

/// Relies on `libc::SYS_fcntl`: the x86_64 Linux number of `fcntl`.
#[verifier::external_body]
pub fn sys_fcntl() -> (r: i64)
    ensures
        r == 72,
{
    libc::SYS_fcntl
}

/// Relies on `libc::SYS_readlink`: the x86_64 Linux number of `readlink`.
#[verifier::external_body]
pub fn sys_readlink() -> (r: i64)
    ensures
        r == 89,
{
    libc::SYS_readlink
}

/// Relies on `libc::SYS_sigaltstack`: the x86_64 Linux number of `sigaltstack`.
#[verifier::external_body]
pub fn sys_sigaltstack() -> (r: i64)
    ensures
        r == 131,
{
    libc::SYS_sigaltstack
}

/// Relies on `libc::SYS_prctl`: the x86_64 Linux number of `prctl`.
#[verifier::external_body]
pub fn sys_prctl() -> (r: i64)
    ensures
        r == 157,
{
    libc::SYS_prctl
}

/// Relies on `libc::SYS_arch_prctl`: the x86_64 Linux number of `arch_prctl`.
#[verifier::external_body]
pub fn sys_arch_prctl() -> (r: i64)
    ensures
        r == 158,
{
    libc::SYS_arch_prctl
}

/// Relies on `libc::SYS_futex`: the x86_64 Linux number of `futex`.
#[verifier::external_body]
pub fn sys_futex() -> (r: i64)
    ensures
        r == 202,
{
    libc::SYS_futex
}

/// Relies on `libc::SYS_sched_getaffinity`: the x86_64 Linux number of `sched_getaffinity`.
#[verifier::external_body]
pub fn sys_sched_getaffinity() -> (r: i64)
    ensures
        r == 204,
{
    libc::SYS_sched_getaffinity
}

/// Relies on `libc::SYS_set_tid_address`: the x86_64 Linux number of `set_tid_address`.
#[verifier::external_body]
pub fn sys_set_tid_address() -> (r: i64)
    ensures
        r == 218,
{
    libc::SYS_set_tid_address
}

/// Relies on `libc::SYS_exit_group`: the x86_64 Linux number of `exit_group`.
#[verifier::external_body]
pub fn sys_exit_group() -> (r: i64)
    ensures
        r == 231,
{
    libc::SYS_exit_group
}

/// Relies on `libc::SYS_epoll_ctl`: the x86_64 Linux number of `epoll_ctl`.
#[verifier::external_body]
pub fn sys_epoll_ctl() -> (r: i64)
    ensures
        r == 233,
{
    libc::SYS_epoll_ctl
}

/// Relies on `libc::SYS_epoll_pwait`: the x86_64 Linux number of `epoll_pwait`.
#[verifier::external_body]
pub fn sys_epoll_pwait() -> (r: i64)
    ensures
        r == 281,
{
    libc::SYS_epoll_pwait
}

/// Relies on `libc::SYS_timerfd_create`: the x86_64 Linux number of `timerfd_create`.
#[verifier::external_body]
pub fn sys_timerfd_create() -> (r: i64)
    ensures
        r == 283,
{
    libc::SYS_timerfd_create
}

/// Relies on `libc::SYS_timerfd_settime`: the x86_64 Linux number of `timerfd_settime`.
#[verifier::external_body]
pub fn sys_timerfd_settime() -> (r: i64)
    ensures
        r == 286,
{
    libc::SYS_timerfd_settime
}

/// Relies on `libc::SYS_eventfd2`: the x86_64 Linux number of `eventfd2`.
#[verifier::external_body]
pub fn sys_eventfd2() -> (r: i64)
    ensures
        r == 290,
{
    libc::SYS_eventfd2
}

/// Relies on `libc::SYS_epoll_create1`: the x86_64 Linux number of `epoll_create1`.
#[verifier::external_body]
pub fn sys_epoll_create1() -> (r: i64)
    ensures
        r == 291,
{
    libc::SYS_epoll_create1
}

/// Relies on `libc::SYS_getrandom`: the x86_64 Linux number of `getrandom`.
#[verifier::external_body]
pub fn sys_getrandom() -> (r: i64)
    ensures
        r == 318,
{
    libc::SYS_getrandom
}

} // verus!
