use std::io;

use seccomp::jail::{
    chroot_dir_path, check_kvm_fd, check_listener_fd, file_basename, jail_exec_args,
    parse_gid, parse_numa_node, parse_seccomp_level, parse_uid, select_controller_mount,
    validate_instance_id, validate_signal_num, Error, ValidatorError, KVM_FD, LISTENER_FD,
};
use seccomp::FirecrackerContext;

fn os_err(code: i32) -> String {
    io::Error::from_raw_os_error(code).to_string()
}

#[test]
fn test_error_display() {
    let path = "/foo";
    let file_str = "/foo/bar";
    let id = "foobar";
    let err42 = 42;
    let err2_str = "No such file or directory (os error 2)";

    assert_eq!(
        Error::Canonicalize(path.to_string(), os_err(2)).message(),
        format!("Failed to canonicalize path /foo: {}", err2_str)
    );
    assert_eq!(
        Error::CgroupInheritFromParent(path.to_string(), file_str.to_string()).message(),
        "Failed to inherit cgroups configurations from file /foo/bar in path /foo",
    );
    assert_eq!(
        Error::CgroupLineNotFound("/proc/mounts".to_string(), "sysfs".to_string()).message(),
        "sysfs configurations not found in /proc/mounts",
    );
    assert_eq!(
        Error::CgroupLineNotUnique("/proc/mounts".to_string(), "sysfs".to_string()).message(),
        "Found more than one cgroups configuration line in /proc/mounts for sysfs",
    );
    assert_eq!(
        Error::ChangeDevNetTunOwner(err42).message(),
        "Failed to change owner for /dev/net/tun: Errno 42",
    );
    assert_eq!(
        Error::ChdirNewRoot(err42).message(),
        "Failed to chdir into chroot directory: Errno 42"
    );
    assert_eq!(
        Error::CloseNetNsFd(err42).message(),
        "Failed to close netns fd: Errno 42",
    );
    assert_eq!(
        Error::CloseDevNullFd(err42).message(),
        "Failed to close /dev/null fd: Errno 42",
    );
    assert_eq!(
        Error::Copy(file_str.to_string(), path.to_string(), os_err(2)).message(),
        format!("Failed to copy /foo/bar to /foo: {}", err2_str)
    );
    assert_eq!(
        Error::CreateDir(path.to_string(), os_err(2)).message(),
        format!("Failed to create directory /foo: {}", err2_str)
    );
    assert_eq!(
        Error::CStringParsing.message(),
        "Encountered interior \\0 while parsing a string",
    );
    assert_eq!(
        Error::Dup2(err42).message(),
        "Failed to duplicate fd: Errno 42",
    );
    assert_eq!(
        Error::Exec(os_err(2)).message(),
        format!("Failed to exec into Firecracker: {}", err2_str)
    );
    assert_eq!(
        Error::FileName(file_str.to_string()).message(),
        "Failed to extract filename from path /foo/bar",
    );
    assert_eq!(
        Error::FileOpen(file_str.to_string(), os_err(2)).message(),
        format!("Failed to open file /foo/bar: {}", err2_str)
    );
    assert_eq!(
        Error::FromBytesWithNul(vec![47, 0]).message(),
        "Failed to decode string from byte array: [47, 0]",
    );
    assert_eq!(
        Error::GetOldFdFlags(err42).message(),
        "Failed to get flags from fd: Errno 42",
    );
    assert_eq!(
        Error::Gid(id.to_string()).message(),
        "Invalid gid: foobar",
    );
    assert_eq!(
        Error::InvalidInstanceId(ValidatorError::InvalidChar('a', 1)).message(),
        "Invalid instance ID: invalid char (a) at position 1",
    );
    assert_eq!(
        Error::MissingArgument(id.to_string()).message(),
        "Missing argument: foobar",
    );
    assert_eq!(
        Error::MissingParent(file_str.to_string()).message(),
        "File /foo/bar doesn't have a parent",
    );
    assert_eq!(
        Error::MkdirOldRoot(err42).message(),
        "Failed to create the jail root directory before pivoting root: Errno 42",
    );
    assert_eq!(
        Error::MknodDevNetTun(err42).message(),
        "Failed to create /dev/net/tun via mknod inside the jail: Errno 42",
    );
    assert_eq!(
        Error::MountBind(err42).message(),
        "Failed to bind mount the jail root directory: Errno 42",
    );
    assert_eq!(
        Error::MountPropagationPrivate(err42).message(),
        "Failed to change the propagation type to private: Errno 42",
    );
    assert_eq!(
        Error::NotAFile(file_str.to_string()).message(),
        "/foo/bar is not a file",
    );
    assert_eq!(
        Error::NumaNode(id.to_string()).message(),
        "Invalid numa node: foobar",
    );
    assert_eq!(
        Error::OpenDevKvm(err42).message(),
        "Failed to open /dev/kvm: Errno 42",
    );
    assert_eq!(
        Error::OpenDevNull(err42).message(),
        "Failed to open /dev/null: Errno 42",
    );
    assert_eq!(
        Error::OsStringParsing(file_str.to_string()).message(),
        "Failed to parse path /foo/bar into an OsString",
    );
    assert_eq!(
        Error::PivotRoot(err42).message(),
        "Failed to pivot root: Errno 42",
    );
    assert_eq!(
        Error::ReadLine(file_str.to_string(), os_err(2)).message(),
        format!("Failed to read line from /foo/bar: {}", err2_str)
    );
    assert_eq!(
        Error::ReadToString(file_str.to_string(), os_err(2)).message(),
        format!("Failed to read file /foo/bar into a string: {}", err2_str)
    );
    assert_eq!(
        Error::RegEx("Syntax(foobar)".to_string()).message(),
        "Regex failed: Syntax(foobar)",
    );
    assert_eq!(
        Error::RmOldRootDir(err42).message(),
        "Failed to remove old jail root directory: Errno 42",
    );
    assert_eq!(
        Error::SeccompLevel("129".to_string()).message(),
        "Failed to parse seccomp level: 129",
    );
    assert_eq!(
        Error::SetCurrentDir(os_err(2)).message(),
        format!("Failed to change current directory: {}", err2_str),
    );
    assert_eq!(
        Error::SetNetNs(err42).message(),
        "Failed to join network namespace: netns: Errno 42",
    );
    assert_eq!(
        Error::SetSid(err42).message(),
        "Failed to daemonize: setsid: Errno 42",
    );
    assert_eq!(
        Error::Uid(id.to_string()).message(),
        "Invalid uid: foobar",
    );
    assert_eq!(
        Error::UmountOldRoot(err42).message(),
        "Failed to unmount the old jail root: Errno 42",
    );
    assert_eq!(
        Error::UnexpectedKvmFd(42).message(),
        "Unexpected value for the /dev/kvm fd: 42",
    );
    assert_eq!(
        Error::UnexpectedListenerFd(42).message(),
        "Unexpected value for the socket listener fd: 42",
    );
    assert_eq!(
        Error::UnshareNewNs(err42).message(),
        "Failed to unshare into new mount namespace: Errno 42",
    );
    assert_eq!(
        Error::UnixListener(os_err(2)).message(),
        format!("Failed to bind to the Unix socket: {}", err2_str),
    );
    assert_eq!(
        Error::UnsetCloexec(err42).message(),
        "Failed to unset the O_CLOEXEC flag on the socket fd: Errno 42",
    );
    assert_eq!(
        Error::Write(file_str.to_string(), os_err(2)).message(),
        format!("Failed to write to /foo/bar: {}", err2_str),
    );
}

// The descriptor checks enforce the fixed inherited descriptor numbers.
#[test]
fn test_descriptor_determinism() {
    assert_eq!(KVM_FD, 3);
    assert_eq!(LISTENER_FD, 4);
    assert!(matches!(check_kvm_fd(3, 0), Ok(3)));
    assert!(matches!(check_kvm_fd(-1, 2), Err(Error::OpenDevKvm(2))));
    assert!(matches!(check_kvm_fd(42, 0), Err(Error::UnexpectedKvmFd(42))));
    assert!(matches!(check_listener_fd(4), Ok(4)));
    assert!(matches!(
        check_listener_fd(5),
        Err(Error::UnexpectedListenerFd(5))
    ));
}

#[test]
fn test_validate_instance_id() {
    assert!(validate_instance_id("fc-42").is_ok());
    assert!(validate_instance_id("a").is_ok());
    assert_eq!(
        validate_instance_id(""),
        Err(ValidatorError::InvalidLen(0))
    );
    let long = "a".repeat(65);
    assert_eq!(
        validate_instance_id(&long),
        Err(ValidatorError::InvalidLen(65))
    );
    assert!(validate_instance_id(&"a".repeat(64)).is_ok());
    assert_eq!(
        validate_instance_id("-abc"),
        Err(ValidatorError::InvalidChar('-', 0))
    );
    assert_eq!(
        validate_instance_id("ab_c"),
        Err(ValidatorError::InvalidChar('_', 2))
    );
}

#[test]
fn test_parse_numbers() {
    assert!(matches!(parse_uid("0"), Ok(0)));
    assert!(matches!(parse_uid("1000"), Ok(1000)));
    assert!(matches!(parse_uid("4294967295"), Ok(u32::MAX)));
    assert!(matches!(parse_uid("4294967296"), Err(Error::Uid(_))));
    assert!(matches!(parse_uid("foobar"), Err(Error::Uid(_))));
    assert!(matches!(parse_uid(""), Err(Error::Uid(_))));
    assert!(matches!(parse_uid("-1"), Err(Error::Uid(_))));
    assert!(matches!(parse_gid("123"), Ok(123)));
    assert!(matches!(parse_gid("12x"), Err(Error::Gid(_))));
    assert!(matches!(parse_numa_node("0"), Ok(0)));
    assert!(matches!(parse_numa_node("zero"), Err(Error::NumaNode(_))));
}

#[test]
fn test_parse_seccomp_level() {
    assert!(matches!(parse_seccomp_level("0"), Ok(0)));
    assert!(matches!(parse_seccomp_level("1"), Ok(1)));
    assert!(matches!(parse_seccomp_level("2"), Ok(2)));
    assert!(matches!(
        parse_seccomp_level("3"),
        Err(Error::SeccompLevel(_))
    ));
    assert!(matches!(
        parse_seccomp_level("22"),
        Err(Error::SeccompLevel(_))
    ));
    assert!(matches!(
        parse_seccomp_level(""),
        Err(Error::SeccompLevel(_))
    ));
}

#[test]
fn test_chroot_path() {
    assert_eq!(
        chroot_dir_path("/srv/jailer", "firecracker", "fc-1"),
        "/srv/jailer/firecracker/fc-1/root"
    );
}

#[test]
fn test_file_basename() {
    assert_eq!(file_basename("/foo/bar"), Some("bar".to_string()));
    assert_eq!(file_basename("bar"), Some("bar".to_string()));
    assert_eq!(file_basename("/foo/"), None);
    assert_eq!(file_basename(""), None);
}

#[test]
fn test_select_controller_mount() {
    let none: Vec<String> = vec![];
    assert!(matches!(
        select_controller_mount(&none, "/proc/mounts", "cpu"),
        Err(Error::CgroupLineNotFound(_, _))
    ));
    let one = vec!["/sys/fs/cgroup/cpu".to_string()];
    assert_eq!(
        select_controller_mount(&one, "/proc/mounts", "cpu").unwrap(),
        "/sys/fs/cgroup/cpu"
    );
    let two = vec!["/a".to_string(), "/b".to_string()];
    assert!(matches!(
        select_controller_mount(&two, "/proc/mounts", "cpu"),
        Err(Error::CgroupLineNotUnique(_, _))
    ));
}

#[test]
fn test_validate_signal_num() {
    // Non-VCPU signals must lie between SIGHUP and SIGSYS.
    assert_eq!(validate_signal_num(1, false, 34, 64), Ok(1));
    assert_eq!(validate_signal_num(31, false, 34, 64), Ok(31));
    assert_eq!(validate_signal_num(0, false, 34, 64), Err(22));
    assert_eq!(validate_signal_num(32, false, 34, 64), Err(22));
    // VCPU signals are offsets from the real-time signal range.
    assert_eq!(validate_signal_num(0, true, 34, 64), Ok(34));
    assert_eq!(validate_signal_num(30, true, 34, 64), Ok(64));
    assert_eq!(validate_signal_num(31, true, 34, 64), Err(22));
}

#[test]
fn test_jail_exec_args() {
    let args = jail_exec_args("/firecracker", "fc-1", 2, 10, 7);
    assert_eq!(
        args,
        vec![
            "/firecracker",
            "--id",
            "fc-1",
            "--jailed",
            "--seccomp-level",
            "2",
            "--start-time-us",
            "10",
            "--start-time-cpu-us",
            "7",
        ]
    );
}

#[test]
fn test_firecracker_context_fields() {
    let ctx = FirecrackerContext {
        id: "fc-1".to_string(),
        jailed: true,
        seccomp_level: 2,
        start_time_us: 1,
        start_time_cpu_us: 2,
    };
    assert_eq!(ctx.id, "fc-1");
    assert!(ctx.jailed);
    assert_eq!(ctx.seccomp_level, 2);
}
