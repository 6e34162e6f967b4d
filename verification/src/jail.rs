//! The pure decisions of the jailer: parameter validation, the chroot path,
//! descriptor-number discipline, cgroup controller-line selection, signal
//! number validation, and the closed error taxonomy with its stable message
//! texts.
//!
//! Everything here works on plain values; the enclosing program performs the
//! actual kernel calls and hands their outcomes in.

use vstd::prelude::*;

use crate::numfmt::{
    byte_list_str, bytes_to_list_string, dec_digits, dec_int, dec_value, i32_to_string,
    push_char, u64_to_string,
};
use crate::sysnum::{sig_hup, sig_sys};

verus! {

/// The fixed descriptor number at which the KVM device must be open when
/// the target binary is exec'd.
pub const KVM_FD: i32 = 3;

/// The fixed descriptor number of the pre-bound listening socket.
pub const LISTENER_FD: i32 = 4;

/// Start-up information handed to the jailed binary.
#[derive(Debug)]
pub struct FirecrackerContext {
    /// Instance identifier.
    pub id: String,
    /// Whether the binary runs inside the jail.
    pub jailed: bool,
    /// Seccomp filtering level.
    pub seccomp_level: u32,
    /// Wall-clock start time, in microseconds.
    pub start_time_us: u64,
    /// CPU start time, in microseconds.
    pub start_time_cpu_us: u64,
}

/// Rejections of an instance identifier.
#[derive(Debug, Clone, Copy, PartialEq, Eq, Structural)]
pub enum ValidatorError {
    /// A character outside the accepted alphabet, with its position.
    InvalidChar(char, usize),
    /// An empty identifier, or one longer than the accepted maximum.
    InvalidLen(usize),
}

/// Whether a character may appear in an instance identifier.
pub open spec fn id_char_ok(c: char) -> bool {
    ('a' <= c && c <= 'z') || ('A' <= c && c <= 'Z') || ('0' <= c && c <= '9') || c == '-'
}

/// A valid instance identifier: non-empty, at most 64 characters, only
/// alphanumerics and hyphens, and not beginning with a hyphen.
pub open spec fn instance_id_ok(s: Seq<char>) -> bool {
    &&& 1 <= s.len() <= 64
    &&& forall|i: int| 0 <= i < s.len() ==> id_char_ok(#[trigger] s[i])
    &&& s[0] != '-'
}

/// Validates an instance identifier.
///
/// An empty or over-long identifier is rejected with its length; otherwise
/// the first offending character is reported with its position, a leading
/// hyphen counting as offending at position zero.
pub fn validate_instance_id(id: &str) -> (r: Result<(), ValidatorError>)
    ensures
        r == Ok::<(), ValidatorError>(()) <==> instance_id_ok(id@),
        (id@.len() == 0 || id@.len() > 64) ==> r == Err::<(), ValidatorError>(
            ValidatorError::InvalidLen(id@.len() as usize),
        ),
        r matches Err(e) ==> (e matches ValidatorError::InvalidChar(c, p) ==> 0 <= p < id@.len()
            && c == id@[p as int] && (!id_char_ok(c) || (p == 0 && c == '-')) && (p > 0
            ==> forall|j: int| 0 <= j < p ==> id_char_ok(#[trigger] id@[j]))),
{
    let n = id.unicode_len();
    if n == 0 || n > 64 {
        return Err(ValidatorError::InvalidLen(n));
    }
    let first = id.get_char(0);
    if first == '-' {
        return Err(ValidatorError::InvalidChar('-', 0));
    }
    let mut i: usize = 0;
    while i < n
        invariant
            0 <= i <= n,
            n == id@.len(),
            1 <= n <= 64,
            id@[0] != '-',
            forall|j: int| 0 <= j < i ==> id_char_ok(#[trigger] id@[j]),
        decreases n - i,
    {
        let c = id.get_char(i);
        if !((('a' <= c && c <= 'z') || ('A' <= c && c <= 'Z') || ('0' <= c && c <= '9'))
            || c == '-') {
            return Err(ValidatorError::InvalidChar(c, i));
        }
        i = i + 1;
    }
    Ok(())
}

/// Decides the outcome of opening the KVM device: a negative return is the
/// open failure itself (with the errno), any descriptor other than 3 is a
/// fatal setup error, and 3 is the expected descriptor.
pub fn check_kvm_fd(ret: i32, errno: i32) -> (r: Result<i32, Error>)
    ensures
        ret < 0 ==> r == Err::<i32, Error>(Error::OpenDevKvm(errno)),
        ret >= 0 && ret != KVM_FD ==> r == Err::<i32, Error>(Error::UnexpectedKvmFd(ret)),
        ret == KVM_FD ==> r == Ok::<i32, Error>(ret),
{
    if ret < 0 {
        Err(Error::OpenDevKvm(errno))
    } else if ret != KVM_FD {
        Err(Error::UnexpectedKvmFd(ret))
    } else {
        Ok(ret)
    }
}

/// Decides whether the listener socket landed at the expected descriptor.
pub fn check_listener_fd(fd: i32) -> (r: Result<i32, Error>)
    ensures
        fd != LISTENER_FD ==> r == Err::<i32, Error>(Error::UnexpectedListenerFd(fd)),
        fd == LISTENER_FD ==> r == Ok::<i32, Error>(fd),
{
    if fd != LISTENER_FD {
        Err(Error::UnexpectedListenerFd(fd))
    } else {
        Ok(fd)
    }
}

/// The jail's root directory under the chroot base:
/// `<base>/<exec-file-basename>/<id>/root`.
pub fn chroot_dir_path(base: &str, exec_basename: &str, id: &str) -> (r: String)
    ensures
        r@ == base@ + "/"@ + exec_basename@ + "/"@ + id@ + "/root"@,
{
    let mut s = String::from_str(base);
    s.append("/");
    s.append(exec_basename);
    s.append("/");
    s.append(id);
    s.append("/root");
    s
}

/// Index just past the last `/` of a path, or 0 when there is none.
pub open spec fn basename_start(s: Seq<char>) -> int
    decreases s.len(),
{
    if s.len() == 0 {
        0
    } else if s.last() == '/' {
        s.len() as int
    } else {
        basename_start(s.drop_last())
    }
}

/// Extracts the file name of a path: everything after the last slash.
/// Yields nothing when the path ends in a slash or is empty.
pub fn file_basename(path: &str) -> (r: Option<String>)
    ensures
        basename_start(path@) < path@.len() ==> (r matches Some(b) && b@ == path@.skip(
            basename_start(path@),
        )),
        basename_start(path@) == path@.len() ==> r is None,
{
    let n = path.unicode_len();
    proof {
        assert(path@.take(0) =~= Seq::<char>::empty());
    }
    let mut start: usize = 0;
    let mut j: usize = 0;
    while j < n
        invariant
            0 <= start <= j <= n,
            n == path@.len(),
            start == basename_start(path@.take(j as int)),
        decreases n - j,
    {
        let c = path.get_char(j);
        if c == '/' {
            start = j + 1;
        }
        proof {
            assert(path@.take(j + 1).drop_last() =~= path@.take(j as int));
            assert(path@.take(j + 1).last() == path@[j as int]);
        }
        j = j + 1;
    }
    proof {
        assert(path@.take(n as int) =~= path@);
    }
    if start == n {
        None
    } else {
        let b = path.substring_char(start, n);
        proof {
            assert(b@ =~= path@.skip(start as int));
        }
        Some(String::from_str(b))
    }
}

/// Selects the unique cgroup mount line of a controller.
///
/// `matching` holds the mountpoints of the lines of the mount table that
/// name the controller: none means the controller is missing, more than one
/// is ambiguous, exactly one is returned.
pub fn select_controller_mount(
    matching: &Vec<String>,
    proc_mounts: &str,
    controller: &str,
) -> (r: Result<String, Error>)
    ensures
        matching@.len() == 0 ==> (r matches Err(e) && e matches Error::CgroupLineNotFound(m, c)
            && m@ == proc_mounts@ && c@ == controller@),
        matching@.len() == 1 ==> (r matches Ok(p) && p@ == matching@[0]@),
        matching@.len() > 1 ==> (r matches Err(e) && e matches Error::CgroupLineNotUnique(m, c)
            && m@ == proc_mounts@ && c@ == controller@),
{
    if matching.len() == 0 {
        Err(Error::CgroupLineNotFound(String::from_str(proc_mounts), String::from_str(controller)))
    } else if matching.len() > 1 {
        Err(Error::CgroupLineNotUnique(String::from_str(proc_mounts), String::from_str(controller)))
    } else {
        Ok(String::from_str(matching[0].as_str()))
    }
}

/// Validates a signal number as the original signal helpers do.
///
/// For VCPU signals the number is an offset from the platform's lowest
/// real-time signal (`rtmin`) and must not pass the highest (`rtmax`); other
/// signals must lie between `SIGHUP` (1) and `SIGSYS` (31).  Rejections
/// carry the `EINVAL` error number.
pub fn validate_signal_num(num: i32, for_vcpu: bool, rtmin: i32, rtmax: i32) -> (r: Result<
    i32,
    i32,
>)
    requires
        0 <= rtmin <= 1024,
        rtmin <= rtmax <= 1024,
        for_vcpu ==> num <= i32::MAX - rtmax,
    ensures
        for_vcpu ==> (if num + rtmin <= rtmax {
            r == Ok::<i32, i32>((num + rtmin) as i32)
        } else {
            r == Err::<i32, i32>(22)
        }),
        !for_vcpu ==> (if 1 <= num <= 31 {
            r == Ok::<i32, i32>(num)
        } else {
            r == Err::<i32, i32>(22)
        }),
{
    if for_vcpu {
        let actual = num + rtmin;
        if actual <= rtmax {
            return Ok(actual);
        }
    } else {
        let lo = sig_hup();
        let hi = sig_sys();
        if lo <= num && num <= hi {
            return Ok(num);
        }
    }
    Err(22)
}

/// Parses a decimal unsigned 32-bit number exactly: every character must be
/// a digit, and the value must fit.
pub fn parse_u32_str(s: &str) -> (r: Option<u32>)
    ensures
        is_dec_string(s@) && dec_value(s@) <= u32::MAX ==> (r matches Some(v) && v == dec_value(
            s@,
        )),
        !(is_dec_string(s@) && dec_value(s@) <= u32::MAX) ==> r is None,
{
    let n = s.unicode_len();
    if n == 0 {
        return None;
    }
    let mut acc: u64 = 0;
    let mut i: usize = 0;
    while i < n
        invariant
            0 <= i <= n,
            n == s@.len(),
            n > 0,
            acc == dec_value(s@.take(i as int)),
            acc <= u32::MAX,
            forall|j: int| 0 <= j < i ==> '0' <= #[trigger] s@[j] <= '9',
        decreases n - i,
    {
        let c = s.get_char(i);
        if !('0' <= c && c <= '9') {
            return None;
        }
        let d = (c as u32) - 48;
        acc = acc * 10 + (d as u64);
        proof {
            assert(s@.take(i + 1).drop_last() =~= s@.take(i as int));
            assert(s@.take(i + 1).last() == s@[i as int]);
        }
        if acc > 0xffff_ffff {
            proof {
                lemma_dec_value_mono(s@, i + 1);
                assert(s@.take(n as int) =~= s@);
            }
            return None;
        }
        i = i + 1;
    }
    proof {
        assert(s@.take(n as int) =~= s@);
    }
    Some(acc as u32)
}

/// Whether a string is a non-empty run of decimal digits.
pub open spec fn is_dec_string(s: Seq<char>) -> bool {
    s.len() > 0 && forall|i: int| 0 <= i < s.len() ==> '0' <= #[trigger] s[i] <= '9'
}

/// The value of a decimal prefix never shrinks as the prefix grows.
proof fn lemma_dec_value_mono(s: Seq<char>, i: int)
    requires
        0 <= i <= s.len(),
    ensures
        dec_value(s.take(i)) <= dec_value(s),
    decreases s.len() - i,
{
    if i < s.len() {
        assert(s.take(i + 1).drop_last() =~= s.take(i));
        lemma_dec_value_mono(s, i + 1);
    } else {
        assert(s.take(i) =~= s);
    }
}

/// Parses the user identifier of the jail invocation.
pub fn parse_uid(s: &str) -> (r: Result<u32, Error>)
    ensures
        is_dec_string(s@) && dec_value(s@) <= u32::MAX ==> (r matches Ok(v) && v == dec_value(
            s@,
        )),
        !(is_dec_string(s@) && dec_value(s@) <= u32::MAX) ==> (r matches Err(e) && e matches
            Error::Uid(t) && t@ == s@),
{
    match parse_u32_str(s) {
        Some(v) => Ok(v),
        None => Err(Error::Uid(String::from_str(s))),
    }
}

/// Parses the group identifier of the jail invocation.
pub fn parse_gid(s: &str) -> (r: Result<u32, Error>)
    ensures
        is_dec_string(s@) && dec_value(s@) <= u32::MAX ==> (r matches Ok(v) && v == dec_value(
            s@,
        )),
        !(is_dec_string(s@) && dec_value(s@) <= u32::MAX) ==> (r matches Err(e) && e matches
            Error::Gid(t) && t@ == s@),
{
    match parse_u32_str(s) {
        Some(v) => Ok(v),
        None => Err(Error::Gid(String::from_str(s))),
    }
}

/// Parses the NUMA node of the jail invocation.
pub fn parse_numa_node(s: &str) -> (r: Result<u32, Error>)
    ensures
        is_dec_string(s@) && dec_value(s@) <= u32::MAX ==> (r matches Ok(v) && v == dec_value(
            s@,
        )),
        !(is_dec_string(s@) && dec_value(s@) <= u32::MAX) ==> (r matches Err(e) && e matches
            Error::NumaNode(t) && t@ == s@),
{
    match parse_u32_str(s) {
        Some(v) => Ok(v),
        None => Err(Error::NumaNode(String::from_str(s))),
    }
}

/// Parses the seccomp filtering level: only `0`, `1` and `2` are accepted.
pub fn parse_seccomp_level(s: &str) -> (r: Result<u32, Error>)
    ensures
        s@ =~= "0"@ ==> r == Ok::<u32, Error>(0),
        s@ =~= "1"@ ==> r == Ok::<u32, Error>(1),
        s@ =~= "2"@ ==> r == Ok::<u32, Error>(2),
        !(s@ =~= "0"@ || s@ =~= "1"@ || s@ =~= "2"@) ==> (r matches Err(e) && e matches
            Error::SeccompLevel(t) && t@ == s@),
{
    proof {
        reveal_strlit("0");
        reveal_strlit("1");
        reveal_strlit("2");
    }
    let n = s.unicode_len();
    if n == 1 {
        let c = s.get_char(0);
        if c == '0' {
            proof {
                assert(s@ =~= "0"@);
            }
            return Ok(0);
        }
        if c == '1' {
            proof {
                assert(s@ =~= "1"@);
            }
            return Ok(1);
        }
        if c == '2' {
            proof {
                assert(s@ =~= "2"@);
            }
            return Ok(2);
        }
    }
    Err(Error::SeccompLevel(String::from_str(s)))
}

/// The fixed argument vector of the jailed binary: the binary path, the
/// instance identifier, the jail marker, the seccomp level and the two
/// start times.
pub fn jail_exec_args(
    binary_path: &str,
    id: &str,
    seccomp_level: u32,
    start_time_us: u64,
    start_time_cpu_us: u64,
) -> (r: Vec<String>)
    ensures
        r@.len() == 10,
        r@[0]@ == binary_path@,
        r@[1]@ == "--id"@,
        r@[2]@ == id@,
        r@[3]@ == "--jailed"@,
        r@[4]@ == "--seccomp-level"@,
        r@[5]@ == dec_digits(seccomp_level as nat),
        r@[6]@ == "--start-time-us"@,
        r@[7]@ == dec_digits(start_time_us as nat),
        r@[8]@ == "--start-time-cpu-us"@,
        r@[9]@ == dec_digits(start_time_cpu_us as nat),
{
    let mut v: Vec<String> = Vec::new();
    v.push(String::from_str(binary_path));
    v.push(String::from_str("--id"));
    v.push(String::from_str(id));
    v.push(String::from_str("--jailed"));
    v.push(String::from_str("--seccomp-level"));
    v.push(u64_to_string(seccomp_level as u64));
    v.push(String::from_str("--start-time-us"));
    v.push(u64_to_string(start_time_us));
    v.push(String::from_str("--start-time-cpu-us"));
    v.push(u64_to_string(start_time_cpu_us));
    v
}

/// Jailer errors: a closed taxonomy of failure kinds, each carrying enough
/// plain context (the path, the offending value, the system error number or
/// the system error's message text) to diagnose after the process exits.
#[derive(Debug)]
pub enum Error {
    /// Canonicalizing a path failed: the path and the system error text.
    Canonicalize(String, String),
    /// Inheriting a cgroup key from the parent failed: path and file name.
    CgroupInheritFromParent(String, String),
    /// No mount-table line for a cgroup controller: table path, controller.
    CgroupLineNotFound(String, String),
    /// More than one mount-table line for a controller: table path, controller.
    CgroupLineNotUnique(String, String),
    /// Changing the owner of the tun device failed, with the errno.
    ChangeDevNetTunOwner(i32),
    /// Changing into the chroot directory failed, with the errno.
    ChdirNewRoot(i32),
    /// Closing the network-namespace descriptor failed, with the errno.
    CloseNetNsFd(i32),
    /// Closing the null-device descriptor failed, with the errno.
    CloseDevNullFd(i32),
    /// Copying the target binary failed: source, destination, error text.
    Copy(String, String, String),
    /// Creating a directory failed: the path and the system error text.
    CreateDir(String, String),
    /// A string destined for the kernel held an interior NUL byte.
    CStringParsing,
    /// Duplicating a descriptor failed, with the errno.
    Dup2(i32),
    /// The final exec failed: the system error text.
    Exec(String),
    /// A path held no extractable file name.
    FileName(String),
    /// Opening a file failed: the path and the system error text.
    FileOpen(String, String),
    /// Decoding a string from bytes failed: the offending bytes.
    FromBytesWithNul(Vec<u8>),
    /// Reading descriptor flags failed, with the errno.
    GetOldFdFlags(i32),
    /// The group identifier did not parse: the rejected text.
    Gid(String),
    /// The instance identifier was rejected.
    InvalidInstanceId(ValidatorError),
    /// A required invocation argument was missing: its name.
    MissingArgument(String),
    /// A path had no parent directory.
    MissingParent(String),
    /// Creating the old-root directory before pivoting failed, with the errno.
    MkdirOldRoot(i32),
    /// Creating the tun device node failed, with the errno.
    MknodDevNetTun(i32),
    /// Bind-mounting the jail root onto itself failed, with the errno.
    MountBind(i32),
    /// Making mount propagation private failed, with the errno.
    MountPropagationPrivate(i32),
    /// The target executable is not a regular file.
    NotAFile(String),
    /// The NUMA node did not parse: the rejected text.
    NumaNode(String),
    /// Opening the KVM device failed, with the errno.
    OpenDevKvm(i32),
    /// Opening the null device failed, with the errno.
    OpenDevNull(i32),
    /// A path could not be represented as a plain string.
    OsStringParsing(String),
    /// The pivot into the new root failed, with the errno.
    PivotRoot(i32),
    /// Reading a line failed: the path and the system error text.
    ReadLine(String, String),
    /// Reading a file into a string failed: the path and the error text.
    ReadToString(String, String),
    /// A pattern match over the mount table failed: the reported text.
    RegEx(String),
    /// Removing the old-root directory failed, with the errno.
    RmOldRootDir(i32),
    /// The seccomp level did not parse: the rejected text.
    SeccompLevel(String),
    /// Changing the current directory failed: the system error text.
    SetCurrentDir(String),
    /// Joining the network namespace failed, with the errno.
    SetNetNs(i32),
    /// Starting a new session while daemonizing failed, with the errno.
    SetSid(i32),
    /// The user identifier did not parse: the rejected text.
    Uid(String),
    /// Unmounting the old root failed, with the errno.
    UmountOldRoot(i32),
    /// The KVM device opened at an unexpected descriptor number.
    UnexpectedKvmFd(i32),
    /// The listener socket bound at an unexpected descriptor number.
    UnexpectedListenerFd(i32),
    /// Unsharing into a new mount namespace failed, with the errno.
    UnshareNewNs(i32),
    /// Binding the Unix socket failed: the system error text.
    UnixListener(String),
    /// Clearing the close-on-exec flag of the listener failed, with the errno.
    UnsetCloexec(i32),
    /// Writing a file failed: the path and the system error text.
    Write(String, String),
}

/// The message text of an errno wrapped the way the system-call helpers
/// print it.
pub open spec fn errno_text(e: int) -> Seq<char> {
    "Errno "@ + dec_int(e)
}

/// The message text of a rejected instance identifier.
pub open spec fn validator_message_spec(err: ValidatorError) -> Seq<char> {
    match err {
        ValidatorError::InvalidChar(c, p) => "invalid char ("@ + seq![c] + ") at position "@
            + dec_digits(p as nat),
        ValidatorError::InvalidLen(n) => "invalid len ("@ + dec_digits(n as nat) + ")"@,
    }
}

impl ValidatorError {
    /// Renders the rejection as its stable message text.
    pub fn message(&self) -> (r: String)
        ensures
            r@ == validator_message_spec(*self),
    {
        match self {
            ValidatorError::InvalidChar(c, p) => {
                let mut s = String::from_str("invalid char (");
                push_char(&mut s, *c);
                s.append(") at position ");
                let num = u64_to_string(*p as u64);
                s.append(num.as_str());
                s
            },
            ValidatorError::InvalidLen(n) => {
                let mut s = String::from_str("invalid len (");
                let num = u64_to_string(*n as u64);
                s.append(num.as_str());
                s.append(")");
                s
            },
        }
    }
}

/// Concatenation of two string slices.
fn cat2(a: &str, b: &str) -> (r: String)
    ensures
        r@ == a@ + b@,
{
    let mut s = String::from_str(a);
    s.append(b);
    s
}

/// Concatenation of three string slices.
fn cat3(a: &str, b: &str, c: &str) -> (r: String)
    ensures
        r@ == a@ + b@ + c@,
{
    let mut s = String::from_str(a);
    s.append(b);
    s.append(c);
    s
}

/// Concatenation of four string slices.
fn cat4(a: &str, b: &str, c: &str, d: &str) -> (r: String)
    ensures
        r@ == a@ + b@ + c@ + d@,
{
    let mut s = String::from_str(a);
    s.append(b);
    s.append(c);
    s.append(d);
    s
}

/// An errno rendered as the system-call helpers print it.
fn errno_string(e: i32) -> (r: String)
    ensures
        r@ == errno_text(e as int),
{
    let mut s = String::from_str("Errno ");
    let num = i32_to_string(e);
    s.append(num.as_str());
    s
}

/// The stable message text of each error kind.
pub open spec fn message_spec(err: Error) -> Seq<char> {
    match err {
        Error::Canonicalize(p, io) => "Failed to canonicalize path "@ + p@ + ": "@ + io@,
        Error::CgroupInheritFromParent(p, f) => "Failed to inherit cgroups configurations from file "@
            + f@ + " in path "@ + p@,
        Error::CgroupLineNotFound(m, c) => c@ + " configurations not found in "@ + m@,
        Error::CgroupLineNotUnique(m, c) => "Found more than one cgroups configuration line in "@
            + m@ + " for "@ + c@,
        Error::ChangeDevNetTunOwner(e) => "Failed to change owner for /dev/net/tun: "@
            + errno_text(e as int),
        Error::ChdirNewRoot(e) => "Failed to chdir into chroot directory: "@ + errno_text(e as int),
        Error::CloseNetNsFd(e) => "Failed to close netns fd: "@ + errno_text(e as int),
        Error::CloseDevNullFd(e) => "Failed to close /dev/null fd: "@ + errno_text(e as int),
        Error::Copy(f, p, io) => "Failed to copy "@ + f@ + " to "@ + p@ + ": "@ + io@,
        Error::CreateDir(p, io) => "Failed to create directory "@ + p@ + ": "@ + io@,
        Error::CStringParsing => "Encountered interior \\0 while parsing a string"@,
        Error::Dup2(e) => "Failed to duplicate fd: "@ + errno_text(e as int),
        Error::Exec(io) => "Failed to exec into Firecracker: "@ + io@,
        Error::FileName(p) => "Failed to extract filename from path "@ + p@,
        Error::FileOpen(p, io) => "Failed to open file "@ + p@ + ": "@ + io@,
        Error::FromBytesWithNul(bs) => "Failed to decode string from byte array: "@
            + byte_list_str(bs@),
        Error::GetOldFdFlags(e) => "Failed to get flags from fd: "@ + errno_text(e as int),
        Error::Gid(s) => "Invalid gid: "@ + s@,
        Error::InvalidInstanceId(v) => "Invalid instance ID: "@ + validator_message_spec(v),
        Error::MissingArgument(s) => "Missing argument: "@ + s@,
        Error::MissingParent(p) => "File "@ + p@ + " doesn't have a parent"@,
        Error::MkdirOldRoot(e) => "Failed to create the jail root directory before pivoting root: "@
            + errno_text(e as int),
        Error::MknodDevNetTun(e) => "Failed to create /dev/net/tun via mknod inside the jail: "@
            + errno_text(e as int),
        Error::MountBind(e) => "Failed to bind mount the jail root directory: "@ + errno_text(
            e as int,
        ),
        Error::MountPropagationPrivate(e) => "Failed to change the propagation type to private: "@
            + errno_text(e as int),
        Error::NotAFile(p) => p@ + " is not a file"@,
        Error::NumaNode(s) => "Invalid numa node: "@ + s@,
        Error::OpenDevKvm(e) => "Failed to open /dev/kvm: "@ + errno_text(e as int),
        Error::OpenDevNull(e) => "Failed to open /dev/null: "@ + errno_text(e as int),
        Error::OsStringParsing(p) => "Failed to parse path "@ + p@ + " into an OsString"@,
        Error::PivotRoot(e) => "Failed to pivot root: "@ + errno_text(e as int),
        Error::ReadLine(p, io) => "Failed to read line from "@ + p@ + ": "@ + io@,
        Error::ReadToString(p, io) => "Failed to read file "@ + p@ + " into a string: "@ + io@,
        Error::RegEx(s) => "Regex failed: "@ + s@,
        Error::RmOldRootDir(e) => "Failed to remove old jail root directory: "@ + errno_text(
            e as int,
        ),
        Error::SeccompLevel(s) => "Failed to parse seccomp level: "@ + s@,
        Error::SetCurrentDir(io) => "Failed to change current directory: "@ + io@,
        Error::SetNetNs(e) => "Failed to join network namespace: netns: "@ + errno_text(e as int),
        Error::SetSid(e) => "Failed to daemonize: setsid: "@ + errno_text(e as int),
        Error::Uid(s) => "Invalid uid: "@ + s@,
        Error::UmountOldRoot(e) => "Failed to unmount the old jail root: "@ + errno_text(e as int),
        Error::UnexpectedKvmFd(fd) => "Unexpected value for the /dev/kvm fd: "@ + dec_int(
            fd as int,
        ),
        Error::UnexpectedListenerFd(fd) => "Unexpected value for the socket listener fd: "@
            + dec_int(fd as int),
        Error::UnshareNewNs(e) => "Failed to unshare into new mount namespace: "@ + errno_text(
            e as int,
        ),
        Error::UnixListener(io) => "Failed to bind to the Unix socket: "@ + io@,
        Error::UnsetCloexec(e) => "Failed to unset the O_CLOEXEC flag on the socket fd: "@
            + errno_text(e as int),
        Error::Write(p, io) => "Failed to write to "@ + p@ + ": "@ + io@,
    }
}

impl Error {
    /// Renders the error as its stable message text, suitable for log
    /// scraping: each kind has a fixed phrasing.
    pub fn message(&self) -> (r: String)
        ensures
            r@ == message_spec(*self),
    {
        match self {
            Error::Canonicalize(p, io) => cat4(
                "Failed to canonicalize path ",
                p.as_str(),
                ": ",
                io.as_str(),
            ),
            Error::CgroupInheritFromParent(p, f) => cat4(
                "Failed to inherit cgroups configurations from file ",
                f.as_str(),
                " in path ",
                p.as_str(),
            ),
            Error::CgroupLineNotFound(m, c) => cat3(
                c.as_str(),
                " configurations not found in ",
                m.as_str(),
            ),
            Error::CgroupLineNotUnique(m, c) => cat4(
                "Found more than one cgroups configuration line in ",
                m.as_str(),
                " for ",
                c.as_str(),
            ),
            Error::ChangeDevNetTunOwner(e) => {
                let t = errno_string(*e);
                cat2("Failed to change owner for /dev/net/tun: ", t.as_str())
            },
            Error::ChdirNewRoot(e) => {
                let t = errno_string(*e);
                cat2("Failed to chdir into chroot directory: ", t.as_str())
            },
            Error::CloseNetNsFd(e) => {
                let t = errno_string(*e);
                cat2("Failed to close netns fd: ", t.as_str())
            },
            Error::CloseDevNullFd(e) => {
                let t = errno_string(*e);
                cat2("Failed to close /dev/null fd: ", t.as_str())
            },
            Error::Copy(f, p, io) => {
                let mut s = String::from_str("Failed to copy ");
                s.append(f.as_str());
                s.append(" to ");
                s.append(p.as_str());
                s.append(": ");
                s.append(io.as_str());
                s
            },
            Error::CreateDir(p, io) => cat4(
                "Failed to create directory ",
                p.as_str(),
                ": ",
                io.as_str(),
            ),
            Error::CStringParsing => String::from_str(
                "Encountered interior \\0 while parsing a string",
            ),
            Error::Dup2(e) => {
                let t = errno_string(*e);
                cat2("Failed to duplicate fd: ", t.as_str())
            },
            Error::Exec(io) => cat2("Failed to exec into Firecracker: ", io.as_str()),
            Error::FileName(p) => cat2("Failed to extract filename from path ", p.as_str()),
            Error::FileOpen(p, io) => cat4("Failed to open file ", p.as_str(), ": ", io.as_str()),
            Error::FromBytesWithNul(bs) => {
                let t = bytes_to_list_string(bs);
                cat2("Failed to decode string from byte array: ", t.as_str())
            },
            Error::GetOldFdFlags(e) => {
                let t = errno_string(*e);
                cat2("Failed to get flags from fd: ", t.as_str())
            },
            Error::Gid(s) => cat2("Invalid gid: ", s.as_str()),
            Error::InvalidInstanceId(v) => {
                let t = v.message();
                cat2("Invalid instance ID: ", t.as_str())
            },
            Error::MissingArgument(s) => cat2("Missing argument: ", s.as_str()),
            Error::MissingParent(p) => cat3("File ", p.as_str(), " doesn't have a parent"),
            Error::MkdirOldRoot(e) => {
                let t = errno_string(*e);
                cat2("Failed to create the jail root directory before pivoting root: ", t.as_str())
            },
            Error::MknodDevNetTun(e) => {
                let t = errno_string(*e);
                cat2("Failed to create /dev/net/tun via mknod inside the jail: ", t.as_str())
            },
            Error::MountBind(e) => {
                let t = errno_string(*e);
                cat2("Failed to bind mount the jail root directory: ", t.as_str())
            },
            Error::MountPropagationPrivate(e) => {
                let t = errno_string(*e);
                cat2("Failed to change the propagation type to private: ", t.as_str())
            },
            Error::NotAFile(p) => cat2(p.as_str(), " is not a file"),
            Error::NumaNode(s) => cat2("Invalid numa node: ", s.as_str()),
            Error::OpenDevKvm(e) => {
                let t = errno_string(*e);
                cat2("Failed to open /dev/kvm: ", t.as_str())
            },
            Error::OpenDevNull(e) => {
                let t = errno_string(*e);
                cat2("Failed to open /dev/null: ", t.as_str())
            },
            Error::OsStringParsing(p) => cat3(
                "Failed to parse path ",
                p.as_str(),
                " into an OsString",
            ),
            Error::PivotRoot(e) => {
                let t = errno_string(*e);
                cat2("Failed to pivot root: ", t.as_str())
            },
            Error::ReadLine(p, io) => cat4(
                "Failed to read line from ",
                p.as_str(),
                ": ",
                io.as_str(),
            ),
            Error::ReadToString(p, io) => cat4(
                "Failed to read file ",
                p.as_str(),
                " into a string: ",
                io.as_str(),
            ),
            Error::RegEx(s) => cat2("Regex failed: ", s.as_str()),
            Error::RmOldRootDir(e) => {
                let t = errno_string(*e);
                cat2("Failed to remove old jail root directory: ", t.as_str())
            },
            Error::SeccompLevel(s) => cat2("Failed to parse seccomp level: ", s.as_str()),
            Error::SetCurrentDir(io) => cat2("Failed to change current directory: ", io.as_str()),
            Error::SetNetNs(e) => {
                let t = errno_string(*e);
                cat2("Failed to join network namespace: netns: ", t.as_str())
            },
            Error::SetSid(e) => {
                let t = errno_string(*e);
                cat2("Failed to daemonize: setsid: ", t.as_str())
            },
            Error::Uid(s) => cat2("Invalid uid: ", s.as_str()),
            Error::UmountOldRoot(e) => {
                let t = errno_string(*e);
                cat2("Failed to unmount the old jail root: ", t.as_str())
            },
            Error::UnexpectedKvmFd(fd) => {
                let t = i32_to_string(*fd);
                cat2("Unexpected value for the /dev/kvm fd: ", t.as_str())
            },
            Error::UnexpectedListenerFd(fd) => {
                let t = i32_to_string(*fd);
                cat2("Unexpected value for the socket listener fd: ", t.as_str())
            },
            Error::UnshareNewNs(e) => {
                let t = errno_string(*e);
                cat2("Failed to unshare into new mount namespace: ", t.as_str())
            },
            Error::UnixListener(io) => cat2("Failed to bind to the Unix socket: ", io.as_str()),
            Error::UnsetCloexec(e) => {
                let t = errno_string(*e);
                cat2("Failed to unset the O_CLOEXEC flag on the socket fd: ", t.as_str())
            },
            Error::Write(p, io) => cat4("Failed to write to ", p.as_str(), ": ", io.as_str()),
        }
    }
}

} // verus!
