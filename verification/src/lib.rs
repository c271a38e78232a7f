//! Exit codes for programs.
//!
//! This library classifies process exit statuses into the most frequently
//! recognised exit codes across Unix systems: the generic codes 0–2, the
//! sysexits(3) range 64–78 from OpenBSD, the shell-reserved codes 126–127,
//! and the codes shells create when a command is terminated by a fatal
//! signal.  When the fatal signal is a number N, the latter follows bash's
//! strategy of using the value 128 + N as the exit status, so the `SIGHUP`
//! (1) signal is recognised as the exit code for the number 129.
//!
//! Exit statuses fall between 0 and 255 (inclusive), and codes greater than
//! zero indicate failure.

use vstd::prelude::*;

verus! {

/// Exit statuses 129 and above encode termination by a fatal signal as
/// `SIGBASE` plus the signal's number.
pub const SIGBASE: i32 = 128;

/// A successful exit is always indicated by a status of 0, or
/// [`Code::Success`].  Exit codes greater than zero indicate failure.
#[allow(non_camel_case_types)]
#[derive(Clone, Copy, Debug, PartialEq, Eq, Structural)]
pub enum Code {
    /// The process exited successfully.
    Success,

    /// Generic failure.
    Failure,

    /// Catch-all exit code when the process exits for an unknown reason.
    Unknown,

    /// The command was used incorrectly, e.g. with the wrong number of
    /// arguments, a bad flag, or bad syntax in a parameter.
    Usage,

    /// The input data was incorrect in some way.  This should only be used
    /// for user's data and not system files.
    DataErr,

    /// An input file (not a system file) did not exist or was not readable.
    NoInput,

    /// The user specified did not exist.  This might be used for mail
    /// addresses or remote logins.
    NoUser,

    /// The host specified did not exist.  This is used in mail addresses or
    /// network requests.
    NoHost,

    /// A service is unavailable.  This can occur if a support program or
    /// file does not exist, or as a catch-all when something does not work
    /// and the reason is unknown.
    Unavailable,

    /// An internal software error has been detected.  This should be
    /// limited to non-operating system related errors if possible.
    Software,

    /// An operating system error has been detected, such as "cannot fork"
    /// or "cannot create pipe".
    OsErr,

    /// Some system file (e.g. _/etc/passwd_) does not exist, cannot be
    /// opened, or has some sort of error.
    OsFile,

    /// A (user specified) output file cannot be created.
    CantCreat,

    /// An error occurred while doing I/O on some file.
    IoErr,

    /// Temporary failure, indicating something that is not really an error,
    /// where a request should be reattempted later.
    TempFail,

    /// The remote system returned something that was "not possible" during
    /// a protocol exchange.
    Protocol,

    /// You did not have sufficient permission to perform the operation.
    /// This is not intended for file system problems but rather for high
    /// level permissions.
    NoPerm,

    /// Something was found in an unconfigured or misconfigured state.
    Config,

    /// Command was found but is not executable by the shell.
    NotExecutable,

    /// Usually indicates that the command was not found by the shell, or
    /// that a library it requires is not found.
    NotFound,

    /// The `SIGHUP` signal is sent to a process when its controlling
    /// terminal is closed.
    SIGHUP,

    /// The `SIGINT` signal is sent to a process by its controlling terminal
    /// when a user wishes to interrupt the process.
    SIGINT,

    /// The `SIGKILL` signal is sent to a process to cause it to terminate
    /// immediately, and cannot be caught or ignored.
    SIGKILL,

    /// The `SIGPIPE` signal is sent to a process when it attempts to write
    /// to a pipe without a process connected to the other end.
    SIGPIPE,

    /// The `SIGALRM` signal is sent to a process when the time limit
    /// specified in a call to a preceding alarm setting function elapses.
    SIGALRM,

    /// The `SIGTERM` signal is sent to a process to request its
    /// termination.  Unlike `SIGKILL`, it can be caught and interpreted or
    /// ignored by the process.
    SIGTERM,

    /// The `SIGUSR1` signal, like `SIGUSR2`, is sent to a process to
    /// indicate a user-defined condition.
    SIGUSR1,

    /// The `SIGUSR2` signal, like `SIGUSR1`, is sent to a process to
    /// indicate a user-defined condition.
    SIGUSR2,

    /// The `SIGVTALRM` signal is sent to a process when the time limit
    /// specified for the virtual alarm elapses.
    SIGVTALRM,
}

/// The numeric encoding of each category: 0–2 for the generic codes, 64–78
/// for the sysexits(3) range, 126–127 for the shell-reserved codes, and
/// 128 + the signal's number for termination by a fatal signal.
pub open spec fn encoding(c: Code) -> int {
    match c {
        Code::Success => 0,
        Code::Failure => 1,
        Code::Unknown => 2,
        Code::Usage => 64,
        Code::DataErr => 65,
        Code::NoInput => 66,
        Code::NoUser => 67,
        Code::NoHost => 68,
        Code::Unavailable => 69,
        Code::Software => 70,
        Code::OsErr => 71,
        Code::OsFile => 72,
        Code::CantCreat => 73,
        Code::IoErr => 74,
        Code::TempFail => 75,
        Code::Protocol => 76,
        Code::NoPerm => 77,
        Code::Config => 78,
        Code::NotExecutable => 126,
        Code::NotFound => 127,
        Code::SIGHUP => 129,
        Code::SIGINT => 130,
        Code::SIGKILL => 137,
        Code::SIGPIPE => 141,
        Code::SIGALRM => 142,
        Code::SIGTERM => 143,
        Code::SIGUSR1 => 138,
        Code::SIGUSR2 => 140,
        Code::SIGVTALRM => 154,
    }
}

/// The classification of an arbitrary integer: the category whose encoding
/// it is, and [`Code::Unknown`] for every integer that encodes none.
pub open spec fn classify(n: int) -> Code {
    if n == 0 {
        Code::Success
    } else if n == 1 {
        Code::Failure
    } else if n == 2 {
        Code::Unknown
    } else if n == 64 {
        Code::Usage
    } else if n == 65 {
        Code::DataErr
    } else if n == 66 {
        Code::NoInput
    } else if n == 67 {
        Code::NoUser
    } else if n == 68 {
        Code::NoHost
    } else if n == 69 {
        Code::Unavailable
    } else if n == 70 {
        Code::Software
    } else if n == 71 {
        Code::OsErr
    } else if n == 72 {
        Code::OsFile
    } else if n == 73 {
        Code::CantCreat
    } else if n == 74 {
        Code::IoErr
    } else if n == 75 {
        Code::TempFail
    } else if n == 76 {
        Code::Protocol
    } else if n == 77 {
        Code::NoPerm
    } else if n == 78 {
        Code::Config
    } else if n == 126 {
        Code::NotExecutable
    } else if n == 127 {
        Code::NotFound
    } else if n == 129 {
        Code::SIGHUP
    } else if n == 130 {
        Code::SIGINT
    } else if n == 137 {
        Code::SIGKILL
    } else if n == 138 {
        Code::SIGUSR1
    } else if n == 140 {
        Code::SIGUSR2
    } else if n == 141 {
        Code::SIGPIPE
    } else if n == 142 {
        Code::SIGALRM
    } else if n == 143 {
        Code::SIGTERM
    } else if n == 154 {
        Code::SIGVTALRM
    } else {
        Code::Unknown
    }
}

impl Code {
    /// The exit code's numeric value, for use as a process exit code.
    pub fn as_i32(&self) -> (r: i32)
        ensures
            r == encoding(*self),
    {
        match *self {
            Code::Success => 0,
            Code::Failure => 1,
            Code::Unknown => 2,
            Code::Usage => 64,
            Code::DataErr => 65,
            Code::NoInput => 66,
            Code::NoUser => 67,
            Code::NoHost => 68,
            Code::Unavailable => 69,
            Code::Software => 70,
            Code::OsErr => 71,
            Code::OsFile => 72,
            Code::CantCreat => 73,
            Code::IoErr => 74,
            Code::TempFail => 75,
            Code::Protocol => 76,
            Code::NoPerm => 77,
            Code::Config => 78,
            Code::NotExecutable => 126,
            Code::NotFound => 127,
            Code::SIGHUP => 129,
            Code::SIGINT => 130,
            Code::SIGKILL => 137,
            Code::SIGPIPE => 141,
            Code::SIGALRM => 142,
            Code::SIGTERM => 143,
            Code::SIGUSR1 => 138,
            Code::SIGUSR2 => 140,
            Code::SIGVTALRM => 154,
        }
    }
}

/// Relies on libc::SIGHUP: 1 on the Linux targets this library supports.
#[verifier::external_body]
fn sig_hup() -> (r: i32)
    ensures
        r == 1,
{
    libc::SIGHUP
}

/// Relies on libc::SIGINT: 2 on the Linux targets this library supports.
#[verifier::external_body]
fn sig_int() -> (r: i32)
    ensures
        r == 2,
{
    libc::SIGINT
}

/// Relies on libc::SIGKILL: 9 on the Linux targets this library supports.
#[verifier::external_body]
fn sig_kill() -> (r: i32)
    ensures
        r == 9,
{
    libc::SIGKILL
}

/// Relies on libc::SIGUSR1: 10 on the Linux targets this library supports.
#[verifier::external_body]
fn sig_usr1() -> (r: i32)
    ensures
        r == 10,
{
    libc::SIGUSR1
}

/// Relies on libc::SIGUSR2: 12 on the Linux targets this library supports.
#[verifier::external_body]
fn sig_usr2() -> (r: i32)
    ensures
        r == 12,
{
    libc::SIGUSR2
}

/// Relies on libc::SIGPIPE: 13 on the Linux targets this library supports.
#[verifier::external_body]
fn sig_pipe() -> (r: i32)
    ensures
        r == 13,
{
    libc::SIGPIPE
}

/// Relies on libc::SIGALRM: 14 on the Linux targets this library supports.
#[verifier::external_body]
fn sig_alrm() -> (r: i32)
    ensures
        r == 14,
{
    libc::SIGALRM
}

/// Relies on libc::SIGTERM: 15 on the Linux targets this library supports.
#[verifier::external_body]
fn sig_term() -> (r: i32)
    ensures
        r == 15,
{
    libc::SIGTERM
}

/// Relies on libc::SIGVTALRM: 26 on the Linux targets this library supports.
#[verifier::external_body]
fn sig_vtalrm() -> (r: i32)
    ensures
        r == 26,
{
    libc::SIGVTALRM
}

/// Converts an `i32` primitive integer to an exit code.  Any integer that
/// encodes no category, including negative numbers and 128 exactly, yields
/// [`Code::Unknown`].
impl From<i32> for Code {
    fn from(n: i32) -> Self {
        match n {
            0 => Code::Success,
            1 => Code::Failure,
            2 => Code::Unknown,
            64 => Code::Usage,
            65 => Code::DataErr,
            66 => Code::NoInput,
            67 => Code::NoUser,
            68 => Code::NoHost,
            69 => Code::Unavailable,
            70 => Code::Software,
            71 => Code::OsErr,
            72 => Code::OsFile,
            73 => Code::CantCreat,
            74 => Code::IoErr,
            75 => Code::TempFail,
            76 => Code::Protocol,
            77 => Code::NoPerm,
            78 => Code::Config,
            126 => Code::NotExecutable,
            127 => Code::NotFound,
            _ => {
                if n == SIGBASE + sig_hup() {
                    Code::SIGHUP
                } else if n == SIGBASE + sig_int() {
                    Code::SIGINT
                } else if n == SIGBASE + sig_kill() {
                    Code::SIGKILL
                } else if n == SIGBASE + sig_usr1() {
                    Code::SIGUSR1
                } else if n == SIGBASE + sig_usr2() {
                    Code::SIGUSR2
                } else if n == SIGBASE + sig_pipe() {
                    Code::SIGPIPE
                } else if n == SIGBASE + sig_alrm() {
                    Code::SIGALRM
                } else if n == SIGBASE + sig_term() {
                    Code::SIGTERM
                } else if n == SIGBASE + sig_vtalrm() {
                    Code::SIGVTALRM
                } else {
                    Code::Unknown
                }
            },
        }
    }
}

impl vstd::std_specs::convert::FromSpecImpl<i32> for Code {
    open spec fn obeys_from_spec() -> bool {
        true
    }

    open spec fn from_spec(v: i32) -> Code {
        classify(v as int)
    }
}

/// The classification of an optional integer: absence classifies as
/// [`Code::Unknown`], presence as the integer itself.
pub open spec fn classify_opt(maybe_n: Option<i32>) -> Code {
    match maybe_n {
        Some(n) => classify(n as int),
        None => Code::Unknown,
    }
}

/// Converts an optional `i32` to an exit code: `None` yields
/// [`Code::Unknown`], `Some(n)` whatever `n` converts to.
impl From<Option<i32>> for Code {
    fn from(maybe_n: Option<i32>) -> Self {
        match maybe_n {
            Some(n) => Code::from(n),
            None => Code::Unknown,
        }
    }
}

impl vstd::std_specs::convert::FromSpecImpl<Option<i32>> for Code {
    open spec fn obeys_from_spec() -> bool {
        true
    }

    open spec fn from_spec(v: Option<i32>) -> Code {
        classify_opt(v)
    }
}

/// Law: converting a present integer delegates to the integer conversion,
/// for every integer, and converting an absent one yields
/// [`Code::Unknown`].
pub proof fn lemma_optional_delegates(n: i32)
    ensures
        classify_opt(Some(n)) == classify(n as int),
        classify_opt(None::<i32>) == Code::Unknown,
{
}

/// The user-friendly explanation of each exit code: a fixed lowercase
/// phrase followed by the numeric encoding in parentheses, e.g.
/// `"i/o error (74)"` for [`Code::IoErr`].
pub open spec fn description(c: Code) -> Seq<char> {
    match c {
        Code::Success => "success (0)"@,
        Code::Failure => "failure (1)"@,
        Code::Unknown => "unknown (2)"@,
        Code::Usage => "usage (64)"@,
        Code::DataErr => "data (65)"@,
        Code::NoInput => "no input (66)"@,
        Code::NoUser => "no user (67)"@,
        Code::NoHost => "no host (68)"@,
        Code::Unavailable => "unavailable (69)"@,
        Code::Software => "software (70)"@,
        Code::OsErr => "os err (71)"@,
        Code::OsFile => "os file (72)"@,
        Code::CantCreat => "cannot create (73)"@,
        Code::IoErr => "i/o error (74)"@,
        Code::TempFail => "temporary failure (75)"@,
        Code::Protocol => "protocol (76)"@,
        Code::NoPerm => "permission denied (77)"@,
        Code::Config => "config (78)"@,
        Code::NotExecutable => "not executable (126)"@,
        Code::NotFound => "not found (127)"@,
        Code::SIGHUP => "hangup signal (129)"@,
        Code::SIGINT => "terminal interrupt signal (130)"@,
        Code::SIGKILL => "kill signal (137)"@,
        Code::SIGPIPE => "write on a pipe with no one to read it signal (141)"@,
        Code::SIGALRM => "alarm clock signal (142)"@,
        Code::SIGTERM => "termination signal (143)"@,
        Code::SIGUSR1 => "user-defined signal 1 (138)"@,
        Code::SIGUSR2 => "user-defined signal 2 (140)"@,
        Code::SIGVTALRM => "virtual timer expired signal (154)"@,
    }
}

impl Code {
    /// Provides a user-friendly explanation of the exit code: its reason in
    /// lowercase ASCII English followed by its numeric value in
    /// parentheses.
    pub fn describe(&self) -> (r: &'static str)
        ensures
            r@ == description(*self),
    {
        match *self {
            Code::Success => "success (0)",
            Code::Failure => "failure (1)",
            Code::Unknown => "unknown (2)",
            Code::Usage => "usage (64)",
            Code::DataErr => "data (65)",
            Code::NoInput => "no input (66)",
            Code::NoUser => "no user (67)",
            Code::NoHost => "no host (68)",
            Code::Unavailable => "unavailable (69)",
            Code::Software => "software (70)",
            Code::OsErr => "os err (71)",
            Code::OsFile => "os file (72)",
            Code::CantCreat => "cannot create (73)",
            Code::IoErr => "i/o error (74)",
            Code::TempFail => "temporary failure (75)",
            Code::Protocol => "protocol (76)",
            Code::NoPerm => "permission denied (77)",
            Code::Config => "config (78)",
            Code::NotExecutable => "not executable (126)",
            Code::NotFound => "not found (127)",
            Code::SIGHUP => "hangup signal (129)",
            Code::SIGINT => "terminal interrupt signal (130)",
            Code::SIGKILL => "kill signal (137)",
            Code::SIGPIPE => "write on a pipe with no one to read it signal (141)",
            Code::SIGALRM => "alarm clock signal (142)",
            Code::SIGTERM => "termination signal (143)",
            Code::SIGUSR1 => "user-defined signal 1 (138)",
            Code::SIGUSR2 => "user-defined signal 2 (140)",
            Code::SIGVTALRM => "virtual timer expired signal (154)",
        }
    }
}

/// Law: classifying a category's own numeric encoding yields that category
/// back, for every category.  Together with [`lemma_encoding_of_classified`]
/// this makes the mapping between categories and their encodings
/// bidirectional.
pub proof fn lemma_classify_inverts_encoding(c: Code)
    ensures
        classify(encoding(c)) == c,
{
}

/// Law: an integer either encodes no category (and classifies as
/// [`Code::Unknown`]) or is returned unchanged by the classified category's
/// numeric encoding.
pub proof fn lemma_encoding_of_classified(n: int)
    ensures
        classify(n) == Code::Unknown || encoding(classify(n)) == n,
{
}

/// What this library reads out of a platform's process-termination result:
/// the exit code if the process exited normally, and, on Unix targets, the
/// number of the signal that terminated it otherwise.
///
/// The caller obtains both values from the operating system's
/// process-spawning facility and hands them over as plain integers; on
/// targets without a terminating-signal notion, `signal` is `None`.
#[derive(Clone, Copy, Debug)]
pub struct PlatformStatus {
    /// The process's exit code, if it exited normally.
    pub code: Option<i32>,
    /// The number of the signal that terminated the process, if any.
    pub signal: Option<i32>,
}

impl PlatformStatus {
    /// The raw integer the platform result supplies: the exit code when
    /// present, the terminating signal's number otherwise.
    pub open spec fn raw(self) -> Option<i32> {
        if self.code is Some {
            self.code
        } else {
            self.signal
        }
    }
}

/// The classification of a platform result: its raw integer when one is
/// available, [`Code::Unknown`] otherwise.  The terminating signal's number
/// is fed to the classification as it stands, not offset by `SIGBASE`.
pub open spec fn classify_status(status: PlatformStatus) -> Code {
    classify_opt(status.raw())
}

fn platform_exit_code(status: PlatformStatus) -> (r: Option<i32>)
    ensures
        r == status.raw(),
{
    match status.code {
        Some(n) => Some(n),
        None => status.signal,
    }
}

/// Converts a [`PlatformStatus`] to an exit code by looking at its exit
/// code if the process exited normally and at its terminating signal
/// otherwise.  If the passed status carries neither, [`Code::Unknown`] (2)
/// is returned.
impl From<PlatformStatus> for Code {
    fn from(status: PlatformStatus) -> Self {
        let n: i32 = match platform_exit_code(status) {
            Some(n) => n,
            None => Code::Unknown.as_i32(),
        };
        Code::from(n)
    }
}

impl vstd::std_specs::convert::FromSpecImpl<PlatformStatus> for Code {
    open spec fn obeys_from_spec() -> bool {
        true
    }

    open spec fn from_spec(v: PlatformStatus) -> Code {
        classify_status(v)
    }
}

/// Converts a [`PlatformStatus`] to a [`Code`].
///
/// If the process was terminated by a fatal signal, the signal's number is
/// classified as it stands.  If the passed status carries neither an exit
/// code nor a signal, [`Code::Unknown`] (2) is returned.
pub fn from_status(status: PlatformStatus) -> (code: Code)
    ensures
        code == classify_status(status),
{
    Code::from(status)
}

/// Whether a platform status counts as successful: exactly when it
/// classifies as [`Code::Success`].
pub open spec fn success_spec(status: PlatformStatus) -> bool {
    classify_status(status) == Code::Success
}

/// Determines if the provided [`PlatformStatus`] was successful, that is,
/// classifies as [`Code::Success`].
pub fn is_success(status: PlatformStatus) -> (r: bool)
    ensures
        r == success_spec(status),
{
    Code::from(status) == Code::Success
}

/// Determines if the provided [`PlatformStatus`] was unsuccessful: the
/// exact negation of [`is_success`] for every status.
pub fn is_error(status: PlatformStatus) -> (r: bool)
    ensures
        r == !success_spec(status),
{
    !is_success(status)
}

/// Law: a platform status that carries a normal exit code classifies
/// exactly as that code's integer conversion, whatever the signal field
/// holds.
pub proof fn lemma_status_code_delegates(status: PlatformStatus, n: i32)
    requires
        status.code == Some(n),
    ensures
        classify_status(status) == classify(n as int),
{
}

/// The platform-independent classification of an I/O failure that this
/// library reads: the distinguished kinds it maps to their own categories,
/// and [`IoKind::Other`] for every other kind the host I/O subsystem may
/// report.
#[derive(Clone, Copy, Debug, PartialEq, Eq, Structural)]
pub enum IoKind {
    /// An entity was not found.
    NotFound,
    /// The operation lacked the necessary privileges.
    PermissionDenied,
    /// The connection was refused by the remote server.
    ConnectionRefused,
    /// The connection was reset by the remote server.
    ConnectionReset,
    /// The connection was aborted by the remote server.
    ConnectionAborted,
    /// The network operation failed because it was not connected yet.
    NotConnected,
    /// A socket address could not be bound because it is already in use.
    AddrInUse,
    /// A nonexistent interface was requested or the address is not local.
    AddrNotAvailable,
    /// The operation failed because a pipe was closed.
    BrokenPipe,
    /// An entity already exists.
    AlreadyExists,
    /// A parameter was incorrect.
    InvalidInput,
    /// Data not valid for the operation were encountered.
    InvalidData,
    /// Any other kind of I/O failure.
    Other,
}

/// The category an I/O failure classification maps onto, used when no
/// process exit status is available but an I/O failure occurred instead.
/// Every kind outside the distinguished ones maps to [`Code::IoErr`].
pub open spec fn io_encoding(kind: IoKind) -> Code {
    match kind {
        IoKind::NotFound => Code::OsFile,
        IoKind::PermissionDenied => Code::NoPerm,
        IoKind::AddrInUse => Code::Unavailable,
        IoKind::AddrNotAvailable => Code::Unavailable,
        IoKind::ConnectionRefused => Code::Protocol,
        IoKind::ConnectionReset => Code::Protocol,
        IoKind::ConnectionAborted => Code::Protocol,
        IoKind::NotConnected => Code::Protocol,
        IoKind::BrokenPipe => Code::Protocol,
        IoKind::AlreadyExists => Code::CantCreat,
        IoKind::InvalidInput => Code::DataErr,
        IoKind::InvalidData => Code::DataErr,
        IoKind::Other => Code::IoErr,
    }
}

/// Converts an I/O failure classification to the exit code appropriate for
/// a process that failed on that kind of I/O error.
impl From<IoKind> for Code {
    fn from(kind: IoKind) -> Self {
        match kind {
            IoKind::NotFound => Code::OsFile,
            IoKind::PermissionDenied => Code::NoPerm,
            IoKind::AddrInUse | IoKind::AddrNotAvailable => Code::Unavailable,
            IoKind::ConnectionRefused
            | IoKind::ConnectionReset
            | IoKind::ConnectionAborted
            | IoKind::NotConnected
            | IoKind::BrokenPipe => Code::Protocol,
            IoKind::AlreadyExists => Code::CantCreat,
            IoKind::InvalidInput | IoKind::InvalidData => Code::DataErr,
            _ => Code::IoErr,
        }
    }
}

impl vstd::std_specs::convert::FromSpecImpl<IoKind> for Code {
    open spec fn obeys_from_spec() -> bool {
        true
    }

    open spec fn from_spec(v: IoKind) -> Code {
        io_encoding(v)
    }
}

/// Tests if the provided exit code is reserved, and has a special meaning
/// in shells: 0–2, the sysexits(3) range 64–78, or the shell and fatal
/// signal range 126–154.
pub fn is_reserved(n: i32) -> (r: bool)
    ensures
        r == (0 <= n <= 2 || 64 <= n <= 78 || 126 <= n <= 154),
{
    (Code::Success.as_i32() <= n && n <= Code::Unknown.as_i32())
        || (Code::Usage.as_i32() <= n && n <= Code::Config.as_i32())
        || (Code::NotExecutable.as_i32() <= n && n <= Code::SIGVTALRM.as_i32())
}

/// Tests if the provided exit code is valid, that is within the 0–255
/// (inclusive) range.
pub fn is_valid(n: i32) -> (r: bool)
    ensures
        r == (0 <= n <= 255),
{
    0 <= n && n <= 255
}

} // verus!
