use sysexit::{from_status, is_error, is_reserved, is_success, is_valid, Code, IoKind,
    PlatformStatus, SIGBASE};

fn exit_status(code: i32) -> PlatformStatus {
    PlatformStatus { code: Some(code), signal: None }
}

fn signal_status(signal: i32) -> PlatformStatus {
    PlatformStatus { code: None, signal: Some(signal) }
}

#[test]
fn sigbase() {
    assert_eq!(SIGBASE, 128);
}

#[test]
fn from_i32() {
    assert_eq!(Code::from(0), Code::Success);
    assert_eq!(Code::from(1), Code::Failure);
    assert_eq!(Code::from(2), Code::Unknown);

    assert_eq!(Code::from(64), Code::Usage);
    assert_eq!(Code::from(65), Code::DataErr);
    assert_eq!(Code::from(66), Code::NoInput);
    assert_eq!(Code::from(67), Code::NoUser);
    assert_eq!(Code::from(68), Code::NoHost);
    assert_eq!(Code::from(69), Code::Unavailable);
    assert_eq!(Code::from(70), Code::Software);
    assert_eq!(Code::from(71), Code::OsErr);
    assert_eq!(Code::from(72), Code::OsFile);
    assert_eq!(Code::from(73), Code::CantCreat);
    assert_eq!(Code::from(74), Code::IoErr);
    assert_eq!(Code::from(75), Code::TempFail);
    assert_eq!(Code::from(76), Code::Protocol);
    assert_eq!(Code::from(77), Code::NoPerm);
    assert_eq!(Code::from(78), Code::Config);

    assert_eq!(Code::from(126), Code::NotExecutable);
    assert_eq!(Code::from(127), Code::NotFound);

    assert_eq!(Code::from(129), Code::SIGHUP);
    assert_eq!(Code::from(130), Code::SIGINT);
    assert_eq!(Code::from(137), Code::SIGKILL);
    assert_eq!(Code::from(138), Code::SIGUSR1);
    assert_eq!(Code::from(140), Code::SIGUSR2);
    assert_eq!(Code::from(141), Code::SIGPIPE);
    assert_eq!(Code::from(142), Code::SIGALRM);
    assert_eq!(Code::from(143), Code::SIGTERM);
    assert_eq!(Code::from(154), Code::SIGVTALRM);

    assert_eq!(Code::from(-1), Code::Unknown);
    assert_eq!(Code::from(128), Code::Unknown);
    assert_eq!(Code::from(162), Code::Unknown);
}

#[test]
fn from_exitstatus() {
    assert_eq!(Code::from(exit_status(0)), Code::Success);
    assert_eq!(Code::from(exit_status(1)), Code::Failure);
    assert_eq!(Code::from(exit_status(2)), Code::Unknown);

    assert_eq!(Code::from(exit_status(64)), Code::Usage);
    assert_eq!(Code::from(exit_status(65)), Code::DataErr);
    assert_eq!(Code::from(exit_status(66)), Code::NoInput);
    assert_eq!(Code::from(exit_status(67)), Code::NoUser);
    assert_eq!(Code::from(exit_status(68)), Code::NoHost);
    assert_eq!(Code::from(exit_status(69)), Code::Unavailable);
    assert_eq!(Code::from(exit_status(70)), Code::Software);
    assert_eq!(Code::from(exit_status(71)), Code::OsErr);
    assert_eq!(Code::from(exit_status(72)), Code::OsFile);
    assert_eq!(Code::from(exit_status(73)), Code::CantCreat);
    assert_eq!(Code::from(exit_status(74)), Code::IoErr);
    assert_eq!(Code::from(exit_status(75)), Code::TempFail);
    assert_eq!(Code::from(exit_status(76)), Code::Protocol);
    assert_eq!(Code::from(exit_status(77)), Code::NoPerm);
    assert_eq!(Code::from(exit_status(78)), Code::Config);

    assert_eq!(Code::from(exit_status(126)), Code::NotExecutable);
    assert_eq!(Code::from(exit_status(127)), Code::NotFound);

    assert_eq!(Code::from(exit_status(129)), Code::SIGHUP);
    assert_eq!(Code::from(exit_status(130)), Code::SIGINT);
    assert_eq!(Code::from(exit_status(137)), Code::SIGKILL);
    assert_eq!(Code::from(exit_status(138)), Code::SIGUSR1);
    assert_eq!(Code::from(exit_status(140)), Code::SIGUSR2);
    assert_eq!(Code::from(exit_status(141)), Code::SIGPIPE);
    assert_eq!(Code::from(exit_status(142)), Code::SIGALRM);
    assert_eq!(Code::from(exit_status(143)), Code::SIGTERM);
    assert_eq!(Code::from(exit_status(154)), Code::SIGVTALRM);
}

#[test]
fn from_status_free_fn() {
    assert_eq!(from_status(exit_status(0)), Code::Success);
    assert_eq!(from_status(exit_status(74)), Code::IoErr);
    assert_eq!(from_status(PlatformStatus { code: None, signal: None }), Code::Unknown);
}

#[test]
fn from_status_signal_is_fed_raw() {
    // The terminating signal's number is classified as it stands, without
    // the SIGBASE offset, so small signal numbers land outside the
    // signal-derived encodings.
    assert_eq!(from_status(signal_status(1)), Code::Failure);
    assert_eq!(from_status(signal_status(9)), Code::Unknown);
    assert_eq!(from_status(signal_status(15)), Code::Unknown);
    assert_eq!(from_status(signal_status(129)), Code::SIGHUP);
    // A normal exit code takes precedence over the signal.
    assert_eq!(
        from_status(PlatformStatus { code: Some(65), signal: Some(9) }),
        Code::DataErr
    );
}

#[test]
fn from_optional_i32() {
    assert_eq!(Code::from(None::<i32>), Code::Unknown);
    assert_eq!(Code::from(Some(0)), Code::Success);
    assert_eq!(Code::from(Some(65)), Code::DataErr);
    assert_eq!(Code::from(Some(-1)), Code::Unknown);
    assert_eq!(Code::from(Some(128)), Code::Unknown);
}

#[test]
fn as_i32_round_trips_known_encodings() {
    let known: Vec<i32> = vec![
        0, 1, 2, 64, 65, 66, 67, 68, 69, 70, 71, 72, 73, 74, 75, 76, 77, 78, 126, 127, 129,
        130, 137, 138, 140, 141, 142, 143, 154,
    ];
    for n in known {
        assert_eq!(Code::from(n).as_i32(), n);
    }
    assert_eq!(Code::from(-1).as_i32(), 2);
    assert_eq!(Code::from(128).as_i32(), 2);
    assert_eq!(Code::from(162).as_i32(), 2);
}

#[test]
fn success() {
    assert!(is_success(exit_status(0)));
    assert!(!is_success(exit_status(1)));
}

#[test]
fn error() {
    assert!(is_error(exit_status(1)));
    assert!(!is_error(exit_status(0)));
}

#[test]
fn reserved() {
    for n in 0i32..512 {
        match n {
            0..=2 => assert!(is_reserved(n)),
            64..=78 => assert!(is_reserved(n)),
            126..=154 => assert!(is_reserved(n)),
            n => assert!(!is_reserved(n)),
        }
    }
}

#[test]
fn valid() {
    for n in 0i32..512 {
        match n {
            0..=255 => assert!(is_valid(n)),
            _ => assert!(!is_valid(n)),
        }
    }
}

#[test]
fn describe_codes() {
    assert_eq!(Code::Success.describe(), "success (0)");
    assert_eq!(Code::Failure.describe(), "failure (1)");
    assert_eq!(Code::Unknown.describe(), "unknown (2)");
    assert_eq!(Code::Usage.describe(), "usage (64)");
    assert_eq!(Code::DataErr.describe(), "data (65)");
    assert_eq!(Code::NoInput.describe(), "no input (66)");
    assert_eq!(Code::NoUser.describe(), "no user (67)");
    assert_eq!(Code::NoHost.describe(), "no host (68)");
    assert_eq!(Code::Unavailable.describe(), "unavailable (69)");
    assert_eq!(Code::Software.describe(), "software (70)");
    assert_eq!(Code::OsErr.describe(), "os err (71)");
    assert_eq!(Code::OsFile.describe(), "os file (72)");
    assert_eq!(Code::CantCreat.describe(), "cannot create (73)");
    assert_eq!(Code::IoErr.describe(), "i/o error (74)");
    assert_eq!(Code::TempFail.describe(), "temporary failure (75)");
    assert_eq!(Code::Protocol.describe(), "protocol (76)");
    assert_eq!(Code::NoPerm.describe(), "permission denied (77)");
    assert_eq!(Code::Config.describe(), "config (78)");
    assert_eq!(Code::NotExecutable.describe(), "not executable (126)");
    assert_eq!(Code::NotFound.describe(), "not found (127)");
    assert_eq!(Code::SIGHUP.describe(), "hangup signal (129)");
    assert_eq!(Code::SIGINT.describe(), "terminal interrupt signal (130)");
    assert_eq!(Code::SIGKILL.describe(), "kill signal (137)");
    assert_eq!(
        Code::SIGPIPE.describe(),
        "write on a pipe with no one to read it signal (141)"
    );
    assert_eq!(Code::SIGALRM.describe(), "alarm clock signal (142)");
    assert_eq!(Code::SIGTERM.describe(), "termination signal (143)");
    assert_eq!(Code::SIGUSR1.describe(), "user-defined signal 1 (138)");
    assert_eq!(Code::SIGUSR2.describe(), "user-defined signal 2 (140)");
    assert_eq!(Code::SIGVTALRM.describe(), "virtual timer expired signal (154)");
}

#[test]
fn from_io_kind() {
    assert_eq!(Code::from(IoKind::NotFound), Code::OsFile);
    assert_eq!(Code::from(IoKind::PermissionDenied), Code::NoPerm);
    assert_eq!(Code::from(IoKind::AddrInUse), Code::Unavailable);
    assert_eq!(Code::from(IoKind::AddrNotAvailable), Code::Unavailable);
    assert_eq!(Code::from(IoKind::ConnectionRefused), Code::Protocol);
    assert_eq!(Code::from(IoKind::ConnectionReset), Code::Protocol);
    assert_eq!(Code::from(IoKind::ConnectionAborted), Code::Protocol);
    assert_eq!(Code::from(IoKind::NotConnected), Code::Protocol);
    assert_eq!(Code::from(IoKind::BrokenPipe), Code::Protocol);
    assert_eq!(Code::from(IoKind::AlreadyExists), Code::CantCreat);
    assert_eq!(Code::from(IoKind::InvalidInput), Code::DataErr);
    assert_eq!(Code::from(IoKind::InvalidData), Code::DataErr);
    assert_eq!(Code::from(IoKind::Other), Code::IoErr);
}
