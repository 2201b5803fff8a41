use vdr::accept_loop::{
    AcceptFailure, AcceptLoop, Fatal, LoopReply, Phase, Source, MAX_CONCURRENT_DUMPS,
};
use vdr::connection::{ConnectionReply, ConnectionStage, Refusal};
use vdr::pidfd::{
    get_peer_pidfd, iowr, judge_connection, pidfd_get_info_number, socket_metadata, Admission,
    PeerPidfdError,
};
use vdr::poll::PollFd;
use vdr::startup::{
    check_kernel_version, is_stream_socket, markers, verify_perms, KernelError, ListenReply,
    ListenStage, SOCKET_DIR, SOCKET_DIR_MODE, SOCKET_MODE, SOCKET_PATH,
};
use vdr::PidfdInfo;

fn fd(revents: i16) -> PollFd {
    let mut p = PollFd::readable(5);
    p.revents = revents;
    p
}

fn polled(signal: i16, wake: i16, listener: i16) -> LoopReply {
    LoopReply::Polled { signal: fd(signal), wake: fd(wake), listener: fd(listener) }
}

const IN: i16 = libc::POLLIN;

fn accept_one(l: &mut AcceptLoop) {
    l.step(polled(0, 0, IN));
    assert_eq!(l.phase(), Phase::Accept);
    l.step(LoopReply::Done);
    assert_eq!(l.phase(), Phase::CloneWake);
    l.step(LoopReply::Done);
    assert_eq!(l.phase(), Phase::Spawn);
    l.step(LoopReply::Done);
    assert_eq!(l.phase(), Phase::Poll);
}

#[test]
fn concurrency_is_bounded() {
    let mut l = AcceptLoop::new();
    for _ in 0..MAX_CONCURRENT_DUMPS {
        assert!(l.watches_listener());
        accept_one(&mut l);
    }
    assert_eq!(MAX_CONCURRENT_DUMPS, 4);
    assert!(!l.watches_listener());
    l.step(polled(0, 0, IN));
    assert_eq!(l.phase(), Phase::Poll);
    l.release(1);
    assert!(l.watches_listener());
    accept_one(&mut l);
    assert!(!l.watches_listener());
}

#[test]
fn no_more_slots_come_back_than_were_taken() {
    let mut l = AcceptLoop::new();
    l.release(3);
    for _ in 0..MAX_CONCURRENT_DUMPS {
        accept_one(&mut l);
    }
    assert!(!l.watches_listener());
    l.release(100);
    for _ in 0..MAX_CONCURRENT_DUMPS {
        assert!(l.watches_listener());
        accept_one(&mut l);
    }
    assert!(!l.watches_listener());
}

#[test]
fn shutdown_comes_first() {
    let mut l = AcceptLoop::new();
    l.step(polled(IN | libc::POLLHUP, IN | libc::POLLERR, IN));
    assert_eq!(l.phase(), Phase::Join);
    l.step(LoopReply::Done);
    assert_eq!(l.phase(), Phase::Done);
    assert_eq!(l.outcome(), Ok(()));
    l.step(polled(0, 0, IN));
    assert_eq!(l.phase(), Phase::Done);
}

#[test]
fn error_conditions_end_the_loop() {
    for bit in [libc::POLLERR, libc::POLLHUP, libc::POLLNVAL] {
        let cases = [
            (polled(bit, bit, bit), Source::SignalPipe),
            (polled(0, bit | IN, bit), Source::WakePipe),
            (polled(0, IN, bit | IN), Source::Listener),
        ];
        for (reply, source) in cases {
            let mut l = AcceptLoop::new();
            l.step(reply);
            assert_eq!(l.phase(), Phase::Join);
            l.step(LoopReply::Done);
            assert_eq!(l.outcome(), Err(Fatal::Broken(source)));
        }
    }
    assert_eq!(
        Source::WakePipe.error_message(),
        "poll reported an error condition on the worker wake pipe"
    );
    assert_eq!(
        Source::SignalPipe.error_message(),
        "poll reported an error condition on the signal pipe"
    );
    assert_eq!(
        Source::Listener.error_message(),
        "poll reported an error condition on the listener socket"
    );
}

#[test]
fn failed_wait_ends_the_loop() {
    let mut l = AcceptLoop::new();
    l.step(LoopReply::Failed);
    assert_eq!(l.phase(), Phase::Join);
    assert_eq!(l.outcome(), Err(Fatal::Poll));
}

#[test]
fn wake_pipe_is_drained_before_accepting() {
    let mut l = AcceptLoop::new();
    l.step(polled(0, IN, IN));
    assert_eq!(l.phase(), Phase::DrainWake);
    l.step(LoopReply::Done);
    assert_eq!(l.phase(), Phase::Accept);
    let mut l = AcceptLoop::new();
    l.step(polled(0, IN, 0));
    assert_eq!(l.phase(), Phase::DrainWake);
    l.step(LoopReply::Done);
    assert_eq!(l.phase(), Phase::Poll);
}

#[test]
fn transient_accept_failures_are_ignored() {
    let transient =
        [AcceptFailure::WouldBlock, AcceptFailure::ConnectionAborted, AcceptFailure::Interrupted];
    for e in transient {
        let mut l = AcceptLoop::new();
        l.step(polled(0, 0, IN));
        l.step(LoopReply::NotAccepted(e));
        assert_eq!(l.phase(), Phase::Poll);
    }
    let mut l = AcceptLoop::new();
    l.step(polled(0, 0, IN));
    l.step(LoopReply::NotAccepted(AcceptFailure::Other));
    assert_eq!(l.phase(), Phase::Join);
    assert_eq!(l.outcome(), Err(Fatal::Accept));
}

#[test]
fn connection_is_handled_inline_without_a_wake_pipe() {
    let mut l = AcceptLoop::new();
    for _ in 0..3 {
        accept_one(&mut l);
    }
    l.step(polled(0, 0, IN));
    l.step(LoopReply::Done);
    l.step(LoopReply::Failed);
    assert_eq!(l.phase(), Phase::HandleInline);
    assert!(!l.watches_listener());
    l.step(LoopReply::Failed);
    assert_eq!(l.phase(), Phase::Poll);
    assert!(l.watches_listener());
}

#[test]
fn failed_spawn_gives_the_slot_back() {
    let mut l = AcceptLoop::new();
    for _ in 0..10 {
        l.step(polled(0, 0, IN));
        l.step(LoopReply::Done);
        l.step(LoopReply::Done);
        l.step(LoopReply::Failed);
        assert_eq!(l.phase(), Phase::Poll);
        assert!(l.watches_listener());
    }
}

#[test]
fn poll_bits() {
    let p = PollFd::readable(9);
    assert_eq!(p, PollFd { fd: 9, events: libc::POLLIN, revents: 0 });
    assert!(!p.is_readable() && !p.has_error());
    assert!(fd(libc::POLLIN).is_readable());
    assert!(!fd(libc::POLLOUT | libc::POLLPRI).is_readable());
    assert!(!fd(libc::POLLOUT | libc::POLLPRI | libc::POLLIN).has_error());
}

fn crashed() -> PidfdInfo {
    PidfdInfo {
        mask: 16 | libc::PIDFD_INFO_CREDS as u64,
        pid: 321,
        ruid: 1000,
        rgid: 100,
        coredump_mask: 1 | 4,
        coredump_signal: 6,
        ..PidfdInfo::default()
    }
}

#[test]
fn coredump_needs_both_flags() {
    assert!(crashed().is_coredump());
    assert!(!PidfdInfo { mask: 2, ..crashed() }.is_coredump());
    assert!(!PidfdInfo { coredump_mask: 4 | 8, ..crashed() }.is_coredump());
    assert!(!PidfdInfo::default().is_coredump());
}

#[test]
fn credentials_follow_the_mask() {
    assert!(crashed().has_creds());
    assert!(PidfdInfo { mask: libc::PIDFD_INFO_CREDS as u64, ..PidfdInfo::default() }.has_creds());
    assert!(!PidfdInfo { mask: !(libc::PIDFD_INFO_CREDS as u64), ..crashed() }.has_creds());
}

#[test]
fn root_dump_takes_priority() {
    let with = |m: u32| PidfdInfo { coredump_mask: m, ..PidfdInfo::default() }.dumpable();
    assert_eq!(with(0), 0);
    assert_eq!(with(1 | 2), 0);
    assert_eq!(with(4), 1);
    assert_eq!(with(8), 2);
    assert_eq!(with(4 | 8), 2);
}

#[test]
fn request_asks_for_exit_and_coredump_information() {
    let r = PidfdInfo::request();
    assert_eq!(r, PidfdInfo { mask: libc::PIDFD_INFO_EXIT as u64 | 16, ..PidfdInfo::default() });
    assert!(!r.is_coredump() && !r.has_creds());
}

#[test]
fn ioctl_number() {
    assert_eq!(pidfd_get_info_number(), 0xC048FF0B);
    assert_eq!(iowr(64, 0xFF, 11), 0xC040FF0B);
}

#[test]
fn connections_are_judged() {
    assert_eq!(judge_connection(&crashed()), Admission::Admitted);
    assert_eq!(judge_connection(&PidfdInfo { mask: 16, ..crashed() }), Admission::WithoutCreds);
    assert_eq!(judge_connection(&PidfdInfo { mask: 2, ..crashed() }), Admission::Rejected);
    assert_eq!(judge_connection(&PidfdInfo::request()), Admission::Rejected);
}

#[test]
fn socket_report_has_credentials_only_if_known() {
    let r = socket_metadata(&crashed(), 77, "h".to_string(), "/x".to_string());
    assert_eq!((r.pid, r.uid, r.gid, r.signal), (321, Some(1000), Some(100), 6));
    assert_eq!((r.timestamp, r.core_limit, r.dumpable), (77, 0, 1));
    assert_eq!((r.hostname.as_str(), r.exe_path.as_str()), ("h", "/x"));
    assert_eq!(r.argv_parse_error, None);
    let gone = PidfdInfo { mask: 16, ruid: 0, rgid: 0, ..crashed() };
    let r = socket_metadata(&gone, 77, String::new(), String::new());
    assert_eq!((r.uid, r.gid), (None, None));
}

#[test]
fn peer_pidfd_is_checked() {
    assert_eq!(get_peer_pidfd(0, 4, 9), Ok(9));
    assert_eq!(get_peer_pidfd(0, 4, 0), Ok(0));
    assert_eq!(get_peer_pidfd(-1, 4, 9), Err(PeerPidfdError::Os));
    assert_eq!(get_peer_pidfd(0, 2, 9), Err(PeerPidfdError::Truncated));
    assert_eq!(get_peer_pidfd(0, 4, -1), Err(PeerPidfdError::Negative));
    assert_eq!(PeerPidfdError::Os.message(), None);
    assert_eq!(
        PeerPidfdError::Truncated.message(),
        Some("SO_PEERPIDFD returned truncated length".to_string())
    );
    assert_eq!(
        PeerPidfdError::Negative.message(),
        Some("SO_PEERPIDFD returned negative pidfd".to_string())
    );
}

#[test]
fn kernel_versions() {
    for ok in ["6.16.0\n", "6.16.1-arch1-1\n", "6.17-rc1\n", "6.100.1", "7.0.0", "10-1", "+6.16.0"] {
        assert_eq!(check_kernel_version(ok), Ok(()), "{}", ok);
    }
    for old in ["6.15.9\n", "5.99.1", "6.0.0", "0.0.0"] {
        assert_eq!(check_kernel_version(old), Err(KernelError::Unsupported), "{}", old);
    }
    for bad in ["", "\n", "x.1", "-6.16", "4294967296.1", " 6.16.0", "7\n"] {
        assert_eq!(check_kernel_version(bad), Err(KernelError::Major), "{}", bad);
    }
    for bad in ["6", "6.", "6.x", "6.16\n", "7..1", "6.99999999999"] {
        assert_eq!(check_kernel_version(bad), Err(KernelError::Minor), "{}", bad);
    }
}

#[test]
fn kernel_messages() {
    assert_eq!(
        KernelError::Unsupported.message("6.1.0-deb\n"),
        "kernel 6.1.0-deb does not support coredump sockets; Linux 6.16+ required"
    );
    assert_eq!(KernelError::Major.message("x"), "failed to parse kernel major version");
    assert_eq!(KernelError::Minor.message("6"), "failed to parse kernel minor version");
}

#[test]
fn permissions_are_exact() {
    assert_eq!(verify_perms("/run/vdr", 0o700, "directory", 0o040700, 0, 0), Ok(()));
    let wrong = verify_perms("/run/vdr/coredump.sock", 0o600, "socket", 0o140666, 0, 0);
    assert_eq!(
        wrong,
        Err("socket /run/vdr/coredump.sock has mode 666, owner 0:0, expected 600 root:root"
            .to_string())
    );
    assert_eq!(
        verify_perms("/d", 0o700, "directory", 0o040700, 1000, 7),
        Err("directory /d has mode 700, owner 1000:7, expected 700 root:root".to_string())
    );
    assert!(verify_perms("/d", 0o700, "directory", 0o040700, 0, 1).is_err());
    assert!(verify_perms("/d", 0o700, "directory", 0o040500, 0, 0).is_err());
}

#[test]
fn socket_is_for_root_only() {
    assert_eq!((SOCKET_DIR, SOCKET_DIR_MODE), ("/run/vdr", 0o700));
    assert_eq!((SOCKET_PATH, SOCKET_MODE), ("/run/vdr/coredump.sock", 0o600));
    assert!(verify_perms(SOCKET_PATH, SOCKET_MODE, "socket", 0o140600, 0, 0).is_ok());
    assert!(verify_perms(SOCKET_PATH, SOCKET_MODE, "socket", 0o140660, 0, 0).is_err());
    assert!(verify_perms(SOCKET_DIR, SOCKET_DIR_MODE, "directory", 0o040755, 0, 0).is_err());
}

fn reached(replies: &[ConnectionReply]) -> ConnectionStage {
    replies.iter().fold(ConnectionStage::GetPidfd, |s, r| s.next(*r))
}

const PEER: ConnectionReply = ConnectionReply::PeerPidfd { ret: 0, len: 4, pidfd: 7 };

fn told(info: PidfdInfo) -> ConnectionReply {
    ConnectionReply::Info { ret: 0, info }
}

#[test]
fn crashing_task_is_served() {
    assert_eq!(reached(&[]), ConnectionStage::GetPidfd);
    assert_eq!(reached(&[PEER]), ConnectionStage::GetInfo { pidfd: 7 });
    let admitted = ConnectionStage::Store { info: crashed(), admission: Admission::Admitted };
    assert_eq!(reached(&[PEER, told(crashed())]), admitted);
    let reaped = PidfdInfo { mask: 16, ..crashed() };
    let without = ConnectionStage::Store { info: reaped, admission: Admission::WithoutCreds };
    assert_eq!(reached(&[PEER, told(reaped)]), without);
    let served = [PEER, told(crashed()), ConnectionReply::Recorded];
    assert_eq!(reached(&served), ConnectionStage::Served);
    assert_eq!(ConnectionStage::Served.next(PEER), ConnectionStage::Served);
}

#[test]
fn unauthenticated_connections_are_dropped() {
    let no_pidfd = |e| ConnectionStage::Dropped(Refusal::NoPidfd(e));
    let os = ConnectionReply::PeerPidfd { ret: -1, len: 4, pidfd: 7 };
    let short = ConnectionReply::PeerPidfd { ret: 0, len: 2, pidfd: 7 };
    let negative = ConnectionReply::PeerPidfd { ret: 0, len: 4, pidfd: -1 };
    assert_eq!(reached(&[os]), no_pidfd(PeerPidfdError::Os));
    assert_eq!(reached(&[short]), no_pidfd(PeerPidfdError::Truncated));
    assert_eq!(reached(&[negative]), no_pidfd(PeerPidfdError::Negative));
    assert_eq!(reached(&[told(crashed())]), no_pidfd(PeerPidfdError::Os));
    assert_eq!(reached(&[ConnectionReply::Recorded]), no_pidfd(PeerPidfdError::Os));

    let no_info = ConnectionStage::Dropped(Refusal::NoInfo);
    assert_eq!(reached(&[PEER, ConnectionReply::Info { ret: -1, info: crashed() }]), no_info);
    assert_eq!(reached(&[PEER, PEER]), no_info);

    let alive = PidfdInfo { coredump_mask: 4, ..crashed() };
    let refused = ConnectionStage::Dropped(Refusal::NotCrashing(alive));
    assert_eq!(reached(&[PEER, told(alive)]), refused);
    assert_eq!(reached(&[PEER, told(alive), PEER, told(crashed())]), refused);
    assert_eq!(reached(&[negative, told(crashed())]), no_pidfd(PeerPidfdError::Negative));
}

#[test]
fn listener_must_be_claimed_for_this_process() {
    let begin = ListenStage::begin;
    assert_eq!(begin(Some("42"), 42, Some("1")), ListenStage::QueryType);
    assert_eq!(begin(Some("+42"), 42, Some("01")), ListenStage::QueryType);
    assert_eq!(begin(None, 42, Some("1")), ListenStage::NotOurs);
    assert_eq!(begin(Some("41"), 42, Some("1")), ListenStage::NotOurs);
    assert_eq!(begin(Some("42x"), 42, Some("1")), ListenStage::NotOurs);
    assert_eq!(begin(Some("42"), 42, None), ListenStage::NotOurs);
    assert_eq!(begin(Some("42"), 42, Some("2")), ListenStage::NotOurs);
    assert_eq!(begin(Some("42"), 42, Some("-1")), ListenStage::NotOurs);
}

#[test]
fn listener_is_taken_over_step_by_step() {
    let s = ListenStage::QueryType;
    assert_eq!(s.next(ListenReply::OtherType), ListenStage::NotOurs);
    assert_eq!(s.next(ListenReply::Failed), ListenStage::Failed);
    let s = s.next(ListenReply::Stream);
    assert_eq!(s, ListenStage::SetCloexec);
    assert_eq!(s.next(ListenReply::Failed), ListenStage::Failed);
    let s = s.next(ListenReply::Done);
    assert_eq!(s, ListenStage::ClearEnv);
    let s = s.next(ListenReply::Done);
    assert_eq!(s, ListenStage::Ready);
    assert_eq!(ListenStage::NotOurs.next(ListenReply::Stream), ListenStage::NotOurs);
}

#[test]
fn markers_are_unset_once_the_socket_is_checked() {
    let names = ["LISTEN_PID", "LISTEN_FDS", "LISTEN_PIDFDID", "LISTEN_FDNAMES"];
    assert_eq!(markers(), names);
    assert_eq!(ListenStage::ClearEnv.unset_names(), names);
    for s in [
        ListenStage::QueryType,
        ListenStage::SetCloexec,
        ListenStage::Ready,
        ListenStage::NotOurs,
        ListenStage::Failed,
    ] {
        assert!(s.unset_names().is_empty());
    }
}

#[test]
fn socket_is_handed_out_once() {
    let mut env: Vec<(&str, &str)> =
        vec![("LISTEN_PID", "42"), ("PATH", "/bin"), ("LISTEN_FDS", "1"), ("LISTEN_FDNAMES", "x")];
    let value = |env: &Vec<(&'static str, &'static str)>, name: &str| {
        env.iter().find(|v| v.0 == name).map(|v| v.1)
    };
    let mut s = ListenStage::begin(value(&env, "LISTEN_PID"), 42, value(&env, "LISTEN_FDS"));
    for reply in [ListenReply::Stream, ListenReply::Done, ListenReply::Done] {
        let names = s.unset_names();
        env.retain(|v| !names.contains(&v.0));
        s = s.next(reply);
    }
    assert_eq!(s, ListenStage::Ready);
    assert_eq!(env, [("PATH", "/bin")]);
    env.push(("LISTEN_FDS", "1"));
    let again = ListenStage::begin(value(&env, "LISTEN_PID"), 42, value(&env, "LISTEN_FDS"));
    assert_eq!(again, ListenStage::NotOurs);
}

#[test]
fn socket_type_is_checked() {
    let stream = libc::SOCK_STREAM;
    assert_eq!(is_stream_socket(0, stream, stream), ListenReply::Stream);
    assert_eq!(is_stream_socket(0, libc::SOCK_DGRAM, stream), ListenReply::OtherType);
    assert_eq!(is_stream_socket(-1, stream, stream), ListenReply::Failed);
}
