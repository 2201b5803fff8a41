//! What the kernel says about the peer of a coredump connection.
use vstd::prelude::*;

use crate::metadata::CrashReport;

verus! {

/// `pidfd_info.mask`: the credentials are there, because the task was still alive.
pub const PIDFD_INFO_CREDS: u64 = 2;

/// `pidfd_info.mask`: exit information, which also avoids an error for a reaped task.
pub const PIDFD_INFO_EXIT: u64 = 8;

/// `pidfd_info.mask`: coredump information.
pub const PIDFD_INFO_COREDUMP: u64 = 16;

/// `pidfd_info.coredump_mask`: the task dumped core.
pub const PIDFD_COREDUMPED: u32 = 1;

/// `pidfd_info.coredump_mask`: the dump is an ordinary user's.
pub const PIDFD_COREDUMP_USER: u32 = 4;

/// `pidfd_info.coredump_mask`: the dump is sensitive.
pub const PIDFD_COREDUMP_ROOT: u32 = 8;

/// Size in bytes of the kernel's `struct pidfd_info` up to `coredump_signal`.
pub const PIDFD_INFO_SIZE: u64 = 72;

/// Size in bytes of a descriptor number.
pub const FD_SIZE: u32 = 4;

/// The constant `libc::PIDFD_INFO_CREDS`, the second bit.
#[verifier::external_body]
fn libc_pidfd_info_creds() -> (r: u64)
    ensures
        r == PIDFD_INFO_CREDS,
{
    libc::PIDFD_INFO_CREDS as u64
}

/// The constant `libc::PIDFD_INFO_EXIT`, the fourth bit.
#[verifier::external_body]
fn libc_pidfd_info_exit() -> (r: u64)
    ensures
        r == PIDFD_INFO_EXIT,
{
    libc::PIDFD_INFO_EXIT as u64
}

/// Subset of the kernel's `struct pidfd_info`, up to `coredump_signal`.
#[derive(Debug, Clone, Copy, PartialEq, Eq, Structural)]
pub struct PidfdInfo {
    pub mask: u64,
    pub cgroupid: u64,
    pub pid: u32,
    pub tgid: u32,
    pub ppid: u32,
    pub ruid: u32,
    pub rgid: u32,
    pub euid: u32,
    pub egid: u32,
    pub suid: u32,
    pub sgid: u32,
    pub fsuid: u32,
    pub fsgid: u32,
    pub exit_code: i32,
    pub coredump_mask: u32,
    pub coredump_signal: u32,
}

/// The information of which every field is zero.
pub open spec fn zero_info() -> PidfdInfo {
    PidfdInfo {
        mask: 0,
        cgroupid: 0,
        pid: 0,
        tgid: 0,
        ppid: 0,
        ruid: 0,
        rgid: 0,
        euid: 0,
        egid: 0,
        suid: 0,
        sgid: 0,
        fsuid: 0,
        fsgid: 0,
        exit_code: 0,
        coredump_mask: 0,
        coredump_signal: 0,
    }
}

impl Default for PidfdInfo {
    fn default() -> (r: Self)
        ensures
            r == zero_info(),
    {
        PidfdInfo {
            mask: 0,
            cgroupid: 0,
            pid: 0,
            tgid: 0,
            ppid: 0,
            ruid: 0,
            rgid: 0,
            euid: 0,
            egid: 0,
            suid: 0,
            sgid: 0,
            fsuid: 0,
            fsgid: 0,
            exit_code: 0,
            coredump_mask: 0,
            coredump_signal: 0,
        }
    }
}

impl PidfdInfo {
    /// The kernel filled in the coredump information, and the task dumped core.
    pub open spec fn dumped_core(self) -> bool {
        self.mask & PIDFD_INFO_COREDUMP != 0 && self.coredump_mask & PIDFD_COREDUMPED != 0
    }

    /// The kernel filled in the credentials.
    pub open spec fn credentialed(self) -> bool {
        self.mask & PIDFD_INFO_CREDS != 0
    }

    /// The dump is sensitive.
    pub open spec fn root_dump(self) -> bool {
        self.coredump_mask & PIDFD_COREDUMP_ROOT != 0
    }

    /// The dump is an ordinary user's.
    pub open spec fn user_dump(self) -> bool {
        self.coredump_mask & PIDFD_COREDUMP_USER != 0
    }

    /// The dumpable value that the pipe mode would have been given.
    pub open spec fn dumpable_value(self) -> u32 {
        if self.root_dump() {
            2
        } else if self.user_dump() {
            1
        } else {
            0
        }
    }

    /// The real UID, where the kernel gave it.
    pub open spec fn known_uid(self) -> Option<u32> {
        if self.credentialed() {
            Some(self.ruid)
        } else {
            None
        }
    }

    /// The real GID, where the kernel gave it.
    pub open spec fn known_gid(self) -> Option<u32> {
        if self.credentialed() {
            Some(self.rgid)
        } else {
            None
        }
    }

    /// The information as it is handed to the kernel: exit and coredump information are
    /// asked for, and everything else is zero.
    pub fn request() -> (r: PidfdInfo)
        ensures
            r == (PidfdInfo { mask: PIDFD_INFO_EXIT | PIDFD_INFO_COREDUMP, ..zero_info() }),
    {
        let mut r = PidfdInfo::default();
        r.mask = libc_pidfd_info_exit() | PIDFD_INFO_COREDUMP;
        r
    }

    /// Whether the pidfd belongs to a task that triggered a core dump.
    ///
    /// A connection that fails this check is not from a crashing task and is to be rejected.
    pub fn is_coredump(&self) -> (r: bool)
        ensures
            r == self.dumped_core(),
    {
        (self.mask & PIDFD_INFO_COREDUMP) != 0 && (self.coredump_mask & PIDFD_COREDUMPED) != 0
    }

    /// Whether credentials are available. They are gone once the task was reaped.
    pub fn has_creds(&self) -> (r: bool)
        ensures
            r == self.credentialed(),
    {
        (self.mask & libc_pidfd_info_creds()) != 0
    }

    /// The dumpable value that the pipe mode would have been given: 2 for a sensitive dump,
    /// whatever else is set, 1 for a user's dump, 0 otherwise.
    pub fn dumpable(&self) -> (r: u32)
        ensures
            r == if self.root_dump() {
                2u32
            } else if self.user_dump() {
                1
            } else {
                0
            },
            r == self.dumpable_value(),
    {
        if (self.coredump_mask & PIDFD_COREDUMP_ROOT) != 0 {
            2
        } else if (self.coredump_mask & PIDFD_COREDUMP_USER) != 0 {
            1
        } else {
            0
        }
    }
}

/// The number of an `_IOWR` ioctl: direction, size of the argument, type and number.
pub fn iowr(size: u64, magic: u64, nr: u64) -> (r: u64)
    ensures
        r == (3u64 << 30) | (size << 16) | (magic << 8) | nr,
{
    (3u64 << 30) | (size << 16) | (magic << 8) | nr
}

/// The number of the ioctl `PIDFD_GET_INFO` for the information up to `coredump_signal`.
pub fn pidfd_get_info_number() -> (r: u64)
    ensures
        r == 0xC048_FF0B,
{
    assert((3u64 << 30) | (72u64 << 16) | (0xFFu64 << 8) | 11u64 == 0xC048_FF0B) by (bit_vector);
    iowr(PIDFD_INFO_SIZE, 0xFF, 11)
}

/// Why no descriptor of the peer was obtained.
#[derive(Debug, Clone, Copy, PartialEq, Eq, Structural)]
pub enum PeerPidfdError {
    /// The system call failed.
    Os,
    /// The system call returned less than a descriptor.
    Truncated,
    /// The system call returned no descriptor.
    Negative,
}

/// The descriptor that `getsockopt(SO_PEERPIDFD)` gave, or why there is none.
pub open spec fn peer_pidfd(ret: i32, len: u32, pidfd: i32) -> Result<i32, PeerPidfdError> {
    if ret != 0 {
        Err(PeerPidfdError::Os)
    } else if len != FD_SIZE {
        Err(PeerPidfdError::Truncated)
    } else if pidfd < 0 {
        Err(PeerPidfdError::Negative)
    } else {
        Ok(pidfd)
    }
}

/// Decides what `getsockopt(SO_PEERPIDFD)` gave: its return value, the length that it wrote,
/// and the descriptor.
pub fn get_peer_pidfd(ret: i32, len: u32, pidfd: i32) -> (r: Result<i32, PeerPidfdError>)
    ensures
        r == peer_pidfd(ret, len, pidfd),
{
    if ret != 0 {
        return Err(PeerPidfdError::Os);
    }
    if len != FD_SIZE {
        return Err(PeerPidfdError::Truncated);
    }
    if pidfd < 0 {
        return Err(PeerPidfdError::Negative);
    }
    Ok(pidfd)
}

impl PeerPidfdError {
    /// What is said of a reply that is no descriptor; a failed system call speaks for itself.
    pub fn message(self) -> (r: Option<String>)
        ensures
            crate::text::text_of(r) == match self {
                PeerPidfdError::Os => None,
                PeerPidfdError::Truncated => Some("SO_PEERPIDFD returned truncated length"@),
                PeerPidfdError::Negative => Some("SO_PEERPIDFD returned negative pidfd"@),
            },
    {
        match self {
            PeerPidfdError::Os => None,
            PeerPidfdError::Truncated => Some("SO_PEERPIDFD returned truncated length".to_owned()),
            PeerPidfdError::Negative => Some("SO_PEERPIDFD returned negative pidfd".to_owned()),
        }
    }
}

/// What becomes of a connection.
#[derive(Debug, Clone, Copy, PartialEq, Eq, Structural)]
pub enum Admission {
    /// The peer is no crashing task: drop the connection.
    Rejected,
    /// The crashing task was already reaped: store the dump without credentials.
    WithoutCreds,
    /// Store the dump.
    Admitted,
}

/// What becomes of a connection, given what the kernel says of its peer.
pub open spec fn admission(info: PidfdInfo) -> Admission {
    if !info.dumped_core() {
        Admission::Rejected
    } else if !info.credentialed() {
        Admission::WithoutCreds
    } else {
        Admission::Admitted
    }
}

/// Decides what becomes of a connection, given what the kernel says of its peer.
pub fn judge_connection(info: &PidfdInfo) -> (r: Admission)
    ensures
        r == admission(*info),
{
    if !info.is_coredump() {
        Admission::Rejected
    } else if !info.has_creds() {
        Admission::WithoutCreds
    } else {
        Admission::Admitted
    }
}

/// The report of a crash whose dump comes over a connection.
///
/// Credentials that the kernel did not give are unknown; a zero would claim root.
pub fn socket_metadata(info: &PidfdInfo, now: u64, hostname: String, exe_path: String) -> (r:
    CrashReport)
    ensures
        r.pid == info.pid,
        r.uid == if info.credentialed() {
            Some(info.ruid)
        } else {
            None
        },
        r.gid == if info.credentialed() {
            Some(info.rgid)
        } else {
            None
        },
        r.uid == info.known_uid(),
        r.gid == info.known_gid(),
        r.signal == info.coredump_signal,
        r.timestamp == now,
        r.hostname == hostname,
        r.exe_path == exe_path,
        r.core_limit == 0,
        r.dumpable == if info.root_dump() {
            2u32
        } else if info.user_dump() {
            1
        } else {
            0
        },
        r.dumpable == info.dumpable_value(),
        r.argv_parse_error is None,
{
    let known = info.has_creds();
    CrashReport {
        pid: info.pid,
        uid: if known {
            Some(info.ruid)
        } else {
            None
        },
        gid: if known {
            Some(info.rgid)
        } else {
            None
        },
        signal: info.coredump_signal,
        timestamp: now,
        hostname,
        exe_path,
        core_limit: 0,
        dumpable: info.dumpable(),
        argv_parse_error: None,
    }
}

/// What is asked of the kernel is not mistaken for an answer: a request that comes back
/// untouched neither dumped core nor has credentials.
pub proof fn law_untouched_request_is_rejected()
    ensures
        ({
            let r = PidfdInfo { mask: PIDFD_INFO_EXIT | PIDFD_INFO_COREDUMP, ..zero_info() };
            !r.dumped_core() && !r.credentialed()
        }),
{
    assert(0u32 & 1u32 == 0) by (bit_vector);
    assert((8u64 | 16u64) & 2u64 == 0) by (bit_vector);
}

/// A task counts as crashing by bit 4 of the mask and bit 0 of the coredump mask alone, and has
/// credentials by bit 1 of the mask alone: no other bit and no other field matters.
pub proof fn law_flags(i: PidfdInfo)
    ensures
        i.dumped_core() <==> (i.mask / 16) % 2 == 1 && i.coredump_mask % 2 == 1,
        i.credentialed() <==> (i.mask / 2) % 2 == 1,
        i.root_dump() <==> (i.coredump_mask / 8) % 2 == 1,
        i.user_dump() <==> (i.coredump_mask / 4) % 2 == 1,
{
    let (m, c) = (i.mask, i.coredump_mask);
    assert((m & 16u64 != 0) <==> (m / 16) % 2 == 1) by (bit_vector);
    assert((m & 2u64 != 0) <==> (m / 2) % 2 == 1) by (bit_vector);
    assert((c & 1u32 != 0) <==> c % 2 == 1) by (bit_vector);
    assert((c & 8u32 != 0) <==> (c / 8) % 2 == 1) by (bit_vector);
    assert((c & 4u32 != 0) <==> (c / 4) % 2 == 1) by (bit_vector);
}

/// Two answers of the kernel that agree in the two flags of a crash, and differ in whatever
/// else, are judged alike but for the credentials.
pub proof fn law_only_flags_decide(a: PidfdInfo, b: PidfdInfo)
    requires
        (a.mask / 16) % 2 == (b.mask / 16) % 2,
        a.coredump_mask % 2 == b.coredump_mask % 2,
    ensures
        a.dumped_core() == b.dumped_core(),
        admission(a) is Rejected <==> admission(b) is Rejected,
        (a.mask / 2) % 2 == (b.mask / 2) % 2 ==> admission(a) == admission(b),
{
    law_flags(a);
    law_flags(b);
}

/// A crashing task is admitted, with credentials where the kernel gave them and without them
/// where not; any other is rejected.
pub proof fn law_admission(i: PidfdInfo)
    ensures
        admission(i) is Rejected <==> !((i.mask / 16) % 2 == 1 && i.coredump_mask % 2 == 1),
        admission(i) is Admitted <==> (i.mask / 16) % 2 == 1 && i.coredump_mask % 2 == 1 && (
        i.mask / 2) % 2 == 1,
{
    law_flags(i);
}

/// A descriptor of the peer was obtained exactly if the call succeeded, wrote four bytes, and
/// wrote no negative number; the first of these that fails is the reason.
pub proof fn law_peer_pidfd(ret: i32, len: u32, pidfd: i32)
    ensures
        ret == 0 && len == 4 && pidfd >= 0 ==> peer_pidfd(ret, len, pidfd) == Ok::<
            i32,
            PeerPidfdError,
        >(pidfd),
        ret != 0 <==> peer_pidfd(ret, len, pidfd) == Err::<i32, PeerPidfdError>(PeerPidfdError::Os),
        ret == 0 && len != 4 <==> peer_pidfd(ret, len, pidfd) == Err::<i32, PeerPidfdError>(
            PeerPidfdError::Truncated,
        ),
        ret == 0 && len == 4 && pidfd < 0 <==> peer_pidfd(ret, len, pidfd) == Err::<
            i32,
            PeerPidfdError,
        >(PeerPidfdError::Negative),
{
}

/// A dump counts as sensitive by bit 3 of the coredump mask, whatever else is set, and else as
/// an ordinary user's by bit 2. The credentials are the real ones, and only those that the
/// kernel gave.
pub proof fn law_sensitivity_and_credentials(i: PidfdInfo)
    ensures
        i.dumpable_value() == 2 <==> (i.coredump_mask / 8) % 2 == 1,
        i.dumpable_value() == 1 <==> (i.coredump_mask / 8) % 2 == 0 && (i.coredump_mask / 4) % 2
            == 1,
        i.dumpable_value() <= 2,
        (i.mask / 2) % 2 == 1 ==> i.known_uid() == Some(i.ruid) && i.known_gid() == Some(i.rgid),
        (i.mask / 2) % 2 == 0 ==> i.known_uid() is None && i.known_gid() is None,
{
    law_flags(i);
}

} // verus!
