//! What must hold before the socket daemon serves: the kernel, the socket it was handed, and
//! the permissions around it.
use vstd::prelude::*;

use crate::number;
use crate::text;

verus! {

/// First kernel with coredump sockets: major version.
pub const MIN_MAJOR: u32 = 6;

/// First kernel with coredump sockets: minor version.
pub const MIN_MINOR: u32 = 16;

/// The directory of the coredump socket.
pub const SOCKET_DIR: &'static str = "/run/vdr";

/// The coredump socket.
pub const SOCKET_PATH: &'static str = "/run/vdr/coredump.sock";

/// Permissions that the socket's directory must have: its owner only.
pub const SOCKET_DIR_MODE: u32 = 0o700;

/// Permissions that the socket must have: its owner only.
pub const SOCKET_MODE: u32 = 0o600;

/// The descriptor that a service manager hands over first.
pub const LISTEN_FDS_START: i32 = 3;

/// The variable that names the process that a socket was handed to.
pub const LISTEN_PID: &'static str = "LISTEN_PID";

/// The variable that says how many sockets were handed over.
pub const LISTEN_FDS: &'static str = "LISTEN_FDS";

/// The variable that identifies the process by its pidfd.
pub const LISTEN_PIDFDID: &'static str = "LISTEN_PIDFDID";

/// The variable that names the sockets that were handed over.
pub const LISTEN_FDNAMES: &'static str = "LISTEN_FDNAMES";

/// Why a kernel is not good enough.
#[derive(Debug, Clone, Copy, PartialEq, Eq, Structural)]
pub enum KernelError {
    /// The release does not begin with a number.
    Major,
    /// The release has no number in second place.
    Minor,
    /// The release is too old.
    Unsupported,
}

/// The characters that separate the parts of a kernel release.
pub open spec fn is_separator(c: char) -> bool {
    c == '.' || c == '-'
}

/// Where the part that begins at `from` ends.
pub open spec fn part_end(s: Seq<char>, from: int) -> int
    decreases s.len() - from,
{
    if from < 0 || from >= s.len() || is_separator(s[from]) {
        from
    } else {
        part_end(s, from + 1)
    }
}

/// The number that stands in the first part of a kernel release.
pub open spec fn release_major(s: Seq<char>) -> Option<nat> {
    number::parsed_unsigned(s.take(part_end(s, 0)), 0xffff_ffff)
}

/// The number that stands in the second part of a kernel release.
pub open spec fn release_minor(s: Seq<char>) -> Option<nat> {
    let end = part_end(s, 0);
    if end < s.len() {
        number::parsed_unsigned(s.subrange(end + 1, part_end(s, end + 1)), 0xffff_ffff)
    } else {
        None
    }
}

/// Whether a kernel has coredump sockets.
pub open spec fn supported(major: nat, minor: nat) -> bool {
    major > MIN_MAJOR || (major == MIN_MAJOR && minor >= MIN_MINOR)
}

/// Whether a kernel release is good enough, or why not.
pub open spec fn release_verdict(s: Seq<char>) -> Result<(), KernelError> {
    match release_major(s) {
        None => Err(KernelError::Major),
        Some(major) => match release_minor(s) {
            None => Err(KernelError::Minor),
            Some(minor) => if supported(major, minor) {
                Ok(())
            } else {
                Err(KernelError::Unsupported)
            },
        },
    }
}

/// Finds where the part that begins at `from` ends, and its text.
fn part(v: &Vec<char>, from: usize) -> (r: (usize, String))
    requires
        from <= v@.len(),
    ensures
        from <= r.0 <= v@.len(),
        r.0 == part_end(v@, from as int),
        r.1@ == v@.subrange(from as int, r.0 as int),
{
    let mut end = from;
    let mut s = String::new();
    while end < v.len() && v[end] != '.' && v[end] != '-'
        invariant
            from <= end <= v@.len(),
            part_end(v@, from as int) == part_end(v@, end as int),
            s@ == v@.subrange(from as int, end as int),
        decreases v@.len() - end,
    {
        s.push(v[end]);
        end += 1;
    }
    (end, s)
}

/// Checks that a kernel release has coredump sockets.
pub fn check_kernel_version(release: &str) -> (r: Result<(), KernelError>)
    ensures
        r == release_verdict(release@),
{
    let v = text::chars_of(release);
    let (end, first) = part(&v, 0);
    assert(v@.subrange(0, end as int) == v@.take(end as int));
    let major = match number::parse_u32(first.as_str()) {
        Some(major) => major,
        None => return Err(KernelError::Major),
    };
    if end >= v.len() {
        return Err(KernelError::Minor);
    }
    let (_, second) = part(&v, end + 1);
    let minor = match number::parse_u32(second.as_str()) {
        Some(minor) => minor,
        None => return Err(KernelError::Minor),
    };
    if major < MIN_MAJOR || (major == MIN_MAJOR && minor < MIN_MINOR) {
        Err(KernelError::Unsupported)
    } else {
        Ok(())
    }
}

impl KernelError {
    /// What is said of the kernel release.
    pub open spec fn text(self, release: Seq<char>) -> Seq<char> {
        match self {
            KernelError::Major => "failed to parse kernel major version"@,
            KernelError::Minor => "failed to parse kernel minor version"@,
            KernelError::Unsupported => "kernel "@ + text::trimmed(release)
                + " does not support coredump sockets; Linux 6.16+ required"@,
        }
    }

    /// What is said of the kernel release.
    pub fn message(self, release: &str) -> (r: String)
        ensures
            r@ == self.text(release@),
    {
        match self {
            KernelError::Major => "failed to parse kernel major version".to_owned(),
            KernelError::Minor => "failed to parse kernel minor version".to_owned(),
            KernelError::Unsupported => "kernel ".to_owned().concat(
                text::trim(release).as_str(),
            ).concat(" does not support coredump sockets; Linux 6.16+ required"),
        }
    }
}

/// What is said of a path with the wrong mode or owner.
pub open spec fn perms_text(
    path: Seq<char>,
    expected: nat,
    kind: Seq<char>,
    mode: nat,
    uid: nat,
    gid: nat,
) -> Seq<char> {
    kind + " "@ + path + " has mode "@ + number::digits(mode, 8) + ", owner "@ + number::decimal(
        uid,
    ) + ":"@ + number::decimal(gid) + ", expected "@ + number::digits(expected, 8) + " root:root"@
}

/// Whether a path is owned by root:root and has exactly the expected permission bits.
pub open spec fn perms_hold(st_mode: u32, expected: u32, uid: u32, gid: u32) -> bool {
    st_mode & 0o777 == expected && uid == 0 && gid == 0
}

/// Checks that a path is owned by root:root and has exactly the expected permission bits.
///
/// `st_mode`, `uid` and `gid` are what the file system says of the path.
pub fn verify_perms(
    path: &str,
    expected: u32,
    kind: &str,
    st_mode: u32,
    uid: u32,
    gid: u32,
) -> (r: Result<(), String>)
    ensures
        r is Ok <==> st_mode & 0o777 == expected && uid == 0 && gid == 0,
        r is Ok <==> perms_hold(st_mode, expected, uid, gid),
        r matches Err(message) ==> message@ == perms_text(
            path@,
            expected as nat,
            kind@,
            (st_mode & 0o777) as nat,
            uid as nat,
            gid as nat,
        ),
{
    let mode = st_mode & 0o777;
    if mode == expected && uid == 0 && gid == 0 {
        return Ok(());
    }
    let mut m = kind.to_owned();
    m.append(" ");
    m.append(path);
    m.append(" has mode ");
    number::push_digits(&mut m, mode as u64, 8);
    m.append(", owner ");
    number::push_digits(&mut m, uid as u64, 10);
    m.append(":");
    number::push_digits(&mut m, gid as u64, 10);
    m.append(", expected ");
    number::push_digits(&mut m, expected as u64, 8);
    m.append(" root:root");
    Err(m)
}

/// The optional text that an optional string slice holds.
pub open spec fn str_text(s: Option<&str>) -> Option<Seq<char>> {
    match s {
        Some(s) => Some(s@),
        None => None,
    }
}

/// Whether the environment says that exactly one socket was handed to this very process.
pub open spec fn listener_claimed(
    listen_pid: Option<Seq<char>>,
    own_pid: u32,
    listen_fds: Option<Seq<char>>,
) -> bool {
    &&& listen_pid matches Some(s) && number::parsed_unsigned(s, 0xffff_ffff) == Some(
        own_pid as nat,
    )
    &&& listen_fds matches Some(s) && number::parsed_i32(s) == Some(1int)
}

/// The variables that mark a handed over socket.
pub open spec fn marker_names() -> Seq<Seq<char>> {
    seq![LISTEN_PID@, LISTEN_FDS@, LISTEN_PIDFDID@, LISTEN_FDNAMES@]
}

/// The texts that a sequence of string slices holds, position by position.
pub open spec fn texts(names: Seq<&'static str>) -> Seq<Seq<char>> {
    names.map_values(|name: &'static str| name@)
}

/// An environment without the given variables, and otherwise as it was.
pub open spec fn unset(
    env: Map<Seq<char>, Seq<char>>,
    names: Seq<Seq<char>>,
) -> Map<Seq<char>, Seq<char>> {
    env.remove_keys(names.to_set())
}

/// The value of a variable, if it is set.
pub open spec fn value_of(env: Map<Seq<char>, Seq<char>>, name: Seq<char>) -> Option<Seq<char>> {
    if env.contains_key(name) {
        Some(env[name])
    } else {
        None
    }
}

/// Where the takeover of the listening socket stands.
#[derive(Debug, Clone, Copy, PartialEq, Eq, Structural)]
pub enum ListenStage {
    /// Take the descriptor, and ask for its socket type.
    QueryType,
    /// Keep the descriptor from child processes.
    SetCloexec,
    /// Remove the markers from the environment.
    ClearEnv,
    /// The socket is ours.
    Ready,
    /// No socket was handed to this process.
    NotOurs,
    /// A system call failed.
    Failed,
}

/// How a step of the takeover went.
#[derive(Debug, Clone, Copy, PartialEq, Eq, Structural)]
pub enum ListenReply {
    /// The descriptor is a stream socket.
    Stream,
    /// The descriptor is a socket of another type.
    OtherType,
    /// The step succeeded.
    Done,
    /// The step failed.
    Failed,
}

impl ListenStage {
    /// The stage after the reply.
    pub open spec fn after(self, reply: ListenReply) -> ListenStage {
        match (self, reply) {
            (ListenStage::QueryType, ListenReply::Stream) => ListenStage::SetCloexec,
            (ListenStage::QueryType, ListenReply::OtherType) => ListenStage::NotOurs,
            (ListenStage::QueryType, _) => ListenStage::Failed,
            (ListenStage::SetCloexec, ListenReply::Done) => ListenStage::ClearEnv,
            (ListenStage::SetCloexec, _) => ListenStage::Failed,
            (ListenStage::ClearEnv, _) => ListenStage::Ready,
            _ => self,
        }
    }

    /// The stage that the takeover begins with, given the values of `LISTEN_PID` and
    /// `LISTEN_FDS` where they are set.
    pub open spec fn begun(
        listen_pid: Option<Seq<char>>,
        own_pid: u32,
        listen_fds: Option<Seq<char>>,
    ) -> ListenStage {
        if listener_claimed(listen_pid, own_pid, listen_fds) {
            ListenStage::QueryType
        } else {
            ListenStage::NotOurs
        }
    }

    /// The stage that the takeover begins with in the given environment.
    pub open spec fn begun_in(env: Map<Seq<char>, Seq<char>>, own_pid: u32) -> ListenStage {
        Self::begun(value_of(env, LISTEN_PID@), own_pid, value_of(env, LISTEN_FDS@))
    }

    /// The variables that are to be removed from the environment at this stage.
    pub open spec fn to_unset(self) -> Seq<Seq<char>> {
        if self is ClearEnv {
            marker_names()
        } else {
            Seq::empty()
        }
    }

    /// The environment after a sequence of replies, each to a stage that was carried out.
    pub open spec fn env_after_all(
        self,
        env: Map<Seq<char>, Seq<char>>,
        replies: Seq<ListenReply>,
    ) -> Map<Seq<char>, Seq<char>>
        decreases replies.len(),
    {
        if replies.len() == 0 {
            env
        } else {
            let init = replies.drop_last();
            unset(self.env_after_all(env, init), self.after_all(init).to_unset())
        }
    }

    /// The stage after a sequence of replies.
    pub open spec fn after_all(self, replies: Seq<ListenReply>) -> ListenStage
        decreases replies.len(),
    {
        if replies.len() == 0 {
            self
        } else {
            self.after_all(replies.drop_last()).after(replies.last())
        }
    }

    /// Begins the takeover of the socket that the environment speaks of.
    ///
    /// The variables are inherited by any child of the service manager, so they are believed
    /// only where they name this process, and exactly one socket.
    pub fn begin(listen_pid: Option<&str>, own_pid: u32, listen_fds: Option<&str>) -> (r:
        ListenStage)
        ensures
            r == Self::begun(str_text(listen_pid), own_pid, str_text(listen_fds)),
    {
        let declared = match listen_pid {
            Some(s) => number::parse_u32(s),
            None => None,
        };
        match declared {
            Some(pid) if pid == own_pid => {},
            _ => return ListenStage::NotOurs,
        }
        let count = match listen_fds {
            Some(s) => number::parse_i32(s),
            None => None,
        };
        match count {
            Some(1) => ListenStage::QueryType,
            _ => ListenStage::NotOurs,
        }
    }

    /// The variables that are to be removed from the environment at this stage: all markers
    /// once the socket has been checked and kept from child processes, and none before or
    /// after. No other variable is to be touched.
    pub fn unset_names(self) -> (r: Vec<&'static str>)
        ensures
            texts(r@) == self.to_unset(),
    {
        match self {
            ListenStage::ClearEnv => markers(),
            _ => Vec::new(),
        }
    }

    /// Takes in how a step of the takeover went.
    pub fn next(self, reply: ListenReply) -> (r: ListenStage)
        ensures
            r == self.after(reply),
    {
        match (self, reply) {
            (ListenStage::QueryType, ListenReply::Stream) => ListenStage::SetCloexec,
            (ListenStage::QueryType, ListenReply::OtherType) => ListenStage::NotOurs,
            (ListenStage::QueryType, _) => ListenStage::Failed,
            (ListenStage::SetCloexec, ListenReply::Done) => ListenStage::ClearEnv,
            (ListenStage::SetCloexec, _) => ListenStage::Failed,
            (ListenStage::ClearEnv, _) => ListenStage::Ready,
            _ => self,
        }
    }
}

/// The variables that mark a handed over socket.
pub fn markers() -> (r: Vec<&'static str>)
    ensures
        texts(r@) == marker_names(),
{
    vec![LISTEN_PID, LISTEN_FDS, LISTEN_PIDFDID, LISTEN_FDNAMES]
}

/// What `getsockopt(SO_TYPE)` gave.
pub open spec fn type_reply(ret: i32, ty: i32, stream: i32) -> ListenReply {
    if ret != 0 {
        ListenReply::Failed
    } else if ty == stream {
        ListenReply::Stream
    } else {
        ListenReply::OtherType
    }
}

/// Decides what `getsockopt(SO_TYPE)` gave: its return value, and the socket type, which is
/// held against the number of stream sockets on this machine.
///
/// A datagram socket would pass the takeover and then fail on every accept.
pub fn is_stream_socket(ret: i32, ty: i32, stream: i32) -> (r: ListenReply)
    ensures
        r == if ret != 0 {
            ListenReply::Failed
        } else if ty == stream {
            ListenReply::Stream
        } else {
            ListenReply::OtherType
        },
        r == type_reply(ret, ty, stream),
{
    if ret != 0 {
        ListenReply::Failed
    } else if ty == stream {
        ListenReply::Stream
    } else {
        ListenReply::OtherType
    }
}

/// A socket is taken over only if it is a stream socket that was kept from child processes;
/// without a claim in the environment there is none.
pub proof fn law_listener_is_checked(claimed: bool, replies: Seq<ListenReply>)
    requires
        (if claimed {
            ListenStage::QueryType
        } else {
            ListenStage::NotOurs
        }).after_all(replies) is Ready,
    ensures
        claimed,
        replies.len() >= 3,
        replies[0] is Stream,
        replies[1] is Done,
{
    let start = if claimed {
        ListenStage::QueryType
    } else {
        ListenStage::NotOurs
    };
    lemma_listen(start, replies);
}

proof fn lemma_listen(start: ListenStage, replies: Seq<ListenReply>)
    requires
        start is QueryType || start is NotOurs,
    ensures
        start is NotOurs ==> start.after_all(replies) is NotOurs,
        start.after_all(replies) is QueryType ==> replies.len() == 0,
        start.after_all(replies) is SetCloexec ==> replies.len() == 1 && replies[0] is Stream,
        start.after_all(replies) is ClearEnv ==> replies.len() == 2 && replies[0] is Stream
            && replies[1] is Done,
        start.after_all(replies) is Ready ==> replies.len() >= 3 && replies[0] is Stream
            && replies[1] is Done,
    decreases replies.len(),
{
    if replies.len() > 0 {
        lemma_listen(start, replies.drop_last());
    }
}

/// A takeover removes the markers once the socket is ours, and nothing else ever; until then,
/// and where the socket is not taken over, the environment stays as it was.
pub proof fn law_takeover_unsets_markers(
    env: Map<Seq<char>, Seq<char>>,
    own_pid: u32,
    replies: Seq<ListenReply>,
)
    ensures
        ({
            let start = ListenStage::begun_in(env, own_pid);
            start.env_after_all(env, replies) == if start.after_all(replies) is Ready {
                unset(env, marker_names())
            } else {
                env
            }
        }),
    decreases replies.len(),
{
    let start = ListenStage::begun_in(env, own_pid);
    if replies.len() > 0 {
        let init = replies.drop_last();
        law_takeover_unsets_markers(env, own_pid, init);
        lemma_listen(start, init);
        assert(forall|e: Map<Seq<char>, Seq<char>>| #[trigger]
            unset(e, Seq::<Seq<char>>::empty()) == e);
    }
}

/// Without `LISTEN_PID` no socket is taken over, whatever else the environment holds.
pub proof fn law_no_takeover_without_pid(
    own_pid: u32,
    listen_fds: Option<Seq<char>>,
    replies: Seq<ListenReply>,
)
    ensures
        ListenStage::begun(None, own_pid, listen_fds) is NotOurs,
        ListenStage::begun(None, own_pid, listen_fds).after_all(replies) is NotOurs,
{
    lemma_listen(ListenStage::NotOurs, replies);
}

/// A socket is handed out once: after a takeover, and as long as nobody sets `LISTEN_PID`
/// again, every further attempt ends without a socket.
pub proof fn law_listener_handed_out_once(
    env: Map<Seq<char>, Seq<char>>,
    own_pid: u32,
    replies: Seq<ListenReply>,
    later: Map<Seq<char>, Seq<char>>,
    later_replies: Seq<ListenReply>,
)
    requires
        ListenStage::begun_in(env, own_pid).after_all(replies) is Ready,
        value_of(later, LISTEN_PID@) == value_of(
            ListenStage::begun_in(env, own_pid).env_after_all(env, replies),
            LISTEN_PID@,
        ),
    ensures
        ListenStage::begun_in(later, own_pid) is NotOurs,
        ListenStage::begun_in(later, own_pid).after_all(later_replies) is NotOurs,
{
    law_takeover_unsets_markers(env, own_pid, replies);
    assert(marker_names()[0] == LISTEN_PID@);
    law_no_takeover_without_pid(own_pid, value_of(later, LISTEN_FDS@), later_replies);
}

/// A kernel that is new enough stays so with every later version.
pub proof fn law_supported_monotone(a: nat, b: nat, c: nat, d: nat)
    requires
        supported(a, b),
        c > a || (c == a && d >= b),
    ensures
        supported(c, d),
{
}

proof fn lemma_part_end(s: Seq<char>, from: int, end: int)
    requires
        0 <= from <= end <= s.len(),
        forall|i: int| from <= i < end ==> #[trigger] s[i] != '.' && s[i] != '-',
        end < s.len() ==> s[end] == '.' || s[end] == '-',
    ensures
        part_end(s, from) == end,
    decreases end - from,
{
    if from < end {
        lemma_part_end(s, from + 1, end);
    }
}

/// A kernel release is judged by the two numbers that it begins with, up to the first and from
/// there to the second dot or dash, and by nothing behind them: it is good enough from 6.16 on.
pub proof fn law_release(major: Seq<char>, sep: char, minor: Seq<char>, rest: Seq<char>)
    requires
        forall|i: int| 0 <= i < major.len() ==> #[trigger] major[i] != '.' && major[i] != '-',
        forall|i: int| 0 <= i < minor.len() ==> #[trigger] minor[i] != '.' && minor[i] != '-',
        sep == '.' || sep == '-',
        rest.len() > 0 ==> rest[0] == '.' || rest[0] == '-',
    ensures
        ({
            let a = number::parsed_unsigned(major, 4294967295);
            let b = number::parsed_unsigned(minor, 4294967295);
            let verdict = release_verdict(major + seq![sep] + minor + rest);
            &&& a is None ==> verdict == Err::<(), KernelError>(KernelError::Major)
            &&& a is Some && b is None ==> verdict == Err::<(), KernelError>(KernelError::Minor)
            &&& a is Some && b is Some ==> {
                let new_enough = a->0 >= 7 || (a->0 == 6 && b->0 >= 16);
                &&& new_enough ==> verdict is Ok
                &&& !new_enough ==> verdict == Err::<(), KernelError>(KernelError::Unsupported)
            }
            &&& a is None ==> release_verdict(major) == Err::<(), KernelError>(KernelError::Major)
            &&& a is Some ==> release_verdict(major) == Err::<(), KernelError>(KernelError::Minor)
        }),
{
    let s = major + seq![sep] + minor + rest;
    let n = major.len() as int;
    let m = n + 1 + minor.len();
    assert forall|i: int| 0 <= i < n implies #[trigger] s[i] != '.' && s[i] != '-' by {
        assert(s[i] == major[i]);
    }
    assert forall|i: int| n + 1 <= i < m implies #[trigger] s[i] != '.' && s[i] != '-' by {
        assert(s[i] == minor[i - n - 1]);
    }
    assert(s[n] == sep);
    assert(m < s.len() ==> s[m] == rest[0]);
    lemma_part_end(s, 0, n);
    lemma_part_end(s, n + 1, m);
    assert(s.take(n) == major);
    assert(s.subrange(n + 1, m) == minor);
    lemma_part_end(major, 0, n);
    assert(major.take(n) == major);
}

/// A socket is claimed exactly if one variable stands for this process, and the other for one.
pub proof fn law_claim(pid: Seq<char>, own_pid: u32, fds: Seq<char>)
    ensures
        ListenStage::begun(Some(pid), own_pid, Some(fds)) is QueryType <==> (
        number::parsed_unsigned(pid, 4294967295) == Some(own_pid as nat) && number::parsed_i32(fds)
            == Some(1int)),
        ListenStage::begun(Some(pid), own_pid, Some(fds)) is QueryType || ListenStage::begun(
            Some(pid),
            own_pid,
            Some(fds),
        ) is NotOurs,
        ListenStage::begun(None, own_pid, Some(fds)) is NotOurs,
        ListenStage::begun(Some(pid), own_pid, None) is NotOurs,
        ListenStage::begun(None, own_pid, None) is NotOurs,
{
}

/// How a takeover goes, in terms of what its steps gave: a stream socket that could be kept
/// from child processes is ours once the environment was cleared, a socket of another type is
/// not ours, and a step that failed ends the takeover.
pub proof fn law_takeover_goes_by_replies(replies: Seq<ListenReply>)
    ensures
        ListenStage::NotOurs.after_all(replies) is NotOurs,
        ({
            let end = ListenStage::QueryType.after_all(replies);
            let n = replies.len();
            &&& n == 0 ==> end is QueryType
            &&& n > 0 && replies[0] is OtherType ==> end is NotOurs
            &&& n > 0 && (replies[0] is Failed || replies[0] is Done) ==> end is Failed
            &&& n > 0 && replies[0] is Stream ==> {
                &&& n == 1 ==> end is SetCloexec
                &&& n > 1 && replies[1] !is Done ==> end is Failed
                &&& n == 2 && replies[1] is Done ==> end is ClearEnv
                &&& n > 2 && replies[1] is Done ==> end is Ready
            }
        }),
    decreases replies.len(),
{
    if replies.len() > 0 {
        law_takeover_goes_by_replies(replies.drop_last());
    }
}

/// After a takeover the four markers are gone, and every other variable is as it was; without
/// one, every variable is.
pub proof fn law_takeover_and_variables(
    env: Map<Seq<char>, Seq<char>>,
    own_pid: u32,
    replies: Seq<ListenReply>,
    name: Seq<char>,
)
    ensures
        ({
            let start = ListenStage::begun_in(env, own_pid);
            let left = start.env_after_all(env, replies);
            let marker = name == "LISTEN_PID"@ || name == "LISTEN_FDS"@ || name
                == "LISTEN_PIDFDID"@ || name == "LISTEN_FDNAMES"@;
            &&& start.after_all(replies) is Ready && marker ==> !left.contains_key(name)
            &&& !(start.after_all(replies) is Ready && marker) ==> {
                &&& left.contains_key(name) <==> env.contains_key(name)
                &&& env.contains_key(name) ==> left[name] == env[name]
            }
        }),
{
    law_takeover_unsets_markers(env, own_pid, replies);
    let m = marker_names();
    assert(m[0] == "LISTEN_PID"@ && m[1] == "LISTEN_FDS"@ && m[2] == "LISTEN_PIDFDID"@ && m[3]
        == "LISTEN_FDNAMES"@);
    if m.contains(name) {
        let i = choose|i: int| 0 <= i < m.len() && m[i] == name;
        assert(i == 0 || i == 1 || i == 2 || i == 3);
    }
}

/// The takeover begins by the values that the two variables have, and are unset where they are
/// not there.
pub proof fn law_begins_by_environment(env: Map<Seq<char>, Seq<char>>, own_pid: u32)
    ensures
        ({
            let pid = "LISTEN_PID"@;
            let fds = "LISTEN_FDS"@;
            &&& env.contains_key(pid) && env.contains_key(fds) ==> ListenStage::begun_in(
                env,
                own_pid,
            ) == ListenStage::begun(Some(env[pid]), own_pid, Some(env[fds]))
            &&& !env.contains_key(pid) || !env.contains_key(fds) ==> ListenStage::begun_in(
                env,
                own_pid,
            ) is NotOurs
        }),
{
}

/// What is said of wrong permissions tells the path and its kind, the mode and the owner that
/// it has, and the mode that it should have.
pub proof fn law_perms_text(
    path: Seq<char>,
    expected: nat,
    kind: Seq<char>,
    mode: nat,
    uid: nat,
    gid: nat,
)
    ensures
        perms_text(path, expected, kind, mode, uid, gid) == kind + " "@ + path + " has mode "@
            + number::digits(mode, 8) + ", owner "@ + number::digits(uid, 10) + ":"@
            + number::digits(gid, 10) + ", expected "@ + number::digits(expected, 8)
            + " root:root"@,
{
}

/// What is said of a kernel: which number was missing, or which release is too old.
pub proof fn law_kernel_text(release: Seq<char>)
    ensures
        KernelError::Major.text(release) == "failed to parse kernel major version"@,
        KernelError::Minor.text(release) == "failed to parse kernel minor version"@,
        KernelError::Unsupported.text(release) == "kernel "@ + text::trimmed(release)
            + " does not support coredump sockets; Linux 6.16+ required"@,
{
}

/// An optional string slice holds a text if it is there, and that text.
pub proof fn law_str_text(s: &str)
    ensures
        str_text(Some(s)) == Some(s@),
        str_text(None) is None,
{
}

/// The permissions are the lowest nine bits of the mode, which must be the expected ones to the
/// bit, and both owners must be root; the bits above do not matter.
pub proof fn law_perms(st_mode: u32, expected: u32, uid: u32, gid: u32)
    ensures
        perms_hold(st_mode, expected, uid, gid) <==> st_mode % 512 == expected && uid == 0 && gid
            == 0,
        (st_mode & 0o777) as nat == st_mode % 512,
{
    assert(st_mode & 0o777 == st_mode % 512) by (bit_vector);
}

/// A socket passes for a stream socket exactly if its type could be read and is that number.
pub proof fn law_socket_type(ret: i32, ty: i32, stream: i32)
    ensures
        type_reply(ret, ty, stream) is Stream <==> ret == 0 && ty == stream,
        type_reply(ret, ty, stream) is OtherType <==> ret == 0 && ty != stream,
        type_reply(ret, ty, stream) is Failed <==> ret != 0,
{
}

} // verus!
