//! What is known about a crash, where dumps go, and what was stored.
use vstd::prelude::*;
use vstd::utf8::encode_utf8;

use crate::text;

verus! {

/// zstd compression level of stored dumps.
pub const ZSTD_LEVEL: i32 = 3;

/// Directory of stored dumps.
pub const STORAGE_DIR: &'static str = "/var/lib/vdr";

/// Largest core dump, in bytes, that is stored whole: 2 GB.
pub const MAX_CORE_SIZE: u64 = 2 * 1024 * 1024 * 1024;

/// Byte budget for the sanitized reason of an argument parse failure.
///
/// The reason ends up in kernel log records, and records over the kernel's limit are
/// dropped, not truncated.
pub const REASON_MAX_BYTES: usize = 400;

/// Metadata about the crash, provided by the kernel.
#[derive(Debug, Clone)]
pub struct CrashMetadata {
    /// %P: PID of the crashed process
    pub pid: u32,
    /// %u: real UID of the crashed process
    pub uid: u32,
    /// %g: real GID of the crashed process
    pub gid: u32,
    /// %s: signal number that caused the crash
    pub signal: u32,
    /// %t: Unix timestamp of the crash
    pub timestamp: u64,
    /// %h: hostname
    pub hostname: String,
    /// Resolved executable path (from /proc/<pid>/exe, or %E with ! restored)
    pub exe_path: String,
    /// %c: core file size limit (RLIMIT_CORE)
    pub core_limit: u64,
    /// %d: dumpable flag
    pub dumpable: u32,
}

/// What a handler knows about a crash, where the credentials may be unknown.
#[derive(Debug, Clone)]
pub struct CrashReport {
    /// PID of the crashed process; 0 where it is unknown
    pub pid: u32,
    /// Real UID of the crashed process; `None` where it is unknown
    pub uid: Option<u32>,
    /// Real GID of the crashed process; `None` where it is unknown
    pub gid: Option<u32>,
    /// Signal number that caused the crash; 0 where it is unknown
    pub signal: u32,
    /// Unix timestamp of the crash, or of its processing where the former is unknown
    pub timestamp: u64,
    /// Hostname
    pub hostname: String,
    /// Resolved executable path
    pub exe_path: String,
    /// Core file size limit
    pub core_limit: u64,
    /// Dumpable flag
    pub dumpable: u32,
    /// Why the arguments could not be parsed, if they could not
    pub argv_parse_error: Option<String>,
}

/// Storage configuration for core dumps.
#[derive(Debug, Clone)]
pub struct StorageConfig {
    /// Directory to store compressed core dumps
    pub storage_dir: String,
    /// Maximum core dump size in bytes (truncated if exceeded)
    pub max_core_size: u64,
    /// zstd compression level (1-19)
    pub zstd_level: i32,
}

/// Result of processing a core dump.
#[derive(Debug)]
pub struct StoredDump {
    /// Final path of the stored compressed core dump
    pub path: String,
    /// Uncompressed size in bytes
    pub bytes_in: u64,
    /// Compressed size in bytes
    pub bytes_out: u64,
    /// GNU build ID extracted from the executable, if available
    pub build_id: Option<String>,
    /// /proc/<pid>/cmdline contents, if readable
    pub cmdline: Option<String>,
    /// /proc/<pid>/comm contents, if readable
    pub comm: Option<String>,
}

impl Default for StorageConfig {
    fn default() -> (r: Self)
        ensures
            r.storage_dir@ == STORAGE_DIR@,
            r.max_core_size == MAX_CORE_SIZE,
            r.zstd_level == ZSTD_LEVEL,
    {
        StorageConfig {
            storage_dir: STORAGE_DIR.to_owned(),
            max_core_size: MAX_CORE_SIZE,
            zstd_level: ZSTD_LEVEL,
        }
    }
}

impl vstd::std_specs::convert::FromSpecImpl<CrashMetadata> for CrashReport {
    open spec fn obeys_from_spec() -> bool {
        true
    }

    open spec fn from_spec(m: CrashMetadata) -> Self {
        CrashReport {
            pid: m.pid,
            uid: Some(m.uid),
            gid: Some(m.gid),
            signal: m.signal,
            timestamp: m.timestamp,
            hostname: m.hostname,
            exe_path: m.exe_path,
            core_limit: m.core_limit,
            dumpable: m.dumpable,
            argv_parse_error: None,
        }
    }
}

impl From<CrashMetadata> for CrashReport {
    /// Complete metadata: the credentials are known and nothing went wrong with the arguments.
    fn from(m: CrashMetadata) -> (r: Self) {
        CrashReport {
            pid: m.pid,
            uid: Some(m.uid),
            gid: Some(m.gid),
            signal: m.signal,
            timestamp: m.timestamp,
            hostname: m.hostname,
            exe_path: m.exe_path,
            core_limit: m.core_limit,
            dumpable: m.dumpable,
            argv_parse_error: None,
        }
    }
}

/// The characters that reach the log unchanged: printable ASCII, except quotes and
/// backslashes, which debug formatting would escape.
pub open spec fn is_log_safe(c: char) -> bool {
    ' ' <= c <= '~' && c != '"' && c != '\\'
}

/// A character as the log gets it.
pub open spec fn log_char(c: char) -> char {
    if is_log_safe(c) {
        c
    } else {
        '?'
    }
}

/// A text as the log gets it: cut to the byte budget, and with a question mark in place of
/// each character that is not safe there.
pub open spec fn sanitized(s: Seq<char>) -> Seq<char> {
    text::longest_prefix(s, REASON_MAX_BYTES as nat).map_values(|c: char| log_char(c))
}

/// Printable, single-line, bounded form of a rendered argument parse failure.
///
/// The rendering spans lines and echoes the offending argument, which can carry content that
/// somebody else controls.
pub fn sanitize_reason(rendered: &str) -> (r: String)
    ensures
        r@ == sanitized(rendered@),
{
    let truncated = text::truncate_for_log(rendered, REASON_MAX_BYTES);
    let mut r = String::new();
    let v = text::chars_of(truncated.as_str());
    for i in 0..v.len()
        invariant
            r@ == v@.take(i as int).map_values(|c: char| log_char(c)),
    {
        let c = v[i];
        r.push(
            if ' ' <= c && c <= '~' && c != '"' && c != '\\' {
                c
            } else {
                '?'
            },
        );
        assert(v@.take(i + 1) == v@.take(i as int).push(c));
    }
    assert(v@.take(v@.len() as int) == v@);
    r
}

/// A report with nothing known but the reason: the credentials are unknown, PID 0 is never a
/// crashed process, and the time is that of the processing.
pub open spec fn is_degraded(r: CrashReport, reason: Seq<char>, now: u64) -> bool {
    &&& r.pid == 0
    &&& r.uid is None
    &&& r.gid is None
    &&& r.signal == 0
    &&& r.timestamp == now
    &&& r.hostname@ == Seq::<char>::empty()
    &&& r.exe_path@ == Seq::<char>::empty()
    &&& r.core_limit == 0
    &&& r.dumpable == 0
    &&& text::text_of(r.argv_parse_error) == Some(reason)
}

/// The report of a core dump whose arguments could not be parsed.
///
/// The dump is valid regardless of the arguments, so it is stored with sentinel values.
pub fn degraded_metadata(reason: &str, now: u64) -> (r: CrashReport)
    ensures
        is_degraded(r, reason@, now),
        r.pid == 0 && r.uid is None && r.gid is None && r.signal == 0 && r.timestamp == now,
        r.hostname@.len() == 0 && r.exe_path@.len() == 0 && r.core_limit == 0 && r.dumpable == 0,
        r.argv_parse_error matches Some(e) && e@ == reason@,
{
    CrashReport {
        pid: 0,
        uid: None,
        gid: None,
        signal: 0,
        timestamp: now,
        hostname: String::new(),
        exe_path: String::new(),
        core_limit: 0,
        dumpable: 0,
        argv_parse_error: Some(reason.to_owned()),
    }
}

/// The report of a core dump that comes through the pipe: complete where the arguments could
/// be parsed, and degraded, with the sanitized rendering of the failure, where not. Either
/// way there is a report, and the dump is stored.
pub fn pipe_metadata(parsed: Result<CrashMetadata, String>, now: u64) -> (r: CrashReport)
    ensures
        match parsed {
            Ok(m) => {
                &&& r.pid == m.pid
                &&& r.uid == Some(m.uid)
                &&& r.gid == Some(m.gid)
                &&& r.signal == m.signal
                &&& r.timestamp == m.timestamp
                &&& r.hostname == m.hostname
                &&& r.exe_path == m.exe_path
                &&& r.core_limit == m.core_limit
                &&& r.dumpable == m.dumpable
                &&& r.argv_parse_error is None
            },
            Err(rendered) => is_degraded(r, sanitized(rendered@), now),
        },
{
    match parsed {
        Ok(m) => CrashReport::from(m),
        Err(rendered) => {
            let reason = sanitize_reason(rendered.as_str());
            degraded_metadata(reason.as_str(), now)
        },
    }
}

/// Whether a dump of which `bytes_in` bytes were read reached the limit, where the reader
/// stops.
pub open spec fn at_limit(bytes_in: u64, max_core_size: u64) -> bool {
    bytes_in >= max_core_size
}

/// Whether a dump of which `bytes_in` bytes were read may be incomplete: the reader stops
/// at the limit.
pub fn may_be_truncated(bytes_in: u64, max_core_size: u64) -> (r: bool)
    ensures
        r == at_limit(bytes_in, max_core_size),
{
    bytes_in >= max_core_size
}

proof fn lemma_chars_within_bytes(s: Seq<char>)
    ensures
        s.len() <= encode_utf8(s).len(),
    decreases s.len(),
{
    if s.len() > 0 {
        lemma_chars_within_bytes(s.drop_first());
    }
}

/// A sanitized text is printable ASCII without quotes and backslashes, on one line, and keeps
/// within the byte budget.
pub proof fn law_sanitized(s: Seq<char>)
    ensures
        forall|i: int| 0 <= i < sanitized(s).len() ==> is_log_safe(#[trigger] sanitized(s)[i]),
        encode_utf8(sanitized(s)).len() <= REASON_MAX_BYTES,
{
    let p = text::longest_prefix(s, REASON_MAX_BYTES as nat);
    text::law_longest_prefix(s, REASON_MAX_BYTES as nat);
    lemma_chars_within_bytes(p);
    vstd::utf8::is_ascii_chars_encode_utf8(sanitized(s));
}

/// Sanitizing again changes nothing.
pub proof fn law_sanitized_idempotent(s: Seq<char>)
    ensures
        sanitized(sanitized(s)) == sanitized(s),
{
    law_sanitized(s);
}

/// Sanitizing keeps as many characters as the budget of bytes allows, in their places: printable
/// ASCII as it is, except quotes and backslashes, and a question mark for all else.
pub proof fn law_sanitized_keeps_printable(s: Seq<char>)
    ensures
        ({
            let r = sanitized(s);
            &&& r.len() <= s.len()
            &&& encode_utf8(s.take(r.len() as int)).len() <= 400
            &&& r.len() < s.len() ==> encode_utf8(s.take((r.len() + 1) as int)).len() > 400
            &&& forall|i: int|
                0 <= i < r.len() ==> #[trigger] r[i] == if 32 <= s[i] as int <= 126 && s[i] as int
                    != 34 && s[i] as int != 92 {
                    s[i]
                } else {
                    '?'
                }
        }),
{
    let p = text::longest_prefix(s, 400);
    text::law_longest_prefix(s, 400);
    assert(p == s.take(p.len() as int));
    assert(sanitized(s).len() == p.len());
    assert forall|i: int| 0 <= i < p.len() implies #[trigger] sanitized(s)[i] == if 32
        <= s[i] as int <= 126 && s[i] as int != 34 && s[i] as int != 92 {
        s[i]
    } else {
        '?'
    } by {
        assert(p[i] == s[i]);
    }
}

/// A degraded report claims nothing: no process, no credentials, no signal, no names, no limit;
/// it tells the time and the reason.
pub proof fn law_degraded_claims_nothing(r: CrashReport, reason: Seq<char>, now: u64)
    requires
        is_degraded(r, reason, now),
    ensures
        r.pid == 0 && r.uid is None && r.gid is None && r.signal == 0,
        r.core_limit == 0 && r.dumpable == 0,
        r.hostname@.len() == 0 && r.exe_path@.len() == 0,
        r.timestamp == now,
        r.argv_parse_error matches Some(e) && e@ == reason,
{
}

/// A complete report tells what the kernel told, field by field.
pub proof fn law_complete_report(m: CrashMetadata)
    ensures
        ({
            let r = <CrashReport as vstd::std_specs::convert::FromSpec<CrashMetadata>>::from_spec(
                m,
            );
            &&& r.pid == m.pid && r.uid == Some(m.uid) && r.gid == Some(m.gid)
            &&& r.signal == m.signal && r.timestamp == m.timestamp
            &&& r.hostname@ == m.hostname@ && r.exe_path@ == m.exe_path@
            &&& r.core_limit == m.core_limit && r.dumpable == m.dumpable
            &&& r.argv_parse_error is None
        }),
{
}

/// Truncation is suspected from the limit on, and never below it.
pub proof fn law_at_limit(bytes_in: u64, more: u64, limit: u64)
    ensures
        at_limit(limit, limit),
        bytes_in < limit ==> !at_limit(bytes_in, limit),
        at_limit(bytes_in, limit) && more >= bytes_in ==> at_limit(more, limit),
{
}

} // verus!
