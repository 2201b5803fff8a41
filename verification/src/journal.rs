//! What the log gets to see of a crash.
//!
//! Log records hold operational fields only. A command line can carry passwords, so it is in
//! no record; the executable path, which its owner chooses, is cut to a budget.
use vstd::prelude::*;
use vstd::utf8::encode_utf8;

use crate::metadata::{self, CrashReport, StoredDump, REASON_MAX_BYTES};
use crate::text;

verus! {

/// Byte budget for the executable path in a log record.
pub const EXE_LOG_MAX_BYTES: usize = 256;

/// What is logged when a dump comes in.
#[derive(Debug)]
pub struct ReceivedRecord {
    pub pid: u32,
    pub uid: Option<u32>,
    pub gid: Option<u32>,
    pub signal: u32,
    /// The executable path, cut to its budget
    pub exe: String,
}

/// What is logged once a dump is stored.
#[derive(Debug)]
pub struct StoredRecord {
    pub path: String,
    pub bytes_in: u64,
    pub bytes_out: u64,
    pub build_id: Option<String>,
    pub comm: Option<String>,
    pub core_limit: u64,
    pub dumpable: u32,
    pub hostname: String,
    pub argv_parse_error: Option<String>,
}

/// A [`ReceivedRecord`] with its text as a sequence of characters.
pub struct ReceivedFields {
    pub pid: u32,
    pub uid: Option<u32>,
    pub gid: Option<u32>,
    pub signal: u32,
    pub exe: Seq<char>,
}

/// A [`StoredRecord`] with its texts as sequences of characters.
pub struct StoredFields {
    pub path: Seq<char>,
    pub bytes_in: u64,
    pub bytes_out: u64,
    pub build_id: Option<Seq<char>>,
    pub comm: Option<Seq<char>>,
    pub core_limit: u64,
    pub dumpable: u32,
    pub hostname: Seq<char>,
    pub argv_parse_error: Option<Seq<char>>,
}

impl View for ReceivedRecord {
    type V = ReceivedFields;

    open spec fn view(&self) -> ReceivedFields {
        ReceivedFields {
            pid: self.pid,
            uid: self.uid,
            gid: self.gid,
            signal: self.signal,
            exe: self.exe@,
        }
    }
}

impl View for StoredRecord {
    type V = StoredFields;

    open spec fn view(&self) -> StoredFields {
        StoredFields {
            path: self.path@,
            bytes_in: self.bytes_in,
            bytes_out: self.bytes_out,
            build_id: text::text_of(self.build_id),
            comm: text::text_of(self.comm),
            core_limit: self.core_limit,
            dumpable: self.dumpable,
            hostname: self.hostname@,
            argv_parse_error: text::text_of(self.argv_parse_error),
        }
    }
}

/// What is logged when the dump of the reported crash comes in.
pub open spec fn received_fields(report: CrashReport) -> ReceivedFields {
    ReceivedFields {
        pid: report.pid,
        uid: report.uid,
        gid: report.gid,
        signal: report.signal,
        exe: text::longest_prefix(report.exe_path@, EXE_LOG_MAX_BYTES as nat),
    }
}

/// What is logged once the dump of the reported crash is stored.
pub open spec fn stored_fields(report: CrashReport, dump: StoredDump) -> StoredFields {
    StoredFields {
        path: dump.path@,
        bytes_in: dump.bytes_in,
        bytes_out: dump.bytes_out,
        build_id: text::text_of(dump.build_id),
        comm: text::text_of(dump.comm),
        core_limit: report.core_limit,
        dumpable: report.dumpable,
        hostname: report.hostname@,
        argv_parse_error: text::text_of(report.argv_parse_error),
    }
}

impl ReceivedRecord {
    /// What is logged when the dump of the reported crash comes in.
    pub fn new(report: &CrashReport) -> (r: Self)
        ensures
            r@ == received_fields(*report),
            r.pid == report.pid && r.uid == report.uid && r.gid == report.gid,
            r.signal == report.signal,
            r.exe@.is_prefix_of(report.exe_path@),
            encode_utf8(r.exe@).len() <= 256,
            r.exe@.len() < report.exe_path@.len() ==> encode_utf8(
                report.exe_path@.take((r.exe@.len() + 1) as int),
            ).len() > 256,
    {
        proof {
            text::law_longest_prefix(report.exe_path@, 256);
        }
        ReceivedRecord {
            pid: report.pid,
            uid: report.uid,
            gid: report.gid,
            signal: report.signal,
            exe: text::truncate_for_log(report.exe_path.as_str(), EXE_LOG_MAX_BYTES),
        }
    }
}

impl StoredRecord {
    /// What is logged once the dump of the reported crash is stored.
    pub fn new(report: &CrashReport, dump: &StoredDump) -> (r: Self)
        ensures
            r@ == stored_fields(*report, *dump),
            r.path@ == dump.path@,
            r.bytes_in == dump.bytes_in && r.bytes_out == dump.bytes_out,
            text::text_of(r.build_id) == text::text_of(dump.build_id),
            text::text_of(r.comm) == text::text_of(dump.comm),
            r.core_limit == report.core_limit && r.dumpable == report.dumpable,
            r.hostname@ == report.hostname@,
            text::text_of(r.argv_parse_error) == text::text_of(report.argv_parse_error),
    {
        StoredRecord {
            path: dump.path.clone(),
            bytes_in: dump.bytes_in,
            bytes_out: dump.bytes_out,
            build_id: dump.build_id.clone(),
            comm: dump.comm.clone(),
            core_limit: report.core_limit,
            dumpable: report.dumpable,
            hostname: report.hostname.clone(),
            argv_parse_error: report.argv_parse_error.clone(),
        }
    }
}

/// The command line has no influence on what is logged of a stored dump.
pub proof fn law_cmdline_is_not_logged(
    report: CrashReport,
    dump: StoredDump,
    cmdline: Option<String>,
)
    ensures
        stored_fields(report, StoredDump { cmdline, ..dump }) == stored_fields(report, dump),
{
}

/// The logged executable path is a prefix of the real one and keeps within its budget; a path
/// within the budget is logged whole.
pub proof fn law_logged_exe_is_bounded(report: CrashReport)
    ensures
        received_fields(report).exe.is_prefix_of(report.exe_path@),
        encode_utf8(received_fields(report).exe).len() <= EXE_LOG_MAX_BYTES,
        encode_utf8(report.exe_path@).len() <= EXE_LOG_MAX_BYTES ==> received_fields(report).exe
            == report.exe_path@,
{
    text::law_longest_prefix(report.exe_path@, EXE_LOG_MAX_BYTES as nat);
}

/// What is logged of a dump whose arguments could not be parsed holds no hostname and no
/// executable path, and a printable reason within its budget.
pub proof fn law_degraded_record_is_bounded(
    report: CrashReport,
    dump: StoredDump,
    rendered: Seq<char>,
    now: u64,
)
    requires
        metadata::is_degraded(report, metadata::sanitized(rendered), now),
    ensures
        received_fields(report).exe.len() == 0,
        stored_fields(report, dump).hostname.len() == 0,
        stored_fields(report, dump).argv_parse_error matches Some(reason) && encode_utf8(
            reason,
        ).len() <= REASON_MAX_BYTES && forall|i: int|
            0 <= i < reason.len() ==> metadata::is_log_safe(#[trigger] reason[i]),
{
    metadata::law_sanitized(rendered);
    law_logged_exe_is_bounded(report);
}

/// A record of an incoming dump tells what the report tells of the process, and as much of its
/// executable path as the budget allows.
pub proof fn law_received_record(report: CrashReport)
    ensures
        ({
            let f = received_fields(report);
            &&& f.pid == report.pid && f.uid == report.uid && f.gid == report.gid
            &&& f.signal == report.signal
            &&& f.exe.is_prefix_of(report.exe_path@)
            &&& encode_utf8(f.exe).len() <= 256
            &&& f.exe.len() < report.exe_path@.len() ==> encode_utf8(
                report.exe_path@.take((f.exe.len() + 1) as int),
            ).len() > 256
        }),
{
    text::law_longest_prefix(report.exe_path@, 256);
}

/// A record of a stored dump tells what the dump and the report say of it, field by field.
pub proof fn law_stored_record(report: CrashReport, dump: StoredDump)
    ensures
        ({
            let f = stored_fields(report, dump);
            &&& f.path == dump.path@
            &&& f.bytes_in == dump.bytes_in && f.bytes_out == dump.bytes_out
            &&& f.core_limit == report.core_limit && f.dumpable == report.dumpable
            &&& f.hostname == report.hostname@
            &&& match dump.build_id {
                Some(t) => f.build_id == Some(t@),
                None => f.build_id is None,
            }
            &&& match dump.comm {
                Some(t) => f.comm == Some(t@),
                None => f.comm is None,
            }
            &&& match report.argv_parse_error {
                Some(t) => f.argv_parse_error == Some(t@),
                None => f.argv_parse_error is None,
            }
        }),
{
}

} // verus!
