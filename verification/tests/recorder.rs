use std::collections::BTreeMap;

use vdr::journal::{ReceivedRecord, StoredRecord, EXE_LOG_MAX_BYTES};
use vdr::metadata::{degraded_metadata, may_be_truncated, pipe_metadata, sanitize_reason};
use vdr::naming::{dump_file_name, is_temp_file_name, join_path, temp_file_name};
use vdr::recorder::{Action, Reply, Stage};
use vdr::{CrashMetadata, CrashReport, Recorder, StorageConfig, StoredDump, TempGuard};

fn metadata() -> CrashMetadata {
    CrashMetadata {
        pid: 4711,
        uid: 1000,
        gid: 100,
        signal: 11,
        timestamp: 1700000000,
        hostname: "box".to_string(),
        exe_path: "/usr/bin/app".to_string(),
        core_limit: 0,
        dumpable: 1,
    }
}

fn storage() -> StorageConfig {
    StorageConfig { storage_dir: "/dumps".to_string(), max_core_size: 1000, zstd_level: 7 }
}

fn recorder() -> Recorder {
    Recorder::new(&CrashReport::from(metadata()), &storage())
}

const NAME: &str = "/dumps/core.4711.1700000000.000000042.zst";
const TEMP: &str = "/dumps/.core.4711.1700000000.000000042.zst.tmp";

fn good(n: usize) -> Reply {
    match n {
        0 => Reply::Bytes(Vec::new()),
        1 => Reply::Bytes(b"app\0-x\0".to_vec()),
        2 => Reply::Bytes(b"app\n".to_vec()),
        5 => Reply::Nanos(42),
        8 => Reply::Count(900),
        14 => Reply::Count(77),
        _ => Reply::Done,
    }
}

fn after(n: usize) -> Recorder {
    let mut r = recorder();
    for i in 0..n {
        r.step(good(i));
    }
    r
}

#[test]
fn stores_a_dump_step_by_step() {
    let expected = [
        "ReadFile { path: \"/usr/bin/app\", cap: Some(67108865) }",
        "ReadFile { path: \"/proc/4711/cmdline\", cap: None }",
        "ReadFile { path: \"/proc/4711/comm\", cap: None }",
        "CreateDir { path: \"/dumps\", mode: 448 }",
        "SetMode { path: \"/dumps\", mode: 448 }",
        "ReadClock",
        "CreateNew { path: \"/dumps/.core.4711.1700000000.000000042.zst.tmp\", mode: 384 }",
        "OpenEncoder { level: 7 }",
        "Stream { limit: 1000 }",
        "FinishEncoder",
        "SyncFile",
        "Rename { from: \"/dumps/.core.4711.1700000000.000000042.zst.tmp\", to: \"/dumps/core.4711.1700000000.000000042.zst\" }",
        "OpenDir { path: \"/dumps\" }",
        "SyncDir",
        "Measure { path: \"/dumps/core.4711.1700000000.000000042.zst\" }",
        "Finish",
    ];
    for (i, want) in expected.iter().enumerate() {
        let r = after(i);
        assert_eq!(format!("{:?}", r.action()), *want);
        assert!(r.failure().is_none());
        assert_eq!(r.stored().is_some(), i == 15);
    }
    let dump = after(15).stored().unwrap();
    assert_eq!(dump.path, NAME);
    assert_eq!(dump.bytes_in, 900);
    assert_eq!(dump.bytes_out, 77);
    assert_eq!(dump.build_id, None);
    assert_eq!(dump.cmdline, Some("app -x".to_string()));
    assert_eq!(dump.comm, Some("app".to_string()));
}

#[test]
fn best_effort_steps_may_fail() {
    let mut r = recorder();
    for i in 0..15 {
        match i {
            0 | 1 | 2 | 5 | 14 => r.step(Reply::Failed),
            _ => r.step(good(i)),
        }
    }
    let dump = r.stored().unwrap();
    assert_eq!(dump.path, "/dumps/core.4711.1700000000.000000000.zst");
    assert_eq!(dump.cmdline, None);
    assert_eq!(dump.comm, None);
    assert_eq!(dump.build_id, None);
    assert_eq!(dump.bytes_out, 0);
}

#[test]
fn each_failure_is_reported_in_context() {
    let contexts = [
        (3, "creating storage directory /dumps".to_string()),
        (4, "setting permissions on /dumps".to_string()),
        (6, format!("creating temp file {}", TEMP)),
        (7, "creating zstd encoder".to_string()),
        (8, "streaming core dump through zstd encoder".to_string()),
        (9, "finishing zstd encoding".to_string()),
        (10, "fsync of core dump".to_string()),
        (11, format!("renaming temp file to {}", NAME)),
        (12, "opening storage dir for fsync".to_string()),
        (13, "fsync of storage directory".to_string()),
    ];
    for (at, context) in contexts {
        let mut r = after(at);
        r.step(Reply::Failed);
        assert_eq!(r.failure(), Some(context));
        assert!(r.stored().is_none());
    }
}

#[test]
fn temp_file_is_removed_exactly_when_it_was_created() {
    for at in [3, 4, 6, 7, 8, 9, 10, 11, 12, 13] {
        let mut r = after(at);
        r.step(Reply::Failed);
        if at > 6 {
            assert_eq!(r.stage(), Stage::RemoveTemp);
            match r.action() {
                Action::Remove { path } => assert_eq!(path, TEMP),
                other => panic!("{:?}", other),
            }
            r.step(Reply::Failed);
        }
        assert_eq!(r.stage(), Stage::Failed);
        assert!(matches!(r.action(), Action::Finish));
        r.step(Reply::Done);
        assert_eq!(r.stage(), Stage::Failed);
    }
}

#[test]
fn a_stored_dump_stays_stored() {
    let mut r = after(15);
    r.step(Reply::Failed);
    assert_eq!(r.stage(), Stage::Stored);
    assert!(r.failure().is_none());
}

#[test]
fn names_tell_dumps_apart() {
    assert_eq!(dump_file_name(1, 2, 3), "core.1.2.000000003.zst");
    assert_eq!(dump_file_name(0, 0, 0), "core.0.0.000000000.zst");
    assert_eq!(
        dump_file_name(u32::MAX, u64::MAX, 999_999_999),
        format!("core.{}.{}.{:09}.zst", u32::MAX, u64::MAX, 999_999_999)
    );
    assert_ne!(dump_file_name(1, 23, 4), dump_file_name(12, 3, 4));
    assert_ne!(dump_file_name(1, 2, 30), dump_file_name(1, 2, 3));
}

#[test]
fn temp_files_are_told_from_dumps() {
    let name = dump_file_name(1, 2, 3);
    let temp = temp_file_name(&name);
    assert_eq!(temp, ".core.1.2.000000003.zst.tmp");
    assert_ne!(temp_file_name("a"), temp_file_name("b"));
    assert!(is_temp_file_name(&temp));
    assert!(!is_temp_file_name(&name));
    assert!(!is_temp_file_name(".other.tmp"));
    assert!(!is_temp_file_name("core.1.2.000000003.zst.tmp"));
    assert!(!is_temp_file_name(""));
}

#[test]
fn joins_paths_like_std() {
    for dir in ["", "/", "/a", "/a/", "a/b"] {
        for name in ["x", "", "/abs", ".x.tmp"] {
            let want = std::path::Path::new(dir).join(name);
            assert_eq!(join_path(dir, name), want.to_str().unwrap());
        }
    }
}

#[test]
fn guard_dooms_its_file_until_disarmed() {
    let mut g = TempGuard::new("/t".to_string());
    assert_eq!(g.doomed(), Some("/t"));
    g.disarm();
    assert_eq!(g.doomed(), None);
}

#[test]
fn default_storage() {
    let s = StorageConfig::default();
    assert_eq!(s.storage_dir, "/var/lib/vdr");
    assert_eq!(s.max_core_size, 2 * 1024 * 1024 * 1024);
    assert_eq!(s.zstd_level, 3);
    let d = s.clone();
    assert_eq!(d.storage_dir, s.storage_dir);
}

#[test]
fn parsed_arguments_give_a_complete_report() {
    let r = pipe_metadata(Ok(metadata()), 5);
    assert_eq!(r.pid, 4711);
    assert_eq!(r.uid, Some(1000));
    assert_eq!(r.gid, Some(100));
    assert_eq!(r.signal, 11);
    assert_eq!(r.timestamp, 1700000000);
    assert_eq!(r.hostname, "box");
    assert_eq!(r.exe_path, "/usr/bin/app");
    assert_eq!(r.dumpable, 1);
    assert_eq!(r.argv_parse_error, None);
}

#[test]
fn bad_arguments_give_a_degraded_report() {
    let rendered = "error: invalid value 'x\ny'";
    let r = pipe_metadata(Err(rendered.to_string()), 99);
    assert_eq!(r.argv_parse_error, Some("error: invalid value 'x?y'".to_string()));
    let d = degraded_metadata(&sanitize_reason(rendered), 99);
    for r in [r, d] {
        assert_eq!(r.pid, 0);
        assert_eq!(r.uid, None);
        assert_eq!(r.gid, None);
        assert_eq!(r.signal, 0);
        assert_eq!(r.timestamp, 99);
        assert_eq!(r.hostname, "");
        assert_eq!(r.exe_path, "");
        assert_eq!(r.core_limit, 0);
        assert_eq!(r.dumpable, 0);
    }
}

#[test]
fn truncation_is_suspected_at_the_limit() {
    assert!(!may_be_truncated(999, 1000));
    assert!(may_be_truncated(1000, 1000));
}

#[test]
fn stored_size_is_the_smaller_of_input_and_limit() {
    for (input, stored, truncated) in
        [(0u64, 0, false), (999, 999, false), (1000, 1000, true), (5000, 1000, true)]
    {
        let mut r = after(8);
        let limit = match r.action() {
            Action::Stream { limit } => limit,
            other => panic!("{:?}", other),
        };
        r.step(Reply::Count(input.min(limit)));
        for i in 9..15 {
            r.step(good(i));
        }
        let dump = r.stored().unwrap();
        assert_eq!(dump.bytes_in, stored);
        assert_eq!(may_be_truncated(dump.bytes_in, storage().max_core_size), truncated);
    }
}

/// Carries out the actions of a run on files in memory; the action at `fail_at` fails.
fn carry_out(
    files: &mut BTreeMap<String, Vec<u8>>,
    input: &[u8],
    fail_at: Option<usize>,
) -> (Recorder, usize) {
    let mut r = recorder();
    let (mut open, mut level, mut copied) = (String::new(), 0, Vec::new());
    for i in 0.. {
        if fail_at == Some(i) {
            r.step(Reply::Failed);
            continue;
        }
        let reply = match r.action() {
            Action::Finish => break,
            Action::ReadFile { .. } => Reply::Failed,
            Action::ReadClock => Reply::Nanos(42),
            Action::CreateNew { path, .. } => {
                assert!(files.insert(path.clone(), Vec::new()).is_none());
                open = path;
                Reply::Done
            }
            Action::OpenEncoder { level: l } => {
                level = l;
                Reply::Done
            }
            Action::Stream { limit } => {
                copied = input.iter().copied().take(limit as usize).collect();
                Reply::Count(copied.len() as u64)
            }
            Action::FinishEncoder => {
                let encoded = zstd::stream::encode_all(copied.as_slice(), level).unwrap();
                files.insert(open.clone(), encoded);
                Reply::Done
            }
            Action::Rename { from, to } => {
                let contents = files.remove(&from).unwrap();
                files.insert(to, contents);
                Reply::Done
            }
            Action::Measure { path } => Reply::Count(files[&path].len() as u64),
            Action::Remove { path } => match files.remove(&path) {
                Some(_) => Reply::Done,
                None => Reply::Failed,
            },
            _ => Reply::Done,
        };
        r.step(reply);
    }
    (r, copied.len())
}

#[test]
fn stored_dump_decodes_to_the_input() {
    for size in [0usize, 1, 999, 1000, 1001, 5000] {
        let input: Vec<u8> = (0..size).map(|i| (i * 7 % 251) as u8).collect();
        let mut files = BTreeMap::from([("/dumps/other".to_string(), vec![1])]);
        let (r, taken) = carry_out(&mut files, &input, None);
        let dump = r.stored().unwrap();
        let part = &input[..size.min(1000)];
        assert_eq!(dump.bytes_in, part.len() as u64);
        assert_eq!(taken, part.len());
        assert_eq!(zstd::stream::decode_all(files[NAME].as_slice()).unwrap(), part);
        assert_eq!(dump.bytes_out, files[NAME].len() as u64);
        assert_eq!(files.len(), 2);
        assert_eq!(files["/dumps/other"], [1]);
    }
}

#[test]
fn failed_run_leaves_the_files_as_they_were() {
    for at in [3, 4, 6, 7, 8, 9, 10, 11] {
        let mut files = BTreeMap::from([("/dumps/other".to_string(), vec![1])]);
        let before = files.clone();
        let (r, _) = carry_out(&mut files, b"dump", Some(at));
        assert!(r.failure().is_some());
        assert_eq!(files, before);
    }
}

#[test]
fn degraded_record_is_bounded() {
    let report = pipe_metadata(Err("\u{e9}\n\"".repeat(1000)), 5);
    assert_eq!(ReceivedRecord::new(&report).exe, "");
    let dump = after(15).stored().unwrap();
    let record = StoredRecord::new(&report, &dump);
    assert_eq!(record.hostname, "");
    let reason = record.argv_parse_error.unwrap();
    assert!(reason.len() <= 400 && reason.chars().all(|c| c == '?'));
    assert_eq!(reason.len(), 300);
}

#[test]
fn logged_path_is_cut_to_its_budget() {
    let mut report = CrashReport::from(metadata());
    let r = ReceivedRecord::new(&report);
    assert_eq!((r.pid, r.uid, r.gid, r.signal), (4711, Some(1000), Some(100), 11));
    assert_eq!(r.exe, "/usr/bin/app");
    assert_eq!(EXE_LOG_MAX_BYTES, 256);
    report.exe_path = "x".repeat(256);
    assert_eq!(ReceivedRecord::new(&report).exe, report.exe_path);
    report.exe_path = format!("{}\u{e9}z", "x".repeat(255));
    assert_eq!(ReceivedRecord::new(&report).exe, "x".repeat(255));
}

#[test]
fn command_line_is_not_logged() {
    let mut report = CrashReport::from(metadata());
    report.core_limit = 9;
    report.argv_parse_error = Some("why".to_string());
    let record = |cmdline: Option<&str>| {
        let dump = StoredDump {
            path: NAME.to_string(),
            bytes_in: 900,
            bytes_out: 77,
            build_id: Some("ab".to_string()),
            cmdline: cmdline.map(str::to_string),
            comm: Some("app".to_string()),
        };
        format!("{:?}", StoredRecord::new(&report, &dump))
    };
    let want = "StoredRecord { path: \"/dumps/core.4711.1700000000.000000042.zst\", \
                bytes_in: 900, bytes_out: 77, build_id: Some(\"ab\"), comm: Some(\"app\"), \
                core_limit: 9, dumpable: 1, hostname: \"box\", argv_parse_error: Some(\"why\") }";
    assert_eq!(record(None), want);
    assert_eq!(record(Some("app --verbose x")), want);
}

#[test]
fn names_stay_in_the_directory() {
    let name = dump_file_name(7, 8, 9);
    let temp = temp_file_name(&name);
    assert!(!name.contains('/') && !temp.contains('/'));
    assert_eq!(join_path("/dumps", &name), format!("/dumps/{}", name));
    assert_ne!(join_path("/dumps", &name), join_path("/dumps", &temp));
}
