//! How a core dump is stored.
//!
//! A [`Recorder`] says which action comes next and takes in how it went; whoever drives it
//! touches the file system. The dump grows in a temporary file that nobody else can have made
//! or can read, reaches the disk before it gets its name, and counts as stored only once that
//! name is on the disk too. A run that fails on the way leaves no temporary file behind.
use vstd::prelude::*;

use crate::build_id;
use crate::guard::{GuardState, TempGuard};
use crate::metadata::{self, CrashReport, StorageConfig, StoredDump};
use crate::naming;
use crate::procfs;
use crate::text;

verus! {

/// Permissions of the storage directory: its owner only.
pub const DIR_MODE: u32 = 0o700;

/// Permissions of a dump: its owner only. A dump can hold anything that the process held.
pub const FILE_MODE: u32 = 0o600;

/// Where a run stands: the action that comes next, or how it ended.
#[derive(Clone, Copy, Debug, PartialEq, Eq, Structural)]
pub enum Stage {
    ReadExecutable,
    ReadCmdline,
    ReadComm,
    CreateDir,
    RestrictDir,
    ReadClock,
    CreateTemp,
    OpenEncoder,
    Stream,
    FinishEncoder,
    SyncFile,
    Rename,
    OpenDir,
    SyncDir,
    MeasureFinal,
    Stored,
    RemoveTemp,
    Failed,
}

/// What is to be done next.
#[derive(Debug)]
pub enum Action {
    /// Read a file, up to `cap` bytes if there is one; failing is no harm.
    ReadFile { path: String, cap: Option<u64> },
    /// Create a directory with its parents.
    CreateDir { path: String, mode: u32 },
    /// Set the permissions of a file or directory.
    SetMode { path: String, mode: u32 },
    /// Read the clock.
    ReadClock,
    /// Create a file for writing; there must be none of that name, not even a link.
    CreateNew { path: String, mode: u32 },
    /// Open a zstd encoder over the new file.
    OpenEncoder { level: i32 },
    /// Copy the core dump into the encoder, up to `limit` bytes.
    Stream { limit: u64 },
    /// Finish the encoding.
    FinishEncoder,
    /// Bring the new file to the disk and close it.
    SyncFile,
    /// Rename a file.
    Rename { from: String, to: String },
    /// Open a directory.
    OpenDir { path: String },
    /// Bring the open directory to the disk.
    SyncDir,
    /// Get the size of a file; failing is no harm.
    Measure { path: String },
    /// Remove a file; failing is no harm.
    Remove { path: String },
    /// Nothing: the run has ended.
    Finish,
}

/// An action with its texts as sequences of characters.
pub enum ActionSpec {
    ReadFile { path: Seq<char>, cap: Option<u64> },
    CreateDir { path: Seq<char>, mode: u32 },
    SetMode { path: Seq<char>, mode: u32 },
    ReadClock,
    CreateNew { path: Seq<char>, mode: u32 },
    OpenEncoder { level: i32 },
    Stream { limit: u64 },
    FinishEncoder,
    SyncFile,
    Rename { from: Seq<char>, to: Seq<char> },
    OpenDir { path: Seq<char> },
    SyncDir,
    Measure { path: Seq<char> },
    Remove { path: Seq<char> },
    Finish,
}

impl View for Action {
    type V = ActionSpec;

    open spec fn view(&self) -> ActionSpec {
        match self {
            Action::ReadFile { path, cap } => ActionSpec::ReadFile { path: path@, cap: *cap },
            Action::CreateDir { path, mode } => ActionSpec::CreateDir { path: path@, mode: *mode },
            Action::SetMode { path, mode } => ActionSpec::SetMode { path: path@, mode: *mode },
            Action::ReadClock => ActionSpec::ReadClock,
            Action::CreateNew { path, mode } => ActionSpec::CreateNew { path: path@, mode: *mode },
            Action::OpenEncoder { level } => ActionSpec::OpenEncoder { level: *level },
            Action::Stream { limit } => ActionSpec::Stream { limit: *limit },
            Action::FinishEncoder => ActionSpec::FinishEncoder,
            Action::SyncFile => ActionSpec::SyncFile,
            Action::Rename { from, to } => ActionSpec::Rename { from: from@, to: to@ },
            Action::OpenDir { path } => ActionSpec::OpenDir { path: path@ },
            Action::SyncDir => ActionSpec::SyncDir,
            Action::Measure { path } => ActionSpec::Measure { path: path@ },
            Action::Remove { path } => ActionSpec::Remove { path: path@ },
            Action::Finish => ActionSpec::Finish,
        }
    }
}

/// How an action went.
#[derive(Debug)]
pub enum Reply {
    /// It succeeded.
    Done,
    /// It failed.
    Failed,
    /// A file was read.
    Bytes(Vec<u8>),
    /// The clock was read: the nanoseconds of the current second.
    Nanos(u32),
    /// Bytes were copied or counted.
    Count(u64),
}

impl Reply {
    /// The bytes that were read, if a file was.
    pub open spec fn bytes(self) -> Option<Seq<u8>> {
        match self {
            Reply::Bytes(b) => Some(b@),
            _ => None,
        }
    }

    /// The number of bytes that were copied or counted, or zero.
    pub open spec fn count(self) -> u64 {
        match self {
            Reply::Count(n) => n,
            _ => 0,
        }
    }

    /// The nanoseconds that were read from the clock, or zero.
    pub open spec fn nanos(self) -> u32 {
        match self {
            Reply::Nanos(n) => n,
            _ => 0,
        }
    }

    fn as_bytes(&self) -> (r: Option<&[u8]>)
        ensures
            procfs::bytes_of(r) == self.bytes(),
    {
        match self {
            Reply::Bytes(b) => Some(b.as_slice()),
            _ => None,
        }
    }

    fn as_count(&self) -> (r: u64)
        ensures
            r == self.count(),
    {
        match self {
            Reply::Count(n) => *n,
            _ => 0,
        }
    }

    fn as_nanos(&self) -> (r: u32)
        ensures
            r == self.nanos(),
    {
        match self {
            Reply::Nanos(n) => *n,
            _ => 0,
        }
    }
}

impl Stage {
    /// The stage that follows when all is well.
    pub open spec fn next(self) -> Stage {
        match self {
            Stage::ReadExecutable => Stage::ReadCmdline,
            Stage::ReadCmdline => Stage::ReadComm,
            Stage::ReadComm => Stage::CreateDir,
            Stage::CreateDir => Stage::RestrictDir,
            Stage::RestrictDir => Stage::ReadClock,
            Stage::ReadClock => Stage::CreateTemp,
            Stage::CreateTemp => Stage::OpenEncoder,
            Stage::OpenEncoder => Stage::Stream,
            Stage::Stream => Stage::FinishEncoder,
            Stage::FinishEncoder => Stage::SyncFile,
            Stage::SyncFile => Stage::Rename,
            Stage::Rename => Stage::OpenDir,
            Stage::OpenDir => Stage::SyncDir,
            Stage::SyncDir => Stage::MeasureFinal,
            Stage::MeasureFinal => Stage::Stored,
            Stage::Stored => Stage::Stored,
            Stage::RemoveTemp => Stage::Failed,
            Stage::Failed => Stage::Failed,
        }
    }

    /// Whether the run goes on after this reply. The metadata, the clock and the final size
    /// are best effort; copying says how much it copied; everything else must succeed.
    pub open spec fn accepts(self, reply: Reply) -> bool {
        match self {
            Stage::ReadExecutable
            | Stage::ReadCmdline
            | Stage::ReadComm
            | Stage::ReadClock
            | Stage::MeasureFinal
            | Stage::Stored
            | Stage::RemoveTemp
            | Stage::Failed => true,
            Stage::Stream => reply is Count,
            _ => reply is Done,
        }
    }

    fn following(self) -> (r: Stage)
        ensures
            r == self.next(),
    {
        match self {
            Stage::ReadExecutable => Stage::ReadCmdline,
            Stage::ReadCmdline => Stage::ReadComm,
            Stage::ReadComm => Stage::CreateDir,
            Stage::CreateDir => Stage::RestrictDir,
            Stage::RestrictDir => Stage::ReadClock,
            Stage::ReadClock => Stage::CreateTemp,
            Stage::CreateTemp => Stage::OpenEncoder,
            Stage::OpenEncoder => Stage::Stream,
            Stage::Stream => Stage::FinishEncoder,
            Stage::FinishEncoder => Stage::SyncFile,
            Stage::SyncFile => Stage::Rename,
            Stage::Rename => Stage::OpenDir,
            Stage::OpenDir => Stage::SyncDir,
            Stage::SyncDir => Stage::MeasureFinal,
            Stage::MeasureFinal => Stage::Stored,
            Stage::Stored => Stage::Stored,
            Stage::RemoveTemp => Stage::Failed,
            Stage::Failed => Stage::Failed,
        }
    }

    fn takes(self, reply: &Reply) -> (r: bool)
        ensures
            r == self.accepts(*reply),
    {
        match self {
            Stage::ReadExecutable
            | Stage::ReadCmdline
            | Stage::ReadComm
            | Stage::ReadClock
            | Stage::MeasureFinal
            | Stage::Stored
            | Stage::RemoveTemp
            | Stage::Failed => true,
            Stage::Stream => matches!(reply, Reply::Count(_)),
            _ => matches!(reply, Reply::Done),
        }
    }
}

/// A run as its users see it.
pub struct RecorderState {
    pub pid: u32,
    pub timestamp: u64,
    pub exe_path: Seq<char>,
    pub storage_dir: Seq<char>,
    pub max_core_size: u64,
    pub zstd_level: i32,
    pub stage: Stage,
    pub failed_at: Option<Stage>,
    pub build_id: Option<Seq<char>>,
    pub cmdline: Option<Seq<char>>,
    pub comm: Option<Seq<char>>,
    pub nanos: u32,
    pub guard: Option<GuardState>,
    pub bytes_in: u64,
    pub bytes_out: u64,
}

impl RecorderState {
    /// A run that has not begun.
    pub open spec fn fresh(self) -> bool {
        &&& self.stage == Stage::ReadExecutable
        &&& self.failed_at is None
        &&& self.build_id is None
        &&& self.cmdline is None
        &&& self.comm is None
        &&& self.nanos == 0
        &&& self.guard is None
        &&& self.bytes_in == 0
        &&& self.bytes_out == 0
    }

    /// The temporary file is guarded from its creation until the dump has its name for good,
    /// and it is removed only after something failed in between.
    pub open spec fn wf(self) -> bool {
        &&& match self.stage {
            Stage::ReadExecutable
            | Stage::ReadCmdline
            | Stage::ReadComm
            | Stage::CreateDir
            | Stage::RestrictDir
            | Stage::ReadClock
            | Stage::CreateTemp => self.guard is None,
            Stage::OpenEncoder
            | Stage::Stream
            | Stage::FinishEncoder
            | Stage::SyncFile
            | Stage::Rename
            | Stage::OpenDir
            | Stage::SyncDir
            | Stage::RemoveTemp => self.doomed() == Some(self.temp_path()),
            Stage::MeasureFinal | Stage::Stored => self.doomed() is None,
            Stage::Failed => true,
        }
        &&& self.failed_at is Some <==> self.stage is RemoveTemp || self.stage is Failed
    }

    /// The name of the dump.
    pub open spec fn file_name(self) -> Seq<char> {
        naming::dump_name(self.pid as nat, self.timestamp as nat, self.nanos as nat)
    }

    /// The path of the stored dump.
    pub open spec fn final_path(self) -> Seq<char> {
        naming::joined(self.storage_dir, self.file_name())
    }

    /// The path of the temporary file that the dump grows in.
    pub open spec fn temp_path(self) -> Seq<char> {
        naming::joined(self.storage_dir, naming::temp_name(self.file_name()))
    }

    /// The file that must not be left behind, if there is one.
    pub open spec fn doomed(self) -> Option<Seq<char>> {
        match self.guard {
            Some(guard) => guard.doomed(),
            None => None,
        }
    }

    /// What is to be done next.
    pub open spec fn action(self) -> ActionSpec {
        match self.stage {
            Stage::ReadExecutable => ActionSpec::ReadFile {
                path: self.exe_path,
                cap: Some((build_id::MAX_EXE_SIZE + 1) as u64),
            },
            Stage::ReadCmdline => ActionSpec::ReadFile {
                path: procfs::proc_path_spec(self.pid as nat, "cmdline"@),
                cap: None,
            },
            Stage::ReadComm => ActionSpec::ReadFile {
                path: procfs::proc_path_spec(self.pid as nat, "comm"@),
                cap: None,
            },
            Stage::CreateDir => ActionSpec::CreateDir { path: self.storage_dir, mode: DIR_MODE },
            Stage::RestrictDir => ActionSpec::SetMode { path: self.storage_dir, mode: DIR_MODE },
            Stage::ReadClock => ActionSpec::ReadClock,
            Stage::CreateTemp => ActionSpec::CreateNew {
                path: self.temp_path(),
                mode: FILE_MODE,
            },
            Stage::OpenEncoder => ActionSpec::OpenEncoder { level: self.zstd_level },
            Stage::Stream => ActionSpec::Stream { limit: self.max_core_size },
            Stage::FinishEncoder => ActionSpec::FinishEncoder,
            Stage::SyncFile => ActionSpec::SyncFile,
            Stage::Rename => ActionSpec::Rename { from: self.temp_path(), to: self.final_path() },
            Stage::OpenDir => ActionSpec::OpenDir { path: self.storage_dir },
            Stage::SyncDir => ActionSpec::SyncDir,
            Stage::MeasureFinal => ActionSpec::Measure { path: self.final_path() },
            Stage::RemoveTemp => match self.doomed() {
                Some(path) => ActionSpec::Remove { path },
                None => ActionSpec::Finish,
            },
            Stage::Stored | Stage::Failed => ActionSpec::Finish,
        }
    }

    /// The run with what the reply tells noted down.
    pub open spec fn noting(self, reply: Reply) -> RecorderState {
        match self.stage {
            Stage::ReadExecutable => RecorderState {
                build_id: build_id::executable_build_id(reply.bytes()),
                ..self
            },
            Stage::ReadCmdline => RecorderState {
                cmdline: procfs::proc_string("cmdline"@, reply.bytes()),
                ..self
            },
            Stage::ReadComm => RecorderState {
                comm: procfs::proc_string("comm"@, reply.bytes()),
                ..self
            },
            Stage::ReadClock => RecorderState { nanos: reply.nanos(), ..self },
            Stage::CreateTemp => RecorderState {
                guard: Some(GuardState { path: self.temp_path(), armed: true }),
                ..self
            },
            Stage::Stream => RecorderState { bytes_in: reply.count(), ..self },
            Stage::SyncDir => RecorderState {
                guard: match self.guard {
                    Some(guard) => Some(GuardState { path: guard.path, armed: false }),
                    None => None,
                },
                ..self
            },
            Stage::MeasureFinal => RecorderState { bytes_out: reply.count(), ..self },
            _ => self,
        }
    }

    /// The run after the reply to its action.
    pub open spec fn after(self, reply: Reply) -> RecorderState {
        if self.stage.accepts(reply) {
            RecorderState { stage: self.stage.next(), ..self.noting(reply) }
        } else {
            RecorderState {
                stage: if self.doomed() is Some {
                    Stage::RemoveTemp
                } else {
                    Stage::Failed
                },
                failed_at: Some(self.stage),
                ..self
            }
        }
    }

    /// The run after a sequence of replies.
    pub open spec fn after_all(self, replies: Seq<Reply>) -> RecorderState
        decreases replies.len(),
    {
        if replies.len() == 0 {
            self
        } else {
            self.after_all(replies.drop_last()).after(replies.last())
        }
    }

    /// What the failure of the given stage is reported as.
    pub open spec fn context(self, stage: Stage) -> Seq<char> {
        match stage {
            Stage::CreateDir => "creating storage directory "@ + self.storage_dir,
            Stage::RestrictDir => "setting permissions on "@ + self.storage_dir,
            Stage::CreateTemp => "creating temp file "@ + self.temp_path(),
            Stage::OpenEncoder => "creating zstd encoder"@,
            Stage::Stream => "streaming core dump through zstd encoder"@,
            Stage::FinishEncoder => "finishing zstd encoding"@,
            Stage::SyncFile => "fsync of core dump"@,
            Stage::Rename => "renaming temp file to "@ + self.final_path(),
            Stage::OpenDir => "opening storage dir for fsync"@,
            Stage::SyncDir => "fsync of storage directory"@,
            _ => ""@,
        }
    }
}

/// Stores one core dump, one action at a time.
#[derive(Debug)]
pub struct Recorder {
    pid: u32,
    timestamp: u64,
    exe_path: String,
    storage_dir: String,
    max_core_size: u64,
    zstd_level: i32,
    stage: Stage,
    failed_at: Option<Stage>,
    build_id: Option<String>,
    cmdline: Option<String>,
    comm: Option<String>,
    nanos: u32,
    guard: Option<TempGuard>,
    bytes_in: u64,
    bytes_out: u64,
}

impl View for Recorder {
    type V = RecorderState;

    closed spec fn view(&self) -> RecorderState {
        RecorderState {
            pid: self.pid,
            timestamp: self.timestamp,
            exe_path: self.exe_path@,
            storage_dir: self.storage_dir@,
            max_core_size: self.max_core_size,
            zstd_level: self.zstd_level,
            stage: self.stage,
            failed_at: self.failed_at,
            build_id: text::text_of(self.build_id),
            cmdline: text::text_of(self.cmdline),
            comm: text::text_of(self.comm),
            nanos: self.nanos,
            guard: match self.guard {
                Some(guard) => Some(guard@),
                None => None,
            },
            bytes_in: self.bytes_in,
            bytes_out: self.bytes_out,
        }
    }
}

impl Recorder {
    /// A run that stores the dump of the reported crash.
    pub fn new(report: &CrashReport, storage: &StorageConfig) -> (r: Self)
        ensures
            r@.fresh(),
            r@.wf(),
            r@.stage is ReadExecutable && r@.failed_at is None && r@.guard is None,
            r@.build_id is None && r@.cmdline is None && r@.comm is None,
            r@.nanos == 0 && r@.bytes_in == 0 && r@.bytes_out == 0,
            r@.pid == report.pid,
            r@.timestamp == report.timestamp,
            r@.exe_path == report.exe_path@,
            r@.storage_dir == storage.storage_dir@,
            r@.max_core_size == storage.max_core_size,
            r@.zstd_level == storage.zstd_level,
    {
        Recorder {
            pid: report.pid,
            timestamp: report.timestamp,
            exe_path: report.exe_path.clone(),
            storage_dir: storage.storage_dir.clone(),
            max_core_size: storage.max_core_size,
            zstd_level: storage.zstd_level,
            stage: Stage::ReadExecutable,
            failed_at: None,
            build_id: None,
            cmdline: None,
            comm: None,
            nanos: 0,
            guard: None,
            bytes_in: 0,
            bytes_out: 0,
        }
    }

    /// Where the run stands.
    pub fn stage(&self) -> (r: Stage)
        ensures
            r == self@.stage,
    {
        self.stage
    }

    fn file_name(&self) -> (r: String)
        ensures
            r@ == self@.file_name(),
    {
        naming::dump_file_name(self.pid, self.timestamp, self.nanos)
    }

    fn final_path(&self) -> (r: String)
        ensures
            r@ == self@.final_path(),
    {
        naming::join_path(self.storage_dir.as_str(), self.file_name().as_str())
    }

    fn temp_path(&self) -> (r: String)
        ensures
            r@ == self@.temp_path(),
    {
        let name = naming::temp_file_name(self.file_name().as_str());
        naming::join_path(self.storage_dir.as_str(), name.as_str())
    }

    fn doomed(&self) -> (r: Option<&str>)
        ensures
            match r {
                Some(p) => self@.doomed() == Some(p@),
                None => self@.doomed() is None,
            },
    {
        match &self.guard {
            Some(guard) => guard.doomed(),
            None => None,
        }
    }

    /// What is to be done next.
    pub fn action(&self) -> (r: Action)
        ensures
            r@ == self@.action(),
    {
        match self.stage {
            Stage::ReadExecutable => Action::ReadFile {
                path: self.exe_path.clone(),
                cap: Some(build_id::MAX_EXE_SIZE + 1),
            },
            Stage::ReadCmdline => Action::ReadFile {
                path: procfs::proc_path(self.pid, "cmdline"),
                cap: None,
            },
            Stage::ReadComm => Action::ReadFile {
                path: procfs::proc_path(self.pid, "comm"),
                cap: None,
            },
            Stage::CreateDir => Action::CreateDir {
                path: self.storage_dir.clone(),
                mode: DIR_MODE,
            },
            Stage::RestrictDir => Action::SetMode {
                path: self.storage_dir.clone(),
                mode: DIR_MODE,
            },
            Stage::ReadClock => Action::ReadClock,
            Stage::CreateTemp => Action::CreateNew { path: self.temp_path(), mode: FILE_MODE },
            Stage::OpenEncoder => Action::OpenEncoder { level: self.zstd_level },
            Stage::Stream => Action::Stream { limit: self.max_core_size },
            Stage::FinishEncoder => Action::FinishEncoder,
            Stage::SyncFile => Action::SyncFile,
            Stage::Rename => Action::Rename { from: self.temp_path(), to: self.final_path() },
            Stage::OpenDir => Action::OpenDir { path: self.storage_dir.clone() },
            Stage::SyncDir => Action::SyncDir,
            Stage::MeasureFinal => Action::Measure { path: self.final_path() },
            Stage::RemoveTemp => match self.doomed() {
                Some(path) => Action::Remove { path: path.to_owned() },
                None => Action::Finish,
            },
            Stage::Stored | Stage::Failed => Action::Finish,
        }
    }

    /// Takes in how the last action went.
    pub fn step(&mut self, reply: Reply)
        ensures
            final(self)@ == old(self)@.after(reply),
            old(self)@.wf() ==> final(self)@.wf(),
            old(self)@.stage is ReadCmdline || old(self)@.stage is ReadComm ==> match reply.bytes() {
                Some(bytes) => procfs::decodes_as_it_stands(bytes),
                None => true,
            },
    {
        if !self.stage.takes(&reply) {
            self.failed_at = Some(self.stage);
            self.stage = if self.doomed().is_some() {
                Stage::RemoveTemp
            } else {
                Stage::Failed
            };
            return;
        }
        match self.stage {
            Stage::ReadExecutable => {
                self.build_id = build_id::parse_executable_build_id(reply.as_bytes());
            },
            Stage::ReadCmdline => {
                self.cmdline = procfs::read_proc_string("cmdline", reply.as_bytes());
            },
            Stage::ReadComm => {
                self.comm = procfs::read_proc_string("comm", reply.as_bytes());
            },
            Stage::ReadClock => {
                self.nanos = reply.as_nanos();
            },
            Stage::CreateTemp => {
                self.guard = Some(TempGuard::new(self.temp_path()));
            },
            Stage::Stream => {
                self.bytes_in = reply.as_count();
            },
            Stage::SyncDir => {
                if let Some(guard) = &mut self.guard {
                    guard.disarm();
                }
            },
            Stage::MeasureFinal => {
                self.bytes_out = reply.as_count();
            },
            _ => {},
        }
        self.stage = self.stage.following();
    }

    /// The stored dump, once it is stored.
    pub fn stored(&self) -> (r: Option<StoredDump>)
        ensures
            r is Some <==> self@.stage == Stage::Stored,
            r matches Some(dump) ==> {
                &&& dump.path@ == self@.final_path()
                &&& dump.bytes_in == self@.bytes_in
                &&& dump.bytes_out == self@.bytes_out
                &&& text::text_of(dump.build_id) == self@.build_id
                &&& text::text_of(dump.cmdline) == self@.cmdline
                &&& text::text_of(dump.comm) == self@.comm
            },
    {
        match self.stage {
            Stage::Stored => Some(
                StoredDump {
                    path: self.final_path(),
                    bytes_in: self.bytes_in,
                    bytes_out: self.bytes_out,
                    build_id: self.build_id.clone(),
                    cmdline: self.cmdline.clone(),
                    comm: self.comm.clone(),
                },
            ),
            _ => None,
        }
    }

    /// What went wrong, once something did.
    pub fn failure(&self) -> (r: Option<String>)
        ensures
            text::text_of(r) == match self@.failed_at {
                Some(stage) => Some(self@.context(stage)),
                None => None,
            },
    {
        match self.failed_at {
            Some(stage) => Some(self.context(stage)),
            None => None,
        }
    }

    fn context(&self, stage: Stage) -> (r: String)
        ensures
            r@ == self@.context(stage),
    {
        match stage {
            Stage::CreateDir => "creating storage directory ".to_owned().concat(
                self.storage_dir.as_str(),
            ),
            Stage::RestrictDir => "setting permissions on ".to_owned().concat(
                self.storage_dir.as_str(),
            ),
            Stage::CreateTemp => "creating temp file ".to_owned().concat(
                self.temp_path().as_str(),
            ),
            Stage::OpenEncoder => "creating zstd encoder".to_owned(),
            Stage::Stream => "streaming core dump through zstd encoder".to_owned(),
            Stage::FinishEncoder => "finishing zstd encoding".to_owned(),
            Stage::SyncFile => "fsync of core dump".to_owned(),
            Stage::Rename => "renaming temp file to ".to_owned().concat(
                self.final_path().as_str(),
            ),
            Stage::OpenDir => "opening storage dir for fsync".to_owned(),
            Stage::SyncDir => "fsync of storage directory".to_owned(),
            _ => "".to_owned(),
        }
    }
}

/// The stage that a run reaches after `n` accepted replies.
pub open spec fn stage_at(n: int) -> Stage
    decreases n,
{
    if n <= 0 {
        Stage::ReadExecutable
    } else {
        stage_at(n - 1).next()
    }
}

/// Whether each reply was accepted by the stage that it answered.
pub open spec fn all_accepted(replies: Seq<Reply>) -> bool {
    forall|i: int| 0 <= i < replies.len() ==> stage_at(i).accepts(#[trigger] replies[i])
}

/// Whether the reply at `k` is the first that was not accepted.
pub open spec fn first_refused(replies: Seq<Reply>, k: int) -> bool {
    &&& 0 <= k < replies.len()
    &&& all_accepted(replies.take(k))
    &&& !stage_at(k).accepts(replies[k])
}

pub(crate) proof fn lemma_stages()
    ensures
        stage_at(0) == Stage::ReadExecutable,
        stage_at(1) == Stage::ReadCmdline,
        stage_at(2) == Stage::ReadComm,
        stage_at(3) == Stage::CreateDir,
        stage_at(4) == Stage::RestrictDir,
        stage_at(5) == Stage::ReadClock,
        stage_at(6) == Stage::CreateTemp,
        stage_at(7) == Stage::OpenEncoder,
        stage_at(8) == Stage::Stream,
        stage_at(9) == Stage::FinishEncoder,
        stage_at(10) == Stage::SyncFile,
        stage_at(11) == Stage::Rename,
        stage_at(12) == Stage::OpenDir,
        stage_at(13) == Stage::SyncDir,
        stage_at(14) == Stage::MeasureFinal,
        stage_at(15) == Stage::Stored,
{
    reveal_with_fuel(stage_at, 16);
}

pub(crate) proof fn lemma_stored_stays(n: int)
    requires
        n >= 15,
    ensures
        stage_at(n) == Stage::Stored,
    decreases n,
{
    lemma_stages();
    if n > 15 {
        lemma_stored_stays(n - 1);
    }
}

/// The stage of a run determines how many replies brought it there.
proof fn lemma_stage_at_unique(n: int)
    requires
        n >= 0,
    ensures
        stage_at(n) !is RemoveTemp && stage_at(n) !is Failed,
        stage_at(n) is Stored <==> n >= 15,
        forall|m: int| 0 <= m < 15 && #[trigger] stage_at(m) == stage_at(n) ==> m == n,
{
    lemma_stages();
    if n >= 15 {
        lemma_stored_stays(n);
    }
}

proof fn lemma_find_refused(replies: Seq<Reply>) -> (k: int)
    ensures
        all_accepted(replies) || first_refused(replies, k),
    decreases replies.len(),
{
    if replies.len() == 0 {
        0
    } else {
        let init = replies.drop_last();
        let n = replies.len() - 1;
        let k = lemma_find_refused(init);
        if all_accepted(init) {
            assert(replies.take(n) == init);
            assert(forall|i: int| 0 <= i < n ==> init[i] == #[trigger] replies[i]);
            n
        } else {
            assert(replies.take(k) == init.take(k));
            k
        }
    }
}

/// A run goes through its stages in order for as long as every reply is accepted.
pub proof fn law_run_goes_on(start: RecorderState, replies: Seq<Reply>)
    requires
        start.fresh(),
        all_accepted(replies),
    ensures
        start.after_all(replies).stage == stage_at(replies.len() as int),
        start.after_all(replies).failed_at is None,
        start.after_all(replies).wf(),
    decreases replies.len(),
{
    if replies.len() > 0 {
        let init = replies.drop_last();
        assert(forall|i: int| 0 <= i < init.len() ==> init[i] == #[trigger] replies[i]);
        law_run_goes_on(start, init);
        assert(stage_at(replies.len() - 1).accepts(replies[replies.len() - 1]));
        lemma_stage_at_unique(replies.len() - 1);
    }
}

/// A run whose reply at `k` is the first that is not accepted has failed at that stage. It
/// removes the temporary file next if there was one by then, and has ended otherwise.
pub proof fn law_run_fails(start: RecorderState, replies: Seq<Reply>, k: int)
    requires
        start.fresh(),
        first_refused(replies, k),
    ensures
        start.after_all(replies).failed_at == Some(stage_at(k)),
        start.after_all(replies).stage == if 7 <= k <= 13 && replies.len() == k + 1 {
            Stage::RemoveTemp
        } else {
            Stage::Failed
        },
        start.after_all(replies).wf(),
    decreases replies.len(),
{
    let init = replies.drop_last();
    if k == replies.len() - 1 {
        assert(init == replies.take(k));
        law_run_goes_on(start, init);
        lemma_stages();
        lemma_stage_at_unique(k);
        if k >= 15 {
            lemma_stored_stays(k);
        }
    } else {
        assert(init.take(k) == replies.take(k));
        law_run_fails(start, init, k);
    }
}

/// A dump counts as stored if and only if every action up to the last has succeeded, or was
/// one that need not.
pub proof fn law_stored_iff_all_accepted(start: RecorderState, replies: Seq<Reply>)
    requires
        start.fresh(),
    ensures
        start.after_all(replies).stage is Stored <==> replies.len() >= 15 && all_accepted(replies),
{
    let k = lemma_find_refused(replies);
    if all_accepted(replies) {
        law_run_goes_on(start, replies);
        lemma_stage_at_unique(replies.len() as int);
    } else {
        law_run_fails(start, replies, k);
    }
}

/// The dump gets its name only after its bytes were copied, encoded and brought to the disk.
pub proof fn law_rename_after_sync(start: RecorderState, replies: Seq<Reply>)
    requires
        start.fresh(),
        start.after_all(replies).action() is Rename,
    ensures
        replies.len() == 11,
        replies[8] is Count,
        replies[9] is Done,
        replies[10] is Done,
{
    lemma_stages();
    let k = lemma_find_refused(replies);
    if all_accepted(replies) {
        law_run_goes_on(start, replies);
        lemma_stage_at_unique(replies.len() as int);
        assert(stage_at(8).accepts(replies[8]));
        assert(stage_at(9).accepts(replies[9]));
        assert(stage_at(10).accepts(replies[10]));
    } else {
        law_run_fails(start, replies, k);
    }
}

/// A stored dump was renamed, and its name was brought to the disk.
pub proof fn law_stored_is_durable(start: RecorderState, replies: Seq<Reply>)
    requires
        start.fresh(),
        start.after_all(replies).stage is Stored,
    ensures
        replies.len() >= 15,
        start.after_all(replies.take(11)).action() is Rename,
        replies[11] is Done,
        start.after_all(replies.take(13)).action() is SyncDir,
        replies[13] is Done,
{
    law_stored_iff_all_accepted(start, replies);
    lemma_stages();
    lemma_prefix_accepted(replies, 11);
    lemma_prefix_accepted(replies, 13);
    law_run_goes_on(start, replies.take(11));
    law_run_goes_on(start, replies.take(13));
    assert(stage_at(11).accepts(replies[11]));
    assert(stage_at(13).accepts(replies[13]));
}

pub(crate) proof fn lemma_prefix_accepted(replies: Seq<Reply>, n: int)
    requires
        all_accepted(replies),
        0 <= n <= replies.len(),
    ensures
        all_accepted(replies.take(n)),
{
    assert(forall|i: int| 0 <= i < n ==> replies.take(n)[i] == #[trigger] replies[i]);
}

/// A run that created its temporary file and then failed has asked for its removal.
pub proof fn law_no_temp_left(start: RecorderState, replies: Seq<Reply>)
    requires
        start.fresh(),
        start.after_all(replies).stage is Failed,
        replies.len() > 6,
        start.after_all(replies.take(6)).action() is CreateNew,
        replies[6] is Done,
    ensures
        exists|i: int|
            7 < i < replies.len() && (#[trigger] start.after_all(replies.take(i))).action()
                == (ActionSpec::Remove { path: start.after_all(replies.take(6)).temp_path() }),
{
    lemma_stages();
    let k = lemma_find_refused(replies);
    if all_accepted(replies) {
        law_run_goes_on(start, replies);
        lemma_stage_at_unique(replies.len() as int);
    } else {
        law_run_fails(start, replies, k);
        if k < 6 {
            assert(first_refused(replies.take(6), k)) by {
                assert(replies.take(6).take(k) == replies.take(k));
            }
            law_run_fails(start, replies.take(6), k);
        } else if k >= 14 {
            if k >= 15 {
                lemma_stored_stays(k);
            }
        } else {
            let t = replies.take(k + 1);
            assert(first_refused(t, k)) by {
                assert(t.take(k) == replies.take(k));
            }
            law_run_fails(start, t, k);
            assert(replies.take(6) == t.take(6));
            lemma_same_temp_path(start, t);
            assert(replies.len() > k + 1) by {
                if replies.len() == k + 1 {
                    assert(t == replies);
                }
            }
            assert(start.after_all(replies.take(k + 1)).action() == (ActionSpec::Remove {
                path: start.after_all(replies.take(6)).temp_path(),
            }));
        }
    }
}

/// From the sixth reply on, the clock has been read and the paths stay.
pub(crate) proof fn lemma_same_temp_path(start: RecorderState, replies: Seq<Reply>)
    requires
        start.fresh(),
        replies.len() >= 6,
    ensures
        start.after_all(replies).temp_path() == start.after_all(replies.take(6)).temp_path(),
    decreases replies.len(),
{
    law_parameters_stay(start, replies);
    law_parameters_stay(start, replies.take(6));
    if replies.len() == 6 {
        assert(replies.take(6) == replies);
    } else {
        let init = replies.drop_last();
        assert(init.take(6) == replies.take(6));
        lemma_same_temp_path(start, init);
        law_parameters_stay(start, init);
        lemma_clock_read_once(start, init);
    }
}

proof fn lemma_clock_read_once(start: RecorderState, replies: Seq<Reply>)
    requires
        start.fresh(),
        replies.len() >= 6,
    ensures
        start.after_all(replies).stage !is ReadClock,
{
    lemma_stages();
    let k = lemma_find_refused(replies);
    if all_accepted(replies) {
        law_run_goes_on(start, replies);
        lemma_stage_at_unique(replies.len() as int);
    } else {
        law_run_fails(start, replies, k);
    }
}

/// A run removes no file but the temporary file that it created itself.
pub proof fn law_removes_only_own_temp(start: RecorderState, replies: Seq<Reply>, path: Seq<char>)
    requires
        start.fresh(),
        start.after_all(replies).action() == (ActionSpec::Remove { path }),
    ensures
        replies.len() > 6,
        start.after_all(replies.take(6)).action() == (ActionSpec::CreateNew {
            path,
            mode: FILE_MODE,
        }),
        replies[6] is Done,
{
    lemma_stages();
    let k = lemma_find_refused(replies);
    if all_accepted(replies) {
        law_run_goes_on(start, replies);
        lemma_stage_at_unique(replies.len() as int);
    } else {
        law_run_fails(start, replies, k);
        assert(replies.take(k)[6] == replies[6]);
        assert(stage_at(6).accepts(replies[6]));
        lemma_prefix_accepted(replies.take(k), 6);
        assert(replies.take(k).take(6) == replies.take(6));
        law_run_goes_on(start, replies.take(6));
        lemma_same_temp_path(start, replies);
    }
}

/// Whatever a run asks to create or to change is for its owner only.
pub proof fn law_private(s: RecorderState)
    ensures
        s.action() matches ActionSpec::CreateNew { mode, .. } ==> mode == 0o600,
        s.action() matches ActionSpec::CreateDir { mode, .. } ==> mode == 0o700,
        s.action() matches ActionSpec::SetMode { mode, .. } ==> mode == 0o700,
{
}

/// The file that is renamed is the one that was created, and the stored dump is where it was
/// renamed to.
pub proof fn law_renames_what_it_created(start: RecorderState, replies: Seq<Reply>)
    requires
        start.fresh(),
        start.after_all(replies).stage is Stored,
    ensures
        ({
            let end = start.after_all(replies);
            &&& start.after_all(replies.take(6)).action() == (ActionSpec::CreateNew {
                path: end.temp_path(),
                mode: FILE_MODE,
            })
            &&& start.after_all(replies.take(11)).action() == (ActionSpec::Rename {
                from: end.temp_path(),
                to: end.final_path(),
            })
        }),
{
    law_stored_iff_all_accepted(start, replies);
    lemma_stages();
    lemma_prefix_accepted(replies, 6);
    lemma_prefix_accepted(replies, 11);
    law_run_goes_on(start, replies.take(6));
    law_run_goes_on(start, replies.take(11));
    law_stored_tells_replies(start, replies);
    law_stored_tells_replies(start, replies.take(6));
    law_stored_tells_replies(start, replies.take(11));
    law_parameters_stay(start, replies);
    law_parameters_stay(start, replies.take(6));
    law_parameters_stay(start, replies.take(11));
}

/// No reply changes whose dump is stored, or where and how.
pub proof fn law_parameters_stay(start: RecorderState, replies: Seq<Reply>)
    ensures
        ({
            let end = start.after_all(replies);
            &&& end.pid == start.pid
            &&& end.timestamp == start.timestamp
            &&& end.exe_path == start.exe_path
            &&& end.storage_dir == start.storage_dir
            &&& end.max_core_size == start.max_core_size
            &&& end.zstd_level == start.zstd_level
        }),
    decreases replies.len(),
{
    if replies.len() > 0 {
        law_parameters_stay(start, replies.drop_last());
    }
}

/// What a stored dump says of itself is what the actions told: the executable's bytes, the
/// process's /proc entries, the clock, the bytes copied and the bytes on the disk.
pub proof fn law_stored_tells_replies(start: RecorderState, replies: Seq<Reply>)
    requires
        start.fresh(),
        all_accepted(replies),
    ensures
        ({
            let end = start.after_all(replies);
            let n = replies.len();
            &&& n > 0 ==> end.build_id == build_id::executable_build_id(replies[0].bytes())
            &&& n > 1 ==> end.cmdline == procfs::proc_string("cmdline"@, replies[1].bytes())
            &&& n > 2 ==> end.comm == procfs::proc_string("comm"@, replies[2].bytes())
            &&& n > 5 ==> end.nanos == replies[5].nanos()
            &&& n > 8 ==> end.bytes_in == replies[8].count()
            &&& n > 14 ==> end.bytes_out == replies[14].count()
        }),
    decreases replies.len(),
{
    if replies.len() > 0 {
        lemma_stages();
        let init = replies.drop_last();
        lemma_prefix_accepted(replies, init.len() as int);
        assert(replies.take(init.len() as int) == init);
        law_stored_tells_replies(start, init);
        law_run_goes_on(start, init);
        lemma_stage_at_unique(init.len() as int);
    }
}

/// However a run goes, no more of the dump is asked for than the configuration allows.
pub proof fn law_stream_is_capped(start: RecorderState, replies: Seq<Reply>)
    ensures
        start.after_all(replies).action() matches ActionSpec::Stream { limit } ==> limit
            == start.max_core_size,
{
    law_parameters_stay(start, replies);
}

/// The part of a core dump that is stored under a limit: all of it, or as many of its first
/// bytes as the limit allows.
pub open spec fn stored_part(input: Seq<u8>, limit: u64) -> Seq<u8> {
    if input.len() <= limit {
        input
    } else {
        input.take(limit as int)
    }
}

/// Whether a reply to the copying of this core dump, if it is one, tells the number of bytes
/// that the part to be stored has. Any other reply is free.
pub open spec fn tells_copied(action: ActionSpec, input: Seq<u8>, reply: Reply) -> bool {
    match (action, reply) {
        (ActionSpec::Stream { limit }, Reply::Count(n)) => n == stored_part(input, limit).len(),
        _ => true,
    }
}

/// A stored dump holds as much of the input as the configuration allows: where the copying
/// tells the number of bytes that it copied, that number is the smaller one of the input's
/// size and the limit, and the dump is suspected to be truncated if and only if the input
/// reached the limit. Too long an input is no failure.
pub proof fn law_stored_size(start: RecorderState, replies: Seq<Reply>, input: Seq<u8>)
    requires
        start.fresh(),
        start.after_all(replies).stage is Stored,
        forall|i: int|
            0 <= i < replies.len() ==> tells_copied(
                (#[trigger] start.after_all(replies.take(i))).action(),
                input,
                replies[i],
            ),
    ensures
        ({
            let end = start.after_all(replies);
            let part = stored_part(input, start.max_core_size);
            &&& end.bytes_in == part.len()
            &&& part.is_prefix_of(input)
            &&& end.bytes_in == if input.len() <= start.max_core_size {
                input.len() as int
            } else {
                start.max_core_size as int
            }
            &&& metadata::at_limit(end.bytes_in, end.max_core_size) <==> input.len()
                >= start.max_core_size
            &&& end.bytes_in < end.max_core_size ==> part == input
        }),
{
    law_stored_iff_all_accepted(start, replies);
    law_parameters_stay(start, replies);
    let limit = start.max_core_size;
    let action = start.after_all(replies.take(8)).action();
    assert(action == (ActionSpec::Stream { limit })) by {
        lemma_stages();
        lemma_prefix_accepted(replies, 8);
        law_run_goes_on(start, replies.take(8));
        law_stream_is_capped(start, replies.take(8));
    }
    assert(replies[8] is Count) by {
        lemma_stages();
        assert(stage_at(8).accepts(replies[8]));
    }
    assert(start.after_all(replies).bytes_in == replies[8].count()) by {
        law_stored_tells_replies(start, replies);
    }
    assert(tells_copied(action, input, replies[8]));
}

/// What a reply brought, and nothing where it is of another kind.
pub proof fn law_reply_contents(bytes: Vec<u8>, nanos: u32, count: u64, reply: Reply)
    ensures
        Reply::Bytes(bytes).bytes() == Some(bytes@),
        Reply::Nanos(nanos).nanos() == nanos,
        Reply::Count(count).count() == count,
        reply !is Bytes ==> reply.bytes() is None,
        reply !is Nanos ==> reply.nanos() == 0,
        reply !is Count ==> reply.count() == 0,
{
}

/// Whether a reply lets the run go on: the three readings, the clock and the final size may
/// fail, the copying must tell how much it copied, and every other action must succeed.
spec fn good_reply(i: int, reply: Reply) -> bool {
    if i <= 2 || i == 5 || i >= 14 {
        true
    } else if i == 8 {
        reply is Count
    } else {
        reply is Done
    }
}

proof fn lemma_good_reply(i: int, reply: Reply)
    requires
        0 <= i,
    ensures
        stage_at(i).accepts(reply) == good_reply(i, reply),
{
    lemma_stages();
    if i >= 15 {
        lemma_stored_stays(i);
    }
}

/// A run goes on by what its actions gave, by their place in the run: the first three, the sixth
/// and those from the fifteenth on may fail, the ninth must tell how much it copied, and every
/// other must succeed.
pub proof fn law_goes_on_by_replies(replies: Seq<Reply>)
    ensures
        all_accepted(replies) <==> {
            &&& replies.len() > 8 ==> replies[8] is Count
            &&& forall|i: int|
                3 <= i < 14 && i < replies.len() && i != 5 && i != 8 ==> #[trigger] replies[
                    i
                ] is Done
        },
{
    assert forall|i: int| 0 <= i < replies.len() implies stage_at(i).accepts(
        #[trigger] replies[i],
    ) == good_reply(i, replies[i]) by {
        lemma_good_reply(i, replies[i]);
    }
    if all_accepted(replies) {
        assert forall|i: int|
            3 <= i < 14 && i < replies.len() && i != 5 && i != 8 implies #[trigger] replies[
            i
        ] is Done by {
            assert(stage_at(i).accepts(replies[i]));
        }
        if replies.len() > 8 {
            assert(stage_at(8).accepts(replies[8]));
        }
    }
}

/// A run can fail only at an action that must succeed, and fails there exactly if that action
/// did not.
pub proof fn law_fails_by_reply(replies: Seq<Reply>, k: int)
    requires
        0 <= k < replies.len(),
        all_accepted(replies.take(k)),
    ensures
        first_refused(replies, k) <==> {
            &&& 3 <= k <= 13 && k != 5
            &&& k == 8 ==> replies[k] !is Count
            &&& k != 8 ==> replies[k] !is Done
        },
{
    lemma_good_reply(k, replies[k]);
}

/// The actions of a run, in their order and with their arguments: the executable up to one byte
/// more than is searched, the two entries of the process, the directory, the clock, the
/// temporary file in the directory, the encoding up to the limit, the disk, the name of the dump
/// in the same directory, the disk again, and the size. A fresh run with `n` good replies is at
/// its action number `n`.
pub proof fn law_actions_in_order(start: RecorderState, replies: Seq<Reply>)
    requires
        start.fresh(),
        all_accepted(replies),
    ensures
        ({
            let n = replies.len();
            let end = start.after_all(replies);
            let dir = start.storage_dir;
            let pid = start.pid as nat;
            let nanos = if n > 5 {
                replies[5].nanos()
            } else {
                0
            };
            let name = naming::dump_name(pid, start.timestamp as nat, nanos as nat);
            let dump = naming::joined(dir, name);
            let temp = naming::joined(dir, naming::temp_name(name));
            let action = end.action();
            &&& n == 0 ==> action == (ActionSpec::ReadFile {
                path: start.exe_path,
                cap: Some(67108865),
            })
            &&& n == 1 ==> action == (ActionSpec::ReadFile {
                path: procfs::proc_path_spec(pid, "cmdline"@),
                cap: None,
            })
            &&& n == 2 ==> action == (ActionSpec::ReadFile {
                path: procfs::proc_path_spec(pid, "comm"@),
                cap: None,
            })
            &&& n == 3 ==> action == (ActionSpec::CreateDir { path: dir, mode: 0o700 })
            &&& n == 4 ==> action == (ActionSpec::SetMode { path: dir, mode: 0o700 })
            &&& n == 5 ==> action is ReadClock
            &&& n == 6 ==> action == (ActionSpec::CreateNew { path: temp, mode: 0o600 })
            &&& n == 7 ==> action == (ActionSpec::OpenEncoder { level: start.zstd_level })
            &&& n == 8 ==> action == (ActionSpec::Stream { limit: start.max_core_size })
            &&& n == 9 ==> action is FinishEncoder
            &&& n == 10 ==> action is SyncFile
            &&& n == 11 ==> action == (ActionSpec::Rename { from: temp, to: dump })
            &&& n == 12 ==> action == (ActionSpec::OpenDir { path: dir })
            &&& n == 13 ==> action is SyncDir
            &&& n == 14 ==> action == (ActionSpec::Measure { path: dump })
            &&& n >= 15 ==> action is Finish && end.stage is Stored
            &&& n < 15 ==> end.stage !is Stored
            &&& end.failed_at is None
            &&& n > 5 ==> end.final_path() == dump && end.temp_path() == temp
        }),
{
    law_run_goes_on(start, replies);
    law_parameters_stay(start, replies);
    law_stored_tells_replies(start, replies);
    lemma_stages();
    let n = replies.len() as int;
    if n >= 15 {
        lemma_stored_stays(n);
    }
    if n == 5 {
        assert(start.after_all(replies).stage is ReadClock);
    }
}

/// A stored dump lies in the storage directory itself, under the name that tells its PID, its
/// crash time and the nanoseconds that the clock gave: the directory, one separator, and that
/// name.
pub proof fn law_stored_path(start: RecorderState, replies: Seq<Reply>)
    requires
        start.fresh(),
        start.after_all(replies).stage is Stored,
    ensures
        ({
            let path = start.after_all(replies).final_path();
            let dir = start.storage_dir;
            let name = naming::dump_name(
                start.pid as nat,
                start.timestamp as nat,
                replies[5].nanos() as nat,
            );
            &&& dir.len() > 0 && dir.last() != '/' ==> path == dir + seq!['/'] + name
            &&& dir.len() > 0 && dir.last() == '/' ==> path == dir + name
            &&& !name.contains('/')
        }),
{
    law_stored_iff_all_accepted(start, replies);
    law_actions_in_order(start, replies);
    let name = naming::dump_name(
        start.pid as nat,
        start.timestamp as nat,
        replies[5].nanos() as nat,
    );
    naming::law_names_stay_in_directory(
        start.storage_dir,
        start.pid as nat,
        start.timestamp as nat,
        replies[5].nanos() as nat,
    );
    naming::law_entry_path(start.storage_dir, name);
}

/// A run that fails once its temporary file exists asks next to remove that file, and then
/// nothing more; one that fails before asks nothing more at once. It reports the action that
/// failed, and stores nothing.
pub proof fn law_failure_in_order(start: RecorderState, replies: Seq<Reply>, k: int)
    requires
        start.fresh(),
        first_refused(replies, k),
    ensures
        ({
            let end = start.after_all(replies);
            let name = naming::dump_name(
                start.pid as nat,
                start.timestamp as nat,
                replies[5].nanos() as nat,
            );
            let temp = naming::joined(start.storage_dir, naming::temp_name(name));
            &&& end.stage !is Stored
            &&& end.failed_at == Some(stage_at(k))
            &&& k >= 7 && replies.len() == k + 1 ==> end.action() == (ActionSpec::Remove {
                path: temp,
            })
            &&& k < 7 || replies.len() > k + 1 ==> end.action() is Finish
        }),
{
    law_run_fails(start, replies, k);
    law_fails_by_reply(replies, k);
    if k >= 7 && replies.len() == k + 1 {
        let six = replies.take(6);
        assert(replies.take(k).take(6) == six);
        lemma_prefix_accepted(replies.take(k), 6);
        law_actions_in_order(start, six);
        assert(six[5] == replies[5]);
        lemma_same_temp_path(start, replies);
    }
}

/// What a failure is reported as, by the place of the action that failed.
pub proof fn law_failure_text(start: RecorderState, replies: Seq<Reply>, k: int)
    requires
        start.fresh(),
        first_refused(replies, k),
    ensures
        ({
            let end = start.after_all(replies);
            let dir = start.storage_dir;
            let name = naming::dump_name(
                start.pid as nat,
                start.timestamp as nat,
                replies[5].nanos() as nat,
            );
            let said = end.context(end.failed_at->0);
            &&& end.failed_at is Some
            &&& k == 3 ==> said == "creating storage directory "@ + dir
            &&& k == 4 ==> said == "setting permissions on "@ + dir
            &&& k == 6 ==> said == "creating temp file "@ + naming::joined(
                dir,
                naming::temp_name(name),
            )
            &&& k == 7 ==> said == "creating zstd encoder"@
            &&& k == 8 ==> said == "streaming core dump through zstd encoder"@
            &&& k == 9 ==> said == "finishing zstd encoding"@
            &&& k == 10 ==> said == "fsync of core dump"@
            &&& k == 11 ==> said == "renaming temp file to "@ + naming::joined(dir, name)
            &&& k == 12 ==> said == "opening storage dir for fsync"@
            &&& k == 13 ==> said == "fsync of storage directory"@
        }),
{
    law_run_fails(start, replies, k);
    law_parameters_stay(start, replies);
    lemma_stages();
    if k >= 6 {
        let six = replies.take(6);
        assert(replies.take(k).take(6) == six);
        lemma_prefix_accepted(replies.take(k), 6);
        law_actions_in_order(start, six);
        assert(six[5] == replies[5]);
        lemma_same_nanos(start, replies);
    }
}

/// From the sixth reply on, the clock has been read.
proof fn lemma_same_nanos(start: RecorderState, replies: Seq<Reply>)
    requires
        start.fresh(),
        replies.len() >= 6,
    ensures
        start.after_all(replies).nanos == start.after_all(replies.take(6)).nanos,
    decreases replies.len(),
{
    if replies.len() == 6 {
        assert(replies.take(6) == replies);
    } else {
        let init = replies.drop_last();
        assert(init.take(6) == replies.take(6));
        lemma_same_nanos(start, init);
        lemma_clock_read_once(start, init);
    }
}

/// What an action says is what it holds: its texts character by character, and its numbers.
pub proof fn law_action_says_what_it_holds(a: Action)
    ensures
        match a {
            Action::ReadFile { path, cap } => a@ == (ActionSpec::ReadFile { path: path@, cap }),
            Action::CreateDir { path, mode } => a@ == (ActionSpec::CreateDir { path: path@, mode }),
            Action::SetMode { path, mode } => a@ == (ActionSpec::SetMode { path: path@, mode }),
            Action::ReadClock => a@ is ReadClock,
            Action::CreateNew { path, mode } => a@ == (ActionSpec::CreateNew { path: path@, mode }),
            Action::OpenEncoder { level } => a@ == (ActionSpec::OpenEncoder { level }),
            Action::Stream { limit } => a@ == (ActionSpec::Stream { limit }),
            Action::FinishEncoder => a@ is FinishEncoder,
            Action::SyncFile => a@ is SyncFile,
            Action::Rename { from, to } => a@ == (ActionSpec::Rename { from: from@, to: to@ }),
            Action::OpenDir { path } => a@ == (ActionSpec::OpenDir { path: path@ }),
            Action::SyncDir => a@ is SyncDir,
            Action::Measure { path } => a@ == (ActionSpec::Measure { path: path@ }),
            Action::Remove { path } => a@ == (ActionSpec::Remove { path: path@ }),
            Action::Finish => a@ is Finish,
        },
{
}

} // verus!
