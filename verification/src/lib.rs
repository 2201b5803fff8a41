//! Voyage Data Recorder: the logic of a Linux core dump handler.
//!
//! - [`metadata`]: what is known about a crash, and where dumps go
//! - [`recorder`]: how a dump is stored, with [`naming`] and [`guard`]
//! - [`disk`]: what is on the disk once a dump is stored
//! - [`journal`]: what the log gets to see
//! - [`build_id`]: the build ID of the crashed executable
//! - [`procfs`]: what /proc says of the crashed process
//! - [`connection`]: whose coredump connection is served
//! - [`pidfd`]: what the kernel says of the peer of a coredump connection
//! - [`startup`]: what must hold before the socket daemon serves
//! - [`accept_loop`]: the accept loop of the socket daemon, with [`poll`]
//! - [`text`] and [`number`]: text primitives
//!
//! File system, sockets, threads and system calls are left to the programs that use the
//! library.
pub mod accept_loop;
pub mod build_id;
pub mod connection;
pub mod disk;
pub mod guard;
pub mod journal;
pub mod metadata;
pub mod naming;
pub mod number;
pub mod pidfd;
pub mod poll;
pub mod procfs;
pub mod recorder;
pub mod startup;
pub mod text;

pub use build_id::{build_id_from_bytes, parse_executable_build_id};
pub use guard::TempGuard;
pub use metadata::{
    CrashMetadata, CrashReport, StorageConfig, StoredDump, MAX_CORE_SIZE, STORAGE_DIR, ZSTD_LEVEL,
};
pub use pidfd::PidfdInfo;
pub use procfs::{read_proc_string, resolve_exe_path};
pub use recorder::Recorder;
pub use text::truncate_for_log;
