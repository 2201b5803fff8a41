//! What the disk holds when a recorder's actions are carried out.
//!
//! The library touches no file itself. This module says what it means to carry out the actions
//! that a [`crate::recorder::Recorder`] asks for, and states what is then on the disk.
use vstd::prelude::*;

use crate::naming;
use crate::recorder::{
    self, all_accepted, first_refused, stage_at, stored_part, ActionSpec, RecorderState, Reply,
};

verus! {

/// The surroundings of a run.
pub struct Disk {
    /// The contents, by path, of the files that nobody but the run changes.
    pub files: Map<Seq<char>, Seq<u8>>,
    /// The file that is open for writing.
    pub open: Option<Seq<char>>,
    /// What was copied into the encoder.
    pub copied: Seq<u8>,
    /// What the reader of the core dump still has.
    pub unread: Seq<u8>,
}

/// Nothing changed but the contents of the open file.
pub open spec fn writes_open(before: Disk, after: Disk) -> bool {
    &&& after.open == before.open
    &&& match before.open {
        Some(path) => {
            &&& after.files.contains_key(path) <==> before.files.contains_key(path)
            &&& after.files.remove(path) == before.files.remove(path)
        },
        None => after.files == before.files,
    }
}

/// Whether the action, with the reply that it got, can have changed the surroundings like
/// this. A failed write leaves anything in the open file; any other failure changes nothing.
/// A finished encoding is one that `decode` turns back into the bytes that were copied.
pub open spec fn carries_out(
    before: Disk,
    action: ActionSpec,
    reply: Reply,
    after: Disk,
    decode: spec_fn(Seq<u8>) -> Option<Seq<u8>>,
) -> bool {
    match action {
        ActionSpec::CreateNew { path, .. } => if reply is Done {
            &&& !before.files.contains_key(path)
            &&& after == Disk {
                files: before.files.insert(path, Seq::empty()),
                open: Some(path),
                ..before
            }
        } else {
            after == before
        },
        ActionSpec::OpenEncoder { .. } => {
            &&& writes_open(before, after)
            &&& after.unread == before.unread
            &&& reply is Done ==> after.copied == Seq::<u8>::empty()
        },
        ActionSpec::Stream { limit } => {
            &&& writes_open(before, after)
            &&& reply matches Reply::Count(n) ==> {
                let part = stored_part(before.unread, limit);
                &&& n == part.len()
                &&& after.copied == before.copied + part
                &&& after.unread == before.unread.skip(part.len() as int)
            }
        },
        ActionSpec::FinishEncoder => {
            &&& writes_open(before, after)
            &&& after.copied == before.copied
            &&& after.unread == before.unread
            &&& reply is Done ==> (before.open matches Some(path) && decode(after.files[path])
                == Some(before.copied))
        },
        ActionSpec::Rename { from, to } => if reply is Done {
            &&& before.files.contains_key(from)
            &&& after == Disk {
                files: before.files.remove(from).insert(to, before.files[from]),
                ..before
            }
        } else {
            after == before
        },
        ActionSpec::Remove { path } => if reply is Done {
            after == Disk { files: before.files.remove(path), ..before }
        } else {
            after == before
        },
        _ => after == before,
    }
}

/// Whether the surroundings are, from reply to reply, what the run's actions made of them.
pub open spec fn carried_out(
    start: RecorderState,
    replies: Seq<Reply>,
    disks: Seq<Disk>,
    decode: spec_fn(Seq<u8>) -> Option<Seq<u8>>,
) -> bool {
    &&& disks.len() == replies.len() + 1
    &&& forall|i: int|
        0 <= i < replies.len() ==> carries_out(
            disks[i],
            (#[trigger] start.after_all(replies.take(i))).action(),
            replies[i],
            disks[i + 1],
            decode,
        )
}

/// The surroundings after `n` accepted replies, for a run that uses the two given paths.
spec fn progress(
    first: Disk,
    now: Disk,
    n: int,
    limit: u64,
    temp: Seq<char>,
    dump: Seq<char>,
    decode: spec_fn(Seq<u8>) -> Option<Seq<u8>>,
) -> bool {
    let part = stored_part(first.unread, limit);
    &&& n <= 6 ==> now == first
    &&& 7 <= n <= 11 ==> {
        &&& !first.files.contains_key(temp)
        &&& now.open == Some(temp)
        &&& now.files.contains_key(temp)
        &&& now.files.remove(temp) == first.files
    }
    &&& n <= 8 ==> now.unread == first.unread
    &&& n == 8 ==> now.copied == Seq::<u8>::empty()
    &&& n >= 9 ==> {
        &&& now.copied == part
        &&& now.unread == first.unread.skip(part.len() as int)
    }
    &&& 10 <= n <= 11 ==> decode(now.files[temp]) == Some(part)
    &&& n >= 12 ==> {
        &&& now.files.contains_key(dump)
        &&& now.files.remove(dump) == first.files.remove(dump)
        &&& decode(now.files[dump]) == Some(part)
    }
}

/// Whether this is the action after `m` accepted replies, with a reply that is accepted.
spec fn step_at(
    m: int,
    action: ActionSpec,
    reply: Reply,
    limit: u64,
    temp: Seq<char>,
    dump: Seq<char>,
) -> bool {
    if m == 6 {
        &&& reply is Done
        &&& action matches ActionSpec::CreateNew { path, .. }
        &&& path == temp
    } else if m == 7 {
        reply is Done && action is OpenEncoder
    } else if m == 8 {
        reply is Count && action == (ActionSpec::Stream { limit })
    } else if m == 9 {
        reply is Done && action is FinishEncoder
    } else if m == 11 {
        reply is Done && action == (ActionSpec::Rename { from: temp, to: dump })
    } else {
        changes_nothing(action)
    }
}

/// The actions that leave the contents of every file alone.
spec fn changes_nothing(action: ActionSpec) -> bool {
    !(action is CreateNew || action is OpenEncoder || action is Stream || action is FinishEncoder
        || action is Rename || action is Remove)
}

proof fn lemma_step_at(start: RecorderState, replies: Seq<Reply>, m: int)
    requires
        start.fresh(),
        0 <= m < replies.len(),
        all_accepted(replies.take(m)),
        stage_at(m).accepts(replies[m]),
    ensures
        step_at(
            m,
            start.after_all(replies.take(m)).action(),
            replies[m],
            start.max_core_size,
            start.after_all(replies.take(6)).temp_path(),
            start.after_all(replies.take(11)).final_path(),
        ),
{
    let state = start.after_all(replies.take(m));
    recorder::law_run_goes_on(start, replies.take(m));
    recorder::law_parameters_stay(start, replies.take(m));
    recorder::lemma_stages();
    if m == 11 {
        recorder::lemma_same_temp_path(start, replies.take(11));
        assert(replies.take(11).take(6) == replies.take(6));
    }
    if m >= 15 {
        recorder::lemma_stored_stays(m);
    }
    assert(state.stage == stage_at(m));
}

proof fn lemma_progress_step(
    first: Disk,
    before: Disk,
    after: Disk,
    m: int,
    action: ActionSpec,
    reply: Reply,
    limit: u64,
    temp: Seq<char>,
    dump: Seq<char>,
    decode: spec_fn(Seq<u8>) -> Option<Seq<u8>>,
)
    requires
        0 <= m,
        progress(first, before, m, limit, temp, dump, decode),
        step_at(m, action, reply, limit, temp, dump),
        carries_out(before, action, reply, after, decode),
    ensures
        progress(first, after, m + 1, limit, temp, dump, decode),
{
    if m == 6 {
        assert(after.files.remove(temp) == first.files);
    } else if m == 11 {
        assert(after.files.remove(dump) == before.files.remove(temp).remove(dump));
    }
}

proof fn lemma_progress(
    start: RecorderState,
    replies: Seq<Reply>,
    disks: Seq<Disk>,
    decode: spec_fn(Seq<u8>) -> Option<Seq<u8>>,
    n: int,
)
    requires
        start.fresh(),
        carried_out(start, replies, disks, decode),
        0 <= n <= replies.len(),
        all_accepted(replies.take(n)),
    ensures
        progress(
            disks[0],
            disks[n],
            n,
            start.max_core_size,
            start.after_all(replies.take(6)).temp_path(),
            start.after_all(replies.take(11)).final_path(),
            decode,
        ),
    decreases n,
{
    if n > 0 {
        let m = n - 1;
        let prefix = replies.take(n);
        assert(prefix[m] == replies[m]);
        recorder::lemma_prefix_accepted(prefix, m);
        assert(prefix.take(m) == replies.take(m));
        lemma_progress(start, replies, disks, decode, m);
        lemma_step_at(start, replies, m);
        lemma_progress_step(
            disks[0],
            disks[m],
            disks[n],
            m,
            start.after_all(replies.take(m)).action(),
            replies[m],
            start.max_core_size,
            start.after_all(replies.take(6)).temp_path(),
            start.after_all(replies.take(11)).final_path(),
            decode,
        );
    }
}

/// What is stored is what was sent: the file of a stored dump decodes to the core dump, or to
/// as many of its first bytes as the configuration allows, and exactly those bytes were taken
/// from the reader. No other file is changed, and no temporary file is left.
pub proof fn law_stored_dump_decodes_to_input(
    start: RecorderState,
    replies: Seq<Reply>,
    disks: Seq<Disk>,
    decode: spec_fn(Seq<u8>) -> Option<Seq<u8>>,
)
    requires
        start.fresh(),
        start.after_all(replies).stage is Stored,
        carried_out(start, replies, disks, decode),
    ensures
        ({
            let end = start.after_all(replies);
            let (first, last) = (disks[0], disks[replies.len() as int]);
            let part = stored_part(first.unread, start.max_core_size);
            &&& end.bytes_in == part.len()
            &&& last.files.contains_key(end.final_path())
            &&& decode(last.files[end.final_path()]) == Some(part)
            &&& last.unread == first.unread.skip(part.len() as int)
            &&& last.files.remove(end.final_path()) == first.files.remove(end.final_path())
            &&& !last.files.contains_key(end.temp_path())
        }),
{
    let n = replies.len() as int;
    recorder::law_stored_iff_all_accepted(start, replies);
    recorder::law_stored_tells_replies(start, replies);
    recorder::law_renames_what_it_created(start, replies);
    assert(replies.take(n) == replies);
    lemma_progress(start, replies, disks, decode, n);
    recorder::lemma_prefix_accepted(replies, 8);
    lemma_progress(start, replies, disks, decode, 8);
    assert(stage_at(8).accepts(replies[8]));
    lemma_step_at(start, replies, 8);
    recorder::lemma_prefix_accepted(replies, 11);
    assert(stage_at(11).accepts(replies[11]));
    lemma_step_at(start, replies, 11);
    let end = start.after_all(replies);
    let (first, last) = (disks[0], disks[n]);
    assert(!last.files.contains_key(end.temp_path())) by {
        recorder::lemma_same_temp_path(start, replies);
        naming::law_names_stay_in_directory(
            end.storage_dir,
            end.pid as nat,
            end.timestamp as nat,
            end.nanos as nat,
        );
        assert(last.files.remove(end.final_path()).contains_key(end.temp_path())
            == first.files.remove(end.final_path()).contains_key(end.temp_path()));
    }
}

/// The files after `j` replies, of which the one at `k` was the first that was not accepted.
proof fn lemma_after_failure(
    start: RecorderState,
    replies: Seq<Reply>,
    disks: Seq<Disk>,
    decode: spec_fn(Seq<u8>) -> Option<Seq<u8>>,
    k: int,
    j: int,
)
    requires
        start.fresh(),
        carried_out(start, replies, disks, decode),
        first_refused(replies, k),
        k <= 11,
        7 <= k && k + 1 < replies.len() ==> replies[k + 1] is Done,
        k < j <= replies.len(),
    ensures
        7 <= k && j == k + 1 ==> disks[j].files.remove(
            start.after_all(replies.take(6)).temp_path(),
        ) == disks[0].files,
        !(7 <= k && j == k + 1) ==> disks[j].files == disks[0].files,
    decreases j,
{
    let temp = start.after_all(replies.take(6)).temp_path();
    let m = j - 1;
    let state = start.after_all(replies.take(m));
    assert(carries_out(disks[m], state.action(), replies[m], disks[j], decode));
    if m == k {
        lemma_progress(start, replies, disks, decode, k);
        recorder::law_run_goes_on(start, replies.take(k));
        recorder::lemma_stages();
        assert(state.stage == stage_at(k));
    } else {
        lemma_after_failure(start, replies, disks, decode, k, m);
        let prefix = replies.take(m);
        assert(prefix.take(k) == replies.take(k));
        assert(first_refused(prefix, k));
        recorder::law_run_fails(start, prefix, k);
        if 7 <= k && m == k + 1 {
            assert(prefix.take(6) == replies.take(6));
            recorder::lemma_same_temp_path(start, prefix);
            assert(state.action() == (ActionSpec::Remove { path: temp }));
        }
    }
}

/// A run that fails before the dump has its name, and whose temporary file, if it got that
/// far, could be removed, leaves every file as it was.
pub proof fn law_failed_run_leaves_files(
    start: RecorderState,
    replies: Seq<Reply>,
    disks: Seq<Disk>,
    decode: spec_fn(Seq<u8>) -> Option<Seq<u8>>,
    k: int,
)
    requires
        start.fresh(),
        first_refused(replies, k),
        k <= 11,
        start.after_all(replies).stage is Failed,
        7 <= k ==> replies[k + 1] is Done,
        carried_out(start, replies, disks, decode),
    ensures
        disks[replies.len() as int].files == disks[0].files,
{
    recorder::law_run_fails(start, replies, k);
    lemma_after_failure(start, replies, disks, decode, k, replies.len() as int);
}

} // verus!
