//! Why the file store is crash safe: the disk as a loader sees it, the effect of
//! each file command on it, and what a fresh loader finds at every point at
//! which the write protocol can be cut off.

use crate::error::ErrorView;
use crate::state::file::{FileCommandView, FileInputView, FileStoreModel, WritePhase};
use crate::state::records::Records;
use vstd::prelude::*;

verus! {

/// What a file holds, as far as a loader can tell.
pub enum FileContent {
    /// There is no such file.
    Absent,
    /// The file is no state document: garbage, or a document cut off in the middle.
    Corrupt,
    /// The file is a state document with these records.
    Document(Records),
}

/// The three files of a store.
pub struct Disk {
    /// The live file.
    pub live: FileContent,
    /// The temporary file of a write in progress.
    pub temp: FileContent,
    /// The backup: the live file as it was before the last write.
    pub backup: FileContent,
}

/// What a fresh loader returns: the live file's records; where the live file is
/// corrupt, the backup's records; where there is nothing to read, no records.
pub open spec fn loaded(disk: Disk) -> Records {
    match disk.live {
        FileContent::Absent => Map::empty(),
        FileContent::Document(records) => records,
        FileContent::Corrupt => match disk.backup {
            FileContent::Document(records) => records,
            _ => Map::empty(),
        },
    }
}

/// The disk after a fresh loader has run: a corrupt live file is replaced by a
/// backup that holds a document.
pub open spec fn restored(disk: Disk) -> Disk {
    if disk.live is Corrupt && disk.backup is Document {
        Disk { live: disk.backup, ..disk }
    } else {
        disk
    }
}

/// The disk after `command` was carried out; with `torn`, after it was cut off
/// in the middle.
///
/// Writing the temporary file and copying to the backup are not atomic: cut off,
/// they leave a corrupt target. The rename is atomic: cut off, it has not happened.
pub open spec fn effect(disk: Disk, command: FileCommandView, torn: bool) -> Disk {
    match command {
        FileCommandView::WriteTemp { records, .. } => Disk {
            temp: if torn {
                FileContent::Corrupt
            } else {
                FileContent::Document(records)
            },
            ..disk
        },
        FileCommandView::BackupLive { .. } => Disk {
            backup: if torn {
                FileContent::Corrupt
            } else {
                disk.live
            },
            ..disk
        },
        FileCommandView::Commit { .. } => if torn {
            disk
        } else {
            Disk { live: disk.temp, temp: FileContent::Absent, ..disk }
        },
        _ => disk,
    }
}

/// The answer of a disk on which the temporary file is written and the rename is
/// carried out; with `copy_fails`, the copy to the backup fails.
pub open spec fn answer(disk: Disk, command: FileCommandView, copy_fails: bool) -> FileInputView {
    match command {
        FileCommandView::WriteTemp { .. } => FileInputView::Written(Ok(())),
        FileCommandView::CheckLive { .. } => FileInputView::Exists(!(disk.live is Absent)),
        FileCommandView::BackupLive { .. } => if copy_fails {
            FileInputView::Copied(Err(ErrorView::Network("copy failed"@)))
        } else {
            FileInputView::Copied(Ok(()))
        },
        _ => FileInputView::Renamed(Ok(())),
    }
}

/// The store and the disk after `steps` commands of a write that began with
/// `command`, each carried out and answered; with `copy_fails`, the copy to the
/// backup is cut off and reported as failed.
pub open spec fn progress(
    store: FileStoreModel,
    command: FileCommandView,
    disk: Disk,
    steps: nat,
    copy_fails: bool,
) -> (FileStoreModel, FileCommandView, Disk)
    decreases steps,
{
    if steps == 0 || command is Done || command is Unexpected {
        (store, command, disk)
    } else {
        let done = effect(disk, command, copy_fails && command is BackupLive);
        let (next_store, next_command) = store.advance(answer(disk, command, copy_fails));
        progress(next_store, next_command, done, (steps - 1) as nat, copy_fails)
    }
}

/// The disk when a write that began with `command` is cut off after `steps`
/// commands; with `torn`, in the middle of the next one.
pub open spec fn cut_off(
    store: FileStoreModel,
    command: FileCommandView,
    disk: Disk,
    steps: nat,
    torn: bool,
    copy_fails: bool,
) -> Disk {
    let (_, pending, reached) = progress(store, command, disk, steps, copy_fails);
    if torn {
        effect(reached, pending, true)
    } else {
        reached
    }
}

/// A write is all or nothing.
///
/// Take a store whose memory holds `store.records` and a disk whose live file is
/// absent or a document. Start a write and cut the protocol off anywhere: after
/// any number of commands, or in the middle of one, whether the copy to the
/// backup succeeds or fails. A fresh loader then finds either what it would have
/// found before the write, or the records that were being written, and never
/// anything else.
pub proof fn law_write_is_atomic(
    store: FileStoreModel,
    disk: Disk,
    steps: nat,
    torn: bool,
    copy_fails: bool,
)
    requires
        store.phase == WritePhase::Idle,
        !(disk.live is Corrupt),
    ensures
        ({
            let (writing, first) = store.begin_write();
            let found = loaded(cut_off(writing, first, disk, steps, torn, copy_fails));
            found == loaded(disk) || found == store.records
        }),
{
    let (writing, first) = store.begin_write();
    reveal_with_fuel(progress, 6);
    if steps == 0 {
    } else if steps == 1 {
    } else if steps == 2 {
    } else if steps == 3 {
    } else {
        assert(progress(writing, first, disk, 4, copy_fails).1 is Done);
        lemma_progress_settles(writing, first, disk, 4, steps, copy_fails);
    }
}

/// Once a write is done, further steps change nothing.
pub proof fn lemma_progress_settles(
    store: FileStoreModel,
    command: FileCommandView,
    disk: Disk,
    enough: nat,
    more: nat,
    copy_fails: bool,
)
    requires
        enough <= more,
        progress(store, command, disk, enough, copy_fails).1 is Done || progress(
            store,
            command,
            disk,
            enough,
            copy_fails,
        ).1 is Unexpected,
    ensures
        progress(store, command, disk, more, copy_fails) == progress(
            store,
            command,
            disk,
            enough,
            copy_fails,
        ),
    decreases enough,
{
    if command is Done || command is Unexpected {
    } else if enough == 0 {
    } else {
        let done = effect(disk, command, copy_fails && command is BackupLive);
        let (next_store, next_command) = store.advance(answer(disk, command, copy_fails));
        lemma_progress_settles(
            next_store,
            next_command,
            done,
            (enough - 1) as nat,
            (more - 1) as nat,
            copy_fails,
        );
    }
}

/// A write that runs to its end leaves the written records in the live file, the
/// file that was live before in the backup, and the memory clean.
pub proof fn law_write_completes(store: FileStoreModel, disk: Disk)
    requires
        store.phase == WritePhase::Idle,
    ensures
        ({
            let (writing, first) = store.begin_write();
            let (after, last, reached) = progress(writing, first, disk, 4, false);
            &&& last == FileCommandView::Done(Ok(()))
            &&& after == (FileStoreModel { dirty: false, ..store })
            &&& reached.live == FileContent::Document(store.records)
            &&& reached.temp == FileContent::Absent
            &&& reached.backup == if disk.live is Absent {
                disk.backup
            } else {
                disk.live
            }
            &&& loaded(reached) == store.records
        }),
{
    reveal_with_fuel(progress, 6);
}

/// What was set is found again by a fresh open.
///
/// After a mutation to `records` whose write ran to its end, a fresh loader
/// returns `records`: every record reads as it was set.
pub proof fn law_reopen_finds_what_was_set(store: FileStoreModel, records: Records, disk: Disk)
    requires
        store.phase == WritePhase::Idle,
    ensures
        ({
            let (writing, first) = store.mutate(records);
            let (after, last, reached) = progress(writing, first, disk, 4, false);
            &&& after.records == records
            &&& last == FileCommandView::Done(Ok(()))
            &&& loaded(reached) == records
        }),
{
    reveal_with_fuel(progress, 6);
}

/// After two writes the backup holds the first, and a corrupted live file is
/// recovered from it.
///
/// Write `first` and then `second` to a store on a disk without a live file.
/// The live file then holds `second` and the backup `first`. If the live file
/// is then overwritten with garbage, a fresh loader returns `first` and
/// restores the live file from the backup.
pub proof fn law_backup_holds_the_write_before(
    store: FileStoreModel,
    first: Records,
    second: Records,
    disk: Disk,
)
    requires
        store.phase == WritePhase::Idle,
        disk.live is Absent,
    ensures
        ({
            let (w1, c1) = store.mutate(first);
            let (s1, _, d1) = progress(w1, c1, disk, 4, false);
            let (w2, c2) = s1.mutate(second);
            let (s2, _, d2) = progress(w2, c2, d1, 4, false);
            let damaged = Disk { live: FileContent::Corrupt, ..d2 };
            &&& d2.live == FileContent::Document(second)
            &&& d2.backup == FileContent::Document(first)
            &&& loaded(damaged) == first
            &&& restored(damaged).live == FileContent::Document(first)
        }),
{
    reveal_with_fuel(progress, 6);
}

} // verus!
