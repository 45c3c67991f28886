//! The store behind a JSON file, written so that a crash never leaves a loader
//! with a half-written state.
//!
//! The store keeps the records in memory and decides what is done to the files;
//! the caller reads, writes, copies and renames them, and serialises the document.
//! A mutation changes the memory at once and starts the write protocol: the
//! caller performs each [`FileCommand`] and hands the outcome to
//! [`FileStateStore::advance`] until it is told [`FileCommand::Done`].

use crate::error::{Error, ErrorView};
use crate::ip::IpAddress;
use crate::state::memory::stamped_record;
use crate::state::records::{
    last_ip_in, lemma_records_empty, lemma_records_insert, lemma_records_remove, record_in,
    records_of, snapshot, table_from,
};
use crate::table::{folded, map_of, texts_of, NameTable};
use crate::text::join;
use crate::time::{now, Timestamp, NANOS_PER_SEC};
use crate::traits::{StateRecord, StateRecordView};
use vstd::prelude::*;

pub use crate::state::records::Records;

verus! {

/// The version that the store writes into the document.
pub open spec fn format_version() -> Seq<char> {
    "1.0"@
}

/// The path of the file that a write is prepared in.
pub open spec fn temp_path_of(path: Seq<char>) -> Seq<char> {
    path + ".tmp"@
}

/// The path of the file that keeps the last good document.
pub open spec fn backup_path_of(path: Seq<char>) -> Seq<char> {
    path + ".backup"@
}

/// What reading and parsing a state file gave.
#[derive(Debug)]
pub enum ReadOutcome {
    /// The file does not exist.
    Missing,
    /// The file exists and could not be read.
    Unreadable(Error),
    /// The file was read and is no state document.
    Corrupt(Error),
    /// The file holds a state document.
    Parsed {
        /// The document's version.
        version: String,
        /// The document's records.
        records: Vec<(String, StateRecord)>,
    },
}

/// Where the write protocol stands.
#[derive(Clone, Copy, Debug, PartialEq, Eq, Structural)]
pub enum WritePhase {
    /// No write is in progress.
    Idle,
    /// The document is written to the temporary file. Waits for `Written`.
    WritingTemp,
    /// The live file is looked for. Waits for `Exists`.
    ProbingLive,
    /// The live file is copied to the backup. Waits for `Copied`.
    CopyingBackup,
    /// The temporary file is renamed over the live file. Waits for `Renamed`.
    Renaming,
}

/// The one thing the store wants done to the files next.
#[derive(Debug)]
pub enum FileCommand {
    /// Serialise the document, write it to `path`, and flush it to the disk;
    /// answer [`FileInput::Written`].
    WriteTemp { path: String, version: String, records: Vec<(String, StateRecord)> },
    /// Say whether the file at `path` exists; answer [`FileInput::Exists`].
    CheckLive { path: String },
    /// Copy the live file `from` to the backup `to`; answer [`FileInput::Copied`].
    BackupLive { from: String, to: String },
    /// Rename the temporary file `from` over the live file `to`; answer [`FileInput::Renamed`].
    Commit { from: String, to: String },
    /// The operation is over, with this result. Nothing is answered.
    Done(Result<(), Error>),
    /// The call or the input did not fit the state of the protocol. Nothing has changed.
    Unexpected,
}

/// A [`FileCommand`] with its texts as character sequences and its records as a map.
pub enum FileCommandView {
    WriteTemp { path: Seq<char>, version: Seq<char>, records: Records },
    CheckLive { path: Seq<char> },
    BackupLive { from: Seq<char>, to: Seq<char> },
    Commit { from: Seq<char>, to: Seq<char> },
    Done(Result<(), ErrorView>),
    Unexpected,
}

impl View for FileCommand {
    type V = FileCommandView;

    open spec fn view(&self) -> FileCommandView {
        match self {
            FileCommand::WriteTemp { path, version, records } => FileCommandView::WriteTemp {
                path: path@,
                version: version@,
                records: records_of(map_of(records@)),
            },
            FileCommand::CheckLive { path } => FileCommandView::CheckLive { path: path@ },
            FileCommand::BackupLive { from, to } => FileCommandView::BackupLive {
                from: from@,
                to: to@,
            },
            FileCommand::Commit { from, to } => FileCommandView::Commit { from: from@, to: to@ },
            FileCommand::Done(r) => FileCommandView::Done(
                match r {
                    Ok(_) => Ok(()),
                    Err(e) => Err(e@),
                },
            ),
            FileCommand::Unexpected => FileCommandView::Unexpected,
        }
    }
}

/// The outcome of the file command before.
#[derive(Debug)]
pub enum FileInput {
    /// What writing the temporary file gave.
    Written(Result<(), Error>),
    /// Whether the live file exists.
    Exists(bool),
    /// What copying the live file to the backup gave.
    Copied(Result<(), Error>),
    /// What renaming the temporary file gave.
    Renamed(Result<(), Error>),
}

/// A [`FileInput`] with its texts as character sequences.
pub enum FileInputView {
    Written(Result<(), ErrorView>),
    Exists(bool),
    Copied(Result<(), ErrorView>),
    Renamed(Result<(), ErrorView>),
}

impl View for FileInput {
    type V = FileInputView;

    open spec fn view(&self) -> FileInputView {
        match self {
            FileInput::Written(r) => FileInputView::Written(
                match r {
                    Ok(_) => Ok(()),
                    Err(e) => Err(e@),
                },
            ),
            FileInput::Exists(b) => FileInputView::Exists(*b),
            FileInput::Copied(r) => FileInputView::Copied(
                match r {
                    Ok(_) => Ok(()),
                    Err(e) => Err(e@),
                },
            ),
            FileInput::Renamed(r) => FileInputView::Renamed(
                match r {
                    Ok(_) => Ok(()),
                    Err(e) => Err(e@),
                },
            ),
        }
    }
}

/// The store as the protocol sees it.
pub struct FileStoreModel {
    /// The path of the live file.
    pub path: Seq<char>,
    /// The records in memory.
    pub records: Records,
    /// Whether the memory holds what the live file may not.
    pub dirty: bool,
    /// Where the write protocol stands.
    pub phase: WritePhase,
}

impl FileStoreModel {
    /// The error for a temporary file that could not be written.
    pub open spec fn temp_failure(self, e: ErrorView) -> ErrorView {
        ErrorView::StateStore(
            "Failed to write temp file "@ + temp_path_of(self.path) + ": "@ + e.text(),
        )
    }

    /// The error for a rename that failed.
    pub open spec fn rename_failure(self, e: ErrorView) -> ErrorView {
        ErrorView::StateStore(
            "Failed to rename "@ + temp_path_of(self.path) + " to "@ + self.path + ": "@ + e.text(),
        )
    }

    /// Starts the write protocol, or refuses while a write is in progress.
    pub open spec fn begin_write(self) -> (FileStoreModel, FileCommandView) {
        if self.phase == WritePhase::Idle {
            (
                FileStoreModel { phase: WritePhase::WritingTemp, ..self },
                FileCommandView::WriteTemp {
                    path: temp_path_of(self.path),
                    version: format_version(),
                    records: self.records,
                },
            )
        } else {
            (self, FileCommandView::Unexpected)
        }
    }

    /// Changes the records to `records`, marks the memory dirty and starts the
    /// write protocol, or refuses, changing nothing, while a write is in progress.
    pub open spec fn mutate(self, records: Records) -> (FileStoreModel, FileCommandView) {
        if self.phase == WritePhase::Idle {
            (FileStoreModel { records, dirty: true, ..self }).begin_write()
        } else {
            (self, FileCommandView::Unexpected)
        }
    }

    /// Writes the state if the memory is dirty, and is done at once if it is not.
    pub open spec fn flush(self) -> (FileStoreModel, FileCommandView) {
        if self.phase == WritePhase::Idle && !self.dirty {
            (self, FileCommandView::Done(Ok(())))
        } else {
            self.begin_write()
        }
    }

    /// One step of the write protocol.
    ///
    /// The temporary file is written first. Only when it is complete is the live
    /// file, if there is one, copied to the backup, and a failure of that copy is
    /// passed over. The rename comes last, and only its success clears `dirty`.
    pub open spec fn advance(self, input: FileInputView) -> (FileStoreModel, FileCommandView) {
        match (self.phase, input) {
            (WritePhase::WritingTemp, FileInputView::Written(Ok(_))) => (
                FileStoreModel { phase: WritePhase::ProbingLive, ..self },
                FileCommandView::CheckLive { path: self.path },
            ),
            (WritePhase::WritingTemp, FileInputView::Written(Err(e))) => (
                FileStoreModel { phase: WritePhase::Idle, ..self },
                FileCommandView::Done(Err(self.temp_failure(e))),
            ),
            (WritePhase::ProbingLive, FileInputView::Exists(exists)) => if exists {
                (
                    FileStoreModel { phase: WritePhase::CopyingBackup, ..self },
                    FileCommandView::BackupLive { from: self.path, to: backup_path_of(self.path) },
                )
            } else {
                (
                    FileStoreModel { phase: WritePhase::Renaming, ..self },
                    FileCommandView::Commit { from: temp_path_of(self.path), to: self.path },
                )
            },
            (WritePhase::CopyingBackup, FileInputView::Copied(_)) => (
                FileStoreModel { phase: WritePhase::Renaming, ..self },
                FileCommandView::Commit { from: temp_path_of(self.path), to: self.path },
            ),
            (WritePhase::Renaming, FileInputView::Renamed(Ok(_))) => (
                FileStoreModel { phase: WritePhase::Idle, dirty: false, ..self },
                FileCommandView::Done(Ok(())),
            ),
            (WritePhase::Renaming, FileInputView::Renamed(Err(e))) => (
                FileStoreModel { phase: WritePhase::Idle, ..self },
                FileCommandView::Done(Err(self.rename_failure(e))),
            ),
            _ => (self, FileCommandView::Unexpected),
        }
    }
}

/// A state store behind a file. Its view is the [`FileStoreModel`] it stands for.
#[derive(Debug)]
pub struct FileStateStore {
    path: String,
    table: NameTable<StateRecord>,
    dirty: bool,
    phase: WritePhase,
}

impl View for FileStateStore {
    type V = FileStoreModel;

    closed spec fn view(&self) -> FileStoreModel {
        FileStoreModel {
            path: self.path@,
            records: records_of(self.table@),
            dirty: self.dirty,
            phase: self.phase,
        }
    }
}

/// How opening a store goes on after a file was read.
#[derive(Debug)]
pub enum LoadStep {
    /// The store is open.
    Ready {
        /// The store.
        store: FileStateStore,
        /// The backup to copy over the live file, where the state was recovered
        /// from it. A failure of that copy is passed over.
        restore_from: Option<String>,
        /// Whether the document names another version than the store writes.
        /// The records are used all the same.
        version_mismatch: bool,
    },
    /// The live file is corrupt: read the backup at `path` and call
    /// [`FileStateStore::recover`].
    ReadBackup { path: String },
    /// The live file could not be read: the store is not opened.
    Failed(Error),
}

impl FileStateStore {
    /// Whether the store keeps its invariant. Every constructor establishes it and
    /// every method keeps it.
    pub closed spec fn wf(&self) -> bool {
        self.table.wf()
    }

    /// The path of the backup of the state file at `path`.
    pub fn backup_path(path: &str) -> (p: String)
        ensures
            p@ == backup_path_of(path@),
    {
        join(path, ".backup")
    }

    /// The path of the temporary file that a write is prepared in.
    pub fn temp_path(&self) -> (p: String)
        ensures
            p@ == temp_path_of(self@.path),
    {
        join(self.path.as_str(), ".tmp")
    }

    /// The path of the live file.
    pub fn path(&self) -> (p: &str)
        ensures
            p@ == self@.path,
    {
        self.path.as_str()
    }

    /// Whether the memory holds what the live file may not.
    pub fn is_dirty(&self) -> (d: bool)
        ensures
            d == self@.dirty,
    {
        self.dirty
    }

    /// A clean store at `path` with the records of `table`.
    fn with_table(path: &str, table: NameTable<StateRecord>) -> (s: FileStateStore)
        requires
            table.wf(),
        ensures
            s.wf(),
            s@ == (FileStoreModel {
                path: path@,
                records: records_of(table@),
                dirty: false,
                phase: WritePhase::Idle,
            }),
    {
        FileStateStore { path: String::from_str(path), table, dirty: false, phase: WritePhase::Idle }
    }

    /// Opens the store at `path`, given what reading the live file gave.
    ///
    /// A missing file opens an empty store. A document opens a store with its
    /// records, whatever its version. A corrupt file asks for the backup. A file
    /// that could not be read fails with the error of the read.
    pub fn new(path: &str, live: ReadOutcome) -> (r: LoadStep)
        ensures
            match live {
                ReadOutcome::Missing => {
                    &&& r matches LoadStep::Ready { store, restore_from, version_mismatch }
                    &&& store.wf()
                    &&& store@ == (FileStoreModel {
                        path: path@,
                        records: Map::empty(),
                        dirty: false,
                        phase: WritePhase::Idle,
                    })
                    &&& restore_from is None
                    &&& !version_mismatch
                },
                ReadOutcome::Parsed { version, records } => {
                    &&& r matches LoadStep::Ready { store, restore_from, version_mismatch }
                    &&& store.wf()
                    &&& store@ == (FileStoreModel {
                        path: path@,
                        records: records_of(folded(records@)),
                        dirty: false,
                        phase: WritePhase::Idle,
                    })
                    &&& restore_from is None
                    &&& version_mismatch == (version@ != format_version())
                },
                ReadOutcome::Corrupt(_) => {
                    &&& r matches LoadStep::ReadBackup { path: backup }
                    &&& backup@ == backup_path_of(path@)
                },
                ReadOutcome::Unreadable(e) => {
                    &&& r matches LoadStep::Failed(failure)
                    &&& failure@ == e@
                },
            },
    {
        match live {
            ReadOutcome::Missing => {
                proof {
                    lemma_records_empty();
                }
                LoadStep::Ready {
                    store: Self::with_table(path, NameTable::new()),
                    restore_from: None,
                    version_mismatch: false,
                }
            },
            ReadOutcome::Parsed { version, records } => {
                let table = table_from(&records);
                let expected = String::from_str("1.0");
                let version_mismatch = !(version == expected);
                LoadStep::Ready {
                    store: Self::with_table(path, table),
                    restore_from: None,
                    version_mismatch,
                }
            },
            ReadOutcome::Corrupt(_) => LoadStep::ReadBackup { path: Self::backup_path(path) },
            ReadOutcome::Unreadable(e) => LoadStep::Failed(e),
        }
    }

    /// Opens the store at `path` whose live file is corrupt, given what reading
    /// the backup gave.
    ///
    /// A backup that holds a document opens a store with its records and asks for
    /// the backup to be copied over the live file. Any other backup, or none,
    /// opens an empty store.
    pub fn recover(path: &str, backup: ReadOutcome) -> (r: LoadStep)
        ensures
            r matches LoadStep::Ready { store, restore_from, version_mismatch } && {
                &&& store.wf()
                &&& store@.path == path@
                &&& !store@.dirty
                &&& store@.phase == WritePhase::Idle
                &&& match backup {
                    ReadOutcome::Parsed { version, records } => {
                        &&& store@.records == records_of(folded(records@))
                        &&& restore_from matches Some(from)
                        &&& from@ == backup_path_of(path@)
                        &&& version_mismatch == (version@ != format_version())
                    },
                    _ => {
                        &&& store@.records == Map::<Seq<char>, StateRecordView>::empty()
                        &&& restore_from is None
                        &&& !version_mismatch
                    },
                }
            },
    {
        match backup {
            ReadOutcome::Parsed { version, records } => {
                let table = table_from(&records);
                let expected = String::from_str("1.0");
                let version_mismatch = !(version == expected);
                LoadStep::Ready {
                    store: Self::with_table(path, table),
                    restore_from: Some(Self::backup_path(path)),
                    version_mismatch,
                }
            },
            _ => {
                proof {
                    lemma_records_empty();
                }
                LoadStep::Ready {
                    store: Self::with_table(path, NameTable::new()),
                    restore_from: None,
                    version_mismatch: false,
                }
            },
        }
    }

    /// The address last applied to `record_name`, if the store has the record.
    pub fn get_last_ip(&self, record_name: &str) -> (r: Result<Option<IpAddress>, Error>)
        requires
            self.wf(),
        ensures
            r is Ok,
            r->Ok_0 is Some <==> self@.records.dom().contains(record_name@),
            r->Ok_0 is Some ==> r->Ok_0->0 == self@.records[record_name@].last_ip,
    {
        Ok(last_ip_in(&self.table, record_name))
    }

    /// The record kept for `record_name`, if the store has it.
    pub fn get_record(&self, record_name: &str) -> (r: Result<Option<StateRecord>, Error>)
        requires
            self.wf(),
        ensures
            r is Ok,
            r->Ok_0 is Some <==> self@.records.dom().contains(record_name@),
            r->Ok_0 is Some ==> r->Ok_0->0@ == self@.records[record_name@],
    {
        Ok(record_in(&self.table, record_name))
    }

    /// The names of the records kept, each once.
    pub fn list_records(&self) -> (r: Result<Vec<String>, Error>)
        requires
            self.wf(),
        ensures
            r is Ok,
            texts_of(r->Ok_0@).no_duplicates(),
            texts_of(r->Ok_0@).to_set() == self@.records.dom(),
            r->Ok_0@.len() == self@.records.dom().len(),
    {
        proof {
            assert(self@.records.dom() =~= self.table@.dom());
        }
        Ok(self.table.list())
    }

    /// Starts the write protocol, or refuses while a write is in progress.
    fn begin_write(&mut self) -> (c: FileCommand)
        requires
            old(self).wf(),
        ensures
            final(self).wf(),
            (final(self)@, c@) == old(self)@.begin_write(),
    {
        match self.phase {
            WritePhase::Idle => {
                let command = FileCommand::WriteTemp {
                    path: self.temp_path(),
                    version: String::from_str("1.0"),
                    records: snapshot(&self.table),
                };
                self.phase = WritePhase::WritingTemp;
                command
            },
            _ => FileCommand::Unexpected,
        }
    }

    /// Creates or replaces the record of `record_name` with the address `ip`,
    /// stamped `at`, and starts the write.
    pub fn set_last_ip_at(&mut self, record_name: &str, ip: IpAddress, at: Timestamp) -> (c:
        FileCommand)
        requires
            old(self).wf(),
        ensures
            final(self).wf(),
            (final(self)@, c@) == old(self)@.mutate(
                old(self)@.records.insert(record_name@, stamped_record(ip, at)),
            ),
    {
        match self.phase {
            WritePhase::Idle => {
                let record = StateRecord::stamped(ip, at);
                proof {
                    lemma_records_insert(self.table@, record_name@, record);
                }
                self.table.insert(record_name, record);
                self.dirty = true;
                self.begin_write()
            },
            _ => FileCommand::Unexpected,
        }
    }

    /// Creates or replaces the record of `record_name` with the address `ip`,
    /// stamped with the current time, and starts the write.
    ///
    /// The clock is read once; the record is stamped with what was read, whatever it was.
    pub fn set_last_ip(&mut self, record_name: &str, ip: IpAddress) -> (c: FileCommand)
        requires
            old(self).wf(),
        ensures
            final(self).wf(),
            exists|at: Timestamp|
                at.secs >= 0 && at.nanos < NANOS_PER_SEC && (final(self)@, c@) == old(self)@.mutate(
                    old(self)@.records.insert(record_name@, #[trigger] stamped_record(ip, at)),
                ),
    {
        let at = now();
        self.set_last_ip_at(record_name, ip, at)
    }

    /// Creates or replaces the record of `record_name` with a copy of `record`,
    /// and starts the write.
    pub fn set_record(&mut self, record_name: &str, record: &StateRecord) -> (c: FileCommand)
        requires
            old(self).wf(),
        ensures
            final(self).wf(),
            (final(self)@, c@) == old(self)@.mutate(
                old(self)@.records.insert(record_name@, record@),
            ),
    {
        match self.phase {
            WritePhase::Idle => {
                let copy = record.clone();
                proof {
                    lemma_records_insert(self.table@, record_name@, copy);
                }
                self.table.insert(record_name, copy);
                self.dirty = true;
                self.begin_write()
            },
            _ => FileCommand::Unexpected,
        }
    }

    /// Forgets the record of `record_name` and starts the write.
    pub fn delete_record(&mut self, record_name: &str) -> (c: FileCommand)
        requires
            old(self).wf(),
        ensures
            final(self).wf(),
            (final(self)@, c@) == old(self)@.mutate(old(self)@.records.remove(record_name@)),
    {
        match self.phase {
            WritePhase::Idle => {
                proof {
                    lemma_records_remove(self.table@, record_name@);
                }
                self.table.remove(record_name);
                self.dirty = true;
                self.begin_write()
            },
            _ => FileCommand::Unexpected,
        }
    }

    /// Writes the state if the memory is dirty; is done at once if it is clean.
    pub fn flush(&mut self) -> (c: FileCommand)
        requires
            old(self).wf(),
        ensures
            final(self).wf(),
            (final(self)@, c@) == old(self)@.flush(),
    {
        match self.phase {
            WritePhase::Idle => {
                if self.dirty {
                    self.begin_write()
                } else {
                    FileCommand::Done(Ok(()))
                }
            },
            _ => FileCommand::Unexpected,
        }
    }

    /// Writes the state, dirty or not.
    pub fn sync(&mut self) -> (c: FileCommand)
        requires
            old(self).wf(),
        ensures
            final(self).wf(),
            (final(self)@, c@) == old(self)@.begin_write(),
    {
        self.begin_write()
    }

    /// One step of the write protocol: takes the outcome of the file command
    /// before and hands out the next.
    pub fn advance(&mut self, input: FileInput) -> (c: FileCommand)
        requires
            old(self).wf(),
        ensures
            final(self).wf(),
            (final(self)@, c@) == old(self)@.advance(input@),
    {
        match self.phase {
            WritePhase::WritingTemp => match input {
                FileInput::Written(Ok(_)) => {
                    self.phase = WritePhase::ProbingLive;
                    FileCommand::CheckLive { path: self.path.clone() }
                },
                FileInput::Written(Err(e)) => {
                    let temp = self.temp_path();
                    let message = String::from_str("Failed to write temp file ").concat(
                        temp.as_str(),
                    ).concat(": ").concat(e.to_text().as_str());
                    self.phase = WritePhase::Idle;
                    FileCommand::Done(Err(Error::StateStore(message)))
                },
                _ => FileCommand::Unexpected,
            },
            WritePhase::ProbingLive => match input {
                FileInput::Exists(exists) => {
                    if exists {
                        let command = FileCommand::BackupLive {
                            from: self.path.clone(),
                            to: Self::backup_path(self.path.as_str()),
                        };
                        self.phase = WritePhase::CopyingBackup;
                        command
                    } else {
                        let command = FileCommand::Commit {
                            from: self.temp_path(),
                            to: self.path.clone(),
                        };
                        self.phase = WritePhase::Renaming;
                        command
                    }
                },
                _ => FileCommand::Unexpected,
            },
            WritePhase::CopyingBackup => match input {
                FileInput::Copied(_) => {
                    let command = FileCommand::Commit {
                        from: self.temp_path(),
                        to: self.path.clone(),
                    };
                    self.phase = WritePhase::Renaming;
                    command
                },
                _ => FileCommand::Unexpected,
            },
            WritePhase::Renaming => match input {
                FileInput::Renamed(Ok(_)) => {
                    self.phase = WritePhase::Idle;
                    self.dirty = false;
                    FileCommand::Done(Ok(()))
                },
                FileInput::Renamed(Err(e)) => {
                    let temp = self.temp_path();
                    let message = String::from_str("Failed to rename ").concat(temp.as_str()).concat(
                        " to ",
                    ).concat(self.path.as_str()).concat(": ").concat(e.to_text().as_str());
                    self.phase = WritePhase::Idle;
                    FileCommand::Done(Err(Error::StateStore(message)))
                },
                _ => FileCommand::Unexpected,
            },
            WritePhase::Idle => FileCommand::Unexpected,
        }
    }
}

} // verus!
