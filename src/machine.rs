//! The store's operations as state machines. Each operation asks for one filesystem
//! action at a time; whoever runs it performs the action and reports the event back.
use vstd::prelude::*;
use crate::digest::fingerprint_of;
use crate::paths::{key_file_of, shard_dir_of, value_file_of};

verus! {

/// Why an operation failed.
#[derive(Debug, Clone, Copy, PartialEq, Eq, Structural)]
pub enum StoreError {
    /// The root path is empty, or its directory could not be created.
    Configuration,
    /// Insert found a key file or value file already in place.
    AlreadyExists,
    /// The shard directory, key file or value file of the key is absent.
    NotFound,
    /// A filesystem action failed.
    Io,
    /// A stored value does not decode as the value type asked for.
    Encoding,
}

/// Where an operation stands: the action it waits on, or how it ended.
#[derive(Debug, Clone, Copy, PartialEq, Eq, Structural)]
pub enum Phase {
    /// insert: creating the shard directory
    CreateShard,
    /// insert: checking that the key file is absent
    InsertProbeKey,
    /// insert: checking that the value file is absent
    InsertProbeValue,
    /// insert: writing the key file
    WriteKey,
    /// insert: writing the value file
    WriteValue,
    /// lookup: checking that the value file exists
    LookupProbeValue,
    /// lookup: reading the value file
    LookupRead,
    /// remove: checking that the shard directory exists
    RemoveProbeShard,
    /// remove: checking that the key file exists
    RemoveProbeKey,
    /// remove: checking that the value file exists
    RemoveProbeValue,
    /// remove: reading the value file
    RemoveRead,
    /// remove: checking that the value read decodes, before anything is deleted
    RemoveDecode,
    /// remove: deleting the key file
    DeleteKey,
    /// remove: deleting the value file
    DeleteValue,
    /// remove: checking whether the shard directory is now empty
    ProbeShardEmpty,
    /// remove: deleting the empty shard directory
    DeleteShard,
    /// The operation succeeded.
    Succeeded,
    /// The operation failed.
    Failed(StoreError),
}

/// A filesystem action, over paths and contents of type `S`.
#[derive(Debug, PartialEq, Eq)]
pub enum Action<S> {
    /// Create a directory and its missing parents; an existing one is no error.
    CreateDir(S),
    /// Answer whether a regular file exists at the path.
    FileExists(S),
    /// Answer whether a directory exists at the path.
    DirExists(S),
    /// Write the contents to the file at the path.
    WriteFile(S, S),
    /// Read the file at the path.
    ReadFile(S),
    /// Answer whether the contents decode as the caller's value type.
    ValueDecodes(S),
    /// Delete the file at the path.
    DeleteFile(S),
    /// Answer whether the directory at the path has no entries.
    DirIsEmpty(S),
    /// Delete the directory at the path.
    DeleteDir(S),
    /// Nothing is left to do: the operation is over.
    Finish,
}

/// What came of an action.
#[derive(Debug, PartialEq, Eq)]
pub enum Event<S> {
    /// The action was carried out.
    Done,
    /// The action could not be carried out.
    Failed,
    /// The answer to a question (`FileExists`, `DirExists`, `ValueDecodes`, `DirIsEmpty`).
    Answer(bool),
    /// The contents of the file that was read.
    Contents(S),
}

impl View for Action<String> {
    type V = Action<Seq<char>>;

    open spec fn view(&self) -> Action<Seq<char>> {
        match self {
            Action::CreateDir(p) => Action::CreateDir(p@),
            Action::FileExists(p) => Action::FileExists(p@),
            Action::DirExists(p) => Action::DirExists(p@),
            Action::WriteFile(p, c) => Action::WriteFile(p@, c@),
            Action::ReadFile(p) => Action::ReadFile(p@),
            Action::ValueDecodes(c) => Action::ValueDecodes(c@),
            Action::DeleteFile(p) => Action::DeleteFile(p@),
            Action::DirIsEmpty(p) => Action::DirIsEmpty(p@),
            Action::DeleteDir(p) => Action::DeleteDir(p@),
            Action::Finish => Action::Finish,
        }
    }
}

impl View for Event<String> {
    type V = Event<Seq<char>>;

    open spec fn view(&self) -> Event<Seq<char>> {
        match self {
            Event::Done => Event::Done,
            Event::Failed => Event::Failed,
            Event::Answer(b) => Event::Answer(*b),
            Event::Contents(c) => Event::Contents(c@),
        }
    }
}

/// The abstract state of an operation in progress.
pub struct OpState {
    pub phase: Phase,
    pub shard_dir: Seq<char>,
    pub key_file: Seq<char>,
    pub value_file: Seq<char>,
    /// The encoded key, written to the key file.
    pub key: Seq<char>,
    /// The encoded value: the one to write (insert), or the one read (lookup, remove).
    pub value: Seq<char>,
}

impl OpState {
    pub open spec fn is_finished(self) -> bool {
        self.phase is Succeeded || self.phase is Failed
    }

    pub open spec fn with_phase(self, phase: Phase) -> OpState {
        OpState { phase, ..self }
    }

    pub open spec fn fail(self, e: StoreError) -> OpState {
        self.with_phase(Phase::Failed(e))
    }
}

/// The state in which an operation on `key` under `root` begins.
pub open spec fn start_state(root: Seq<char>, key: Seq<char>, value: Seq<char>, phase: Phase) -> OpState {
    let fp = fingerprint_of(key);
    OpState {
        phase,
        shard_dir: shard_dir_of(root, fp),
        key_file: key_file_of(root, fp),
        value_file: value_file_of(root, fp),
        key,
        value,
    }
}

pub open spec fn insert_start(root: Seq<char>, key: Seq<char>, value: Seq<char>) -> OpState {
    start_state(root, key, value, Phase::CreateShard)
}

pub open spec fn lookup_start(root: Seq<char>, key: Seq<char>) -> OpState {
    start_state(root, key, Seq::empty(), Phase::LookupProbeValue)
}

pub open spec fn remove_start(root: Seq<char>, key: Seq<char>) -> OpState {
    start_state(root, key, Seq::empty(), Phase::RemoveProbeShard)
}

/// The action that an operation in state `op` waits on.
pub open spec fn request(op: OpState) -> Action<Seq<char>> {
    match op.phase {
        Phase::CreateShard => Action::CreateDir(op.shard_dir),
        Phase::InsertProbeKey => Action::FileExists(op.key_file),
        Phase::InsertProbeValue => Action::FileExists(op.value_file),
        Phase::WriteKey => Action::WriteFile(op.key_file, op.key),
        Phase::WriteValue => Action::WriteFile(op.value_file, op.value),
        Phase::LookupProbeValue => Action::FileExists(op.value_file),
        Phase::LookupRead => Action::ReadFile(op.value_file),
        Phase::RemoveProbeShard => Action::DirExists(op.shard_dir),
        Phase::RemoveProbeKey => Action::FileExists(op.key_file),
        Phase::RemoveProbeValue => Action::FileExists(op.value_file),
        Phase::RemoveRead => Action::ReadFile(op.value_file),
        Phase::RemoveDecode => Action::ValueDecodes(op.value),
        Phase::DeleteKey => Action::DeleteFile(op.key_file),
        Phase::DeleteValue => Action::DeleteFile(op.value_file),
        Phase::ProbeShardEmpty => Action::DirIsEmpty(op.shard_dir),
        Phase::DeleteShard => Action::DeleteDir(op.shard_dir),
        Phase::Succeeded => Action::Finish,
        Phase::Failed(_) => Action::Finish,
    }
}

/// Whether the entry counter can take the change that the next step of `op` may make.
pub open spec fn counter_fits(count: nat, op: OpState) -> bool {
    &&& op.phase == Phase::WriteValue ==> count < usize::MAX
    &&& op.phase == Phase::DeleteValue ==> count > 0
}

/// An operation in state `op`, with `count` mappings stored, receives `event`:
/// the entry count and the state that follow. A reply that does not fit the
/// action asked for counts as a failed action.
pub open spec fn next(count: nat, op: OpState, event: Event<Seq<char>>) -> (nat, OpState) {
    match op.phase {
        Phase::CreateShard => match event {
            Event::Done => (count, op.with_phase(Phase::InsertProbeKey)),
            _ => (count, op.fail(StoreError::Io)),
        },
        Phase::InsertProbeKey => match event {
            Event::Answer(true) => (count, op.fail(StoreError::AlreadyExists)),
            Event::Answer(false) => (count, op.with_phase(Phase::InsertProbeValue)),
            _ => (count, op.fail(StoreError::Io)),
        },
        Phase::InsertProbeValue => match event {
            Event::Answer(true) => (count, op.fail(StoreError::AlreadyExists)),
            Event::Answer(false) => (count, op.with_phase(Phase::WriteKey)),
            _ => (count, op.fail(StoreError::Io)),
        },
        Phase::WriteKey => match event {
            Event::Done => (count, op.with_phase(Phase::WriteValue)),
            _ => (count, op.fail(StoreError::Io)),
        },
        Phase::WriteValue => match event {
            Event::Done => ((count + 1) as nat, op.with_phase(Phase::Succeeded)),
            _ => (count, op.fail(StoreError::Io)),
        },
        Phase::LookupProbeValue => match event {
            Event::Answer(true) => (count, op.with_phase(Phase::LookupRead)),
            Event::Answer(false) => (count, op.fail(StoreError::NotFound)),
            _ => (count, op.fail(StoreError::Io)),
        },
        Phase::LookupRead => match event {
            Event::Contents(c) => (count, OpState { phase: Phase::Succeeded, value: c, ..op }),
            _ => (count, op.fail(StoreError::Io)),
        },
        Phase::RemoveProbeShard => match event {
            Event::Answer(true) => (count, op.with_phase(Phase::RemoveProbeKey)),
            Event::Answer(false) => (count, op.fail(StoreError::NotFound)),
            _ => (count, op.fail(StoreError::Io)),
        },
        Phase::RemoveProbeKey => match event {
            Event::Answer(true) => (count, op.with_phase(Phase::RemoveProbeValue)),
            Event::Answer(false) => (count, op.fail(StoreError::NotFound)),
            _ => (count, op.fail(StoreError::Io)),
        },
        Phase::RemoveProbeValue => match event {
            Event::Answer(true) => (count, op.with_phase(Phase::RemoveRead)),
            Event::Answer(false) => (count, op.fail(StoreError::NotFound)),
            _ => (count, op.fail(StoreError::Io)),
        },
        Phase::RemoveRead => match event {
            Event::Contents(c) => (count, OpState { phase: Phase::RemoveDecode, value: c, ..op }),
            _ => (count, op.fail(StoreError::Io)),
        },
        Phase::RemoveDecode => match event {
            Event::Answer(true) => (count, op.with_phase(Phase::DeleteKey)),
            Event::Answer(false) => (count, op.fail(StoreError::Encoding)),
            _ => (count, op.fail(StoreError::Io)),
        },
        Phase::DeleteKey => match event {
            Event::Done => (count, op.with_phase(Phase::DeleteValue)),
            _ => (count, op.fail(StoreError::Io)),
        },
        Phase::DeleteValue => match event {
            Event::Done => ((count - 1) as nat, op.with_phase(Phase::ProbeShardEmpty)),
            _ => (count, op.fail(StoreError::Io)),
        },
        Phase::ProbeShardEmpty => match event {
            Event::Answer(true) => (count, op.with_phase(Phase::DeleteShard)),
            Event::Answer(false) => (count, op.with_phase(Phase::Succeeded)),
            _ => (count, op.fail(StoreError::Io)),
        },
        Phase::DeleteShard => match event {
            Event::Done => (count, op.with_phase(Phase::Succeeded)),
            _ => (count, op.fail(StoreError::Io)),
        },
        Phase::Succeeded => (count, op),
        Phase::Failed(_) => (count, op),
    }
}

} // verus!
