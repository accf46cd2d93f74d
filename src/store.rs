//! The store engine: the entry counter and the operations that keep it in step
//! with the files under the root.
use vstd::prelude::*;
use vstd::string::StringExecFns;
use crate::digest::fingerprint;
use crate::machine::{
    counter_fits, insert_start, lookup_start, next, remove_start, request, Action, Event, OpState,
    Phase, StoreError,
};
use crate::paths::{mapping_paths, MappingPaths};
use crate::scan::{count_key_files, key_file_count};

verus! {

/// A key-value store bound to a root directory.
#[derive(Debug, Clone)]
pub struct KVStore {
    /// The number of key-value mappings currently stored.
    size: usize,
    /// The directory under which the mappings are stored.
    path: String,
}

/// An operation on a store in progress (insert, lookup or remove).
pub struct Operation {
    phase: Phase,
    paths: MappingPaths,
    key: String,
    value: String,
}

impl View for Operation {
    type V = OpState;

    closed spec fn view(&self) -> OpState {
        OpState {
            phase: self.phase,
            shard_dir: self.paths.shard_dir@,
            key_file: self.paths.key_file@,
            value_file: self.paths.value_file@,
            key: self.key@,
            value: self.value@,
        }
    }
}

/// The phase that follows a plain action: `then` if it was done, else an I/O failure.
fn after_done(event: &Event<String>, then: Phase) -> (p: Phase)
    ensures
        p == (match event@ {
            Event::Done => then,
            _ => Phase::Failed(StoreError::Io),
        }),
{
    match event {
        Event::Done => then,
        _ => Phase::Failed(StoreError::Io),
    }
}

/// The phase that follows a question: `yes` or `no` by the answer, else an I/O failure.
fn after_answer(event: &Event<String>, yes: Phase, no: Phase) -> (p: Phase)
    ensures
        p == (match event@ {
            Event::Answer(true) => yes,
            Event::Answer(false) => no,
            _ => Phase::Failed(StoreError::Io),
        }),
{
    match event {
        Event::Answer(true) => yes,
        Event::Answer(false) => no,
        _ => Phase::Failed(StoreError::Io),
    }
}

impl Operation {
    fn start(root: &str, key: &str, value: &str, phase: Phase) -> (op: Operation)
        ensures
            op@ == crate::machine::start_state(root@, key@, value@, phase),
    {
        let fp = fingerprint(key);
        let paths = mapping_paths(root, fp.as_str());
        Operation { phase, paths, key: String::from_str(key), value: String::from_str(value) }
    }

    /// The action this operation waits on.
    pub fn action(&self) -> (a: Action<String>)
        ensures
            a@ == request(self@),
    {
        match self.phase {
            Phase::CreateShard => Action::CreateDir(self.paths.shard_dir.clone()),
            Phase::InsertProbeKey => Action::FileExists(self.paths.key_file.clone()),
            Phase::InsertProbeValue => Action::FileExists(self.paths.value_file.clone()),
            Phase::WriteKey => Action::WriteFile(self.paths.key_file.clone(), self.key.clone()),
            Phase::WriteValue => Action::WriteFile(
                self.paths.value_file.clone(),
                self.value.clone(),
            ),
            Phase::LookupProbeValue => Action::FileExists(self.paths.value_file.clone()),
            Phase::LookupRead => Action::ReadFile(self.paths.value_file.clone()),
            Phase::RemoveProbeShard => Action::DirExists(self.paths.shard_dir.clone()),
            Phase::RemoveProbeKey => Action::FileExists(self.paths.key_file.clone()),
            Phase::RemoveProbeValue => Action::FileExists(self.paths.value_file.clone()),
            Phase::RemoveRead => Action::ReadFile(self.paths.value_file.clone()),
            Phase::RemoveDecode => Action::ValueDecodes(self.value.clone()),
            Phase::DeleteKey => Action::DeleteFile(self.paths.key_file.clone()),
            Phase::DeleteValue => Action::DeleteFile(self.paths.value_file.clone()),
            Phase::ProbeShardEmpty => Action::DirIsEmpty(self.paths.shard_dir.clone()),
            Phase::DeleteShard => Action::DeleteDir(self.paths.shard_dir.clone()),
            Phase::Succeeded => Action::Finish,
            Phase::Failed(_) => Action::Finish,
        }
    }

    /// Whether the operation is over.
    pub fn is_finished(&self) -> (r: bool)
        ensures
            r == self@.is_finished(),
    {
        match self.phase {
            Phase::Succeeded => true,
            Phase::Failed(_) => true,
            _ => false,
        }
    }

    /// How the operation ended: `None` while it runs; on success the encoded value
    /// (the one written by insert, the one read by lookup and remove).
    pub fn outcome(self) -> (r: Option<Result<String, StoreError>>)
        ensures
            (match self@.phase {
                Phase::Succeeded => r matches Some(Ok(v)) && v@ == self@.value,
                Phase::Failed(e) => r == Some(Err::<String, StoreError>(e)),
                _ => r is None,
            }),
    {
        match self.phase {
            Phase::Succeeded => Some(Ok(self.value)),
            Phase::Failed(e) => Some(Err(e)),
            _ => None,
        }
    }
}

impl KVStore {
    /// The number of mappings the store holds.
    pub closed spec fn entries(&self) -> nat {
        self.size as nat
    }

    /// The root directory of the store.
    pub closed spec fn root(&self) -> Seq<char> {
        self.path@
    }

    /// Opens the store rooted at `path`. `root_ready` tells whether the root directory
    /// exists (it was created if absent). `entries` holds, for each entry that the
    /// recursive walk of the root could read (the root included), its path and whether
    /// it is a regular file. The store starts with one mapping per regular file whose
    /// name ends in the key-file suffix.
    pub fn new(path: &str, root_ready: bool, entries: &Vec<(String, bool)>) -> (r: Result<KVStore, StoreError>)
        ensures
            r is Err <==> (path@.len() == 0 || !root_ready),
            r is Err ==> r == Err::<KVStore, StoreError>(StoreError::Configuration),
            r matches Ok(s) ==> s.root() == path@ && s.entries() == key_file_count(entries@),
    {
        if path.is_empty() || !root_ready {
            proof {
                if path@.len() != 0 {
                    assert(!root_ready);
                }
            }
            return Err(StoreError::Configuration);
        }
        let size = count_key_files(entries);
        Ok(KVStore { size, path: String::from_str(path) })
    }

    /// The number of key-value mappings currently stored.
    pub fn size(&self) -> (r: usize)
        ensures
            r == self.entries(),
    {
        self.size
    }

    /// Starts inserting the mapping from the encoded key `key` to the encoded value `value`.
    pub fn begin_insert(&self, key: &str, value: &str) -> (op: Operation)
        ensures
            op@ == insert_start(self.root(), key@, value@),
    {
        Operation::start(self.path.as_str(), key, value, Phase::CreateShard)
    }

    /// Starts looking up the value of the encoded key `key`.
    pub fn begin_lookup(&self, key: &str) -> (op: Operation)
        ensures
            op@ == lookup_start(self.root(), key@),
    {
        proof {
            reveal_strlit("");
            assert(""@ =~= Seq::<char>::empty());
        }
        Operation::start(self.path.as_str(), key, "", Phase::LookupProbeValue)
    }

    /// Starts removing the mapping of the encoded key `key`.
    pub fn begin_remove(&self, key: &str) -> (op: Operation)
        ensures
            op@ == remove_start(self.root(), key@),
    {
        proof {
            reveal_strlit("");
            assert(""@ =~= Seq::<char>::empty());
        }
        Operation::start(self.path.as_str(), key, "", Phase::RemoveProbeShard)
    }

    /// Whether the entry counter can take the next step of `op`: it never passes
    /// `usize::MAX`, and a remove never takes it below zero.
    pub fn can_advance(&self, op: &Operation) -> (r: bool)
        ensures
            r == counter_fits(self.entries(), op@),
    {
        match op.phase {
            Phase::WriteValue => self.size < usize::MAX,
            Phase::DeleteValue => self.size > 0,
            _ => true,
        }
    }

    /// Hands `op` the event that came of its action; returns the action it waits on next.
    /// The counter changes only when the value file of an insert has been written (+1)
    /// and when the value file of a remove has been deleted (-1).
    pub fn advance(&mut self, op: &mut Operation, event: Event<String>) -> (a: Action<String>)
        requires
            counter_fits(old(self).entries(), old(op)@),
        ensures
            (final(self).entries(), final(op)@) == next(old(self).entries(), old(op)@, event@),
            final(self).root() == old(self).root(),
            a@ == request(final(op)@),
    {
        match op.phase {
            Phase::CreateShard => {
                op.phase = after_done(&event, Phase::InsertProbeKey);
            },
            Phase::InsertProbeKey => {
                op.phase = after_answer(
                    &event,
                    Phase::Failed(StoreError::AlreadyExists),
                    Phase::InsertProbeValue,
                );
            },
            Phase::InsertProbeValue => {
                op.phase = after_answer(
                    &event,
                    Phase::Failed(StoreError::AlreadyExists),
                    Phase::WriteKey,
                );
            },
            Phase::WriteKey => {
                op.phase = after_done(&event, Phase::WriteValue);
            },
            Phase::WriteValue => {
                op.phase = after_done(&event, Phase::Succeeded);
                if op.phase == Phase::Succeeded {
                    self.size = self.size + 1;
                }
            },
            Phase::LookupProbeValue => {
                op.phase = after_answer(
                    &event,
                    Phase::LookupRead,
                    Phase::Failed(StoreError::NotFound),
                );
            },
            Phase::LookupRead => match event {
                Event::Contents(c) => {
                    op.value = c;
                    op.phase = Phase::Succeeded;
                },
                _ => {
                    op.phase = Phase::Failed(StoreError::Io);
                },
            },
            Phase::RemoveProbeShard => {
                op.phase = after_answer(
                    &event,
                    Phase::RemoveProbeKey,
                    Phase::Failed(StoreError::NotFound),
                );
            },
            Phase::RemoveProbeKey => {
                op.phase = after_answer(
                    &event,
                    Phase::RemoveProbeValue,
                    Phase::Failed(StoreError::NotFound),
                );
            },
            Phase::RemoveProbeValue => {
                op.phase = after_answer(
                    &event,
                    Phase::RemoveRead,
                    Phase::Failed(StoreError::NotFound),
                );
            },
            Phase::RemoveRead => match event {
                Event::Contents(c) => {
                    op.value = c;
                    op.phase = Phase::RemoveDecode;
                },
                _ => {
                    op.phase = Phase::Failed(StoreError::Io);
                },
            },
            Phase::RemoveDecode => {
                op.phase = after_answer(
                    &event,
                    Phase::DeleteKey,
                    Phase::Failed(StoreError::Encoding),
                );
            },
            Phase::DeleteKey => {
                op.phase = after_done(&event, Phase::DeleteValue);
            },
            Phase::DeleteValue => {
                op.phase = after_done(&event, Phase::ProbeShardEmpty);
                if op.phase == Phase::ProbeShardEmpty {
                    self.size = self.size - 1;
                }
            },
            Phase::ProbeShardEmpty => {
                op.phase = after_answer(&event, Phase::DeleteShard, Phase::Succeeded);
            },
            Phase::DeleteShard => {
                op.phase = after_done(&event, Phase::Succeeded);
            },
            Phase::Succeeded => {},
            Phase::Failed(_) => {},
        }
        op.action()
    }
}

} // verus!
