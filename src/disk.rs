//! A model of the filesystem under a store, against which whole operations are run.
use vstd::prelude::*;
use crate::digest::fingerprint_of;
use crate::machine::{next, request, Action, Event, OpState};
use crate::paths::{key_file_of, shard_dir_of, value_file_of};
use crate::scan::is_key_file_name;

verus! {

/// The world an operation runs in: files (path to contents) and directories, by
/// path, and which stored contents the caller's codec decodes.
pub struct Disk {
    pub files: Map<Seq<char>, Seq<char>>,
    pub dirs: Set<Seq<char>>,
    pub decodes: spec_fn(Seq<char>) -> bool,
}

/// `p` lies below the directory `dir`.
pub open spec fn inside(p: Seq<char>, dir: Seq<char>) -> bool {
    &&& p.len() > dir.len() + 1
    &&& p.subrange(0, dir.len() as int) == dir
    &&& p[dir.len() as int] == '/'
}

impl Disk {
    /// No file and no directory lies below `dir`.
    pub open spec fn dir_is_empty(self, dir: Seq<char>) -> bool {
        &&& forall|f: Seq<char>| #[trigger] self.files.contains_key(f) ==> !inside(f, dir)
        &&& forall|d: Seq<char>| #[trigger] self.dirs.contains(d) ==> !inside(d, dir)
    }
}

/// The paths of the key files on `disk`.
pub open spec fn key_files(disk: Disk) -> Set<Seq<char>> {
    disk.files.dom().filter(|p: Seq<char>| is_key_file_name(p))
}

/// The shard directory of the mapping of encoded key `key` under `root`.
pub open spec fn shard_path(root: Seq<char>, key: Seq<char>) -> Seq<char> {
    shard_dir_of(root, fingerprint_of(key))
}

/// The key file of the mapping of encoded key `key` under `root`.
pub open spec fn key_path(root: Seq<char>, key: Seq<char>) -> Seq<char> {
    key_file_of(root, fingerprint_of(key))
}

/// The value file of the mapping of encoded key `key` under `root`.
pub open spec fn value_path(root: Seq<char>, key: Seq<char>) -> Seq<char> {
    value_file_of(root, fingerprint_of(key))
}

/// Performs `a` on a filesystem where every action succeeds whose target is in place:
/// the disk that follows and the event reported.
pub open spec fn perform(disk: Disk, a: Action<Seq<char>>) -> (Disk, Event<Seq<char>>) {
    match a {
        Action::CreateDir(p) => (Disk { dirs: disk.dirs.insert(p), ..disk }, Event::Done),
        Action::FileExists(p) => (disk, Event::Answer(disk.files.contains_key(p))),
        Action::DirExists(p) => (disk, Event::Answer(disk.dirs.contains(p))),
        Action::WriteFile(p, c) => (Disk { files: disk.files.insert(p, c), ..disk }, Event::Done),
        Action::ReadFile(p) => if disk.files.contains_key(p) {
            (disk, Event::Contents(disk.files[p]))
        } else {
            (disk, Event::Failed)
        },
        Action::ValueDecodes(c) => (disk, Event::Answer((disk.decodes)(c))),
        Action::DeleteFile(p) => if disk.files.contains_key(p) {
            (Disk { files: disk.files.remove(p), ..disk }, Event::Done)
        } else {
            (disk, Event::Failed)
        },
        Action::DirIsEmpty(p) => (disk, Event::Answer(disk.dir_is_empty(p))),
        Action::DeleteDir(p) => if disk.dirs.contains(p) {
            (Disk { dirs: disk.dirs.remove(p), ..disk }, Event::Done)
        } else {
            (disk, Event::Failed)
        },
        Action::Finish => (disk, Event::Done),
    }
}

/// Runs `op` on `disk` for at most `fuel` actions: the entry count, the state and
/// the disk at the end.
pub open spec fn run_for(count: nat, op: OpState, disk: Disk, fuel: nat) -> (nat, OpState, Disk)
    decreases fuel,
{
    if fuel == 0 || op.is_finished() {
        (count, op, disk)
    } else {
        let (disk2, event) = perform(disk, request(op));
        let (count2, op2) = next(count, op, event);
        run_for(count2, op2, disk2, (fuel - 1) as nat)
    }
}

/// No operation asks for more actions than this.
pub open spec fn step_bound() -> nat {
    9
}

/// Runs `op` on `disk` to its end.
pub open spec fn run(count: nat, op: OpState, disk: Disk) -> (nat, OpState, Disk) {
    run_for(count, op, disk, step_bound())
}

} // verus!
