//! What holds of whole operations run on a filesystem where every action succeeds
//! whose target is in place.
use vstd::prelude::*;
use crate::disk::{inside, key_files, key_path, run, run_for, shard_path, value_path, Disk};
use crate::paths::key_suffix;
use crate::scan::{
    count_is_listed_key_files, files_listed_once, is_key_file, is_key_file_name, key_file_count,
    listed_key_files,
};
use crate::machine::{insert_start, lookup_start, remove_start, OpState, Phase, StoreError};

verus! {

/// Inserting a key whose files are absent succeeds, adds exactly one to the entry
/// count, and leaves the key file holding the key and the value file holding the value.
pub proof fn insert_of_absent_key(root: Seq<char>, count: nat, key: Seq<char>, value: Seq<char>, disk: Disk)
    requires
        !disk.files.contains_key(key_path(root, key)),
        !disk.files.contains_key(value_path(root, key)),
    ensures
        ({
            let (count2, op, disk2) = run(count, insert_start(root, key, value), disk);
            &&& op.phase == Phase::Succeeded
            &&& count2 == count + 1
            &&& disk2.files == disk.files.insert(key_path(root, key), key).insert(
                value_path(root, key),
                value,
            )
            &&& disk2.dirs == disk.dirs.insert(shard_path(root, key))
            &&& disk2.decodes == disk.decodes
        }),
{
    reveal_with_fuel(run_for, 6);
}

/// Inserting a key whose key file (or value file) is present fails with
/// `AlreadyExists`; the entry count and every file, the stored value among them,
/// stay as they were.
pub proof fn insert_of_present_key(root: Seq<char>, count: nat, key: Seq<char>, value: Seq<char>, disk: Disk)
    requires
        disk.files.contains_key(key_path(root, key)) || disk.files.contains_key(value_path(root, key)),
    ensures
        ({
            let (count2, op, disk2) = run(count, insert_start(root, key, value), disk);
            &&& op.phase == Phase::Failed(StoreError::AlreadyExists)
            &&& count2 == count
            &&& disk2.files == disk.files
        }),
{
    reveal_with_fuel(run_for, 4);
}

/// Looking up a key whose value file is present returns the file's contents and
/// changes neither the entry count nor the disk.
pub proof fn lookup_of_present_key(root: Seq<char>, count: nat, key: Seq<char>, disk: Disk)
    requires
        disk.files.contains_key(value_path(root, key)),
    ensures
        ({
            let (count2, op, disk2) = run(count, lookup_start(root, key), disk);
            &&& op.phase == Phase::Succeeded
            &&& op.value == disk.files[value_path(root, key)]
            &&& count2 == count
            &&& disk2 == disk
        }),
{
    reveal_with_fuel(run_for, 3);
}

/// After a key is inserted, looking it up returns the inserted value.
pub proof fn lookup_after_insert(root: Seq<char>, count: nat, key: Seq<char>, value: Seq<char>, disk: Disk)
    requires
        !disk.files.contains_key(key_path(root, key)),
        !disk.files.contains_key(value_path(root, key)),
    ensures
        ({
            let (count1, _, disk1) = run(count, insert_start(root, key, value), disk);
            let (count2, op, _) = run(count1, lookup_start(root, key), disk1);
            &&& op.phase == Phase::Succeeded
            &&& op.value == value
            &&& count2 == count + 1
        }),
{
    insert_of_absent_key(root, count, key, value, disk);
    let (count1, _, disk1) = run(count, insert_start(root, key, value), disk);
    lookup_of_present_key(root, count1, key, disk1);
}

/// For a key whose value file is absent, lookup and remove both fail with `NotFound`
/// and change neither the entry count nor the disk.
pub proof fn absent_key_is_not_found(root: Seq<char>, count: nat, key: Seq<char>, disk: Disk)
    requires
        !disk.files.contains_key(value_path(root, key)),
    ensures
        ({
            let (count2, op, disk2) = run(count, lookup_start(root, key), disk);
            &&& op.phase == Phase::Failed(StoreError::NotFound)
            &&& count2 == count
            &&& disk2 == disk
        }),
        ({
            let (count2, op, disk2) = run(count, remove_start(root, key), disk);
            &&& op.phase == Phase::Failed(StoreError::NotFound)
            &&& count2 == count
            &&& disk2 == disk
        }),
{
    reveal_with_fuel(run_for, 4);
}

/// Removing a key whose shard directory, key file and value file are present, and
/// whose stored value decodes, returns the stored value, takes exactly one from the
/// entry count, deletes both files, and deletes the shard directory exactly when
/// nothing is left in it.
pub proof fn remove_of_present_key(root: Seq<char>, count: nat, key: Seq<char>, disk: Disk)
    requires
        count > 0,
        disk.dirs.contains(shard_path(root, key)),
        disk.files.contains_key(key_path(root, key)),
        disk.files.contains_key(value_path(root, key)),
        (disk.decodes)(disk.files[value_path(root, key)]),
    ensures
        ({
            let (count2, op, disk2) = run(count, remove_start(root, key), disk);
            let files2 = disk.files.remove(key_path(root, key)).remove(value_path(root, key));
            let emptied = (Disk { files: files2, ..disk }).dir_is_empty(shard_path(root, key));
            &&& op.phase == Phase::Succeeded
            &&& op.value == disk.files[value_path(root, key)]
            &&& count2 == count - 1
            &&& disk2.files == files2
            &&& disk2.dirs == if emptied {
                disk.dirs.remove(shard_path(root, key))
            } else {
                disk.dirs
            }
        }),
{
    paths_differ(root, key);
    let kf = key_path(root, key);
    let vf = value_path(root, key);
    let shard = shard_path(root, key);
    let files2 = disk.files.remove(kf).remove(vf);
    let after = Disk { files: files2, ..disk };
    let s0 = remove_start(root, key);
    let s4 = OpState { phase: Phase::DeleteKey, value: disk.files[vf], ..s0 };
    reveal_with_fuel(run_for, 6);
    assert(run(count, s0, disk) == run_for(count, s4, disk, 4));
    let d5 = Disk { files: disk.files.remove(kf), ..disk };
    assert(d5.files.contains_key(vf));
    let s6 = s4.with_phase(Phase::ProbeShardEmpty);
    assert(run_for(count, s4, disk, 4) == run_for((count - 1) as nat, s6, after, 2));
    if after.dir_is_empty(shard) {
        assert(run_for((count - 1) as nat, s6, after, 2) == (
            (count - 1) as nat,
            s6.with_phase(Phase::Succeeded),
            Disk { dirs: disk.dirs.remove(shard), ..after },
        ));
    } else {
        assert(run_for((count - 1) as nat, s6, after, 2) == (
            (count - 1) as nat,
            s6.with_phase(Phase::Succeeded),
            after,
        ));
    }
}

/// The key file and the value file of a key are two different paths.
pub proof fn paths_differ(root: Seq<char>, key: Seq<char>)
    ensures
        key_path(root, key) != value_path(root, key),
{
    assert(key_path(root, key).len() != value_path(root, key).len());
}

/// A key inserted and then removed: remove returns the inserted value, the entry
/// count is back where it was, and a lookup afterwards fails with `NotFound`.
pub proof fn remove_after_insert(root: Seq<char>, count: nat, key: Seq<char>, value: Seq<char>, disk: Disk)
    requires
        !disk.files.contains_key(key_path(root, key)),
        !disk.files.contains_key(value_path(root, key)),
        (disk.decodes)(value),
    ensures
        ({
            let (count1, _, disk1) = run(count, insert_start(root, key, value), disk);
            let (count2, op, disk2) = run(count1, remove_start(root, key), disk1);
            let (count3, op3, _) = run(count2, lookup_start(root, key), disk2);
            &&& op.phase == Phase::Succeeded
            &&& op.value == value
            &&& count1 == count + 1
            &&& count2 == count
            &&& op3.phase == Phase::Failed(StoreError::NotFound)
            &&& count3 == count
        }),
{
    insert_of_absent_key(root, count, key, value, disk);
    let (count1, _, disk1) = run(count, insert_start(root, key, value), disk);
    paths_differ(root, key);
    remove_of_present_key(root, count1, key, disk1);
    let (count2, _, disk2) = run(count1, remove_start(root, key), disk1);
    absent_key_is_not_found(root, count2, key, disk2);
}

/// Removing the only mapping in its shard directory deletes the directory.
pub proof fn remove_of_last_mapping_in_shard(root: Seq<char>, count: nat, key: Seq<char>, disk: Disk)
    requires
        count > 0,
        disk.dirs.contains(shard_path(root, key)),
        disk.files.contains_key(key_path(root, key)),
        disk.files.contains_key(value_path(root, key)),
        (disk.decodes)(disk.files[value_path(root, key)]),
        forall|f: Seq<char>| #[trigger] disk.files.contains_key(f) && inside(f, shard_path(root, key))
            ==> f == key_path(root, key) || f == value_path(root, key),
        forall|d: Seq<char>| #[trigger] disk.dirs.contains(d) ==> !inside(d, shard_path(root, key)),
    ensures
        !run(count, remove_start(root, key), disk).2.dirs.contains(shard_path(root, key)),
{
    remove_of_present_key(root, count, key, disk);
}

/// Removing one of several mappings in a shard directory keeps the directory and
/// every other file in it.
pub proof fn remove_keeps_shared_shard(
    root: Seq<char>,
    count: nat,
    key: Seq<char>,
    other: Seq<char>,
    disk: Disk,
)
    requires
        count > 0,
        disk.dirs.contains(shard_path(root, key)),
        disk.files.contains_key(key_path(root, key)),
        disk.files.contains_key(value_path(root, key)),
        (disk.decodes)(disk.files[value_path(root, key)]),
        disk.files.contains_key(other),
        inside(other, shard_path(root, key)),
        other != key_path(root, key),
        other != value_path(root, key),
    ensures
        ({
            let disk2 = run(count, remove_start(root, key), disk).2;
            &&& disk2.dirs.contains(shard_path(root, key))
            &&& disk2.files.contains_key(other)
            &&& disk2.files[other] == disk.files[other]
        }),
{
    remove_of_present_key(root, count, key, disk);
    let files2 = disk.files.remove(key_path(root, key)).remove(value_path(root, key));
    let after = Disk { files: files2, ..disk };
    assert(after.files.contains_key(other));
    assert(!after.dir_is_empty(shard_path(root, key)));
}

/// Removing a key whose shard directory, key file or value file is absent fails with
/// `NotFound` and changes neither the entry count nor the disk.
pub proof fn remove_of_incomplete_mapping(root: Seq<char>, count: nat, key: Seq<char>, disk: Disk)
    requires
        !(disk.dirs.contains(shard_path(root, key)) && disk.files.contains_key(key_path(root, key))
            && disk.files.contains_key(value_path(root, key))),
    ensures
        ({
            let (count2, op, disk2) = run(count, remove_start(root, key), disk);
            &&& op.phase == Phase::Failed(StoreError::NotFound)
            &&& count2 == count
            &&& disk2 == disk
        }),
{
    reveal_with_fuel(run_for, 4);
}

/// Removing a key whose stored value does not decode fails with `Encoding` before
/// anything is deleted: the entry count and the disk stay as they were.
pub proof fn remove_of_undecodable_value(root: Seq<char>, count: nat, key: Seq<char>, disk: Disk)
    requires
        disk.dirs.contains(shard_path(root, key)),
        disk.files.contains_key(key_path(root, key)),
        disk.files.contains_key(value_path(root, key)),
        !(disk.decodes)(disk.files[value_path(root, key)]),
    ensures
        ({
            let (count2, op, disk2) = run(count, remove_start(root, key), disk);
            &&& op.phase == Phase::Failed(StoreError::Encoding)
            &&& count2 == count
            &&& disk2 == disk
        }),
{
    reveal_with_fuel(run_for, 6);
}

/// A key file's path ends in the key-file suffix; a value file's does not.
pub proof fn file_names_by_kind(root: Seq<char>, key: Seq<char>)
    ensures
        is_key_file_name(key_path(root, key)),
        !is_key_file_name(value_path(root, key)),
{
    let kf = key_path(root, key);
    let vf = value_path(root, key);
    assert(kf.subrange(kf.len() - 4, kf.len() as int) =~= key_suffix());
    assert(vf.subrange(vf.len() - 4, vf.len() as int)[0] == 'a');
}

/// If the entry count is the number of key files on disk before an insert, lookup
/// or remove, it still is after it.
pub proof fn count_tracks_key_files(root: Seq<char>, count: nat, key: Seq<char>, value: Seq<char>, disk: Disk)
    requires
        disk.files.dom().finite(),
        count == key_files(disk).len(),
    ensures
        ({
            let (count2, _, disk2) = run(count, insert_start(root, key, value), disk);
            count2 == key_files(disk2).len()
        }),
        ({
            let (count2, _, disk2) = run(count, lookup_start(root, key), disk);
            count2 == key_files(disk2).len()
        }),
        ({
            let (count2, _, disk2) = run(count, remove_start(root, key), disk);
            count2 == key_files(disk2).len()
        }),
{
    let kf = key_path(root, key);
    let vf = value_path(root, key);
    file_names_by_kind(root, key);
    disk.files.dom().lemma_len_filter(|p: Seq<char>| is_key_file_name(p));
    if disk.files.contains_key(kf) || disk.files.contains_key(vf) {
        insert_of_present_key(root, count, key, value, disk);
        let disk2 = run(count, insert_start(root, key, value), disk).2;
        assert(key_files(disk2) =~= key_files(disk));
    } else {
        insert_of_absent_key(root, count, key, value, disk);
        let disk2 = run(count, insert_start(root, key, value), disk).2;
        assert(key_files(disk2) =~= key_files(disk).insert(kf));
    }
    if disk.files.contains_key(vf) {
        lookup_of_present_key(root, count, key, disk);
    } else {
        absent_key_is_not_found(root, count, key, disk);
    }
    if disk.dirs.contains(shard_path(root, key)) && disk.files.contains_key(kf)
        && disk.files.contains_key(vf) && !(disk.decodes)(disk.files[vf]) {
        remove_of_undecodable_value(root, count, key, disk);
    } else if disk.dirs.contains(shard_path(root, key)) && disk.files.contains_key(kf)
        && disk.files.contains_key(vf) {
        assert(key_files(disk).contains(kf));
        assert(count > 0);
        remove_of_present_key(root, count, key, disk);
        let disk2 = run(count, remove_start(root, key), disk).2;
        assert(key_files(disk2) =~= key_files(disk).remove(kf));
    } else {
        remove_of_incomplete_mapping(root, count, key, disk);
    }
}

/// Opening a store on `disk`: where the walk lists every file of the disk, and each
/// only once, as a regular file, and lists as regular files nothing else, the store
/// starts with exactly as many mappings as the disk has key files. Directories among
/// the entries, whatever their names, count for nothing.
pub proof fn scan_counts_key_files(entries: Seq<(String, bool)>, disk: Disk)
    requires
        disk.files.dom().finite(),
        files_listed_once(entries),
        forall|i: int| 0 <= i < entries.len() && (#[trigger] entries[i]).1
            ==> disk.files.contains_key(entries[i].0@),
        forall|p: Seq<char>| #[trigger] disk.files.contains_key(p)
            ==> exists|i: int| 0 <= i < entries.len() && entries[i].1 && entries[i].0@ == p,
    ensures
        key_file_count(entries) == key_files(disk).len(),
{
    count_is_listed_key_files(entries);
    assert(listed_key_files(entries) =~= key_files(disk)) by {
        assert forall|p: Seq<char>| key_files(disk).contains(p) implies #[trigger] listed_key_files(entries).contains(p) by {
            let i = choose|i: int| 0 <= i < entries.len() && entries[i].1 && entries[i].0@ == p;
            assert(is_key_file(entries[i]));
        }
    }
}

} // verus!
