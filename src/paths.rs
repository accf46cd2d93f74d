//! The path scheme: where the files of a mapping live under the store root.
use vstd::prelude::*;
use vstd::string::StrSliceExecFns;
use vstd::string::StringExecFns;
use crate::digest::{is_fingerprint, FINGERPRINT_LEN};

verus! {

/// Number of leading fingerprint digits that name a shard directory.
pub const SHARD_PREFIX_LEN: usize = 10;

/// The path separator.
pub open spec fn separator() -> Seq<char> {
    seq!['/']
}

/// The suffix of a key file's name.
pub open spec fn key_suffix() -> Seq<char> {
    seq!['.', 'k', 'e', 'y']
}

/// The suffix of a value file's name.
pub open spec fn value_suffix() -> Seq<char> {
    seq!['.', 'v', 'a', 'l', 'u', 'e']
}

/// `root/fp[0..10]`
pub open spec fn shard_dir_of(root: Seq<char>, fp: Seq<char>) -> Seq<char> {
    root + separator() + fp.subrange(0, SHARD_PREFIX_LEN as int)
}

/// `root/fp[0..10]/fp.key`
pub open spec fn key_file_of(root: Seq<char>, fp: Seq<char>) -> Seq<char> {
    shard_dir_of(root, fp) + separator() + fp + key_suffix()
}

/// `root/fp[0..10]/fp.value`
pub open spec fn value_file_of(root: Seq<char>, fp: Seq<char>) -> Seq<char> {
    shard_dir_of(root, fp) + separator() + fp + value_suffix()
}

/// The three locations that belong to one mapping.
pub struct MappingPaths {
    pub shard_dir: String,
    pub key_file: String,
    pub value_file: String,
}

impl MappingPaths {
    /// The paths of the mapping with fingerprint `fp` in the store rooted at `root`.
    pub open spec fn locates(&self, root: Seq<char>, fp: Seq<char>) -> bool {
        &&& self.shard_dir@ == shard_dir_of(root, fp)
        &&& self.key_file@ == key_file_of(root, fp)
        &&& self.value_file@ == value_file_of(root, fp)
    }
}

/// Resolves the shard directory, key file and value file of fingerprint `fp`
/// under `root`.
pub fn mapping_paths(root: &str, fp: &str) -> (paths: MappingPaths)
    requires
        is_fingerprint(fp@),
    ensures
        paths.locates(root@, fp@),
{
    assert(SHARD_PREFIX_LEN <= FINGERPRINT_LEN);
    let mut shard_dir = String::from_str(root);
    shard_dir.append("/");
    shard_dir.append(fp.substring_char(0, SHARD_PREFIX_LEN));
    let mut key_file = shard_dir.clone();
    key_file.append("/");
    key_file.append(fp);
    let mut value_file = key_file.clone();
    key_file.append(".key");
    value_file.append(".value");
    proof {
        reveal_strlit("/");
        reveal_strlit(".key");
        reveal_strlit(".value");
        assert("/"@ =~= separator());
        assert(".key"@ =~= key_suffix());
        assert(".value"@ =~= value_suffix());
    }
    MappingPaths { shard_dir, key_file, value_file }
}

} // verus!
