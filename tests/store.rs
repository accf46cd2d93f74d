use kvstore::{Action, Event, KVStore, Operation, StoreError};
use std::collections::{BTreeMap, BTreeSet, HashMap};

/// A filesystem held in memory: files by path, and directories by path.
struct MemFs {
    files: BTreeMap<String, String>,
    dirs: BTreeSet<String>,
}

impl MemFs {
    fn new() -> MemFs {
        MemFs { files: BTreeMap::new(), dirs: BTreeSet::new() }
    }

    fn parent_exists(&self, path: &str) -> bool {
        match path.rfind('/') {
            Some(i) => self.dirs.contains(&path[..i]),
            None => false,
        }
    }

    fn has_entries(&self, dir: &str) -> bool {
        let prefix = format!("{}/", dir);
        self.files.keys().any(|f| f.starts_with(&prefix))
            || self.dirs.iter().any(|d| d.starts_with(&prefix))
    }

    fn create_dir_all(&mut self, path: &str) -> bool {
        if path.is_empty() {
            return false;
        }
        let mut acc = String::new();
        for (i, part) in path.split('/').enumerate() {
            if i > 0 {
                acc.push('/');
            }
            acc.push_str(part);
            if !acc.is_empty() && acc != "." {
                self.dirs.insert(acc.clone());
            }
        }
        true
    }

    /// The path of every entry below `root`, and of `root` itself, with whether it is
    /// a regular file.
    fn walk(&self, root: &str) -> Vec<(String, bool)> {
        let prefix = format!("{}/", root);
        let mut entries = vec![(root.to_string(), false)];
        for d in self.dirs.iter().filter(|d| d.starts_with(&prefix)) {
            entries.push((d.clone(), false));
        }
        for f in self.files.keys().filter(|f| f.starts_with(&prefix)) {
            entries.push((f.clone(), true));
        }
        entries
    }

    fn perform(&mut self, action: Action<String>, decodes: &dyn Fn(&str) -> bool) -> Event<String> {
        match action {
            Action::CreateDir(p) => {
                if self.create_dir_all(&p) {
                    Event::Done
                } else {
                    Event::Failed
                }
            }
            Action::FileExists(p) => Event::Answer(self.files.contains_key(&p)),
            Action::DirExists(p) => Event::Answer(self.dirs.contains(&p)),
            Action::WriteFile(p, c) => {
                if self.parent_exists(&p) {
                    self.files.insert(p, c);
                    Event::Done
                } else {
                    Event::Failed
                }
            }
            Action::ReadFile(p) => match self.files.get(&p) {
                Some(c) => Event::Contents(c.clone()),
                None => Event::Failed,
            },
            Action::ValueDecodes(c) => Event::Answer(decodes(&c)),
            Action::DeleteFile(p) => match self.files.remove(&p) {
                Some(_) => Event::Done,
                None => Event::Failed,
            },
            Action::DirIsEmpty(p) => {
                if self.dirs.contains(&p) {
                    Event::Answer(!self.has_entries(&p))
                } else {
                    Event::Failed
                }
            }
            Action::DeleteDir(p) => {
                if self.dirs.remove(&p) {
                    Event::Done
                } else {
                    Event::Failed
                }
            }
            Action::Finish => Event::Done,
        }
    }
}

fn open(fs: &mut MemFs, path: &str) -> Result<KVStore, StoreError> {
    let ready = fs.create_dir_all(path);
    let entries = if ready { fs.walk(path) } else { Vec::new() };
    KVStore::new(path, ready, &entries)
}

fn drive(
    store: &mut KVStore,
    mut op: Operation,
    fs: &mut MemFs,
    decodes: &dyn Fn(&str) -> bool,
) -> Result<String, StoreError> {
    let mut action = op.action();
    while !op.is_finished() {
        assert!(store.can_advance(&op));
        let event = fs.perform(action, decodes);
        action = store.advance(&mut op, event);
    }
    assert_eq!(action, Action::Finish);
    op.outcome().unwrap()
}

fn enc<T: serde::Serialize>(v: &T) -> String {
    serde_json::to_string(v).unwrap()
}

fn insert<K: serde::Serialize, V: serde::Serialize>(
    store: &mut KVStore,
    fs: &mut MemFs,
    key: K,
    value: V,
) -> Result<(), StoreError> {
    let op = store.begin_insert(&enc(&key), &enc(&value));
    drive(store, op, fs, &|_| true).map(|_| ())
}

fn lookup<K: serde::Serialize, V: serde::de::DeserializeOwned>(
    store: &mut KVStore,
    fs: &mut MemFs,
    key: K,
) -> Result<V, StoreError> {
    let op = store.begin_lookup(&enc(&key));
    drive(store, op, fs, &|_| true).map(|s| serde_json::from_str(&s).unwrap())
}

fn remove<K: serde::Serialize, V: serde::de::DeserializeOwned>(
    store: &mut KVStore,
    fs: &mut MemFs,
    key: K,
) -> Result<V, StoreError> {
    let op = store.begin_remove(&enc(&key));
    let decodes = |c: &str| serde_json::from_str::<V>(c).is_ok();
    drive(store, op, fs, &decodes).map(|s| serde_json::from_str(&s).unwrap())
}

fn setup(path: &str) -> (MemFs, KVStore) {
    let mut fs = MemFs::new();
    let store = open(&mut fs, path).unwrap();
    (fs, store)
}

#[test]
fn lib_insert_with_empty_path() {
    let mut fs = MemFs::new();
    match open(&mut fs, "") {
        Ok(_) => panic!("an empty root path must be refused"),
        Err(e) => assert_eq!(e, StoreError::Configuration),
    }
}

#[test]
fn integration_test_insert_with_empty_path() {
    let mut fs = MemFs::new();
    assert_eq!(open(&mut fs, "").err(), Some(StoreError::Configuration));
}

#[test]
fn lib_check_insert_size_update() {
    let (mut fs, mut kv_store) = setup("data1");
    insert(&mut kv_store, &mut fs, String::from("Pizza"), 21i32).unwrap();
    assert_eq!(kv_store.size(), 1);
    insert(&mut kv_store, &mut fs, String::from("Coffee"), 33i32).unwrap();
    assert_eq!(kv_store.size(), 2);
    insert(&mut kv_store, &mut fs, String::from("Candy"), 54i32).unwrap();
    assert_eq!(kv_store.size(), 3);
}

#[test]
fn integration_test_check_insert_size_update() {
    let (mut fs, mut kv_store) = setup("data1");
    insert(&mut kv_store, &mut fs, String::from("Pizza"), 21i32).unwrap();
    assert_eq!(kv_store.size(), 1);
    insert(&mut kv_store, &mut fs, String::from("Coffee"), 33i32).unwrap();
    assert_eq!(kv_store.size(), 2);
    insert(&mut kv_store, &mut fs, String::from("Candy"), 54i32).unwrap();
    assert_eq!(kv_store.size(), 3);
}

#[test]
fn lib_inserting_already_existing_key() {
    let (mut fs, mut kv_store) = setup("data2");
    insert(&mut kv_store, &mut fs, String::from("Hello World"), 2i32).unwrap();
    let second = insert(&mut kv_store, &mut fs, String::from("Hello World"), 2i32);
    assert_eq!(second, Err(StoreError::AlreadyExists));
}

#[test]
fn integration_test_inserting_already_existing_key() {
    let (mut fs, mut kv_store) = setup("data2");
    insert(&mut kv_store, &mut fs, String::from("Hello World"), 2i32).unwrap();
    let second = insert(&mut kv_store, &mut fs, String::from("Hello World"), 2i32);
    assert_eq!(second, Err(StoreError::AlreadyExists));
    assert_eq!(kv_store.size(), 1);
}

#[test]
fn lib_lookup_existing_key() {
    let (mut fs, mut kv_store) = setup("data3");
    insert(&mut kv_store, &mut fs, String::from("Future"), 90i32).unwrap();
    assert_eq!(lookup::<String, i32>(&mut kv_store, &mut fs, String::from("Future")).unwrap(), 90);
}

#[test]
fn integration_test_lookup_existing_key() {
    let (mut fs, mut kv_store) = setup("data3");
    insert(&mut kv_store, &mut fs, String::from("Future"), 90i32).unwrap();
    assert_eq!(lookup::<String, i32>(&mut kv_store, &mut fs, String::from("Future")).unwrap(), 90);
}

#[test]
fn lib_lookup_non_existing_key() {
    let (mut fs, mut kv_store) = setup("data4");
    insert(&mut kv_store, &mut fs, String::from("Past"), 20i32).unwrap();
    let r = lookup::<String, i32>(&mut kv_store, &mut fs, String::from("Present"));
    assert_eq!(r, Err(StoreError::NotFound));
}

#[test]
fn integration_test_lookup_non_existing_key() {
    let (mut fs, mut kv_store) = setup("data4");
    insert(&mut kv_store, &mut fs, String::from("Past"), 20i32).unwrap();
    let r = lookup::<String, i32>(&mut kv_store, &mut fs, String::from("Present"));
    assert_eq!(r, Err(StoreError::NotFound));
}

#[test]
fn lib_lookup_empty_key() {
    let (mut fs, mut kv_store) = setup("data5");
    insert(&mut kv_store, &mut fs, String::from("Past"), 20i32).unwrap();
    let r = lookup::<String, i32>(&mut kv_store, &mut fs, String::from(""));
    assert_eq!(r, Err(StoreError::NotFound));
}

#[test]
fn integration_test_lookup_empty_key() {
    let (mut fs, mut kv_store) = setup("data5");
    insert(&mut kv_store, &mut fs, String::from("Past"), 20i32).unwrap();
    let r = lookup::<String, i32>(&mut kv_store, &mut fs, String::from(""));
    assert_eq!(r, Err(StoreError::NotFound));
}

#[test]
fn lib_remove_existing_key() {
    let (mut fs, mut kv_store) = setup("data6");
    insert(&mut kv_store, &mut fs, String::from("Cold"), 86i32).unwrap();
    insert(&mut kv_store, &mut fs, String::from("Water"), 90i32).unwrap();
    assert_eq!(remove::<String, i32>(&mut kv_store, &mut fs, String::from("Water")).unwrap(), 90);
}

#[test]
fn integration_test_remove_existing_key() {
    let (mut fs, mut kv_store) = setup("data6");
    insert(&mut kv_store, &mut fs, String::from("Cold"), 86i32).unwrap();
    insert(&mut kv_store, &mut fs, String::from("Water"), 90i32).unwrap();
    assert_eq!(remove::<String, i32>(&mut kv_store, &mut fs, String::from("Water")).unwrap(), 90);
}

#[test]
fn lib_remove_non_existing_key() {
    let (mut fs, mut kv_store) = setup("data7");
    insert(&mut kv_store, &mut fs, String::from("Infinite"), 20i32).unwrap();
    insert(&mut kv_store, &mut fs, String::from("Time"), 20i32).unwrap();
    let r = remove::<String, i32>(&mut kv_store, &mut fs, String::from("This key does not exist"));
    assert_eq!(r, Err(StoreError::NotFound));
}

#[test]
fn integration_test_remove_non_existing_key() {
    let (mut fs, mut kv_store) = setup("data7");
    insert(&mut kv_store, &mut fs, String::from("Infinite"), 20i32).unwrap();
    insert(&mut kv_store, &mut fs, String::from("Time"), 20i32).unwrap();
    let r = remove::<String, i32>(&mut kv_store, &mut fs, String::from("This key does not exist"));
    assert_eq!(r, Err(StoreError::NotFound));
    assert_eq!(kv_store.size(), 2);
}

#[test]
fn lib_check_size_when_remove_existing_key() {
    let (mut fs, mut kv_store) = setup("data8");
    insert(&mut kv_store, &mut fs, String::from("Sine"), 360i32).unwrap();
    assert_eq!(kv_store.size(), 1);
    insert(&mut kv_store, &mut fs, String::from("Wave"), 180i32).unwrap();
    assert_eq!(kv_store.size(), 2);
    assert_eq!(remove::<String, i32>(&mut kv_store, &mut fs, String::from("Sine")).unwrap(), 360);
    assert_eq!(kv_store.size(), 1);
}

#[test]
fn integration_test_check_size_when_remove_existing_key() {
    let (mut fs, mut kv_store) = setup("data8");
    insert(&mut kv_store, &mut fs, String::from("Sine"), 360i32).unwrap();
    assert_eq!(kv_store.size(), 1);
    insert(&mut kv_store, &mut fs, String::from("Wave"), 180i32).unwrap();
    assert_eq!(kv_store.size(), 2);
    assert_eq!(remove::<String, i32>(&mut kv_store, &mut fs, String::from("Sine")).unwrap(), 360);
    assert_eq!(kv_store.size(), 1);
}

#[test]
fn lib_remove_existing_key2() {
    let (mut fs, mut kv_store) = setup("data9");
    insert(&mut kv_store, &mut fs, String::from("Earth"), 77i32).unwrap();
    assert_eq!(remove::<String, i32>(&mut kv_store, &mut fs, String::from("Earth")).unwrap(), 77);
}

#[test]
fn integration_test_remove_existing_key2() {
    let (mut fs, mut kv_store) = setup("data9");
    insert(&mut kv_store, &mut fs, String::from("Earth"), 77i32).unwrap();
    assert_eq!(remove::<String, i32>(&mut kv_store, &mut fs, String::from("Earth")).unwrap(), 77);
}

#[test]
fn lib_insert_i32() {
    let (mut fs, mut kv_store) = setup("data");
    insert(&mut kv_store, &mut fs, String::from("key"), 2i32).unwrap();
    assert_eq!(lookup::<String, i32>(&mut kv_store, &mut fs, String::from("key")).unwrap(), 2);
}

#[test]
fn integration_test_insert_i32() {
    let (mut fs, mut kv_store) = setup("data");
    insert(&mut kv_store, &mut fs, String::from("key"), 2i32).unwrap();
    assert_eq!(lookup::<String, i32>(&mut kv_store, &mut fs, String::from("key")).unwrap(), 2);
}

fn address() -> serde_json::Value {
    let mut fields = serde_json::Map::new();
    fields.insert(String::from("street"), serde_json::Value::String("10 Downing Street".to_owned()));
    fields.insert(String::from("city"), serde_json::Value::String("London".to_owned()));
    serde_json::Value::Object(fields)
}

#[test]
fn lib_insert_obj() {
    let (mut fs, mut kv_store) = setup("./test1");
    insert(&mut kv_store, &mut fs, String::from("key"), address()).unwrap();
    let an_add: serde_json::Value =
        lookup(&mut kv_store, &mut fs, String::from("key")).unwrap();
    assert_eq!(an_add["street"], "10 Downing Street".to_owned());
    assert_eq!(an_add["city"], "London".to_owned());
}

#[test]
fn integration_test_insert_obj() {
    let (mut fs, mut kv_store) = setup("./test1");
    insert(&mut kv_store, &mut fs, String::from("key"), address()).unwrap();
    let an_add: serde_json::Value =
        lookup(&mut kv_store, &mut fs, String::from("key")).unwrap();
    assert_eq!(an_add["street"], "10 Downing Street".to_owned());
    assert_eq!(an_add["city"], "London".to_owned());
}

#[test]
fn lib_insert_bool_true() {
    let (mut fs, mut kv_store) = setup("./test2");
    insert(&mut kv_store, &mut fs, String::from("key"), true).unwrap();
    assert_eq!(lookup::<String, bool>(&mut kv_store, &mut fs, String::from("key")).unwrap(), true);
}

#[test]
fn integration_test_insert_bool_true() {
    let (mut fs, mut kv_store) = setup("./test2");
    insert(&mut kv_store, &mut fs, String::from("key"), true).unwrap();
    assert_eq!(lookup::<String, bool>(&mut kv_store, &mut fs, String::from("key")).unwrap(), true);
}

#[test]
fn lib_insert_bool_false() {
    let (mut fs, mut kv_store) = setup("./test3");
    insert(&mut kv_store, &mut fs, String::from("key"), false).unwrap();
    assert_eq!(lookup::<String, bool>(&mut kv_store, &mut fs, String::from("key")).unwrap(), false);
}

#[test]
fn integration_test_insert_bool_false() {
    let (mut fs, mut kv_store) = setup("./test3");
    insert(&mut kv_store, &mut fs, String::from("key"), false).unwrap();
    assert_eq!(lookup::<String, bool>(&mut kv_store, &mut fs, String::from("key")).unwrap(), false);
}

#[test]
fn lib_insert_array() {
    let (mut fs, mut kv_store) = setup("./test4");
    let v: Vec<i32> = vec![1, 2, 3];
    insert(&mut kv_store, &mut fs, String::from("key"), v).unwrap();
    assert_eq!(
        lookup::<String, Vec<i32>>(&mut kv_store, &mut fs, String::from("key")).unwrap(),
        [1, 2, 3]
    );
}

#[test]
fn integration_test_insert_array() {
    let (mut fs, mut kv_store) = setup("./test4");
    let v: Vec<i32> = vec![1, 2, 3];
    insert(&mut kv_store, &mut fs, String::from("key"), v).unwrap();
    assert_eq!(
        lookup::<String, Vec<i32>>(&mut kv_store, &mut fs, String::from("key")).unwrap(),
        [1, 2, 3]
    );
}

#[test]
fn lib_insert_hashmap() {
    let (mut fs, mut kv_store) = setup("./test5");
    let mut scores: HashMap<String, isize> = HashMap::new();
    scores.insert(String::from("Blue"), 10);
    scores.insert(String::from("Yellow"), 50);
    insert(&mut kv_store, &mut fs, String::from("key"), scores).unwrap();
    let score_test: HashMap<String, isize> =
        lookup(&mut kv_store, &mut fs, String::from("key")).unwrap();
    assert_eq!(score_test["Blue"], 10);
    assert_eq!(score_test["Yellow"], 50);
}

#[test]
fn integration_test_insert_hashmap() {
    let (mut fs, mut kv_store) = setup("./test5");
    let mut scores: HashMap<String, isize> = HashMap::new();
    scores.insert(String::from("Blue"), 10);
    scores.insert(String::from("Yellow"), 50);
    insert(&mut kv_store, &mut fs, String::from("key"), scores).unwrap();
    let score_test: HashMap<String, isize> =
        lookup(&mut kv_store, &mut fs, String::from("key")).unwrap();
    assert_eq!(score_test["Blue"], 10);
    assert_eq!(score_test["Yellow"], 50);
}

#[test]
fn lib_invalid_path_lookup() {
    let (mut fs, mut kv_store) = setup("./invalidfolder");
    insert(&mut kv_store, &mut fs, String::from("key"), 3i32).expect("Insert Failed");
    let r = lookup::<String, i32>(&mut kv_store, &mut fs, String::from("key"));
    assert_eq!(r, Ok(3));
}

#[test]
fn integration_test_invalid_path_lookup() {
    let (mut fs, mut kv_store) = setup("./invalidfolder");
    insert(&mut kv_store, &mut fs, String::from("key"), 3i32).expect("Insert Failed");
    let r = lookup::<String, i32>(&mut kv_store, &mut fs, String::from("key"));
    assert_eq!(r, Ok(3));
}

#[test]
fn lib_invalid_path_insert() {
    let (mut fs, mut kv_store) = setup("./invalidfolder");
    let r = insert(&mut kv_store, &mut fs, String::from("key"), 3i32);
    assert_eq!(r, Ok(()));
}

#[test]
fn integration_test_invalid_path_insert() {
    let (mut fs, mut kv_store) = setup("./invalidfolder");
    let r = insert(&mut kv_store, &mut fs, String::from("key"), 3i32);
    assert_eq!(r, Ok(()));
    assert_eq!(kv_store.size(), 1);
}

#[test]
fn scenario_pizza_and_coffee() {
    let (mut fs, mut store) = setup("store");
    insert(&mut store, &mut fs, String::from("Pizza"), 21i32).unwrap();
    assert_eq!(store.size(), 1);
    insert(&mut store, &mut fs, String::from("Coffee"), 33i32).unwrap();
    assert_eq!(store.size(), 2);
    assert_eq!(lookup::<String, i32>(&mut store, &mut fs, String::from("Pizza")), Ok(21));
    assert_eq!(remove::<String, i32>(&mut store, &mut fs, String::from("Pizza")), Ok(21));
    assert_eq!(store.size(), 1);
    assert_eq!(
        lookup::<String, i32>(&mut store, &mut fs, String::from("Pizza")),
        Err(StoreError::NotFound)
    );
}

#[test]
fn scenario_insert_twice() {
    let (mut fs, mut store) = setup("store");
    insert(&mut store, &mut fs, String::from("Hello"), 2i32).unwrap();
    assert_eq!(
        insert(&mut store, &mut fs, String::from("Hello"), 2i32),
        Err(StoreError::AlreadyExists)
    );
    assert_eq!(store.size(), 1);
}

#[test]
fn insert_of_present_key_keeps_the_value() {
    let (mut fs, mut store) = setup("store");
    insert(&mut store, &mut fs, String::from("Hello"), 1i32).unwrap();
    assert_eq!(
        insert(&mut store, &mut fs, String::from("Hello"), 2i32),
        Err(StoreError::AlreadyExists)
    );
    assert_eq!(lookup::<String, i32>(&mut store, &mut fs, String::from("Hello")), Ok(1));
}

#[test]
fn removed_key_is_not_found() {
    let (mut fs, mut store) = setup("store");
    insert(&mut store, &mut fs, 7i32, String::from("seven")).unwrap();
    assert_eq!(remove::<i32, String>(&mut store, &mut fs, 7), Ok(String::from("seven")));
    assert_eq!(store.size(), 0);
    assert_eq!(lookup::<i32, String>(&mut store, &mut fs, 7), Err(StoreError::NotFound));
    assert_eq!(remove::<i32, String>(&mut store, &mut fs, 7), Err(StoreError::NotFound));
    assert_eq!(store.size(), 0);
}

#[test]
fn files_are_laid_out_by_fingerprint() {
    let (mut fs, mut store) = setup("store");
    insert(&mut store, &mut fs, String::from("Pizza"), 21i32).unwrap();
    let fp = "847329705fa1f96dd0b9f6a4e82ff1e2021a24b6253949831fcff69e2c4ae51b";
    let shard = String::from("store/847329705f");
    assert!(fs.dirs.contains(&shard));
    assert_eq!(fs.files.get(&format!("{}/{}.key", shard, fp)), Some(&String::from("\"Pizza\"")));
    assert_eq!(fs.files.get(&format!("{}/{}.value", shard, fp)), Some(&String::from("21")));
    assert_eq!(fs.files.len(), 2);
}

#[test]
fn last_remove_in_shard_deletes_it() {
    let (mut fs, mut store) = setup("store");
    insert(&mut store, &mut fs, String::from("Pizza"), 21i32).unwrap();
    assert!(fs.dirs.contains("store/847329705f"));
    remove::<String, i32>(&mut store, &mut fs, String::from("Pizza")).unwrap();
    assert!(!fs.dirs.contains("store/847329705f"));
    assert!(fs.dirs.contains("store"));
}

#[test]
fn remove_keeps_a_shard_that_is_still_in_use() {
    let (mut fs, mut store) = setup("store");
    insert(&mut store, &mut fs, String::from("Pizza"), 21i32).unwrap();
    let other = String::from("store/847329705f/other.key");
    fs.files.insert(other.clone(), String::from("\"other\""));
    remove::<String, i32>(&mut store, &mut fs, String::from("Pizza")).unwrap();
    assert!(fs.dirs.contains("store/847329705f"));
    assert_eq!(fs.files.get(&other), Some(&String::from("\"other\"")));
}

#[test]
fn reopen_counts_key_files() {
    let (mut fs, mut store) = setup("store");
    insert(&mut store, &mut fs, String::from("Pizza"), 21i32).unwrap();
    insert(&mut store, &mut fs, String::from("Coffee"), 33i32).unwrap();
    insert(&mut store, &mut fs, String::from("Candy"), 54i32).unwrap();
    remove::<String, i32>(&mut store, &mut fs, String::from("Coffee")).unwrap();
    let mut reopened = open(&mut fs, "store").unwrap();
    assert_eq!(reopened.size(), 2);
    assert_eq!(lookup::<String, i32>(&mut reopened, &mut fs, String::from("Candy")), Ok(54));
}

#[test]
fn failed_write_is_an_io_error() {
    let (fs, mut store) = setup("store");
    let mut op = store.begin_insert("\"k\"", "1");
    let a = op.action();
    assert!(matches!(a, Action::CreateDir(_)));
    let a = store.advance(&mut op, Event::Done);
    assert!(matches!(a, Action::FileExists(_)));
    let a = store.advance(&mut op, Event::Answer(false));
    assert!(matches!(a, Action::FileExists(_)));
    let a = store.advance(&mut op, Event::Answer(false));
    assert!(matches!(a, Action::WriteFile(_, _)));
    let a = store.advance(&mut op, Event::Failed);
    assert_eq!(a, Action::Finish);
    assert_eq!(op.outcome(), Some(Err(StoreError::Io)));
    assert_eq!(store.size(), 0);
    assert!(fs.files.is_empty());
}

#[test]
fn size_matches_key_files_after_each_operation() {
    let (mut fs, mut store) = setup("store");
    let key_files = |fs: &MemFs| fs.files.keys().filter(|p| p.ends_with(".key")).count();
    for (k, v) in [("a", 1i32), ("b", 2), ("c", 3), ("a", 4)] {
        let _ = insert(&mut store, &mut fs, String::from(k), v);
        assert_eq!(store.size(), key_files(&fs));
    }
    assert_eq!(store.size(), 3);
    for k in ["b", "z", "b", "a"] {
        let _ = remove::<String, i32>(&mut store, &mut fs, String::from(k));
        assert_eq!(store.size(), key_files(&fs));
    }
    assert_eq!(store.size(), 1);
    let _ = lookup::<String, i32>(&mut store, &mut fs, String::from("c"));
    assert_eq!(store.size(), key_files(&fs));
}

#[test]
fn fresh_root_named_like_a_key_file_is_empty() {
    let (_fs, store) = setup("db.key");
    assert_eq!(store.size(), 0);
}

#[test]
fn directories_named_like_key_files_are_not_counted() {
    let mut fs = MemFs::new();
    fs.create_dir_all("store/x.key");
    fs.create_dir_all("store/y.key/z");
    fs.files.insert(String::from("store/y.key/z/a.key"), String::from("\"a\""));
    fs.files.insert(String::from("store/y.key/z/a.value"), String::from("1"));
    let store = open(&mut fs, "store").unwrap();
    assert_eq!(store.size(), 1);
}

#[test]
fn remove_of_undecodable_value_deletes_nothing() {
    let (mut fs, mut store) = setup("store");
    insert(&mut store, &mut fs, String::from("Pizza"), String::from("not a number")).unwrap();
    let r = remove::<String, i32>(&mut store, &mut fs, String::from("Pizza"));
    assert_eq!(r, Err(StoreError::Encoding));
    assert_eq!(store.size(), 1);
    assert_eq!(fs.files.len(), 2);
    assert_eq!(
        remove::<String, String>(&mut store, &mut fs, String::from("Pizza")),
        Ok(String::from("not a number"))
    );
    assert_eq!(store.size(), 0);
}
