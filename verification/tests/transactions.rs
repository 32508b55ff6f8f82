use std::collections::BTreeMap;

use transaction_db::buffer::DBVector;
use transaction_db::database::{c_string, Snapshot, TransactionDB};
use transaction_db::engine::{copy_bytes, Fetched, OpenWith, Opened, Request, Status};
use transaction_db::error::{Error, ErrorKind};
use transaction_db::iterator::{DBIterator, Position};
use transaction_db::options::{
    Options, ReadOptions, TransactionDBOptions, TransactionOptions, WriteOptions,
};
use transaction_db::outcome::{fetched, settle};
use transaction_db::transaction::{is_conflict, Transaction, TxnState};

type Pairs = BTreeMap<Vec<u8>, Vec<u8>>;
type Writes = BTreeMap<Vec<u8>, Option<Vec<u8>>>;

/// An engine in memory that keeps count of what it hands out and takes back.
struct Engine {
    committed: Pairs,
    buffers: BTreeMap<usize, Writes>,
    cursors: BTreeMap<usize, (Vec<(Vec<u8>, Vec<u8>)>, usize)>,
    databases: Vec<Vec<u8>>,
    next_token: usize,
    live: Vec<usize>,
    released: Vec<usize>,
}

impl Engine {
    fn new() -> Engine {
        Engine {
            committed: Pairs::new(),
            buffers: BTreeMap::new(),
            cursors: BTreeMap::new(),
            databases: Vec::new(),
            next_token: 0x1000,
            live: Vec::new(),
            released: Vec::new(),
        }
    }

    fn fresh(&mut self) -> usize {
        self.next_token += 8;
        self.live.push(self.next_token);
        self.next_token
    }

    fn give_back(&mut self, token: usize) {
        let at = self.live.iter().position(|t| *t == token);
        assert!(at.is_some(), "released twice or never made: {}", token);
        self.live.remove(at.unwrap());
        self.released.push(token);
    }

    fn view(&self, txn: usize) -> Pairs {
        let mut pairs = self.committed.clone();
        if let Some(writes) = self.buffers.get(&txn) {
            for (key, write) in writes {
                match write {
                    Some(value) => {
                        pairs.insert(key.clone(), value.clone());
                    }
                    None => {
                        pairs.remove(key);
                    }
                }
            }
        }
        pairs
    }

    fn open(&mut self, request: Request) -> Opened {
        match request {
            Request::Open { path, .. } => {
                assert_eq!(path.last(), Some(&0u8));
                self.databases.push(path);
                Opened::Instance(self.fresh())
            }
            other => panic!("not an open: {:?}", other),
        }
    }

    fn token(&mut self, request: Request) -> usize {
        match request {
            Request::Begin { .. } => {
                let txn = self.fresh();
                self.buffers.insert(txn, Writes::new());
                txn
            }
            Request::CreateSnapshot { .. } => self.fresh(),
            Request::CreateIterator { txn, .. } => {
                let cursor = self.fresh();
                let pairs: Vec<(Vec<u8>, Vec<u8>)> = self.view(txn).into_iter().collect();
                self.cursors.insert(cursor, (pairs, 0));
                cursor
            }
            other => panic!("makes no handle: {:?}", other),
        }
    }

    fn status(&mut self, request: Request) -> Status {
        match request {
            Request::Put { key, value, .. } => {
                self.committed.insert(key, value);
            }
            Request::TxnPut { txn, key, value } => {
                self.buffers.get_mut(&txn).unwrap().insert(key, Some(value));
            }
            Request::TxnDelete { txn, key } => {
                self.buffers.get_mut(&txn).unwrap().insert(key, None);
            }
            Request::Commit { txn } => {
                self.committed = self.view(txn);
                self.buffers.remove(&txn);
            }
            Request::Rollback { txn } => {
                self.buffers.remove(&txn);
            }
            Request::Destroy { path, .. } => {
                let before = self.databases.len();
                self.databases.retain(|p| *p != path);
                if self.databases.len() == before {
                    return Status::Failed(String::from("IO error: no such database"));
                }
                self.committed.clear();
            }
            Request::Close { db } => self.give_back(db),
            Request::Release { txn } => {
                self.buffers.remove(&txn);
                self.give_back(txn);
            }
            Request::ReleaseSnapshot { snapshot, .. } => self.give_back(snapshot),
            Request::ReleaseIterator { cursor } => {
                self.cursors.remove(&cursor);
                self.give_back(cursor);
            }
            other => panic!("no status for: {:?}", other),
        }
        Status::Done
    }

    fn fetch(&mut self, request: Request) -> Fetched {
        let found = match request {
            Request::Get { key, .. } => self.committed.get(&key).cloned(),
            Request::TxnGet { txn, key, .. } => self.view(txn).get(&key).cloned(),
            other => panic!("not a read: {:?}", other),
        };
        match found {
            Some(value) => Fetched::Value(value),
            None => Fetched::Missing,
        }
    }

    fn step(&mut self, request: Request) -> Option<(Vec<u8>, Vec<u8>)> {
        match request {
            Request::SeekToFirst { cursor } => {
                let entry = self.cursors.get_mut(&cursor).unwrap();
                entry.1 = 0;
                entry.0.first().cloned()
            }
            Request::Next { cursor } => {
                let entry = self.cursors.get_mut(&cursor).unwrap();
                entry.1 += 1;
                entry.0.get(entry.1).cloned()
            }
            other => panic!("not a move: {:?}", other),
        }
    }
}

fn open_default(engine: &mut Engine, path: &[u8]) -> Result<TransactionDB, Error> {
    let opening = TransactionDB::open_default(path)?;
    let request = opening.request(Ok(()))?;
    let reply = engine.open(request);
    opening.finish(reply)
}

fn begin<'a>(engine: &mut Engine, db: &'a TransactionDB) -> Transaction<'a> {
    let w_opts = WriteOptions::from_descriptor(0x10);
    let txn_opts = TransactionOptions::from_descriptor(0x20);
    let native = engine.token(db.transaction_begin(&w_opts, &txn_opts));
    Transaction::new(db, native)
}

fn db_get(engine: &mut Engine, db: &TransactionDB, key: &[u8]) -> Result<Option<DBVector>, Error> {
    fetched(engine.fetch(db.get(key)))
}

fn db_put(engine: &mut Engine, db: &TransactionDB, key: &[u8], value: &[u8]) -> Result<(), Error> {
    db.written(engine.status(db.put(key, value)))
}

fn txn_get(engine: &mut Engine, txn: &Transaction, key: &[u8]) -> Result<Option<DBVector>, Error> {
    fetched(engine.fetch(txn.get(key)))
}

fn txn_put(engine: &mut Engine, txn: &Transaction, key: &[u8], value: &[u8]) -> Result<(), Error> {
    txn.stored(engine.status(txn.put(key, value)))
}

fn txn_commit(engine: &mut Engine, txn: &mut Transaction) -> Result<(), Error> {
    let reply = engine.status(txn.commit());
    txn.committed(reply)
}

fn txn_rollback(engine: &mut Engine, txn: &mut Transaction) -> Result<(), Error> {
    let reply = engine.status(txn.rollback());
    txn.rolled_back(reply)
}

fn failed(text: &str) -> Status {
    Status::Failed(String::from(text))
}

#[test]
fn test_transactiondb_creation_and_destroy() {
    let mut engine = Engine::new();
    let _ = open_default(&mut engine, b"transaction_db").unwrap();
}

#[test]
fn test_transactiondb_commit() {
    let mut engine = Engine::new();
    let db = open_default(&mut engine, b"transaction_db").unwrap();
    let mut txn = begin(&mut engine, &db);
    assert!(txn_put(&mut engine, &txn, b"key1", b"value1").is_ok());
    assert!(txn_get(&mut engine, &txn, b"key1").unwrap().is_some());
    assert!(txn_commit(&mut engine, &mut txn).is_ok());
    assert_eq!(
        db_get(&mut engine, &db, b"key1").unwrap().unwrap().to_utf8(),
        Some("value1")
    );
}

#[test]
fn test_transactiondb_rollback() {
    let mut engine = Engine::new();
    let db = open_default(&mut engine, b"transaction_db").unwrap();
    let mut txn = begin(&mut engine, &db);
    assert!(txn_put(&mut engine, &txn, b"key1", b"value1").is_ok());
    assert!(txn_get(&mut engine, &txn, b"key1").unwrap().is_some());
    assert!(txn_rollback(&mut engine, &mut txn).is_ok());
    assert!(db_get(&mut engine, &db, b"key1").unwrap().is_none());
}

#[test]
fn commit_scenario_returns_the_value_at_each_step() {
    let mut engine = Engine::new();
    let db = open_default(&mut engine, b"db").unwrap();
    let mut txn = begin(&mut engine, &db);
    assert_eq!(txn.status(), TxnState::Open);
    txn_put(&mut engine, &txn, b"key1", b"value1").unwrap();
    let inside = txn_get(&mut engine, &txn, b"key1").unwrap().unwrap();
    assert_eq!(inside.to_vec(), b"value1".to_vec());
    assert!(db_get(&mut engine, &db, b"key1").unwrap().is_none());
    txn_commit(&mut engine, &mut txn).unwrap();
    assert_eq!(txn.status(), TxnState::Committed);
    let outside = db_get(&mut engine, &db, b"key1").unwrap().unwrap();
    assert_eq!(outside.as_slice(), b"value1");
    assert_eq!(outside.len(), 6);
}

#[test]
fn uncommitted_write_leaves_prior_value_outside() {
    let mut engine = Engine::new();
    let db = open_default(&mut engine, b"db").unwrap();
    db_put(&mut engine, &db, b"k", b"old").unwrap();
    let mut txn = begin(&mut engine, &db);
    txn_put(&mut engine, &txn, b"k", b"new").unwrap();
    assert_eq!(txn_get(&mut engine, &txn, b"k").unwrap().unwrap().to_vec(), b"new".to_vec());
    assert_eq!(db_get(&mut engine, &db, b"k").unwrap().unwrap().to_vec(), b"old".to_vec());
    txn_rollback(&mut engine, &mut txn).unwrap();
    assert_eq!(txn.status(), TxnState::RolledBack);
    assert_eq!(db_get(&mut engine, &db, b"k").unwrap().unwrap().to_vec(), b"old".to_vec());
}

#[test]
fn delete_in_transaction_hides_the_key_inside_only() {
    let mut engine = Engine::new();
    let db = open_default(&mut engine, b"db").unwrap();
    db_put(&mut engine, &db, b"k", b"v").unwrap();
    let mut txn = begin(&mut engine, &db);
    let request = txn.delete(b"k");
    assert_eq!(request, Request::TxnDelete { txn: txn.token(), key: b"k".to_vec() });
    txn.stored(engine.status(request)).unwrap();
    assert!(txn_get(&mut engine, &txn, b"k").unwrap().is_none());
    assert!(db_get(&mut engine, &db, b"k").unwrap().is_some());
    txn_commit(&mut engine, &mut txn).unwrap();
    assert!(db_get(&mut engine, &db, b"k").unwrap().is_none());
}

#[test]
fn direct_put_then_get_is_byte_exact() {
    let mut engine = Engine::new();
    let db = open_default(&mut engine, b"db").unwrap();
    let value: Vec<u8> = vec![0, 255, 10, 0, 128];
    db_put(&mut engine, &db, b"bin", &value).unwrap();
    let back = db_get(&mut engine, &db, b"bin").unwrap().unwrap();
    assert_eq!(back.to_vec(), value);
    assert_eq!(back.to_utf8(), None);
}

#[test]
fn absent_key_is_none_and_empty_value_is_some() {
    let mut engine = Engine::new();
    let db = open_default(&mut engine, b"db").unwrap();
    assert!(db_get(&mut engine, &db, b"nothing").unwrap().is_none());
    db_put(&mut engine, &db, b"empty", b"").unwrap();
    let empty = db_get(&mut engine, &db, b"empty").unwrap().unwrap();
    assert!(empty.is_empty());
    assert_eq!(empty.len(), 0);
    assert_eq!(empty.to_utf8(), Some(""));
    let txn = begin(&mut engine, &db);
    assert!(txn_get(&mut engine, &txn, b"nothing").unwrap().is_none());
    assert!(txn_get(&mut engine, &txn, b"empty").unwrap().unwrap().is_empty());
}

#[test]
fn iteration_scenario_yields_pairs_in_key_order_and_destroys() {
    let mut engine = Engine::new();
    let path = b"fresh_path";
    {
        let mut db = open_default(&mut engine, path).unwrap();
        db_put(&mut engine, &db, b"key2", b"value2").unwrap();
        db_put(&mut engine, &db, b"key1", b"value1").unwrap();
        {
            let mut txn = begin(&mut engine, &db);
            {
                let cursor = engine.token(txn.iterator());
                let mut it = DBIterator::new_txn(&txn, cursor);
                let mut seen: Vec<(Vec<u8>, Vec<u8>)> = Vec::new();
                while let Some(request) = it.advance() {
                    let reply = engine.step(request);
                    if let Some((key, value)) = it.entry(reply) {
                        seen.push((key.to_vec(), value.to_vec()));
                    }
                }
                assert_eq!(
                    seen,
                    vec![
                        (b"key1".to_vec(), b"value1".to_vec()),
                        (b"key2".to_vec(), b"value2".to_vec()),
                    ]
                );
                assert_eq!(it.whereabouts(), Position::Exhausted);
                assert!(it.advance().is_none());
                engine.status(it.release().unwrap());
                assert!(it.release().is_none());
            }
            engine.status(txn.dispose().unwrap());
        }
        engine.status(db.close().unwrap());
    }
    let opts = Options::from_descriptor(0x30);
    let request = TransactionDB::destroy(&opts, path).unwrap();
    assert_eq!(
        request,
        Request::Destroy { options: 0x30, path: b"fresh_path\0".to_vec() }
    );
    assert!(TransactionDB::destroyed(engine.status(request)).is_ok());
    assert!(engine.databases.is_empty());
    assert!(engine.live.is_empty());
}

#[test]
fn every_native_resource_is_released_exactly_once() {
    let mut engine = Engine::new();
    let mut db = open_default(&mut engine, b"db").unwrap();
    let db_token = db.instance();
    let (txn_token, snap_token);
    {
        let mut txn = begin(&mut engine, &db);
        txn_token = txn.token();
        let mut snap = Snapshot::new(&db, engine.token(db.snapshot()));
        snap_token = snap.token();
        txn_put(&mut engine, &txn, b"a", b"1").unwrap();
        txn_commit(&mut engine, &mut txn).unwrap();

        let first = snap.release();
        assert_eq!(
            first,
            Some(Request::ReleaseSnapshot { db: db_token, snapshot: snap_token })
        );
        engine.status(first.unwrap());
        assert_eq!(snap.release(), None);

        let first = txn.dispose();
        assert_eq!(first, Some(Request::Release { txn: txn_token }));
        engine.status(first.unwrap());
        assert_eq!(txn.status(), TxnState::Disposed);
        assert_eq!(txn.dispose(), None);
        assert_eq!(txn.dispose(), None);
    }
    assert!(db.usable());
    let first = db.close();
    assert_eq!(first, Some(Request::Close { db: db_token }));
    engine.status(first.unwrap());
    assert!(!db.usable());
    assert_eq!(db.close(), None);
    assert!(engine.live.is_empty());
    let mut released = engine.released.clone();
    released.sort();
    let mut expected = vec![db_token, txn_token, snap_token];
    expected.sort();
    assert_eq!(released, expected);
}

#[test]
fn open_hands_the_engine_the_terminated_path_and_the_descriptors() {
    let opts = Options::from_descriptor(0x30);
    let txn_db_opts = TransactionDBOptions::from_descriptor(0x40);
    let opening = TransactionDB::open(&opts, &txn_db_opts, b"/tmp/db").unwrap();
    let request = opening.request(Ok(())).unwrap();
    assert_eq!(
        request,
        Request::Open {
            with: OpenWith::Descriptors { options: 0x30, db_options: 0x40 },
            path: b"/tmp/db\0".to_vec(),
        }
    );
    let db = opening.finish(Opened::Instance(0x5000)).unwrap();
    assert_eq!(db.instance(), 0x5000);
    assert_eq!(db.location(), b"/tmp/db");
    assert!(db.usable());

    let opening = TransactionDB::open_default(b"x").unwrap();
    assert_eq!(
        opening.request(Ok(())).unwrap(),
        Request::Open { with: OpenWith::Defaults, path: vec![b'x', 0] }
    );
}

#[test]
fn path_with_a_zero_byte_is_invalid() {
    let err = TransactionDB::open_default(b"bad\0path").unwrap_err();
    assert_eq!(err.kind(), ErrorKind::InvalidPath);
    assert_eq!(err.to_string(), "Failed to convert path to CString when opening DB.");
    let opts = Options::from_descriptor(0x30);
    let txn_db_opts = TransactionDBOptions::from_descriptor(0x40);
    let err = TransactionDB::open(&opts, &txn_db_opts, b"\0").unwrap_err();
    assert_eq!(err.kind(), ErrorKind::InvalidPath);
    let err = TransactionDB::destroy(&opts, b"a\0").unwrap_err();
    assert_eq!(err.kind(), ErrorKind::InvalidPath);
}

#[test]
fn c_string_appends_one_zero_or_refuses() {
    assert_eq!(c_string(b"abc"), Some(vec![b'a', b'b', b'c', 0]));
    assert_eq!(c_string(b""), Some(vec![0]));
    assert_eq!(c_string(b"a\0b"), None);
    assert_eq!(c_string(b"ab\0"), None);
    assert_eq!(copy_bytes(b"xyz"), b"xyz".to_vec());
}

#[test]
fn refused_directory_ends_the_open() {
    let opening = TransactionDB::open_default(b"db").unwrap();
    let err = opening.request(Err(String::from("PermissionDenied"))).unwrap_err();
    assert_eq!(err.kind(), ErrorKind::DirectoryCreationFailed);
    assert_eq!(err.to_string(), "Failed to create RocksDB directory: `PermissionDenied`.");
}

#[test]
fn engine_open_failure_and_null_instance() {
    let opening = TransactionDB::open_default(b"db").unwrap();
    let err = opening
        .finish(Opened::Failed(String::from("IO error: lock held")))
        .unwrap_err();
    assert_eq!(err.kind(), ErrorKind::EngineOpenFailed);
    assert_eq!(err.to_string(), "IO error: lock held");

    let opening = TransactionDB::open_default(b"db").unwrap();
    let err = opening.finish(Opened::Instance(0)).unwrap_err();
    assert_eq!(err.kind(), ErrorKind::EngineOpenFailed);
    assert_eq!(err.to_string(), "Could not initialize database.");
}

#[test]
fn null_read_options_are_refused_before_the_engine_is_asked() {
    let mut engine = Engine::new();
    let db = open_default(&mut engine, b"db").unwrap();
    let txn = begin(&mut engine, &db);
    let null = ReadOptions::from_descriptor(0);
    assert!(null.is_null());
    let text = "Unable to create RocksDB read options. This is a fairly trivial call, and its \
                failure may be indicative of a mis-compiled or mis-loaded RocksDB library.";
    let err = db.get_opt(b"k", &null).unwrap_err();
    assert_eq!(err.kind(), ErrorKind::InvalidReadOptions);
    assert_eq!(err.to_string(), text);
    let err = txn.get_opt(b"k", &null).unwrap_err();
    assert_eq!(err.kind(), ErrorKind::InvalidReadOptions);
    assert_eq!(err.to_string(), text);
    let err = fetched(Fetched::NoReadOptions).unwrap_err();
    assert_eq!(err.kind(), ErrorKind::InvalidReadOptions);
    assert_eq!(err.to_string(), text);

    let opts = ReadOptions::from_descriptor(0x50);
    assert_eq!(opts.descriptor(), 0x50);
    assert_eq!(
        db.get_opt(b"k", &opts).unwrap(),
        Request::Get { db: db.instance(), read_options: Some(0x50), key: b"k".to_vec() }
    );
    assert_eq!(
        txn.get_opt(b"k", &opts).unwrap(),
        Request::TxnGet { txn: txn.token(), read_options: Some(0x50), key: b"k".to_vec() }
    );
    assert_eq!(
        txn.iterator_opt(&opts),
        Request::CreateIterator { txn: txn.token(), read_options: Some(0x50) }
    );
    assert_eq!(
        db.get(b"k"),
        Request::Get { db: db.instance(), read_options: None, key: b"k".to_vec() }
    );
}

#[test]
fn engine_failures_keep_their_message_under_the_kind_of_the_operation() {
    let mut engine = Engine::new();
    let db = open_default(&mut engine, b"db").unwrap();
    let mut txn = begin(&mut engine, &db);

    let err = fetched(Fetched::Failed(String::from("Corruption: bad block"))).unwrap_err();
    assert_eq!(err.kind(), ErrorKind::EngineReadFailed);
    assert_eq!(err.to_string(), "Corruption: bad block");

    let err = db.written(failed("IO error: disk full")).unwrap_err();
    assert_eq!(err.kind(), ErrorKind::EngineWriteFailed);
    assert_eq!(err.to_string(), "IO error: disk full");

    let err = txn.stored(failed("Operation timed out: Timeout waiting to lock key")).unwrap_err();
    assert_eq!(err.kind(), ErrorKind::TransactionWriteFailed);
    assert_eq!(err.to_string(), "Operation timed out: Timeout waiting to lock key");

    let err = txn.committed(failed("Resource busy: ")).unwrap_err();
    assert_eq!(err.kind(), ErrorKind::CommitConflict);
    assert_eq!(err.to_string(), "Resource busy: ");
    assert_eq!(txn.status(), TxnState::Open);

    let err = txn.committed(failed("IO error: disk full")).unwrap_err();
    assert_eq!(err.kind(), ErrorKind::CommitFailed);
    assert_eq!(err.to_string(), "IO error: disk full");
    assert_eq!(txn.status(), TxnState::Open);

    let err = txn.rolled_back(failed("IO error: gone")).unwrap_err();
    assert_eq!(err.kind(), ErrorKind::RollbackFailed);
    assert_eq!(err.to_string(), "IO error: gone");
    assert_eq!(txn.status(), TxnState::Open);

    let err = TransactionDB::destroyed(failed("IO error: busy")).unwrap_err();
    assert_eq!(err.kind(), ErrorKind::DestroyFailed);
    assert_eq!(err.to_string(), "IO error: busy");

    let err = settle(failed("m"), ErrorKind::CommitFailed).unwrap_err();
    assert_eq!(err.kind(), ErrorKind::CommitFailed);
    assert!(settle(Status::Done, ErrorKind::CommitFailed).is_ok());

    let made = Error::new(ErrorKind::DestroyFailed, String::from("text"));
    assert_eq!(made.kind(), ErrorKind::DestroyFailed);
    assert_eq!(made.to_string(), "text");
}

#[test]
fn conflict_is_told_by_the_first_thirteen_bytes() {
    assert!(is_conflict("Resource busy"));
    assert!(is_conflict("Resource busy: write conflict"));
    assert!(!is_conflict("Resource bus"));
    assert!(!is_conflict("resource busy: "));
    assert!(!is_conflict(""));
    assert!(!is_conflict("IO error: Resource busy"));
    assert!(!is_conflict("Resource busX and more"));
}

#[test]
fn to_utf8_is_none_for_bytes_that_are_no_text() {
    assert_eq!(DBVector::from_vec(vec![0xff, 0xfe]).to_utf8(), None);
    assert_eq!(DBVector::from_vec(vec![0xc3]).to_utf8(), None);
    assert_eq!(DBVector::from_vec(vec![0xc3, 0xa9]).to_utf8(), Some("\u{e9}"));
    assert_eq!(DBVector::from_vec(b"value1".to_vec()).to_utf8(), Some("value1"));
}

#[test]
fn requests_of_a_transaction_carry_its_token_and_the_bytes() {
    let mut engine = Engine::new();
    let db = open_default(&mut engine, b"db").unwrap();
    let w_opts = WriteOptions::from_descriptor(0x10);
    let txn_opts = TransactionOptions::from_descriptor(0x20);
    assert_eq!(w_opts.descriptor(), 0x10);
    assert_eq!(txn_opts.descriptor(), 0x20);
    assert_eq!(
        db.transaction_begin(&w_opts, &txn_opts),
        Request::Begin { db: db.instance(), write_options: 0x10, txn_options: 0x20 }
    );
    assert_eq!(db.snapshot(), Request::CreateSnapshot { db: db.instance() });
    assert_eq!(
        db.put(b"k", b"v"),
        Request::Put { db: db.instance(), key: b"k".to_vec(), value: b"v".to_vec() }
    );
    let txn = Transaction::new(&db, 0x77);
    assert_eq!(txn.token(), 0x77);
    assert_eq!(
        txn.put(b"k", b"v"),
        Request::TxnPut { txn: 0x77, key: b"k".to_vec(), value: b"v".to_vec() }
    );
    assert_eq!(
        txn.get(b"k"),
        Request::TxnGet { txn: 0x77, read_options: None, key: b"k".to_vec() }
    );
    assert_eq!(txn.commit(), Request::Commit { txn: 0x77 });
    assert_eq!(txn.rollback(), Request::Rollback { txn: 0x77 });
    assert_eq!(txn.iterator(), Request::CreateIterator { txn: 0x77, read_options: None });
}

#[test]
fn cursor_moves_first_then_next_and_stops_for_good() {
    let mut engine = Engine::new();
    let db = open_default(&mut engine, b"db").unwrap();
    let txn = begin(&mut engine, &db);
    let mut it = DBIterator::new_txn(&txn, 0x99);
    assert_eq!(it.whereabouts(), Position::Fresh);
    assert_eq!(it.advance(), Some(Request::SeekToFirst { cursor: 0x99 }));
    let item = it.entry(Some((b"a".to_vec(), b"".to_vec()))).unwrap();
    assert_eq!(item.0.to_vec(), b"a".to_vec());
    assert!(item.1.is_empty());
    assert_eq!(it.whereabouts(), Position::Running);
    assert_eq!(it.advance(), Some(Request::Next { cursor: 0x99 }));
    assert!(it.entry(None).is_none());
    assert_eq!(it.whereabouts(), Position::Exhausted);
    assert_eq!(it.advance(), None);
    assert_eq!(it.release(), Some(Request::ReleaseIterator { cursor: 0x99 }));
    assert_eq!(it.whereabouts(), Position::Released);
    assert_eq!(it.advance(), None);
    assert_eq!(it.release(), None);
}

#[test]
fn an_error_message_wins_over_whatever_came_with_it() {
    let message = String::from("Corruption: checksum");
    assert_eq!(Status::from_raw(None), Status::Done);
    assert_eq!(Status::from_raw(Some(message.clone())), Status::Failed(message.clone()));
    assert_eq!(Opened::from_raw(None, 0x5000), Opened::Instance(0x5000));
    assert_eq!(Opened::from_raw(None, 0), Opened::Instance(0));
    assert_eq!(
        Opened::from_raw(Some(message.clone()), 0x5000),
        Opened::Failed(message.clone())
    );
    assert_eq!(Fetched::from_raw(None, None), Fetched::Missing);
    assert_eq!(Fetched::from_raw(None, Some(Vec::new())), Fetched::Value(Vec::new()));
    assert_eq!(Fetched::from_raw(None, Some(vec![1, 2])), Fetched::Value(vec![1, 2]));
    assert_eq!(
        Fetched::from_raw(Some(message.clone()), Some(vec![1, 2])),
        Fetched::Failed(message.clone())
    );
    assert_eq!(Fetched::from_raw(Some(message.clone()), None), Fetched::Failed(message));
}
