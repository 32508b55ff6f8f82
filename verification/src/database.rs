//! The database handle: opening, direct reads and writes, and closing.

use vstd::prelude::*;
use crate::engine::{copy_bytes, Call, OpenWith, Opened, Request, Status};
use crate::error::{
    directory_text, invalid_path_text, invalid_read_options_text, no_instance_text, Error,
    ErrorKind,
};
use crate::options::{Options, ReadOptions, TransactionDBOptions, TransactionOptions, WriteOptions};
use crate::outcome::{settle, settles};

verus! {

/// The NUL-terminated form of `bytes`: the bytes, then one zero byte.
pub open spec fn terminated(bytes: Seq<u8>) -> Seq<u8> {
    bytes.push(0u8)
}

/// Writes `bytes` as a NUL-terminated string. That cannot be done where a
/// zero byte stands among them.
pub fn c_string(bytes: &[u8]) -> (out: Option<Vec<u8>>)
    ensures
        out is Some <==> !bytes@.contains(0u8),
        out matches Some(c) ==> c@ == terminated(bytes@),
{
    let mut out: Vec<u8> = Vec::new();
    let mut i: usize = 0;
    while i < bytes.len()
        invariant
            i <= bytes.len(),
            out@ == bytes@.subrange(0, i as int),
            forall|j: int| 0 <= j < i ==> bytes@[j] != 0u8,
        decreases bytes.len() - i,
    {
        if bytes[i] == 0 {
            assert(bytes@.contains(0u8));
            return None;
        }
        out.push(bytes[i]);
        i += 1;
        assert(out@ =~= bytes@.subrange(0, i as int));
    }
    assert(bytes@.subrange(0, bytes.len() as int) =~= bytes@);
    out.push(0);
    Some(out)
}

/// A database that is being opened: its path has been accepted, its
/// directory and the engine have not been asked yet.
#[derive(Debug)]
pub struct Opening {
    with: OpenWith,
    path: Vec<u8>,
    c_path: Vec<u8>,
}

/// An open database: the one owner of its native instance.
///
/// Transactions and snapshots borrow the handle, so it cannot be closed
/// while one of them is alive, and it gives its `Close` request only once.
#[derive(Debug)]
pub struct TransactionDB {
    native: usize,
    path: Vec<u8>,
    open: bool,
}

/// A point-in-time read view of a database, released through the database
/// that made it.
#[derive(Debug)]
pub struct Snapshot<'a> {
    db: &'a TransactionDB,
    native: usize,
    live: bool,
}

impl Opening {
    /// Where the options of the open come from.
    pub closed spec fn with(&self) -> OpenWith {
        self.with
    }

    /// The path, as the caller gave it.
    pub closed spec fn path(&self) -> Seq<u8> {
        self.path@
    }

    /// The path in the form that the engine takes.
    pub closed spec fn c_path(&self) -> Seq<u8> {
        self.c_path@
    }

    /// The second step of an open, once the directory of the database has
    /// been asked for. If it was refused, the open ends here with the
    /// refusal's text; else the engine is to open the database at the path
    /// in NUL-terminated form.
    pub fn request(&self, directory: Result<(), String>) -> (r: Result<Request, Error>)
        ensures
            match directory {
                Ok(_) => r matches Ok(req) && req@ == (Call::Open {
                    with: self.with(),
                    path: self.c_path(),
                }),
                Err(detail) => r matches Err(e) && e.is(
                    ErrorKind::DirectoryCreationFailed,
                    directory_text(detail@),
                ),
            },
    {
        match directory {
            Err(detail) => Err(Error::directory(detail.as_str())),
            Ok(_) => Ok(
                Request::Open { with: self.with, path: copy_bytes(self.c_path.as_slice()) },
            ),
        }
    }

    /// The last step of an open: the engine's reply becomes a handle, unless
    /// the engine failed or returned no instance.
    pub fn finish(self, reply: Opened) -> (r: Result<TransactionDB, Error>)
        ensures
            match reply {
                Opened::Failed(message) => r matches Err(e) && e.is(
                    ErrorKind::EngineOpenFailed,
                    message@,
                ),
                Opened::Instance(native) => if native == 0 {
                    r matches Err(e) && e.is(ErrorKind::EngineOpenFailed, no_instance_text())
                } else {
                    r matches Ok(db) && db.native() == native && db.path() == self.path()
                        && db.is_open()
                },
            },
    {
        match reply {
            Opened::Failed(message) => Err(Error::new(ErrorKind::EngineOpenFailed, message)),
            Opened::Instance(native) => {
                if native == 0 {
                    Err(Error::no_instance())
                } else {
                    Ok(TransactionDB { native, path: self.path, open: true })
                }
            },
        }
    }
}

/// What the first step of an open returns for a path and a source of
/// options.
pub open spec fn accepts(path: Seq<u8>, with: OpenWith, r: Result<Opening, Error>) -> bool {
    if path.contains(0u8) {
        r matches Err(e) && e.is(ErrorKind::InvalidPath, invalid_path_text())
    } else {
        r matches Ok(o) && o.with() == with && o.path() == path && o.c_path() == terminated(path)
    }
}

fn begin_open(with: OpenWith, path: &[u8]) -> (r: Result<Opening, Error>)
    ensures
        accepts(path@, with, r),
{
    match c_string(path) {
        None => Err(Error::invalid_path()),
        Some(c_path) => Ok(Opening { with, path: copy_bytes(path), c_path }),
    }
}

impl TransactionDB {
    /// The native instance.
    pub closed spec fn native(&self) -> usize {
        self.native
    }

    /// The path that the database was opened at.
    pub closed spec fn path(&self) -> Seq<u8> {
        self.path@
    }

    /// Whether the native instance has not been closed yet.
    pub closed spec fn is_open(&self) -> bool {
        self.open
    }

    /// Starts to open a database with default options, under which a
    /// missing database is created.
    pub fn open_default(path: &[u8]) -> (r: Result<Opening, Error>)
        ensures
            accepts(path@, OpenWith::Defaults, r),
    {
        begin_open(OpenWith::Defaults, path)
    }

    /// Starts to open a database with the given options. The path is
    /// refused where it cannot be written as a NUL-terminated string.
    pub fn open(opts: &Options, txn_db_opts: &TransactionDBOptions, path: &[u8]) -> (r: Result<
        Opening,
        Error,
    >)
        ensures
            accepts(
                path@,
                OpenWith::Descriptors { options: opts@, db_options: txn_db_opts@ },
                r,
            ),
    {
        let with = OpenWith::Descriptors {
            options: opts.descriptor(),
            db_options: txn_db_opts.descriptor(),
        };
        begin_open(with, path)
    }

    /// Starts to remove the on-disk state of the database at `path`. No
    /// handle of that database may be open.
    pub fn destroy(opts: &Options, path: &[u8]) -> (r: Result<Request, Error>)
        ensures
            if path@.contains(0u8) {
                r matches Err(e) && e.is(ErrorKind::InvalidPath, invalid_path_text())
            } else {
                r matches Ok(req) && req@ == (Call::Destroy {
                    options: opts@,
                    path: terminated(path@),
                })
            },
    {
        match c_string(path) {
            None => Err(Error::invalid_path()),
            Some(path) => Ok(Request::Destroy { options: opts.descriptor(), path }),
        }
    }

    /// Ends a `destroy` with the engine's reply.
    pub fn destroyed(reply: Status) -> (r: Result<(), Error>)
        ensures
            settles(reply, ErrorKind::DestroyFailed, r),
    {
        settle(reply, ErrorKind::DestroyFailed)
    }

    /// The token of the native instance.
    pub fn instance(&self) -> (n: usize)
        ensures
            n == self.native(),
    {
        self.native
    }

    /// The path that the database was opened at.
    pub fn location(&self) -> (p: &[u8])
        ensures
            p@ == self.path(),
    {
        self.path.as_slice()
    }

    /// Whether the handle can still be used.
    pub fn usable(&self) -> (b: bool)
        ensures
            b == self.is_open(),
    {
        self.open
    }

    /// A read of `key` from the committed state, under default read options.
    pub fn get(&self, key: &[u8]) -> (req: Request)
        requires
            self.is_open(),
        ensures
            req@ == (Call::Get { db: self.native(), read_options: None, key: key@ }),
    {
        Request::Get { db: self.native, read_options: None, key: copy_bytes(key) }
    }

    /// A read of `key` from the committed state, under the given read
    /// options. Options without a descriptor are refused, and the engine is
    /// not asked.
    pub fn get_opt(&self, key: &[u8], read_opts: &ReadOptions) -> (r: Result<Request, Error>)
        requires
            self.is_open(),
        ensures
            if read_opts@ == 0 {
                r matches Err(e) && e.is(
                    ErrorKind::InvalidReadOptions,
                    invalid_read_options_text(),
                )
            } else {
                r matches Ok(req) && req@ == (Call::Get {
                    db: self.native(),
                    read_options: Some(read_opts@),
                    key: key@,
                })
            },
    {
        if read_opts.is_null() {
            return Err(Error::invalid_read_options());
        }
        Ok(
            Request::Get {
                db: self.native,
                read_options: Some(read_opts.descriptor()),
                key: copy_bytes(key),
            },
        )
    }

    /// A direct write of `value` under `key`, outside any transaction.
    pub fn put(&self, key: &[u8], value: &[u8]) -> (req: Request)
        requires
            self.is_open(),
        ensures
            req@ == (Call::Put { db: self.native(), key: key@, value: value@ }),
    {
        Request::Put { db: self.native, key: copy_bytes(key), value: copy_bytes(value) }
    }

    /// Ends a direct write with the engine's reply.
    pub fn written(&self, reply: Status) -> (r: Result<(), Error>)
        ensures
            settles(reply, ErrorKind::EngineWriteFailed, r),
    {
        settle(reply, ErrorKind::EngineWriteFailed)
    }

    /// The begin of a transaction on this database.
    pub fn transaction_begin(&self, w_opts: &WriteOptions, txn_opts: &TransactionOptions) -> (req:
        Request)
        requires
            self.is_open(),
        ensures
            req@ == (Call::Begin {
                db: self.native(),
                write_options: w_opts@,
                txn_options: txn_opts@,
            }),
    {
        Request::Begin {
            db: self.native,
            write_options: w_opts.descriptor(),
            txn_options: txn_opts.descriptor(),
        }
    }

    /// The making of a snapshot of this database.
    pub fn snapshot(&self) -> (req: Request)
        requires
            self.is_open(),
        ensures
            req@ == (Call::CreateSnapshot { db: self.native() }),
    {
        Request::CreateSnapshot { db: self.native }
    }

    /// Closes the handle. The first call gives the request that closes the
    /// native instance; every later call gives nothing.
    pub fn close(&mut self) -> (req: Option<Request>)
        ensures
            !final(self).is_open(),
            final(self).native() == old(self).native(),
            final(self).path() == old(self).path(),
            old(self).is_open() ==> (req matches Some(r) && r@ == (Call::Close {
                db: old(self).native(),
            })),
            !old(self).is_open() ==> req is None,
    {
        if self.open {
            self.open = false;
            Some(Request::Close { db: self.native })
        } else {
            None
        }
    }
}

impl<'a> Snapshot<'a> {
    /// The native snapshot.
    pub closed spec fn native(&self) -> usize {
        self.native
    }

    /// The database that made the snapshot.
    pub closed spec fn database(&self) -> TransactionDB {
        *self.db
    }

    /// Whether the native snapshot has not been released yet.
    pub closed spec fn is_live(&self) -> bool {
        self.live
    }

    /// Takes ownership of the native snapshot that the engine made for `db`.
    pub fn new(db: &'a TransactionDB, native: usize) -> (s: Snapshot<'a>)
        requires
            db.is_open(),
        ensures
            s.native() == native,
            s.database() == *db,
            s.is_live(),
    {
        Snapshot { db, native, live: true }
    }

    /// The token of the native snapshot.
    pub fn token(&self) -> (n: usize)
        ensures
            n == self.native(),
    {
        self.native
    }

    /// Releases the snapshot through the database that made it. The first
    /// call gives the request; every later call gives nothing.
    pub fn release(&mut self) -> (req: Option<Request>)
        ensures
            !final(self).is_live(),
            final(self).native() == old(self).native(),
            final(self).database() == old(self).database(),
            old(self).is_live() ==> (req matches Some(r) && r@ == (Call::ReleaseSnapshot {
                db: old(self).database().native(),
                snapshot: old(self).native(),
            })),
            !old(self).is_live() ==> req is None,
    {
        if self.live {
            self.live = false;
            Some(Request::ReleaseSnapshot { db: self.db.native, snapshot: self.native })
        } else {
            None
        }
    }
}

} // verus!
