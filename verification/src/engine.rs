//! The narrow interface between the handle layer and the storage engine.
//!
//! A [`Request`] is what a handle asks of the engine; the reply types are
//! what the engine answers. Native references travel as opaque `usize`
//! tokens: the layer stores and compares them and never looks behind them.

use vstd::prelude::*;

verus! {

/// How the engine gets the options of an `open`.
#[derive(Clone, Copy, Debug, PartialEq, Eq, Structural)]
pub enum OpenWith {
    /// Default options, with "create the database if it is missing" set.
    Defaults,
    /// The descriptors of the caller's option sets.
    Descriptors { options: usize, db_options: usize },
}

/// One call of the engine, with everything that is handed to it.
///
/// Where `read_options` is `None`, the read runs under default read options
/// that are made for this one call and released after it.
#[derive(Clone, Debug, PartialEq, Eq)]
pub enum Request {
    Open { with: OpenWith, path: Vec<u8> },
    Close { db: usize },
    Destroy { options: usize, path: Vec<u8> },
    Get { db: usize, read_options: Option<usize>, key: Vec<u8> },
    Put { db: usize, key: Vec<u8>, value: Vec<u8> },
    Begin { db: usize, write_options: usize, txn_options: usize },
    TxnGet { txn: usize, read_options: Option<usize>, key: Vec<u8> },
    TxnPut { txn: usize, key: Vec<u8>, value: Vec<u8> },
    TxnDelete { txn: usize, key: Vec<u8> },
    Commit { txn: usize },
    Rollback { txn: usize },
    Release { txn: usize },
    CreateSnapshot { db: usize },
    ReleaseSnapshot { db: usize, snapshot: usize },
    CreateIterator { txn: usize, read_options: Option<usize> },
    SeekToFirst { cursor: usize },
    Next { cursor: usize },
    ReleaseIterator { cursor: usize },
}

/// A [`Request`] as a mathematical value: byte vectors are sequences.
pub ghost enum Call {
    Open { with: OpenWith, path: Seq<u8> },
    Close { db: usize },
    Destroy { options: usize, path: Seq<u8> },
    Get { db: usize, read_options: Option<usize>, key: Seq<u8> },
    Put { db: usize, key: Seq<u8>, value: Seq<u8> },
    Begin { db: usize, write_options: usize, txn_options: usize },
    TxnGet { txn: usize, read_options: Option<usize>, key: Seq<u8> },
    TxnPut { txn: usize, key: Seq<u8>, value: Seq<u8> },
    TxnDelete { txn: usize, key: Seq<u8> },
    Commit { txn: usize },
    Rollback { txn: usize },
    Release { txn: usize },
    CreateSnapshot { db: usize },
    ReleaseSnapshot { db: usize, snapshot: usize },
    CreateIterator { txn: usize, read_options: Option<usize> },
    SeekToFirst { cursor: usize },
    Next { cursor: usize },
    ReleaseIterator { cursor: usize },
}

impl View for Request {
    type V = Call;

    open spec fn view(&self) -> Call {
        match *self {
            Request::Open { with, path } => Call::Open { with, path: path@ },
            Request::Close { db } => Call::Close { db },
            Request::Destroy { options, path } => Call::Destroy { options, path: path@ },
            Request::Get { db, read_options, key } => Call::Get { db, read_options, key: key@ },
            Request::Put { db, key, value } => Call::Put { db, key: key@, value: value@ },
            Request::Begin { db, write_options, txn_options } => Call::Begin {
                db,
                write_options,
                txn_options,
            },
            Request::TxnGet { txn, read_options, key } => Call::TxnGet {
                txn,
                read_options,
                key: key@,
            },
            Request::TxnPut { txn, key, value } => Call::TxnPut { txn, key: key@, value: value@ },
            Request::TxnDelete { txn, key } => Call::TxnDelete { txn, key: key@ },
            Request::Commit { txn } => Call::Commit { txn },
            Request::Rollback { txn } => Call::Rollback { txn },
            Request::Release { txn } => Call::Release { txn },
            Request::CreateSnapshot { db } => Call::CreateSnapshot { db },
            Request::ReleaseSnapshot { db, snapshot } => Call::ReleaseSnapshot { db, snapshot },
            Request::CreateIterator { txn, read_options } => Call::CreateIterator {
                txn,
                read_options,
            },
            Request::SeekToFirst { cursor } => Call::SeekToFirst { cursor },
            Request::Next { cursor } => Call::Next { cursor },
            Request::ReleaseIterator { cursor } => Call::ReleaseIterator { cursor },
        }
    }
}

/// The engine's answer to a call that returns nothing but success or failure.
#[derive(Clone, Debug, PartialEq, Eq)]
pub enum Status {
    Done,
    /// The engine's message.
    Failed(String),
}

/// The engine's answer to an `open`.
#[derive(Clone, Debug, PartialEq, Eq)]
pub enum Opened {
    /// No error was reported; the instance may still be null (zero).
    Instance(usize),
    /// The engine's message.
    Failed(String),
}

/// The engine's answer to a read.
#[derive(Clone, Debug, PartialEq, Eq)]
pub enum Fetched {
    /// The key is present, with this value (which may be empty).
    Value(Vec<u8>),
    /// The key is absent.
    Missing,
    /// The engine's message.
    Failed(String),
    /// The default read options of the call could not be made.
    NoReadOptions,
}

/// A [`Fetched`] as a mathematical value.
pub ghost enum Answer {
    Value(Seq<u8>),
    Missing,
    Failed(Seq<char>),
    NoReadOptions,
}

impl View for Fetched {
    type V = Answer;

    open spec fn view(&self) -> Answer {
        match *self {
            Fetched::Value(v) => Answer::Value(v@),
            Fetched::Missing => Answer::Missing,
            Fetched::Failed(m) => Answer::Failed(m@),
            Fetched::NoReadOptions => Answer::NoReadOptions,
        }
    }
}

impl Status {
    /// The status of a call that left `error` in its error slot: any
    /// message there is a failure.
    pub fn from_raw(error: Option<String>) -> (status: Status)
        ensures
            match error {
                Some(message) => status == Status::Failed(message),
                None => status == Status::Done,
            },
    {
        match error {
            Some(message) => Status::Failed(message),
            None => Status::Done,
        }
    }
}

impl Opened {
    /// The answer of an open that left `error` in its error slot and
    /// returned `instance`. A message there is a failure, whatever was
    /// returned beside it.
    pub fn from_raw(error: Option<String>, instance: usize) -> (opened: Opened)
        ensures
            match error {
                Some(message) => opened == Opened::Failed(message),
                None => opened == Opened::Instance(instance),
            },
    {
        match error {
            Some(message) => Opened::Failed(message),
            None => Opened::Instance(instance),
        }
    }
}

impl Fetched {
    /// The answer of a read that left `error` in its error slot and
    /// returned `value`, `None` standing for a null pointer. A message is a
    /// failure, whatever was returned beside it; without one, a null
    /// pointer is an absent key, and anything else the key's value.
    pub fn from_raw(error: Option<String>, value: Option<Vec<u8>>) -> (fetched: Fetched)
        ensures
            match (error, value) {
                (Some(message), _) => fetched == Fetched::Failed(message),
                (None, Some(bytes)) => fetched == Fetched::Value(bytes),
                (None, None) => fetched == Fetched::Missing,
            },
    {
        match error {
            Some(message) => Fetched::Failed(message),
            None => match value {
                Some(bytes) => Fetched::Value(bytes),
                None => Fetched::Missing,
            },
        }
    }
}

/// Copies a byte slice into a vector of its own.
pub fn copy_bytes(bytes: &[u8]) -> (out: Vec<u8>)
    ensures
        out@ == bytes@,
{
    let mut out: Vec<u8> = Vec::new();
    let mut i: usize = 0;
    while i < bytes.len()
        invariant
            i <= bytes.len(),
            out@ == bytes@.subrange(0, i as int),
        decreases bytes.len() - i,
    {
        out.push(bytes[i]);
        i += 1;
        assert(out@ =~= bytes@.subrange(0, i as int));
    }
    assert(bytes@.subrange(0, bytes.len() as int) =~= bytes@);
    out
}

} // verus!
