//! From the engine's replies to the caller's results.

use vstd::prelude::*;
use crate::buffer::DBVector;
use crate::engine::{Answer, Fetched, Status};
use crate::error::{invalid_read_options_text, Error, ErrorKind};

verus! {

/// The result of a read as a mathematical value.
pub ghost enum Read {
    /// The key holds these bytes (possibly none).
    Found(Seq<u8>),
    /// The key holds nothing.
    Absent,
    /// The read failed.
    Refused(ErrorKind, Seq<char>),
}

/// What a read's result says.
pub open spec fn read_of(result: Result<Option<DBVector>, Error>) -> Read {
    match result {
        Ok(Some(bytes)) => Read::Found(bytes@),
        Ok(None) => Read::Absent,
        Err(e) => Read::Refused(e.kind, e.message@),
    }
}

/// The result that each answer of the engine stands for.
pub open spec fn read_for(answer: Answer) -> Read {
    match answer {
        Answer::Value(bytes) => Read::Found(bytes),
        Answer::Missing => Read::Absent,
        Answer::Failed(message) => Read::Refused(ErrorKind::EngineReadFailed, message),
        Answer::NoReadOptions => Read::Refused(
            ErrorKind::InvalidReadOptions,
            invalid_read_options_text(),
        ),
    }
}

/// Turns the engine's answer to a read into the caller's result. A present
/// key gives its bytes unchanged, an empty value included; only an absent
/// key gives `None`.
pub fn fetched(reply: Fetched) -> (result: Result<Option<DBVector>, Error>)
    ensures
        read_of(result) == read_for(reply@),
{
    match reply {
        Fetched::Value(bytes) => Ok(Some(DBVector::from_vec(bytes))),
        Fetched::Missing => Ok(None),
        Fetched::Failed(message) => Err(Error::new(ErrorKind::EngineReadFailed, message)),
        Fetched::NoReadOptions => Err(Error::invalid_read_options()),
    }
}

/// Whether `result` reports what `reply` says, a failure under `kind`.
pub open spec fn settles(reply: Status, kind: ErrorKind, result: Result<(), Error>) -> bool {
    match reply {
        Status::Done => result is Ok,
        Status::Failed(message) => result matches Err(e) && e.is(kind, message@),
    }
}

/// Turns a status into a result: the engine's message, unchanged, under the
/// kind of the operation that failed.
pub fn settle(reply: Status, kind: ErrorKind) -> (result: Result<(), Error>)
    ensures
        settles(reply, kind, result),
{
    match reply {
        Status::Done => Ok(()),
        Status::Failed(message) => Err(Error::new(kind, message)),
    }
}

} // verus!
