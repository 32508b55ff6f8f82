//! The transaction handle and its lifecycle.

use vstd::prelude::*;
use vstd::string::StringSliceAdditionalSpecFns;
use crate::database::TransactionDB;
use crate::engine::{copy_bytes, Call, Request, Status};
use crate::error::{invalid_read_options_text, Error, ErrorKind};
use crate::options::ReadOptions;
use crate::outcome::{settle, settles};

verus! {

/// Where a transaction handle stands in its life.
#[derive(Clone, Copy, Debug, PartialEq, Eq, Structural)]
pub enum TxnState {
    /// Reads and writes are accepted; nothing has been decided.
    Open,
    /// The buffered writes were applied.
    Committed,
    /// The buffered writes were discarded.
    RolledBack,
    /// The native transaction was released.
    Disposed,
}

/// What moves a transaction handle from one state to the next: a commit or
/// a rollback that the engine performed, or the disposal of the handle.
/// Reads, writes and failed calls move nothing.
pub ghost enum TxnEvent {
    Commit,
    Rollback,
    Dispose,
}

impl TxnState {
    /// The state after `event`. Commit and rollback count from `Open` only;
    /// disposal counts from every state.
    pub open spec fn after(self, event: TxnEvent) -> TxnState {
        match event {
            TxnEvent::Commit => if self == TxnState::Open {
                TxnState::Committed
            } else {
                self
            },
            TxnEvent::Rollback => if self == TxnState::Open {
                TxnState::RolledBack
            } else {
                self
            },
            TxnEvent::Dispose => TxnState::Disposed,
        }
    }

    /// Whether `event` in this state has the native transaction released.
    pub open spec fn releases(self, event: TxnEvent) -> bool {
        event == TxnEvent::Dispose && self != TxnState::Disposed
    }

    /// The state after each of `events` in turn.
    pub open spec fn after_all(self, events: Seq<TxnEvent>) -> TxnState
        decreases events.len(),
    {
        if events.len() == 0 {
            self
        } else {
            self.after_all(events.drop_last()).after(events.last())
        }
    }

    /// How often the native transaction is released in the course of
    /// `events`.
    pub open spec fn released(self, events: Seq<TxnEvent>) -> nat
        decreases events.len(),
    {
        if events.len() == 0 {
            0
        } else {
            let before = events.drop_last();
            self.released(before) + if self.after_all(before).releases(events.last()) {
                1nat
            } else {
                0nat
            }
        }
    }
}

/// Whatever happens to a handle that starts open, in whatever order, its
/// native transaction is released once if the handle is ever disposed of,
/// and not at all if it is not; and the handle is in state `Disposed`
/// exactly from its first disposal on.
pub proof fn released_exactly_once(events: Seq<TxnEvent>)
    ensures
        TxnState::Open.released(events) == if events.contains(TxnEvent::Dispose) {
            1nat
        } else {
            0nat
        },
        TxnState::Open.after_all(events) == TxnState::Disposed <==> events.contains(
            TxnEvent::Dispose,
        ),
    decreases events.len(),
{
    if events.len() > 0 {
        let before = events.drop_last();
        released_exactly_once(before);
        assert(events[events.len() - 1] == events.last());
        if before.contains(TxnEvent::Dispose) {
            let i = choose|i: int| 0 <= i < before.len() && before[i] == TxnEvent::Dispose;
            assert(events[i] == TxnEvent::Dispose);
        }
        if events.contains(TxnEvent::Dispose) && events.last() != TxnEvent::Dispose {
            let i = choose|i: int| 0 <= i < events.len() && events[i] == TxnEvent::Dispose;
            assert(before[i] == TxnEvent::Dispose);
        }
    }
}

/// A committed or rolled-back handle stays as it is until it is disposed
/// of: both states are final but for disposal.
pub proof fn decided_is_final(state: TxnState, events: Seq<TxnEvent>)
    requires
        state == TxnState::Committed || state == TxnState::RolledBack,
        !events.contains(TxnEvent::Dispose),
    ensures
        state.after_all(events) == state,
    decreases events.len(),
{
    if events.len() > 0 {
        let before = events.drop_last();
        assert forall|i: int| 0 <= i < before.len() implies before[i] != TxnEvent::Dispose by {
            assert(events[i] == before[i]);
            assert(events.contains(events[i]));
        }
        assert(events.contains(events[events.len() - 1]));
        decided_is_final(state, before);
    }
}

/// A transaction on one database. It borrows the handle of that database,
/// which therefore outlives it.
#[derive(Debug)]
pub struct Transaction<'a> {
    db: &'a TransactionDB,
    native: usize,
    state: TxnState,
}

/// The bytes `Resource busy`, with which the engine's message begins where
/// it found a conflicting write.
pub open spec fn busy_prefix() -> Seq<u8> {
    seq![82u8, 101u8, 115u8, 111u8, 117u8, 114u8, 99u8, 101u8, 32u8, 98u8, 117u8, 115u8, 121u8]
}

/// Whether a message of the engine reports a conflicting write.
pub open spec fn reports_conflict(message: Seq<char>) -> bool {
    busy_prefix().is_prefix_of(vstd::utf8::encode_utf8(message))
}

/// The kind of a failed commit with the given message.
pub open spec fn commit_failure(message: Seq<char>) -> ErrorKind {
    if reports_conflict(message) {
        ErrorKind::CommitConflict
    } else {
        ErrorKind::CommitFailed
    }
}

/// Tells a conflict from any other failure by the engine's message.
pub fn is_conflict(message: &str) -> (b: bool)
    ensures
        b == reports_conflict(message@),
{
    let busy: [u8; 13] = [82, 101, 115, 111, 117, 114, 99, 101, 32, 98, 117, 115, 121];
    let bytes = message.as_bytes();
    assert(busy@ =~= busy_prefix());
    if bytes.len() < 13 {
        return false;
    }
    let mut i: usize = 0;
    while i < 13
        invariant
            i <= 13,
            bytes@.len() >= 13,
            busy@ == busy_prefix(),
            bytes@ == message.spec_bytes(),
            forall|j: int| 0 <= j < i ==> bytes@[j] == busy@[j],
        decreases 13 - i,
    {
        if bytes[i] != busy[i] {
            assert(bytes@.subrange(0, 13)[i as int] != busy@[i as int]);
            return false;
        }
        i += 1;
    }
    assert(bytes@.subrange(0, 13) =~= busy@);
    true
}

impl<'a> Transaction<'a> {
    /// The native transaction.
    pub closed spec fn native(&self) -> usize {
        self.native
    }

    /// The database that the transaction runs on.
    pub closed spec fn database(&self) -> TransactionDB {
        *self.db
    }

    /// The lifecycle state.
    pub closed spec fn state(&self) -> TxnState {
        self.state
    }

    /// Whether reads, writes, commit and rollback are accepted.
    pub open spec fn is_open(&self) -> bool {
        self.state() == TxnState::Open
    }

    /// Whether `next` is this handle in state `state`, all else unchanged.
    pub open spec fn moved_to(&self, next: &Self, state: TxnState) -> bool {
        next.state() == state && next.native() == self.native() && next.database()
            == self.database()
    }

    /// Takes ownership of the native transaction that the engine began on
    /// `db`. The handle starts open.
    pub fn new(db: &'a TransactionDB, native: usize) -> (t: Transaction<'a>)
        requires
            db.is_open(),
        ensures
            t.native() == native,
            t.database() == *db,
            t.state() == TxnState::Open,
    {
        Transaction { db, native, state: TxnState::Open }
    }

    /// The token of the native transaction.
    pub fn token(&self) -> (n: usize)
        ensures
            n == self.native(),
    {
        self.native
    }

    /// The lifecycle state.
    pub fn status(&self) -> (s: TxnState)
        ensures
            s == self.state(),
    {
        self.state
    }

    /// A buffered write of `value` under `key`.
    pub fn put(&self, key: &[u8], value: &[u8]) -> (req: Request)
        requires
            self.is_open(),
        ensures
            req@ == (Call::TxnPut { txn: self.native(), key: key@, value: value@ }),
    {
        Request::TxnPut { txn: self.native, key: copy_bytes(key), value: copy_bytes(value) }
    }

    /// A buffered removal of `key`.
    pub fn delete(&self, key: &[u8]) -> (req: Request)
        requires
            self.is_open(),
        ensures
            req@ == (Call::TxnDelete { txn: self.native(), key: key@ }),
    {
        Request::TxnDelete { txn: self.native, key: copy_bytes(key) }
    }

    /// Ends a `put` or a `delete` with the engine's reply. A failure is
    /// handed on as it came; the handle stays open.
    pub fn stored(&self, reply: Status) -> (r: Result<(), Error>)
        ensures
            settles(reply, ErrorKind::TransactionWriteFailed, r),
    {
        settle(reply, ErrorKind::TransactionWriteFailed)
    }

    /// A read of `key` in the view of this transaction, under default read
    /// options.
    pub fn get(&self, key: &[u8]) -> (req: Request)
        requires
            self.is_open(),
        ensures
            req@ == (Call::TxnGet { txn: self.native(), read_options: None, key: key@ }),
    {
        Request::TxnGet { txn: self.native, read_options: None, key: copy_bytes(key) }
    }

    /// A read of `key` in the view of this transaction, under the given
    /// read options. Options without a descriptor are refused, and the
    /// engine is not asked.
    pub fn get_opt(&self, key: &[u8], read_opts: &ReadOptions) -> (r: Result<Request, Error>)
        requires
            self.is_open(),
        ensures
            if read_opts@ == 0 {
                r matches Err(e) && e.is(
                    ErrorKind::InvalidReadOptions,
                    invalid_read_options_text(),
                )
            } else {
                r matches Ok(req) && req@ == (Call::TxnGet {
                    txn: self.native(),
                    read_options: Some(read_opts@),
                    key: key@,
                })
            },
    {
        if read_opts.is_null() {
            return Err(Error::invalid_read_options());
        }
        Ok(
            Request::TxnGet {
                txn: self.native,
                read_options: Some(read_opts.descriptor()),
                key: copy_bytes(key),
            },
        )
    }

    /// The commit of the buffered writes.
    pub fn commit(&self) -> (req: Request)
        requires
            self.is_open(),
        ensures
            req@ == (Call::Commit { txn: self.native() }),
    {
        Request::Commit { txn: self.native }
    }

    /// Ends a commit with the engine's reply. On success the handle is
    /// committed for good. On failure it stays open, as the native
    /// transaction does, and the error tells a conflict from other causes.
    pub fn committed(&mut self, reply: Status) -> (r: Result<(), Error>)
        requires
            old(self).is_open(),
        ensures
            match reply {
                Status::Done => r is Ok && old(self).moved_to(
                    final(self),
                    old(self).state().after(TxnEvent::Commit),
                ),
                Status::Failed(message) => *final(self) == *old(self) && (r matches Err(e) && e.is(
                    commit_failure(message@),
                    message@,
                )),
            },
    {
        match reply {
            Status::Done => {
                self.state = TxnState::Committed;
                Ok(())
            },
            Status::Failed(message) => {
                let kind = if is_conflict(message.as_str()) {
                    ErrorKind::CommitConflict
                } else {
                    ErrorKind::CommitFailed
                };
                Err(Error::new(kind, message))
            },
        }
    }

    /// The discarding of the buffered writes.
    pub fn rollback(&self) -> (req: Request)
        requires
            self.is_open(),
        ensures
            req@ == (Call::Rollback { txn: self.native() }),
    {
        Request::Rollback { txn: self.native }
    }

    /// Ends a rollback with the engine's reply. On success the handle is
    /// rolled back for good; on failure it stays open.
    pub fn rolled_back(&mut self, reply: Status) -> (r: Result<(), Error>)
        requires
            old(self).is_open(),
        ensures
            settles(reply, ErrorKind::RollbackFailed, r),
            match reply {
                Status::Done => old(self).moved_to(
                    final(self),
                    old(self).state().after(TxnEvent::Rollback),
                ),
                Status::Failed(_) => *final(self) == *old(self),
            },
    {
        match reply {
            Status::Done => {
                self.state = TxnState::RolledBack;
                Ok(())
            },
            Status::Failed(message) => Err(Error::new(ErrorKind::RollbackFailed, message)),
        }
    }

    /// A cursor over the view of this transaction, under default read
    /// options.
    pub fn iterator(&self) -> (req: Request)
        requires
            self.is_open(),
        ensures
            req@ == (Call::CreateIterator { txn: self.native(), read_options: None }),
    {
        Request::CreateIterator { txn: self.native, read_options: None }
    }

    /// A cursor over the view of this transaction, under the given read
    /// options.
    pub fn iterator_opt(&self, opts: &ReadOptions) -> (req: Request)
        requires
            self.is_open(),
        ensures
            req@ == (Call::CreateIterator { txn: self.native(), read_options: Some(opts@) }),
    {
        Request::CreateIterator { txn: self.native, read_options: Some(opts.descriptor()) }
    }

    /// Disposes of the handle, from whatever state. The first call gives
    /// the request that releases the native transaction; every later call
    /// gives nothing.
    pub fn dispose(&mut self) -> (req: Option<Request>)
        ensures
            old(self).moved_to(final(self), old(self).state().after(TxnEvent::Dispose)),
            old(self).state().releases(TxnEvent::Dispose) ==> (req matches Some(r) && r@
                == (Call::Release { txn: old(self).native() })),
            !old(self).state().releases(TxnEvent::Dispose) ==> req is None,
    {
        match self.state {
            TxnState::Disposed => None,
            _ => {
                self.state = TxnState::Disposed;
                Some(Request::Release { txn: self.native })
            },
        }
    }
}

} // verus!
