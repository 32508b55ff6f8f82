//! The visibility contract: what reads see of writes.
//!
//! [`Store`] is the state of an engine as far as this layer depends on it:
//! the committed pairs, and for each running transaction the writes that it
//! has buffered. `after` and `answer` say what a successful call does to that
//! state and how a read is answered under read options that are bound to no
//! snapshot. The laws below follow the requests of the handles through such
//! an engine and through [`crate::outcome::fetched`], up to the result that
//! the caller sees.

use vstd::prelude::*;
use crate::engine::{Answer, Call};
use crate::outcome::{read_for, Read};

verus! {

/// The writes that a transaction has buffered: a value, or a removal.
pub type Writes = Map<Seq<u8>, Option<Seq<u8>>>;

/// The state of an engine that keeps the contract.
pub ghost struct Store {
    pub committed: Map<Seq<u8>, Seq<u8>>,
    pub buffered: Map<usize, Writes>,
}

/// `base` with `writes` applied: written keys take their new value, removed
/// keys leave, all others stay.
pub open spec fn overlay(base: Map<Seq<u8>, Seq<u8>>, writes: Writes) -> Map<Seq<u8>, Seq<u8>> {
    Map::new(
        |k: Seq<u8>|
            if writes.contains_key(k) {
                writes[k] is Some
            } else {
                base.contains_key(k)
            },
        |k: Seq<u8>|
            if writes.contains_key(k) {
                writes[k].unwrap()
            } else {
                base[k]
            },
    )
}

/// The answer to a read of `key` from `pairs`.
pub open spec fn lookup(pairs: Map<Seq<u8>, Seq<u8>>, key: Seq<u8>) -> Answer {
    if pairs.contains_key(key) {
        Answer::Value(pairs[key])
    } else {
        Answer::Missing
    }
}

impl Store {
    /// Whether `txn` has begun and has neither committed nor rolled back.
    pub open spec fn running(self, txn: usize) -> bool {
        self.buffered.contains_key(txn)
    }

    /// Whether `txn` has written `value` under `key` and not committed it.
    pub open spec fn holds(self, txn: usize, key: Seq<u8>, value: Seq<u8>) -> bool {
        self.running(txn) && self.buffered[txn].contains_key(key) && self.buffered[txn][key]
            == Some(value)
    }

    /// Whether neither the committed state nor `txn` knows `key`.
    pub open spec fn never_written(self, txn: usize, key: Seq<u8>) -> bool {
        !self.committed.contains_key(key) && (self.running(txn)
            ==> !self.buffered[txn].contains_key(key))
    }

    /// The pairs that `txn` sees: the committed state under its own writes.
    pub open spec fn view(self, txn: usize) -> Map<Seq<u8>, Seq<u8>> {
        if self.running(txn) {
            overlay(self.committed, self.buffered[txn])
        } else {
            self.committed
        }
    }

    /// The state once the engine began the transaction `txn`.
    pub open spec fn begun(self, txn: usize) -> Store {
        Store { buffered: self.buffered.insert(txn, Map::empty()), ..self }
    }

    /// The state once `txn` recorded `write` under `key`.
    pub open spec fn record(self, txn: usize, key: Seq<u8>, write: Option<Seq<u8>>) -> Store {
        if self.running(txn) {
            Store { buffered: self.buffered.insert(txn, self.buffered[txn].insert(key, write)), ..self }
        } else {
            self
        }
    }

    /// The state once the engine has performed `call` with success.
    pub open spec fn after(self, call: Call) -> Store {
        match call {
            Call::Put { db, key, value } => Store {
                committed: self.committed.insert(key, value),
                ..self
            },
            Call::TxnPut { txn, key, value } => self.record(txn, key, Some(value)),
            Call::TxnDelete { txn, key } => self.record(txn, key, None),
            Call::Commit { txn } => if self.running(txn) {
                Store {
                    committed: overlay(self.committed, self.buffered[txn]),
                    buffered: self.buffered.remove(txn),
                }
            } else {
                self
            },
            Call::Rollback { txn } => Store { buffered: self.buffered.remove(txn), ..self },
            _ => self,
        }
    }

    /// The state once the engine has performed each of `calls` in turn.
    pub open spec fn after_all(self, calls: Seq<Call>) -> Store
        decreases calls.len(),
    {
        if calls.len() == 0 {
            self
        } else {
            self.after_all(calls.drop_last()).after(calls.last())
        }
    }

    /// The engine's answer to a read. A transaction sees its own writes and
    /// removals first, then the committed state; a direct read sees the
    /// committed state alone.
    pub open spec fn answer(self, call: Call) -> Answer {
        match call {
            Call::Get { db, read_options, key } => lookup(self.committed, key),
            Call::TxnGet { txn, read_options, key } => if self.running(txn)
                && self.buffered[txn].contains_key(key) {
                match self.buffered[txn][key] {
                    Some(value) => Answer::Value(value),
                    None => Answer::Missing,
                }
            } else {
                lookup(self.committed, key)
            },
            _ => Answer::Missing,
        }
    }
}

/// Whether `call` is a write or a removal inside the transaction `txn`.
pub open spec fn buffers(call: Call, txn: usize) -> bool {
    match call {
        Call::TxnPut { txn: t, .. } => t == txn,
        Call::TxnDelete { txn: t, .. } => t == txn,
        _ => false,
    }
}

/// A direct read of `key` on the database `db`, as the handle requests it.
pub open spec fn direct_read(db: usize, key: Seq<u8>) -> Call {
    Call::Get { db, read_options: None, key }
}

/// A read of `key` inside `txn`, as the handle requests it.
pub open spec fn txn_read(txn: usize, key: Seq<u8>) -> Call {
    Call::TxnGet { txn, read_options: None, key }
}

/// A write inside a running transaction is read back by that transaction,
/// byte for byte, while a direct read of the database answers as it did
/// before the write.
pub proof fn uncommitted_write_is_private(
    s: Store,
    txn: usize,
    db: usize,
    key: Seq<u8>,
    value: Seq<u8>,
)
    requires
        s.running(txn),
    ensures
        s.after(Call::TxnPut { txn, key, value }).holds(txn, key, value),
        read_for(s.after(Call::TxnPut { txn, key, value }).answer(txn_read(txn, key)))
            == Read::Found(value),
        s.after(Call::TxnPut { txn, key, value }).answer(direct_read(db, key)) == s.answer(
            direct_read(db, key),
        ),
{
}

/// A transaction reads every key from its view, and a commit makes exactly
/// that view the committed state.
pub proof fn commit_publishes_the_view(s: Store, txn: usize, db: usize, key: Seq<u8>)
    requires
        s.running(txn),
    ensures
        s.answer(txn_read(txn, key)) == lookup(s.view(txn), key),
        s.after(Call::Commit { txn }).committed == s.view(txn),
        s.after(Call::Commit { txn }).answer(direct_read(db, key)) == s.answer(
            txn_read(txn, key),
        ),
        !s.after(Call::Commit { txn }).running(txn),
{
}

/// A transaction that has just begun reads every key as a direct read does.
pub proof fn fresh_transaction_reads_committed(s: Store, txn: usize, db: usize, key: Seq<u8>)
    ensures
        s.begun(txn).running(txn),
        s.begun(txn).answer(txn_read(txn, key)) == s.answer(direct_read(db, key)),
{
}

/// Under a key that it has not written itself, a transaction reads what is
/// committed at the time of the read, a later direct write included.
pub proof fn unwritten_key_reads_latest_committed(
    s: Store,
    txn: usize,
    db: usize,
    key: Seq<u8>,
    value: Seq<u8>,
)
    requires
        s.running(txn),
        !s.buffered[txn].contains_key(key),
    ensures
        s.answer(txn_read(txn, key)) == s.answer(direct_read(db, key)),
        read_for(s.after(Call::Put { db, key, value }).answer(txn_read(txn, key)))
            == Read::Found(value),
{
}

/// Whatever a transaction holds uncommitted, it reads back; the database
/// answers from the committed state alone.
pub proof fn held_write_is_read_back(s: Store, txn: usize, db: usize, key: Seq<u8>, value: Seq<u8>)
    requires
        s.holds(txn, key, value),
    ensures
        read_for(s.answer(txn_read(txn, key))) == Read::Found(value),
        s.answer(direct_read(db, key)) == lookup(s.committed, key),
{
}

/// A write inside a transaction to another key, or by another transaction,
/// leaves what a transaction holds under `key` as it is.
pub proof fn held_write_stays(
    s: Store,
    txn: usize,
    key: Seq<u8>,
    value: Seq<u8>,
    other: usize,
    other_key: Seq<u8>,
    write: Option<Seq<u8>>,
)
    requires
        s.holds(txn, key, value),
        other != txn || other_key != key,
    ensures
        s.record(other, other_key, write).holds(txn, key, value),
{
}

/// Writes and removals inside a transaction change no committed pair,
/// however many they are.
pub proof fn buffered_writes_leave_committed(s: Store, txn: usize, calls: Seq<Call>)
    requires
        forall|i: int| 0 <= i < calls.len() ==> buffers(#[trigger] calls[i], txn),
    ensures
        s.after_all(calls).committed == s.committed,
        s.running(txn) == s.after_all(calls).running(txn),
    decreases calls.len(),
{
    if calls.len() > 0 {
        let init = calls.drop_last();
        assert forall|i: int| 0 <= i < init.len() implies buffers(#[trigger] init[i], txn) by {
            assert(init[i] == calls[i]);
        }
        buffered_writes_leave_committed(s, txn, init);
        assert(buffers(calls[calls.len() - 1], txn));
    }
}

/// After a commit, a direct read of every key that the transaction held a
/// value for returns that value.
pub proof fn commit_publishes(s: Store, txn: usize, db: usize, key: Seq<u8>, value: Seq<u8>)
    requires
        s.holds(txn, key, value),
    ensures
        read_for(s.after(Call::Commit { txn }).answer(direct_read(db, key))) == Read::Found(
            value,
        ),
{
}

/// After a rollback, a direct read of every key answers as it did before
/// the transaction wrote anything.
pub proof fn rollback_restores(s: Store, txn: usize, db: usize, calls: Seq<Call>, key: Seq<u8>)
    requires
        forall|i: int| 0 <= i < calls.len() ==> buffers(#[trigger] calls[i], txn),
    ensures
        s.after_all(calls).after(Call::Rollback { txn }).answer(direct_read(db, key))
            == s.answer(direct_read(db, key)),
{
    buffered_writes_leave_committed(s, txn, calls);
}

/// A direct write is read back at once by a direct read, byte for byte.
pub proof fn direct_round_trip(s: Store, db: usize, key: Seq<u8>, value: Seq<u8>)
    ensures
        read_for(s.after(Call::Put { db, key, value }).answer(direct_read(db, key)))
            == Read::Found(value),
{
}

/// A key that was never written reads as absent, directly and inside a
/// transaction, and absent is not the empty value: a key written with no
/// bytes reads as found.
pub proof fn absent_is_not_empty(s: Store, txn: usize, db: usize, key: Seq<u8>)
    requires
        s.never_written(txn, key),
    ensures
        read_for(s.answer(direct_read(db, key))) == Read::Absent,
        read_for(s.answer(txn_read(txn, key))) == Read::Absent,
        read_for(s.after(Call::Put { db, key, value: Seq::empty() }).answer(direct_read(db, key)))
            == Read::Found(Seq::empty()),
        Read::Found(Seq::empty()) != Read::Absent,
{
}

} // verus!
