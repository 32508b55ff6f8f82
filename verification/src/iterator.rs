//! The iterator bridge: a native cursor as a sequence of key/value pairs.

use vstd::prelude::*;
use crate::buffer::DBVector;
use crate::engine::{Call, Request};
use crate::transaction::Transaction;

verus! {

/// Where a cursor stands.
#[derive(Clone, Copy, Debug, PartialEq, Eq, Structural)]
pub enum Position {
    /// Not moved yet: the next step seeks the first key.
    Fresh,
    /// On a pair: the next step moves to the following key.
    Running,
    /// Past the last key. There is no way back.
    Exhausted,
    /// The native cursor was released.
    Released,
}

/// A cursor over the view of one transaction, from the first key upwards.
/// It borrows the transaction, which cannot commit or roll back meanwhile.
#[derive(Debug)]
pub struct DBIterator<'a> {
    txn: &'a Transaction<'a>,
    cursor: usize,
    position: Position,
}

/// The pair that a step yields for what the cursor reported.
pub open spec fn yielded(
    reply: Option<(Vec<u8>, Vec<u8>)>,
    item: Option<(DBVector, DBVector)>,
) -> bool {
    match reply {
        Some((key, value)) => item matches Some((k, v)) && k@ == key@ && v@ == value@,
        None => item is None,
    }
}

impl<'a> DBIterator<'a> {
    /// The native cursor.
    pub closed spec fn cursor(&self) -> usize {
        self.cursor
    }

    /// Where the cursor stands.
    pub closed spec fn position(&self) -> Position {
        self.position
    }

    /// The native transaction that the cursor reads.
    pub closed spec fn transaction(&self) -> usize {
        self.txn.native()
    }

    /// Whether a step may still yield a pair.
    pub open spec fn is_active(&self) -> bool {
        self.position() == Position::Fresh || self.position() == Position::Running
    }

    /// Whether `next` is this iterator at `position`, all else unchanged.
    pub open spec fn moved_to(&self, next: &Self, position: Position) -> bool {
        next.position() == position && next.cursor() == self.cursor() && next.transaction()
            == self.transaction()
    }

    /// Takes ownership of the native cursor that the engine made for `txn`.
    pub fn new_txn(txn: &'a Transaction<'a>, cursor: usize) -> (it: DBIterator<'a>)
        requires
            txn.is_open(),
        ensures
            it.cursor() == cursor,
            it.transaction() == txn.native(),
            it.position() == Position::Fresh,
    {
        DBIterator { txn, cursor, position: Position::Fresh }
    }

    /// Where the cursor stands.
    pub fn whereabouts(&self) -> (p: Position)
        ensures
            p == self.position(),
    {
        self.position
    }

    /// The next move of the cursor: to the first key from a fresh cursor,
    /// to the following key from a running one. An exhausted or released
    /// cursor moves no more.
    pub fn advance(&self) -> (req: Option<Request>)
        ensures
            match self.position() {
                Position::Fresh => req matches Some(r) && r@ == (Call::SeekToFirst {
                    cursor: self.cursor(),
                }),
                Position::Running => req matches Some(r) && r@ == (Call::Next {
                    cursor: self.cursor(),
                }),
                _ => req is None,
            },
    {
        match self.position {
            Position::Fresh => Some(Request::SeekToFirst { cursor: self.cursor }),
            Position::Running => Some(Request::Next { cursor: self.cursor }),
            _ => None,
        }
    }

    /// Ends a move with what the cursor then stood on: a pair, which is
    /// yielded byte for byte, or nothing, which exhausts the iterator.
    pub fn entry(&mut self, reply: Option<(Vec<u8>, Vec<u8>)>) -> (item: Option<
        (DBVector, DBVector),
    >)
        requires
            old(self).is_active(),
        ensures
            yielded(reply, item),
            old(self).moved_to(
                final(self),
                if reply is Some {
                    Position::Running
                } else {
                    Position::Exhausted
                },
            ),
    {
        match reply {
            Some((key, value)) => {
                self.position = Position::Running;
                Some((DBVector::from_vec(key), DBVector::from_vec(value)))
            },
            None => {
                self.position = Position::Exhausted;
                None
            },
        }
    }

    /// Releases the native cursor. The first call gives the request; every
    /// later call gives nothing.
    pub fn release(&mut self) -> (req: Option<Request>)
        ensures
            old(self).moved_to(final(self), Position::Released),
            old(self).position() != Position::Released ==> (req matches Some(r) && r@
                == (Call::ReleaseIterator { cursor: old(self).cursor() })),
            old(self).position() == Position::Released ==> req is None,
    {
        match self.position {
            Position::Released => None,
            _ => {
                self.position = Position::Released;
                Some(Request::ReleaseIterator { cursor: self.cursor })
            },
        }
    }
}

} // verus!
