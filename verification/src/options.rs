//! Option sets: read-only bundles of engine configuration.
//!
//! Each set stands for one native descriptor, which the layer holds as a
//! token and hands to the engine with the requests that use it.

use vstd::prelude::*;

verus! {

/// Options of a database.
#[derive(Debug)]
pub struct Options {
    descriptor: usize,
}

/// Options of a transactional database.
#[derive(Debug)]
pub struct TransactionDBOptions {
    descriptor: usize,
}

/// Options of one transaction.
#[derive(Debug)]
pub struct TransactionOptions {
    descriptor: usize,
}

/// Options of a write.
#[derive(Debug)]
pub struct WriteOptions {
    descriptor: usize,
}

/// Options of a read. Unlike the other sets, this one may hold a null
/// descriptor: reads check for it and refuse.
#[derive(Debug)]
pub struct ReadOptions {
    descriptor: usize,
}

impl View for Options {
    type V = usize;

    closed spec fn view(&self) -> usize {
        self.descriptor
    }
}

impl View for TransactionDBOptions {
    type V = usize;

    closed spec fn view(&self) -> usize {
        self.descriptor
    }
}

impl View for TransactionOptions {
    type V = usize;

    closed spec fn view(&self) -> usize {
        self.descriptor
    }
}

impl View for WriteOptions {
    type V = usize;

    closed spec fn view(&self) -> usize {
        self.descriptor
    }
}

impl View for ReadOptions {
    type V = usize;

    closed spec fn view(&self) -> usize {
        self.descriptor
    }
}

impl Options {
    /// Wraps a descriptor that the engine made. A null descriptor is a broken
    /// engine, not an input.
    pub fn from_descriptor(descriptor: usize) -> (o: Options)
        requires
            descriptor != 0,
        ensures
            o@ == descriptor,
    {
        Options { descriptor }
    }

    /// The token of the native descriptor.
    pub fn descriptor(&self) -> (d: usize)
        ensures
            d == self@,
    {
        self.descriptor
    }
}

impl TransactionDBOptions {
    /// Wraps a descriptor that the engine made. A null descriptor is a broken
    /// engine, not an input.
    pub fn from_descriptor(descriptor: usize) -> (o: TransactionDBOptions)
        requires
            descriptor != 0,
        ensures
            o@ == descriptor,
    {
        TransactionDBOptions { descriptor }
    }

    /// The token of the native descriptor.
    pub fn descriptor(&self) -> (d: usize)
        ensures
            d == self@,
    {
        self.descriptor
    }
}

impl TransactionOptions {
    /// Wraps a descriptor that the engine made. A null descriptor is a broken
    /// engine, not an input.
    pub fn from_descriptor(descriptor: usize) -> (o: TransactionOptions)
        requires
            descriptor != 0,
        ensures
            o@ == descriptor,
    {
        TransactionOptions { descriptor }
    }

    /// The token of the native descriptor.
    pub fn descriptor(&self) -> (d: usize)
        ensures
            d == self@,
    {
        self.descriptor
    }
}

impl WriteOptions {
    /// Wraps a descriptor that the engine made. A null descriptor is a broken
    /// engine, not an input.
    pub fn from_descriptor(descriptor: usize) -> (o: WriteOptions)
        requires
            descriptor != 0,
        ensures
            o@ == descriptor,
    {
        WriteOptions { descriptor }
    }

    /// The token of the native descriptor.
    pub fn descriptor(&self) -> (d: usize)
        ensures
            d == self@,
    {
        self.descriptor
    }
}

impl ReadOptions {
    /// Wraps whatever the engine returned, null included.
    pub fn from_descriptor(descriptor: usize) -> (o: ReadOptions)
        ensures
            o@ == descriptor,
    {
        ReadOptions { descriptor }
    }

    /// The token of the native descriptor.
    pub fn descriptor(&self) -> (d: usize)
        ensures
            d == self@,
    {
        self.descriptor
    }

    /// Whether the set holds no descriptor.
    pub fn is_null(&self) -> (b: bool)
        ensures
            b == (self@ == 0),
    {
        self.descriptor == 0
    }
}

} // verus!
