//! Object stores, their rows, and the requests that a transaction holds.
//!
//! Callbacks (`C`), keys (`K`) and key ranges (`G`) are opaque here: they are
//! handed through, to the store layer or back to the one who asked, as they are.

use std::collections::VecDeque;

use vstd::prelude::*;

verus! {

/// An object store, as its row in the database describes it.
#[derive(Debug, PartialEq, Eq)]
pub struct ObjectStoreModel {
    pub id: i64,
    pub name: String,
    /// The encoded key path; one that was read from a row is always there.
    pub key_path: Option<Vec<u8>>,
    /// The current number of the key generator; zero where the store has none.
    pub auto_increment: i64,
}

/// A record of an object store, as its row in the database holds it.
#[derive(Debug, PartialEq, Eq)]
pub struct ObjectDataModel {
    pub object_store_id: i64,
    /// The encoded key.
    pub key: Vec<u8>,
    pub data: Vec<u8>,
}

/// A record as an iteration hands it out.
#[derive(Debug, PartialEq, Eq)]
pub struct IndexedDBRecord<K> {
    pub key: K,
    pub primary_key: K,
    pub value: Vec<u8>,
}

/// Where the key of a record stands in its value.
#[derive(Debug, PartialEq, Eq)]
pub enum KeyPath {
    String(String),
    Sequence(Vec<String>),
}

/// What a transaction may do.
#[derive(Debug, Clone, Copy, PartialEq, Eq, Structural)]
pub enum IndexedDBTxnMode {
    Readonly,
    Readwrite,
    Versionchange,
}

/// A request that only reads.
#[derive(Debug, PartialEq, Eq)]
pub enum AsyncReadOnlyOperation<C, G> {
    /// The key of the first record in the range.
    GetKey { callback: C, key_range: G },
    /// The value of the first record in the range.
    GetItem { callback: C, key_range: G },
    /// The keys of the records in the range, at most `count` of them.
    GetAllKeys { callback: C, key_range: G, count: Option<u32> },
    /// The values of the records in the range, at most `count` of them.
    GetAllItems { callback: C, key_range: G, count: Option<u32> },
    /// How many records are in the range.
    Count { callback: C, key_range: G },
    /// The records in the range.
    Iterate { callback: C, key_range: G },
}

/// A request that writes.
#[derive(Debug, PartialEq, Eq)]
pub enum AsyncReadWriteOperation<C, K, G> {
    /// Stores `value` under `key`, or under a generated key where none is given.
    PutItem {
        callback: C,
        key: Option<K>,
        value: Vec<u8>,
        should_overwrite: bool,
        key_generator_current_number: Option<i64>,
    },
    /// Removes the records in the range.
    RemoveItem { callback: C, key_range: G },
    /// Removes all records.
    Clear(C),
}

/// A request.
#[derive(Debug, PartialEq, Eq)]
pub enum AsyncOperation<C, K, G> {
    ReadOnly(AsyncReadOnlyOperation<C, G>),
    ReadWrite(AsyncReadWriteOperation<C, K, G>),
}

/// A request together with the object store that it is for.
#[derive(Debug, PartialEq, Eq)]
pub struct KvsOperation<C, K, G> {
    pub store_name: String,
    pub operation: AsyncOperation<C, K, G>,
}

/// A transaction: its requests, in the order in which they are to be done.
#[derive(Debug, PartialEq, Eq)]
pub struct KvsTransaction<C, K, G> {
    pub mode: IndexedDBTxnMode,
    pub requests: VecDeque<KvsOperation<C, K, G>>,
}

/// Which of the requests a reply is for.
#[derive(Debug, Clone, Copy, PartialEq, Eq, Structural)]
pub enum ReplyKind {
    GetKey,
    GetItem,
    GetAllKeys,
    GetAllItems,
    Count,
    Iterate,
    PutItem,
    RemoveItem,
    Clear,
}

impl<C, K, G> AsyncOperation<C, K, G> {
    /// The kind of reply that this request asks for.
    pub open spec fn kind(self) -> ReplyKind {
        match self {
            AsyncOperation::ReadOnly(operation) => match operation {
                AsyncReadOnlyOperation::GetKey { .. } => ReplyKind::GetKey,
                AsyncReadOnlyOperation::GetItem { .. } => ReplyKind::GetItem,
                AsyncReadOnlyOperation::GetAllKeys { .. } => ReplyKind::GetAllKeys,
                AsyncReadOnlyOperation::GetAllItems { .. } => ReplyKind::GetAllItems,
                AsyncReadOnlyOperation::Count { .. } => ReplyKind::Count,
                AsyncReadOnlyOperation::Iterate { .. } => ReplyKind::Iterate,
            },
            AsyncOperation::ReadWrite(operation) => match operation {
                AsyncReadWriteOperation::PutItem { .. } => ReplyKind::PutItem,
                AsyncReadWriteOperation::RemoveItem { .. } => ReplyKind::RemoveItem,
                AsyncReadWriteOperation::Clear(_) => ReplyKind::Clear,
            },
        }
    }

    /// The callback that waits for the reply.
    pub open spec fn callback(self) -> C {
        match self {
            AsyncOperation::ReadOnly(operation) => match operation {
                AsyncReadOnlyOperation::GetKey { callback, .. } => callback,
                AsyncReadOnlyOperation::GetItem { callback, .. } => callback,
                AsyncReadOnlyOperation::GetAllKeys { callback, .. } => callback,
                AsyncReadOnlyOperation::GetAllItems { callback, .. } => callback,
                AsyncReadOnlyOperation::Count { callback, .. } => callback,
                AsyncReadOnlyOperation::Iterate { callback, .. } => callback,
            },
            AsyncOperation::ReadWrite(operation) => match operation {
                AsyncReadWriteOperation::PutItem { callback, .. } => callback,
                AsyncReadWriteOperation::RemoveItem { callback, .. } => callback,
                AsyncReadWriteOperation::Clear(callback) => callback,
            },
        }
    }
}

} // verus!
