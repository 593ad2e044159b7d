//! Replies to requests, and the queue in which they wait for the commit.

use vstd::prelude::*;

use crate::error::{BackendError, BackendErrorView, BackendResult};
use crate::model::{
    AsyncOperation, AsyncReadOnlyOperation, AsyncReadWriteOperation, IndexedDBRecord, ReplyKind,
};

verus! {

/// The reply to a request. `P` is what the store layer says of a put.
#[derive(Debug, PartialEq, Eq)]
pub enum Reply<K, P> {
    GetKey(BackendResult<Option<K>>),
    GetItem(BackendResult<Option<Vec<u8>>>),
    GetAllKeys(BackendResult<Vec<K>>),
    GetAllItems(BackendResult<Vec<Vec<u8>>>),
    Count(BackendResult<u64>),
    Iterate(BackendResult<Vec<IndexedDBRecord<K>>>),
    PutItem(BackendResult<P>),
    RemoveItem(BackendResult<()>),
    Clear(BackendResult<()>),
}

/// The mathematical content of an [`IndexedDBRecord`].
pub struct RecordView<K> {
    pub key: K,
    pub primary_key: K,
    pub value: Seq<u8>,
}

impl<K> View for IndexedDBRecord<K> {
    type V = RecordView<K>;

    open spec fn view(&self) -> RecordView<K> {
        RecordView { key: self.key, primary_key: self.primary_key, value: self.value@ }
    }
}

/// The mathematical content of a sequence of values.
pub open spec fn items_view(items: Seq<Vec<u8>>) -> Seq<Seq<u8>> {
    items.map_values(|item: Vec<u8>| item@)
}

/// The mathematical content of a sequence of records.
pub open spec fn records_view<K>(records: Seq<IndexedDBRecord<K>>) -> Seq<RecordView<K>> {
    records.map_values(|record: IndexedDBRecord<K>| record@)
}

/// The mathematical content of what a request brought.
pub enum Answer<K, P> {
    Key(Option<K>),
    Item(Option<Seq<u8>>),
    Keys(Seq<K>),
    Items(Seq<Seq<u8>>),
    Number(u64),
    Records(Seq<RecordView<K>>),
    Put(P),
    Removed,
    Cleared,
}

/// The mathematical content of a [`Reply`]: which request it is for, and what
/// that request brought or how it failed.
pub struct ReplyView<K, P> {
    pub kind: ReplyKind,
    pub outcome: Result<Answer<K, P>, BackendErrorView>,
}

impl<K, P> ReplyView<K, P> {
    /// The reply that tells a request of the given kind that it failed.
    pub open spec fn failed(kind: ReplyKind, error: BackendErrorView) -> Self {
        ReplyView { kind, outcome: Err(error) }
    }
}

impl<K, P> View for Reply<K, P> {
    type V = ReplyView<K, P>;

    open spec fn view(&self) -> ReplyView<K, P> {
        match self {
            Reply::GetKey(result) => ReplyView {
                kind: ReplyKind::GetKey,
                outcome: match result {
                    Ok(key) => Ok(Answer::Key(*key)),
                    Err(error) => Err(error@),
                },
            },
            Reply::GetItem(result) => ReplyView {
                kind: ReplyKind::GetItem,
                outcome: match result {
                    Ok(Some(item)) => Ok(Answer::Item(Some(item@))),
                    Ok(None) => Ok(Answer::Item(None)),
                    Err(error) => Err(error@),
                },
            },
            Reply::GetAllKeys(result) => ReplyView {
                kind: ReplyKind::GetAllKeys,
                outcome: match result {
                    Ok(keys) => Ok(Answer::Keys(keys@)),
                    Err(error) => Err(error@),
                },
            },
            Reply::GetAllItems(result) => ReplyView {
                kind: ReplyKind::GetAllItems,
                outcome: match result {
                    Ok(items) => Ok(Answer::Items(items_view(items@))),
                    Err(error) => Err(error@),
                },
            },
            Reply::Count(result) => ReplyView {
                kind: ReplyKind::Count,
                outcome: match result {
                    Ok(count) => Ok(Answer::Number(*count)),
                    Err(error) => Err(error@),
                },
            },
            Reply::Iterate(result) => ReplyView {
                kind: ReplyKind::Iterate,
                outcome: match result {
                    Ok(records) => Ok(Answer::Records(records_view(records@))),
                    Err(error) => Err(error@),
                },
            },
            Reply::PutItem(result) => ReplyView {
                kind: ReplyKind::PutItem,
                outcome: match result {
                    Ok(put) => Ok(Answer::Put(*put)),
                    Err(error) => Err(error@),
                },
            },
            Reply::RemoveItem(result) => ReplyView {
                kind: ReplyKind::RemoveItem,
                outcome: match result {
                    Ok(_) => Ok(Answer::Removed),
                    Err(error) => Err(error@),
                },
            },
            Reply::Clear(result) => ReplyView {
                kind: ReplyKind::Clear,
                outcome: match result {
                    Ok(_) => Ok(Answer::Cleared),
                    Err(error) => Err(error@),
                },
            },
        }
    }
}

/// The reply that tells a request of the given kind that it failed.
pub fn failed_reply<K, P>(kind: ReplyKind, error: BackendError) -> (reply: Reply<K, P>)
    ensures
        reply@ == ReplyView::<K, P>::failed(kind, error@),
{
    match kind {
        ReplyKind::GetKey => Reply::GetKey(Err(error)),
        ReplyKind::GetItem => Reply::GetItem(Err(error)),
        ReplyKind::GetAllKeys => Reply::GetAllKeys(Err(error)),
        ReplyKind::GetAllItems => Reply::GetAllItems(Err(error)),
        ReplyKind::Count => Reply::Count(Err(error)),
        ReplyKind::Iterate => Reply::Iterate(Err(error)),
        ReplyKind::PutItem => Reply::PutItem(Err(error)),
        ReplyKind::RemoveItem => Reply::RemoveItem(Err(error)),
        ReplyKind::Clear => Reply::Clear(Err(error)),
    }
}

/// Which request a reply is for.
pub fn reply_kind<K, P>(reply: &Reply<K, P>) -> (kind: ReplyKind)
    ensures
        kind == reply@.kind,
{
    match reply {
        Reply::GetKey(_) => ReplyKind::GetKey,
        Reply::GetItem(_) => ReplyKind::GetItem,
        Reply::GetAllKeys(_) => ReplyKind::GetAllKeys,
        Reply::GetAllItems(_) => ReplyKind::GetAllItems,
        Reply::Count(_) => ReplyKind::Count,
        Reply::Iterate(_) => ReplyKind::Iterate,
        Reply::PutItem(_) => ReplyKind::PutItem,
        Reply::RemoveItem(_) => ReplyKind::RemoveItem,
        Reply::Clear(_) => ReplyKind::Clear,
    }
}

/// A reply and the callback that it is for.
#[derive(Debug, PartialEq, Eq)]
pub struct Delivery<C, K, P> {
    pub callback: C,
    pub reply: Reply<K, P>,
}

/// The mathematical content of a [`Delivery`].
pub struct DeliveryView<C, K, P> {
    pub callback: C,
    pub reply: ReplyView<K, P>,
}

impl<C, K, P> View for Delivery<C, K, P> {
    type V = DeliveryView<C, K, P>;

    open spec fn view(&self) -> DeliveryView<C, K, P> {
        DeliveryView { callback: self.callback, reply: self.reply@ }
    }
}

/// The mathematical content of a queue of deliveries.
pub open spec fn queue_view<C, K, P>(queue: Seq<Delivery<C, K, P>>) -> Seq<DeliveryView<C, K, P>> {
    queue.map_values(|delivery: Delivery<C, K, P>| delivery@)
}

/// The delivery that tells a request that it failed.
pub open spec fn failed_delivery<C, K, G, P>(
    operation: AsyncOperation<C, K, G>,
    error: BackendErrorView,
) -> DeliveryView<C, K, P> {
    DeliveryView {
        callback: operation.callback(),
        reply: ReplyView::failed(operation.kind(), error),
    }
}

/// Puts the reply to a request at the end of the queue.
pub fn enqueue_result<C, K, P>(
    queue: &mut Vec<Delivery<C, K, P>>,
    callback: C,
    reply: Reply<K, P>,
)
    ensures
        final(queue)@ == old(queue)@.push(Delivery { callback, reply }),
        queue_view(final(queue)@) == queue_view(old(queue)@).push(
            DeliveryView { callback, reply: reply@ },
        ),
{
    queue.push(Delivery { callback, reply });
    proof {
        assert(queue_view(queue@) =~= queue_view(old(queue)@).push(
            DeliveryView { callback, reply: reply@ },
        ));
    }
}

/// The kind of reply that a request asks for, and the callback that waits for it.
pub fn into_callback<C, K, G>(operation: AsyncOperation<C, K, G>) -> (parts: (ReplyKind, C))
    ensures
        parts.0 == operation.kind(),
        parts.1 == operation.callback(),
{
    match operation {
        AsyncOperation::ReadOnly(operation) => match operation {
            AsyncReadOnlyOperation::GetKey { callback, .. } => (ReplyKind::GetKey, callback),
            AsyncReadOnlyOperation::GetItem { callback, .. } => (ReplyKind::GetItem, callback),
            AsyncReadOnlyOperation::GetAllKeys { callback, .. } => (ReplyKind::GetAllKeys, callback),
            AsyncReadOnlyOperation::GetAllItems { callback, .. } => (
                ReplyKind::GetAllItems,
                callback,
            ),
            AsyncReadOnlyOperation::Count { callback, .. } => (ReplyKind::Count, callback),
            AsyncReadOnlyOperation::Iterate { callback, .. } => (ReplyKind::Iterate, callback),
        },
        AsyncOperation::ReadWrite(operation) => match operation {
            AsyncReadWriteOperation::PutItem { callback, .. } => (ReplyKind::PutItem, callback),
            AsyncReadWriteOperation::RemoveItem { callback, .. } => (ReplyKind::RemoveItem, callback),
            AsyncReadWriteOperation::Clear(callback) => (ReplyKind::Clear, callback),
        },
    }
}

/// Queues the reply that tells a request that it failed.
pub fn enqueue_operation_error<C, K, G, P>(
    queue: &mut Vec<Delivery<C, K, P>>,
    operation: AsyncOperation<C, K, G>,
    error: BackendError,
)
    ensures
        queue_view(final(queue)@) == queue_view(old(queue)@).push(
            failed_delivery(operation, error@),
        ),
{
    let (kind, callback) = into_callback(operation);
    enqueue_result(queue, callback, failed_reply(kind, error));
}

} // verus!
