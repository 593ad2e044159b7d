//! What requests and replies hold, and that nothing of it is lost on the way.

use vstd::prelude::*;

use crate::batch::{BatchAction, TransactionBatch};
use crate::error::{BackendError, BackendErrorView};
use crate::model::{
    AsyncOperation, AsyncReadOnlyOperation, AsyncReadWriteOperation, IndexedDBRecord, ReplyKind,
};
use crate::reply::{
    failed_delivery, into_callback, items_view, queue_view, records_view, Answer, Delivery,
    DeliveryView, RecordView, Reply, ReplyView,
};

verus! {

/// The kind of reply that a request asks for is named after the request, and the callback
/// is the one that the request holds; in exec code and in contracts alike.
pub proof fn law_request_is_answered_to_its_callback<C, K, G>(
    operation: AsyncOperation<C, K, G>,
    parts: (ReplyKind, C),
)
    requires
        call_ensures(into_callback::<C, K, G>, (operation,), parts),
    ensures
        parts == (operation.kind(), operation.callback()),
        match operation {
            AsyncOperation::ReadOnly(AsyncReadOnlyOperation::GetKey { callback, .. }) => parts == (
                ReplyKind::GetKey,
                callback,
            ),
            AsyncOperation::ReadOnly(AsyncReadOnlyOperation::GetItem { callback, .. }) => parts == (
                ReplyKind::GetItem,
                callback,
            ),
            AsyncOperation::ReadOnly(AsyncReadOnlyOperation::GetAllKeys { callback, .. }) => parts
                == (ReplyKind::GetAllKeys, callback),
            AsyncOperation::ReadOnly(AsyncReadOnlyOperation::GetAllItems { callback, .. }) => parts
                == (ReplyKind::GetAllItems, callback),
            AsyncOperation::ReadOnly(AsyncReadOnlyOperation::Count { callback, .. }) => parts == (
                ReplyKind::Count,
                callback,
            ),
            AsyncOperation::ReadOnly(AsyncReadOnlyOperation::Iterate { callback, .. }) => parts == (
                ReplyKind::Iterate,
                callback,
            ),
            AsyncOperation::ReadWrite(AsyncReadWriteOperation::PutItem { callback, .. }) => parts
                == (ReplyKind::PutItem, callback),
            AsyncOperation::ReadWrite(AsyncReadWriteOperation::RemoveItem { callback, .. }) => parts
                == (ReplyKind::RemoveItem, callback),
            AsyncOperation::ReadWrite(AsyncReadWriteOperation::Clear(callback)) => parts == (
                ReplyKind::Clear,
                callback,
            ),
        },
{
}

/// A request that fails is told so through its own callback, in a reply of its own kind,
/// and is told just that.
pub proof fn law_failure_goes_to_the_callback<C, K, G, P>(
    operation: AsyncOperation<C, K, G>,
    error: BackendErrorView,
    parts: (ReplyKind, C),
    delivery: DeliveryView<C, K, P>,
)
    requires
        call_ensures(into_callback::<C, K, G>, (operation,), parts),
        delivery == failed_delivery::<C, K, G, P>(operation, error),
    ensures
        delivery.callback == parts.1,
        delivery.reply.kind == parts.0,
        delivery.reply.outcome == Err::<Answer<K, P>, BackendErrorView>(error),
{
}

/// The content of an error is the error: its text, character by character.
pub proof fn law_error_content(error: BackendError)
    ensures
        match error {
            BackendError::DbErr(text) => error@ == BackendErrorView::DbErr(text@),
            BackendError::StoreNotFound => error@ == BackendErrorView::StoreNotFound,
        },
{
}

/// The content of a list of values is each value, byte by byte and in order; that of a
/// list of records is each record with its two keys and its value.
pub proof fn law_list_content<K>(items: Seq<Vec<u8>>, records: Seq<IndexedDBRecord<K>>, i: int)
    ensures
        items_view(items).len() == items.len(),
        0 <= i < items.len() ==> items_view(items)[i] == items[i]@,
        records_view(records).len() == records.len(),
        0 <= i < records.len() ==> records_view(records)[i] == (RecordView {
            key: records[i].key,
            primary_key: records[i].primary_key,
            value: records[i].value@,
        }),
{
}

/// The content of a reply is the request that it is for and what the reply holds, and
/// nothing is left out of it.
pub proof fn law_reply_content<K, P>(reply: Reply<K, P>)
    ensures
        match reply {
            Reply::GetKey(Ok(key)) => reply@ == (ReplyView::<K, P> {
                kind: ReplyKind::GetKey,
                outcome: Ok(Answer::Key(key)),
            }),
            Reply::GetItem(Ok(Some(item))) => reply@ == (ReplyView::<K, P> {
                kind: ReplyKind::GetItem,
                outcome: Ok(Answer::Item(Some(item@))),
            }),
            Reply::GetItem(Ok(None)) => reply@ == (ReplyView::<K, P> {
                kind: ReplyKind::GetItem,
                outcome: Ok(Answer::Item(None)),
            }),
            Reply::GetAllKeys(Ok(keys)) => reply@ == (ReplyView::<K, P> {
                kind: ReplyKind::GetAllKeys,
                outcome: Ok(Answer::Keys(keys@)),
            }),
            Reply::GetAllItems(Ok(items)) => reply@ == (ReplyView::<K, P> {
                kind: ReplyKind::GetAllItems,
                outcome: Ok(Answer::Items(items@.map_values(|item: Vec<u8>| item@))),
            }),
            Reply::Count(Ok(count)) => reply@ == (ReplyView::<K, P> {
                kind: ReplyKind::Count,
                outcome: Ok(Answer::Number(count)),
            }),
            Reply::Iterate(Ok(records)) => {
                &&& reply@.kind == ReplyKind::Iterate
                &&& reply@.outcome matches Ok(Answer::Records(seen)) && {
                    &&& seen.len() == records@.len()
                    &&& forall|i: int|
                        0 <= i < seen.len() ==> (#[trigger] seen[i]) == (RecordView {
                            key: records@[i].key,
                            primary_key: records@[i].primary_key,
                            value: records@[i].value@,
                        })
                }
            },
            Reply::PutItem(Ok(put)) => reply@ == (ReplyView::<K, P> {
                kind: ReplyKind::PutItem,
                outcome: Ok(Answer::Put(put)),
            }),
            Reply::RemoveItem(Ok(_)) => reply@ == (ReplyView::<K, P> {
                kind: ReplyKind::RemoveItem,
                outcome: Ok(Answer::Removed),
            }),
            Reply::Clear(Ok(_)) => reply@ == (ReplyView::<K, P> {
                kind: ReplyKind::Clear,
                outcome: Ok(Answer::Cleared),
            }),
            Reply::GetKey(Err(error)) => reply@ == (ReplyView::<K, P> {
                kind: ReplyKind::GetKey,
                outcome: Err(error@),
            }),
            Reply::GetItem(Err(error)) => reply@ == (ReplyView::<K, P> {
                kind: ReplyKind::GetItem,
                outcome: Err(error@),
            }),
            Reply::GetAllKeys(Err(error)) => reply@ == (ReplyView::<K, P> {
                kind: ReplyKind::GetAllKeys,
                outcome: Err(error@),
            }),
            Reply::GetAllItems(Err(error)) => reply@ == (ReplyView::<K, P> {
                kind: ReplyKind::GetAllItems,
                outcome: Err(error@),
            }),
            Reply::Count(Err(error)) => reply@ == (ReplyView::<K, P> {
                kind: ReplyKind::Count,
                outcome: Err(error@),
            }),
            Reply::Iterate(Err(error)) => reply@ == (ReplyView::<K, P> {
                kind: ReplyKind::Iterate,
                outcome: Err(error@),
            }),
            Reply::PutItem(Err(error)) => reply@ == (ReplyView::<K, P> {
                kind: ReplyKind::PutItem,
                outcome: Err(error@),
            }),
            Reply::RemoveItem(Err(error)) => reply@ == (ReplyView::<K, P> {
                kind: ReplyKind::RemoveItem,
                outcome: Err(error@),
            }),
            Reply::Clear(Err(error)) => reply@ == (ReplyView::<K, P> {
                kind: ReplyKind::Clear,
                outcome: Err(error@),
            }),
        },
{
    if let Reply::GetAllItems(Ok(items)) = reply {
        assert(items_view(items@) =~= items@.map_values(|item: Vec<u8>| item@));
    }
}

/// The content of a queue is each delivery, in order: its callback and its reply.
pub proof fn law_queue_content<C, K, P>(queue: Seq<Delivery<C, K, P>>, i: int)
    ensures
        queue_view(queue).len() == queue.len(),
        0 <= i < queue.len() ==> queue_view(queue)[i] == (DeliveryView {
            callback: queue[i].callback,
            reply: queue[i].reply@,
        }),
{
}

/// What a batch sends is what its action holds: each reply with its callback, in order.
pub proof fn law_sent_content<C, K, G, P>(action: BatchAction<C, K, G, P>, i: int)
    ensures
        action@ is Send <==> action is Send,
        action matches BatchAction::Send { deliveries } ==> {
            &&& action@->deliveries.len() == deliveries@.len()
            &&& 0 <= i < deliveries@.len() ==> {
                &&& action@->deliveries[i].callback == deliveries@[i].callback
                &&& action@->deliveries[i].reply == deliveries@[i].reply@
            }
        },
        action@ is Perform <==> action is Perform,
        action matches BatchAction::Perform { work } ==> action@->work == work,
        action@ is LookUpStore <==> action is LookUpStore,
        action matches BatchAction::LookUpStore { store_name } ==> action@->store_name
            == store_name,
        action@ is CreateTransaction <==> action is CreateTransaction,
        action@ is Commit <==> action is Commit,
        action@ is Complete <==> action is Complete,
{
}

/// What a batch waits to do and to send is what its state holds.
pub proof fn law_batch_content<C, K, G, P>(batch: TransactionBatch<C, K, G, P>)
    ensures
        match batch {
            TransactionBatch::Creating { requests } => batch@ is Creating && batch@->requests
                == requests@,
            TransactionBatch::LookingUp { operation, rest, queue } => {
                &&& batch@ is LookingUp
                &&& batch@->operation == operation
                &&& batch@->LookingUp_rest == rest@
                &&& batch@->LookingUp_queue == queue_view(queue@)
            },
            TransactionBatch::Performing { callback, kind, rest, queue } => {
                &&& batch@ is Performing
                &&& batch@->callback == callback
                &&& batch@->kind == kind
                &&& batch@->Performing_rest == rest@
                &&& batch@->Performing_queue == queue_view(queue@)
            },
            TransactionBatch::Committing { queue } => batch@ is Committing
                && batch@->Committing_queue == queue_view(queue@),
            TransactionBatch::Sending => batch@ is Sending,
            TransactionBatch::Finished => batch@ is Finished,
        },
{
}

} // verus!
