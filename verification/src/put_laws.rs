//! What is done for a request, whatever the request and its object store.

use vstd::prelude::*;

use crate::error::{BackendError, BackendErrorView};
use crate::model::{
    AsyncOperation, AsyncReadOnlyOperation, AsyncReadWriteOperation, ObjectStoreModel, ReplyKind,
};
use crate::work::{plan, plan_view, put_key, put_key_view, work_view, Plan, PlanView, PutKey, Work};

verus! {

/// The answer says that the database failed, in these words.
pub open spec fn says(error: BackendError, words: Seq<char>) -> bool {
    error matches BackendError::DbErr(text) && text@ == words
}

/// A given key stands, together with the number that came with it, whatever the
/// generator of the store: that number is what the generator is set to.
pub proof fn law_given_key_stands<K>(
    auto_increment: i64,
    key: K,
    number: Option<i64>,
    decision: Result<(PutKey<K>, Option<i64>), BackendError>,
)
    requires
        call_ensures(put_key::<K>, (auto_increment, Some(key), number), decision),
    ensures
        decision == Ok::<(PutKey<K>, Option<i64>), BackendError>((PutKey::Given(key), number)),
        put_key_view(auto_increment, Some(key), number) == Ok::<
            (PutKey<K>, Option<i64>),
            BackendErrorView,
        >((PutKey::Given(key), number)),
{
}

/// Without a key, a generator that is there and has a next number gives its current
/// number as the key and is set to the number after it, whatever number came with the
/// request.
pub proof fn law_generator_gives_its_number_and_moves_on<K>(
    auto_increment: i64,
    number: Option<i64>,
    decision: Result<(PutKey<K>, Option<i64>), BackendError>,
)
    requires
        auto_increment != 0,
        auto_increment < i64::MAX,
        call_ensures(put_key::<K>, (auto_increment, None::<K>, number), decision),
    ensures
        decision matches Ok((PutKey::Generated(key), Some(next))) && key == auto_increment
            && next as int == auto_increment as int + 1,
{
}

/// A put is refused exactly if it brings no key and the store has no generator, or one
/// that has come to its end; and the answer says which.
pub proof fn law_put_is_refused_only_without_any_key<K>(
    auto_increment: i64,
    key: Option<K>,
    number: Option<i64>,
    decision: Result<(PutKey<K>, Option<i64>), BackendError>,
)
    requires
        call_ensures(put_key::<K>, (auto_increment, key, number), decision),
    ensures
        decision is Err <==> key is None && (auto_increment == 0 || auto_increment == i64::MAX),
        decision matches Err(error) ==> says(
            error,
            if auto_increment == 0 {
                "Missing key for PutItem request"@
            } else {
                "Key generator overflow"@
            },
        ),
{
}

/// A put that is not refused stores what the request holds in the object store that was
/// looked up: the same value, and over a record that is there only if the request says so.
/// A key that the request gives is the key, with the number that came with it; else the
/// number of the generator is the key, and the generator is set to the one after it.
pub proof fn law_put_stores_what_was_asked<C, K, G>(
    store: ObjectStoreModel,
    callback: C,
    key: Option<K>,
    value: Vec<u8>,
    should_overwrite: bool,
    number: Option<i64>,
    result: Plan<C, K, G>,
)
    requires
        call_ensures(
            plan::<C, K, G>,
            (
                store,
                AsyncOperation::ReadWrite(
                    AsyncReadWriteOperation::PutItem {
                        callback,
                        key,
                        value,
                        should_overwrite,
                        key_generator_current_number: number,
                    },
                ),
            ),
            result,
        ),
    ensures
        match result {
            Plan::Perform { callback: told, kind, work } => {
                &&& told == callback
                &&& kind == ReplyKind::PutItem
                &&& work matches Work::PutItem {
                    store: in_store,
                    key: under,
                    value: stored,
                    should_overwrite: over,
                    key_generator_current_number: set_to,
                } && {
                    &&& in_store == store
                    &&& stored == value
                    &&& over == should_overwrite
                    &&& match key {
                        Some(key) => under == PutKey::Given(key) && set_to == number,
                        None => {
                            &&& under == PutKey::<K>::Generated(store.auto_increment)
                            &&& set_to matches Some(next) && next as int
                                == store.auto_increment as int + 1
                            &&& store.auto_increment != 0
                        },
                    }
                }
            },
            Plan::Refuse { callback: told, kind, error } => {
                &&& told == callback
                &&& kind == ReplyKind::PutItem
                &&& key is None
                &&& store.auto_increment == 0 || store.auto_increment == i64::MAX
                &&& says(
                    error,
                    if store.auto_increment == 0 {
                        "Missing key for PutItem request"@
                    } else {
                        "Key generator overflow"@
                    },
                )
            },
        },
{
}

/// The same of the work alone: a put that is not refused is a put into the object store
/// that was looked up, of the value that the request holds, and it overwrites exactly if
/// the request says so.
pub proof fn law_put_work_keeps_the_request<C, K, G>(
    store: ObjectStoreModel,
    callback: C,
    key: Option<K>,
    value: Vec<u8>,
    should_overwrite: bool,
    number: Option<i64>,
    work: Work<K, G>,
)
    requires
        work_view(
            store,
            AsyncOperation::<C, K, G>::ReadWrite(
                AsyncReadWriteOperation::PutItem {
                    callback,
                    key,
                    value,
                    should_overwrite,
                    key_generator_current_number: number,
                },
            ),
        ) == Ok::<Work<K, G>, BackendErrorView>(work),
    ensures
        work is PutItem,
        work->PutItem_store == store,
        work->value == value,
        work->should_overwrite == should_overwrite,
        key matches Some(given) ==> work->key == PutKey::Given(given)
            && work->key_generator_current_number == number,
        key is None ==> work->key == PutKey::<K>::Generated(store.auto_increment)
            && work->key_generator_current_number == Some((store.auto_increment + 1) as i64)
            && store.auto_increment < i64::MAX,
{
}

/// A request that reads selects or counts the records of the object store that was looked
/// up in the range that it names: one record where it asks for one key or one value, as
/// many as its limit allows where it asks for a list, and all of them in an iteration.
pub proof fn law_read_selects_what_was_asked<C, K, G>(
    store: ObjectStoreModel,
    operation: AsyncReadOnlyOperation<C, G>,
    result: Plan<C, K, G>,
)
    requires
        call_ensures(plan::<C, K, G>, (store, AsyncOperation::ReadOnly(operation)), result),
    ensures
        result matches Plan::Perform { callback: told, kind, work } && match operation {
            AsyncReadOnlyOperation::GetKey { callback, key_range } => {
                &&& told == callback
                &&& kind == ReplyKind::GetKey
                &&& work == Work::<K, G>::SelectRows { store, key_range, count: Some(1) }
            },
            AsyncReadOnlyOperation::GetItem { callback, key_range } => {
                &&& told == callback
                &&& kind == ReplyKind::GetItem
                &&& work == Work::<K, G>::SelectRows { store, key_range, count: Some(1) }
            },
            AsyncReadOnlyOperation::GetAllKeys { callback, key_range, count } => {
                &&& told == callback
                &&& kind == ReplyKind::GetAllKeys
                &&& work == Work::<K, G>::SelectRows { store, key_range, count }
            },
            AsyncReadOnlyOperation::GetAllItems { callback, key_range, count } => {
                &&& told == callback
                &&& kind == ReplyKind::GetAllItems
                &&& work == Work::<K, G>::SelectRows { store, key_range, count }
            },
            AsyncReadOnlyOperation::Count { callback, key_range } => {
                &&& told == callback
                &&& kind == ReplyKind::Count
                &&& work == Work::<K, G>::Count { store, key_range }
            },
            AsyncReadOnlyOperation::Iterate { callback, key_range } => {
                &&& told == callback
                &&& kind == ReplyKind::Iterate
                &&& work == Work::<K, G>::SelectRows { store, key_range, count: None }
            },
        },
{
}

/// A removal removes the records of the object store that was looked up in the range that
/// the request names, and no others; a clearing clears that object store.
pub proof fn law_removal_removes_what_was_asked<C, K, G>(
    store: ObjectStoreModel,
    callback: C,
    key_range: G,
    removal: Plan<C, K, G>,
    clearing: Plan<C, K, G>,
)
    requires
        call_ensures(
            plan::<C, K, G>,
            (
                store,
                AsyncOperation::ReadWrite(
                    AsyncReadWriteOperation::RemoveItem { callback, key_range },
                ),
            ),
            removal,
        ),
        call_ensures(
            plan::<C, K, G>,
            (store, AsyncOperation::ReadWrite(AsyncReadWriteOperation::Clear(callback))),
            clearing,
        ),
    ensures
        removal == (Plan::<C, K, G>::Perform {
            callback,
            kind: ReplyKind::RemoveItem,
            work: Work::DeleteItem { store, key_range },
        }),
        clearing == (Plan::<C, K, G>::Perform {
            callback,
            kind: ReplyKind::Clear,
            work: Work::Clear { store },
        }),
{
}

/// What is planned is what is done: the plan performs a piece of work exactly if there is
/// work to do, and it is that work.
pub proof fn law_plan_performs_the_work<C, K, G>(
    store: ObjectStoreModel,
    operation: AsyncOperation<C, K, G>,
)
    ensures
        match plan_view(store, operation) {
            PlanView::Perform { callback, kind, work } => {
                &&& work_view(store, operation) == Ok::<
                    Work<K, G>,
                    BackendErrorView,
                >(work)
                &&& callback == operation.callback()
                &&& kind == operation.kind()
            },
            PlanView::Refuse { callback, kind, error } => {
                &&& work_view(store, operation) == Err::<
                    Work<K, G>,
                    BackendErrorView,
                >(error)
                &&& callback == operation.callback()
                &&& kind == operation.kind()
            },
        },
{
}

} // verus!
