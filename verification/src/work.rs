//! What has to be done for a request, once its object store is known.

use vstd::prelude::*;

use crate::error::{BackendError, BackendErrorView, OhosRdbResult};
use crate::model::{
    AsyncOperation, AsyncReadOnlyOperation, AsyncReadWriteOperation, ObjectDataModel,
    ObjectStoreModel, ReplyKind,
};

verus! {

/// The key under which a value is stored.
#[derive(Debug, PartialEq, Eq)]
pub enum PutKey<K> {
    /// The key that the request gave.
    Given(K),
    /// The number that the key generator gave.
    Generated(i64),
}

/// A piece of work for the store layer, within the transaction.
#[derive(Debug, PartialEq, Eq)]
pub enum Work<K, G> {
    /// Store a value, and set the key generator where a number is given.
    PutItem {
        store: ObjectStoreModel,
        key: PutKey<K>,
        value: Vec<u8>,
        should_overwrite: bool,
        key_generator_current_number: Option<i64>,
    },
    /// Read the records in the range, at most `count` of them.
    SelectRows { store: ObjectStoreModel, key_range: G, count: Option<u32> },
    /// Remove the records in the range.
    DeleteItem { store: ObjectStoreModel, key_range: G },
    /// Remove all records.
    Clear { store: ObjectStoreModel },
    /// Count the records in the range.
    Count { store: ObjectStoreModel, key_range: G },
}

/// How a piece of work went.
#[derive(Debug, PartialEq, Eq)]
pub enum WorkOutcome<P> {
    Put(OhosRdbResult<P>),
    Rows(OhosRdbResult<Vec<ObjectDataModel>>),
    Deleted(OhosRdbResult<()>),
    Cleared(OhosRdbResult<()>),
    Counted(OhosRdbResult<usize>),
}

/// What to do about a request whose object store is known.
#[derive(Debug, PartialEq, Eq)]
pub enum Plan<C, K, G> {
    /// Nothing can be done; the reply says why.
    Refuse { callback: C, kind: ReplyKind, error: BackendError },
    /// Do the work, and reply with how it went.
    Perform { callback: C, kind: ReplyKind, work: Work<K, G> },
}

/// The mathematical content of a [`Plan`].
pub enum PlanView<C, K, G> {
    Refuse { callback: C, kind: ReplyKind, error: BackendErrorView },
    Perform { callback: C, kind: ReplyKind, work: Work<K, G> },
}

impl<C, K, G> View for Plan<C, K, G> {
    type V = PlanView<C, K, G>;

    open spec fn view(&self) -> PlanView<C, K, G> {
        match self {
            Plan::Refuse { callback, kind, error } => PlanView::Refuse {
                callback: *callback,
                kind: *kind,
                error: error@,
            },
            Plan::Perform { callback, kind, work } => PlanView::Perform {
                callback: *callback,
                kind: *kind,
                work: *work,
            },
        }
    }
}

/// Under which key a value is stored, and what the key generator is set to: a
/// given key stands, with the number that came with it. Without one, the
/// generator's current number becomes the key and the generator moves on by one;
/// a store without a generator, or one whose generator has reached its end,
/// leaves nothing to store under.
pub open spec fn put_key_view<K>(
    auto_increment: i64,
    key: Option<K>,
    key_generator_current_number: Option<i64>,
) -> Result<(PutKey<K>, Option<i64>), BackendErrorView> {
    match key {
        Some(key) => Ok((PutKey::Given(key), key_generator_current_number)),
        None => if auto_increment == 0 {
            Err(BackendErrorView::DbErr("Missing key for PutItem request"@))
        } else if auto_increment == i64::MAX {
            Err(BackendErrorView::DbErr("Key generator overflow"@))
        } else {
            Ok((PutKey::Generated(auto_increment), Some((auto_increment + 1) as i64)))
        },
    }
}

/// Decides under which key a value is stored, and what the key generator is set to.
pub fn put_key<K>(
    auto_increment: i64,
    key: Option<K>,
    key_generator_current_number: Option<i64>,
) -> (decision: Result<(PutKey<K>, Option<i64>), BackendError>)
    ensures
        match decision {
            Ok(decided) => put_key_view(auto_increment, key, key_generator_current_number) == Ok::<
                _,
                BackendErrorView,
            >(decided),
            Err(error) => put_key_view(auto_increment, key, key_generator_current_number) == Err::<
                (PutKey<K>, Option<i64>),
                _,
            >(error@),
        },
{
    match key {
        Some(key) => Ok((PutKey::Given(key), key_generator_current_number)),
        None => {
            if auto_increment == 0 {
                return Err(BackendError::DbErr("Missing key for PutItem request".to_string()));
            }
            match auto_increment.checked_add(1) {
                Some(next) => Ok((PutKey::Generated(auto_increment), Some(next))),
                None => Err(BackendError::DbErr("Key generator overflow".to_string())),
            }
        },
    }
}

/// The work that a request asks of an object store, if it can be done.
pub open spec fn work_view<C, K, G>(
    store: ObjectStoreModel,
    operation: AsyncOperation<C, K, G>,
) -> Result<Work<K, G>, BackendErrorView> {
    match operation {
        AsyncOperation::ReadOnly(operation) => Ok(
            match operation {
                AsyncReadOnlyOperation::GetKey { key_range, .. } => Work::SelectRows {
                    store,
                    key_range,
                    count: Some(1),
                },
                AsyncReadOnlyOperation::GetItem { key_range, .. } => Work::SelectRows {
                    store,
                    key_range,
                    count: Some(1),
                },
                AsyncReadOnlyOperation::GetAllKeys { key_range, count, .. } => Work::SelectRows {
                    store,
                    key_range,
                    count,
                },
                AsyncReadOnlyOperation::GetAllItems { key_range, count, .. } => Work::SelectRows {
                    store,
                    key_range,
                    count,
                },
                AsyncReadOnlyOperation::Count { key_range, .. } => Work::Count { store, key_range },
                AsyncReadOnlyOperation::Iterate { key_range, .. } => Work::SelectRows {
                    store,
                    key_range,
                    count: None,
                },
            },
        ),
        AsyncOperation::ReadWrite(operation) => match operation {
            AsyncReadWriteOperation::PutItem {
                key,
                value,
                should_overwrite,
                key_generator_current_number,
                ..
            } => match put_key_view(store.auto_increment, key, key_generator_current_number) {
                Ok((key, key_generator_current_number)) => Ok(
                    Work::PutItem {
                        store,
                        key,
                        value,
                        should_overwrite,
                        key_generator_current_number,
                    },
                ),
                Err(error) => Err(error),
            },
            AsyncReadWriteOperation::RemoveItem { key_range, .. } => Ok(
                Work::DeleteItem { store, key_range },
            ),
            AsyncReadWriteOperation::Clear(_) => Ok(Work::Clear { store }),
        },
    }
}

/// What to do about a request for the given object store.
pub open spec fn plan_view<C, K, G>(
    store: ObjectStoreModel,
    operation: AsyncOperation<C, K, G>,
) -> PlanView<C, K, G> {
    match work_view(store, operation) {
        Ok(work) => PlanView::Perform {
            callback: operation.callback(),
            kind: operation.kind(),
            work,
        },
        Err(error) => PlanView::Refuse {
            callback: operation.callback(),
            kind: operation.kind(),
            error,
        },
    }
}

/// Decides what to do about a request for the given object store.
pub fn plan<C, K, G>(store: ObjectStoreModel, operation: AsyncOperation<C, K, G>) -> (result: Plan<
    C,
    K,
    G,
>)
    ensures
        result@ == plan_view(store, operation),
{
    match operation {
        AsyncOperation::ReadWrite(
            AsyncReadWriteOperation::PutItem {
                callback,
                key,
                value,
                should_overwrite,
                key_generator_current_number,
            },
        ) => {
            let kind = ReplyKind::PutItem;
            match put_key(store.auto_increment, key, key_generator_current_number) {
                Ok((key, key_generator_current_number)) => {
                    let work = Work::PutItem {
                        store,
                        key,
                        value,
                        should_overwrite,
                        key_generator_current_number,
                    };
                    Plan::Perform { callback, kind, work }
                },
                Err(error) => Plan::Refuse { callback, kind, error },
            }
        },
        AsyncOperation::ReadOnly(AsyncReadOnlyOperation::GetItem { callback, key_range }) => {
            let work = Work::SelectRows { store, key_range, count: Some(1) };
            Plan::Perform { callback, kind: ReplyKind::GetItem, work }
        },
        AsyncOperation::ReadOnly(
            AsyncReadOnlyOperation::GetAllKeys { callback, key_range, count },
        ) => {
            let work = Work::SelectRows { store, key_range, count };
            Plan::Perform { callback, kind: ReplyKind::GetAllKeys, work }
        },
        AsyncOperation::ReadOnly(
            AsyncReadOnlyOperation::GetAllItems { callback, key_range, count },
        ) => {
            let work = Work::SelectRows { store, key_range, count };
            Plan::Perform { callback, kind: ReplyKind::GetAllItems, work }
        },
        AsyncOperation::ReadWrite(AsyncReadWriteOperation::RemoveItem { callback, key_range }) => {
            let work = Work::DeleteItem { store, key_range };
            Plan::Perform { callback, kind: ReplyKind::RemoveItem, work }
        },
        AsyncOperation::ReadOnly(AsyncReadOnlyOperation::Count { callback, key_range }) => {
            let work = Work::Count { store, key_range };
            Plan::Perform { callback, kind: ReplyKind::Count, work }
        },
        AsyncOperation::ReadOnly(AsyncReadOnlyOperation::Iterate { callback, key_range }) => {
            let work = Work::SelectRows { store, key_range, count: None };
            Plan::Perform { callback, kind: ReplyKind::Iterate, work }
        },
        AsyncOperation::ReadWrite(AsyncReadWriteOperation::Clear(callback)) => {
            let work = Work::Clear { store };
            Plan::Perform { callback, kind: ReplyKind::Clear, work }
        },
        AsyncOperation::ReadOnly(AsyncReadOnlyOperation::GetKey { callback, key_range }) => {
            let work = Work::SelectRows { store, key_range, count: Some(1) };
            Plan::Perform { callback, kind: ReplyKind::GetKey, work }
        },
    }
}

} // verus!
