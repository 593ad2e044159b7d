use ohos_rdb_engine::answer::{decode_key, reply_to};
use ohos_rdb_engine::error::{missing_row, BackendError, OhosRdbError};
use ohos_rdb_engine::model::{
    AsyncOperation, AsyncReadOnlyOperation, AsyncReadWriteOperation, IndexedDBRecord,
    ObjectDataModel, ReplyKind,
};
use ohos_rdb_engine::reply::{
    enqueue_operation_error, enqueue_result, failed_reply, into_callback, reply_kind, Delivery,
    Reply,
};
use ohos_rdb_engine::work::WorkOutcome;

type Key = String;

fn decode(data: &Vec<u8>) -> Option<Key> {
    String::from_utf8(data.clone()).ok()
}

fn row(key: &str, data: &[u8]) -> ObjectDataModel {
    ObjectDataModel { object_store_id: 1, key: key.as_bytes().to_vec(), data: data.to_vec() }
}

fn broken_row() -> ObjectDataModel {
    ObjectDataModel { object_store_id: 1, key: vec![0xff], data: vec![5] }
}

fn reply(kind: ReplyKind, rows: Vec<ObjectDataModel>) -> Reply<Key, bool> {
    reply_to(kind, WorkOutcome::Rows(Ok(rows)), &decode)
}

fn undecodable() -> BackendError {
    BackendError::DbErr("Api { context: \"object data key decode\", code: -1 }".to_string())
}

#[test]
fn decode_key_or_error() {
    assert_eq!(decode_key(&b"ab".to_vec(), "ctx", &decode), Ok("ab".to_string()));
    assert_eq!(decode_key(&vec![0xff], "ctx", &decode), Err(missing_row("ctx")));
}

#[test]
fn get_item_takes_the_row() {
    assert_eq!(reply(ReplyKind::GetItem, vec![]), Reply::GetItem(Ok(None)));
    assert_eq!(
        reply(ReplyKind::GetItem, vec![row("a", &[1, 2])]),
        Reply::GetItem(Ok(Some(vec![1, 2])))
    );
    assert_eq!(
        reply(ReplyKind::GetItem, vec![row("a", &[1]), row("b", &[2])]),
        Reply::GetItem(Ok(Some(vec![2])))
    );
}

#[test]
fn get_item_does_not_read_the_key() {
    assert_eq!(
        reply(ReplyKind::GetItem, vec![broken_row()]),
        Reply::GetItem(Ok(Some(vec![5])))
    );
}

#[test]
fn get_key_reads_the_key() {
    assert_eq!(reply(ReplyKind::GetKey, vec![]), Reply::GetKey(Ok(None)));
    assert_eq!(
        reply(ReplyKind::GetKey, vec![row("a", &[1])]),
        Reply::GetKey(Ok(Some("a".to_string())))
    );
    assert_eq!(reply(ReplyKind::GetKey, vec![broken_row()]), Reply::GetKey(Err(undecodable())));
}

#[test]
fn get_all_keys_in_order_or_error() {
    assert_eq!(reply(ReplyKind::GetAllKeys, vec![]), Reply::GetAllKeys(Ok(vec![])));
    assert_eq!(
        reply(ReplyKind::GetAllKeys, vec![row("b", &[1]), row("a", &[2])]),
        Reply::GetAllKeys(Ok(vec!["b".to_string(), "a".to_string()]))
    );
    assert_eq!(
        reply(ReplyKind::GetAllKeys, vec![row("b", &[1]), broken_row(), row("a", &[2])]),
        Reply::GetAllKeys(Err(undecodable()))
    );
}

#[test]
fn get_all_items_in_order() {
    assert_eq!(reply(ReplyKind::GetAllItems, vec![]), Reply::GetAllItems(Ok(vec![])));
    assert_eq!(
        reply(ReplyKind::GetAllItems, vec![row("b", &[1]), broken_row(), row("a", &[2, 3])]),
        Reply::GetAllItems(Ok(vec![vec![1], vec![5], vec![2, 3]]))
    );
}

#[test]
fn iterate_makes_records() {
    assert_eq!(
        reply(ReplyKind::Iterate, vec![row("b", &[1]), row("a", &[2])]),
        Reply::Iterate(Ok(vec![
            IndexedDBRecord {
                key: "b".to_string(),
                primary_key: "b".to_string(),
                value: vec![1]
            },
            IndexedDBRecord {
                key: "a".to_string(),
                primary_key: "a".to_string(),
                value: vec![2]
            },
        ]))
    );
    assert_eq!(
        reply(ReplyKind::Iterate, vec![row("b", &[1]), broken_row()]),
        Reply::Iterate(Err(undecodable()))
    );
}

#[test]
fn other_outcomes_are_passed_on() {
    let put: Reply<Key, bool> = reply_to(ReplyKind::PutItem, WorkOutcome::Put(Ok(true)), &decode);
    assert_eq!(put, Reply::PutItem(Ok(true)));
    let removed: Reply<Key, bool> =
        reply_to(ReplyKind::RemoveItem, WorkOutcome::Deleted(Ok(())), &decode);
    assert_eq!(removed, Reply::RemoveItem(Ok(())));
    let cleared: Reply<Key, bool> =
        reply_to(ReplyKind::Clear, WorkOutcome::Cleared(Ok(())), &decode);
    assert_eq!(cleared, Reply::Clear(Ok(())));
    let counted: Reply<Key, bool> =
        reply_to(ReplyKind::Count, WorkOutcome::Counted(Ok(usize::MAX)), &decode);
    assert_eq!(counted, Reply::Count(Ok(usize::MAX as u64)));
}

#[test]
fn failed_work_fails_the_request() {
    let error = || OhosRdbError::Api { context: "query", code: 13 };
    let text = BackendError::DbErr("Api { context: \"query\", code: 13 }".to_string());
    let put: Reply<Key, bool> =
        reply_to(ReplyKind::PutItem, WorkOutcome::Put(Err(error())), &decode);
    assert_eq!(put, Reply::PutItem(Err(text.clone())));
    let rows: Reply<Key, bool> =
        reply_to(ReplyKind::GetAllItems, WorkOutcome::Rows(Err(error())), &decode);
    assert_eq!(rows, Reply::GetAllItems(Err(text.clone())));
    let removed: Reply<Key, bool> =
        reply_to(ReplyKind::RemoveItem, WorkOutcome::Deleted(Err(error())), &decode);
    assert_eq!(removed, Reply::RemoveItem(Err(text.clone())));
    let cleared: Reply<Key, bool> =
        reply_to(ReplyKind::Clear, WorkOutcome::Cleared(Err(error())), &decode);
    assert_eq!(cleared, Reply::Clear(Err(text.clone())));
    let counted: Reply<Key, bool> =
        reply_to(ReplyKind::Count, WorkOutcome::Counted(Err(error())), &decode);
    assert_eq!(counted, Reply::Count(Err(text)));
}

fn operations() -> Vec<(ReplyKind, AsyncOperation<u32, Key, i32>)> {
    vec![
        (
            ReplyKind::GetKey,
            AsyncOperation::ReadOnly(AsyncReadOnlyOperation::GetKey { callback: 1, key_range: 0 }),
        ),
        (
            ReplyKind::GetItem,
            AsyncOperation::ReadOnly(AsyncReadOnlyOperation::GetItem { callback: 2, key_range: 0 }),
        ),
        (
            ReplyKind::GetAllKeys,
            AsyncOperation::ReadOnly(AsyncReadOnlyOperation::GetAllKeys {
                callback: 3,
                key_range: 0,
                count: None,
            }),
        ),
        (
            ReplyKind::GetAllItems,
            AsyncOperation::ReadOnly(AsyncReadOnlyOperation::GetAllItems {
                callback: 4,
                key_range: 0,
                count: None,
            }),
        ),
        (
            ReplyKind::Count,
            AsyncOperation::ReadOnly(AsyncReadOnlyOperation::Count { callback: 5, key_range: 0 }),
        ),
        (
            ReplyKind::Iterate,
            AsyncOperation::ReadOnly(AsyncReadOnlyOperation::Iterate { callback: 6, key_range: 0 }),
        ),
        (
            ReplyKind::PutItem,
            AsyncOperation::ReadWrite(AsyncReadWriteOperation::PutItem {
                callback: 7,
                key: None,
                value: vec![],
                should_overwrite: false,
                key_generator_current_number: None,
            }),
        ),
        (
            ReplyKind::RemoveItem,
            AsyncOperation::ReadWrite(AsyncReadWriteOperation::RemoveItem {
                callback: 8,
                key_range: 0,
            }),
        ),
        (ReplyKind::Clear, AsyncOperation::ReadWrite(AsyncReadWriteOperation::Clear(9))),
    ]
}

#[test]
fn every_operation_can_be_failed() {
    let mut queue: Vec<Delivery<u32, Key, bool>> = vec![];
    let mut expected = vec![];
    for (index, (kind, operation)) in operations().into_iter().enumerate() {
        enqueue_operation_error(&mut queue, operation, BackendError::StoreNotFound);
        expected.push(Delivery {
            callback: index as u32 + 1,
            reply: failed_reply(kind, BackendError::StoreNotFound),
        });
    }
    assert_eq!(queue, expected);
    assert_eq!(queue[0].reply, Reply::GetKey(Err(BackendError::StoreNotFound)));
    assert_eq!(queue[8].reply, Reply::Clear(Err(BackendError::StoreNotFound)));
}

#[test]
fn kinds_of_operations_and_replies_agree() {
    for (index, (kind, operation)) in operations().into_iter().enumerate() {
        assert_eq!(into_callback(operation), (kind, index as u32 + 1));
        let reply: Reply<Key, bool> = failed_reply(kind, BackendError::StoreNotFound);
        assert_eq!(reply_kind(&reply), kind);
    }
}

#[test]
fn results_are_queued_at_the_end() {
    let mut queue: Vec<Delivery<u32, Key, bool>> = vec![];
    enqueue_result(&mut queue, 1, Reply::Count(Ok(3)));
    enqueue_result(&mut queue, 2, Reply::PutItem(Ok(false)));
    assert_eq!(
        queue,
        vec![
            Delivery { callback: 1, reply: Reply::Count(Ok(3)) },
            Delivery { callback: 2, reply: Reply::PutItem(Ok(false)) },
        ]
    );
}
