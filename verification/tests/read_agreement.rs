use std::collections::VecDeque;

use ohos_rdb_engine::batch::{BatchAction, BatchEvent, TransactionBatch};
use ohos_rdb_engine::error::BackendError;
use ohos_rdb_engine::model::{
    AsyncOperation, AsyncReadOnlyOperation, IndexedDBRecord, KvsOperation, ObjectDataModel,
    ObjectStoreModel,
};
use ohos_rdb_engine::reply::Reply;
use ohos_rdb_engine::work::{Work, WorkOutcome};

type Read = AsyncReadOnlyOperation<u32, &'static str>;

fn decode(data: &Vec<u8>) -> Option<String> {
    String::from_utf8(data.clone()).ok()
}

fn store() -> ObjectStoreModel {
    ObjectStoreModel {
        id: 1,
        name: "books".to_string(),
        key_path: Some(vec![0]),
        auto_increment: 0,
    }
}

/// Answers the reads, in one batch, from a store whose range holds the given records.
fn answers(reads: Vec<Read>, records: &[(&[u8], &[u8])]) -> Vec<Reply<String, i64>> {
    let requests: VecDeque<KvsOperation<u32, String, &'static str>> = reads
        .into_iter()
        .map(|read| KvsOperation {
            store_name: "books".to_string(),
            operation: AsyncOperation::ReadOnly(read),
        })
        .collect();
    let mut replies = vec![];
    let (mut batch, mut action) = TransactionBatch::start(requests);
    loop {
        let event = match action {
            BatchAction::CreateTransaction => BatchEvent::Created(Ok(())),
            BatchAction::LookUpStore { .. } => BatchEvent::LookedUp(Ok(Some(store()))),
            BatchAction::Perform { work: Work::SelectRows { key_range, count, .. } } => {
                assert_eq!(key_range, "range");
                let count = count.map_or(records.len(), |count| count as usize);
                BatchEvent::Performed(WorkOutcome::Rows(Ok(records
                    .iter()
                    .take(count)
                    .map(|(key, data)| ObjectDataModel {
                        object_store_id: 1,
                        key: key.to_vec(),
                        data: data.to_vec(),
                    })
                    .collect())))
            }
            BatchAction::Perform { work } => panic!("{work:?}"),
            BatchAction::Commit => BatchEvent::Committed(Ok(())),
            BatchAction::Send { deliveries } => {
                replies.extend(deliveries.into_iter().map(|delivery| delivery.reply));
                BatchEvent::Sent
            }
            BatchAction::Complete => return replies,
        };
        assert!(batch.awaits(&event));
        (batch, action) = batch.step(event, &decode);
    }
}

fn single_reads() -> Vec<Read> {
    vec![
        AsyncReadOnlyOperation::GetKey { callback: 1, key_range: "range" },
        AsyncReadOnlyOperation::GetAllKeys { callback: 2, key_range: "range", count: Some(1) },
        AsyncReadOnlyOperation::GetItem { callback: 3, key_range: "range" },
        AsyncReadOnlyOperation::GetAllItems { callback: 4, key_range: "range", count: Some(1) },
    ]
}

fn list_reads() -> Vec<Read> {
    vec![
        AsyncReadOnlyOperation::Iterate { callback: 1, key_range: "range" },
        AsyncReadOnlyOperation::GetAllKeys { callback: 2, key_range: "range", count: None },
        AsyncReadOnlyOperation::GetAllItems { callback: 3, key_range: "range", count: None },
    ]
}

fn undecodable() -> BackendError {
    BackendError::DbErr("Api { context: \"object data key decode\", code: -1 }".to_string())
}

#[test]
fn single_reads_are_the_last_of_the_lists() {
    assert_eq!(
        answers(single_reads(), &[(b"a", &[1]), (b"b", &[2])]),
        vec![
            Reply::GetKey(Ok(Some("a".to_string()))),
            Reply::GetAllKeys(Ok(vec!["a".to_string()])),
            Reply::GetItem(Ok(Some(vec![1]))),
            Reply::GetAllItems(Ok(vec![vec![1]])),
        ]
    );
}

#[test]
fn empty_range_is_no_failure() {
    assert_eq!(
        answers(single_reads(), &[]),
        vec![
            Reply::GetKey(Ok(None)),
            Reply::GetAllKeys(Ok(vec![])),
            Reply::GetItem(Ok(None)),
            Reply::GetAllItems(Ok(vec![])),
        ]
    );
}

#[test]
fn unreadable_single_key_fails_both_key_reads() {
    assert_eq!(
        answers(single_reads(), &[(&[0xff], &[1])]),
        vec![
            Reply::GetKey(Err(undecodable())),
            Reply::GetAllKeys(Err(undecodable())),
            Reply::GetItem(Ok(Some(vec![1]))),
            Reply::GetAllItems(Ok(vec![vec![1]])),
        ]
    );
}

#[test]
fn records_keys_and_values_agree() {
    let record = |key: &str, value: u8| IndexedDBRecord {
        key: key.to_string(),
        primary_key: key.to_string(),
        value: vec![value],
    };
    assert_eq!(
        answers(list_reads(), &[(b"a", &[1]), (b"b", &[2]), (b"c", &[3])]),
        vec![
            Reply::Iterate(Ok(vec![record("a", 1), record("b", 2), record("c", 3)])),
            Reply::GetAllKeys(Ok(vec!["a".to_string(), "b".to_string(), "c".to_string()])),
            Reply::GetAllItems(Ok(vec![vec![1], vec![2], vec![3]])),
        ]
    );
}

#[test]
fn unreadable_key_leaves_the_values_alone() {
    assert_eq!(
        answers(list_reads(), &[(b"a", &[1]), (&[0xff], &[2]), (b"c", &[3])]),
        vec![
            Reply::Iterate(Err(undecodable())),
            Reply::GetAllKeys(Err(undecodable())),
            Reply::GetAllItems(Ok(vec![vec![1], vec![2], vec![3]])),
        ]
    );
}
