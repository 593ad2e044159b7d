use std::collections::VecDeque;

use ohos_rdb_engine::batch::{
    BatchAction, BatchEvent, BatchStep, CreationFailure, TransactionBatch,
};
use ohos_rdb_engine::error::{BackendError, OhosRdbError, OhosRdbResult};
use ohos_rdb_engine::model::{
    AsyncOperation, AsyncReadOnlyOperation, AsyncReadWriteOperation, KvsOperation,
    ObjectDataModel, ObjectStoreModel,
};
use ohos_rdb_engine::reply::{Delivery, Reply};
use ohos_rdb_engine::work::{PutKey, Work, WorkOutcome};

type Operation = AsyncOperation<u32, String, i32>;
type Batch = TransactionBatch<u32, String, i32, i64>;
type Action = BatchAction<u32, String, i32, i64>;

fn decode(data: &Vec<u8>) -> Option<String> {
    String::from_utf8(data.clone()).ok()
}

fn request(store_name: &str, operation: Operation) -> KvsOperation<u32, String, i32> {
    KvsOperation { store_name: store_name.to_string(), operation }
}

fn put(callback: u32, key: Option<&str>) -> Operation {
    AsyncOperation::ReadWrite(AsyncReadWriteOperation::PutItem {
        callback,
        key: key.map(|key| key.to_string()),
        value: vec![1],
        should_overwrite: false,
        key_generator_current_number: None,
    })
}

fn get_item(callback: u32) -> Operation {
    AsyncOperation::ReadOnly(AsyncReadOnlyOperation::GetItem { callback, key_range: 4 })
}

fn get_key(callback: u32) -> Operation {
    AsyncOperation::ReadOnly(AsyncReadOnlyOperation::GetKey { callback, key_range: 4 })
}

fn count(callback: u32) -> Operation {
    AsyncOperation::ReadOnly(AsyncReadOnlyOperation::Count { callback, key_range: 4 })
}

fn clear(callback: u32) -> Operation {
    AsyncOperation::ReadWrite(AsyncReadWriteOperation::Clear(callback))
}

fn store(name: &str, auto_increment: i64) -> ObjectStoreModel {
    ObjectStoreModel { id: 1, name: name.to_string(), key_path: None, auto_increment }
}

fn start(requests: Vec<KvsOperation<u32, String, i32>>) -> BatchStep<u32, String, i32, i64> {
    TransactionBatch::start(VecDeque::from(requests))
}

fn step(batch: Batch, event: BatchEvent<i64>) -> BatchStep<u32, String, i32, i64> {
    assert!(batch.awaits(&event));
    batch.step(event, &decode)
}

fn failure(text: &str) -> OhosRdbError {
    OhosRdbError::Reported { debug: text.to_string() }
}

fn db_err(text: &str) -> BackendError {
    BackendError::DbErr(text.to_string())
}

/// A database in miniature: answers every action, and notes it down.
struct World {
    creation: Result<(), CreationFailure>,
    commit: OhosRdbResult<()>,
    log: Vec<String>,
    sent: Vec<Delivery<u32, String, i64>>,
}

impl World {
    fn new() -> World {
        World { creation: Ok(()), commit: Ok(()), log: vec![], sent: vec![] }
    }

    /// Answers an action; there is nothing to answer once the batch is complete.
    fn answer(&mut self, action: Action) -> Option<BatchEvent<i64>> {
        Some(match action {
            BatchAction::CreateTransaction => {
                self.log.push("create".to_string());
                BatchEvent::Created(std::mem::replace(&mut self.creation, Ok(())))
            }
            BatchAction::LookUpStore { store_name } => {
                self.log.push(format!("look up {store_name}"));
                BatchEvent::LookedUp(match store_name.as_str() {
                    "none" => Ok(None),
                    "bad" => Err(failure("lookup")),
                    "auto" => Ok(Some(store("auto", 5))),
                    "full" => Ok(Some(store("full", i64::MAX))),
                    name => Ok(Some(store(name, 0))),
                })
            }
            BatchAction::Perform { work } => BatchEvent::Performed(match work {
                Work::PutItem { key, key_generator_current_number, .. } => {
                    self.log.push(format!("put {key:?} {key_generator_current_number:?}"));
                    WorkOutcome::Put(match key {
                        PutKey::Generated(number) => Ok(number),
                        PutKey::Given(key) if key == "clash" => Err(failure("clash")),
                        PutKey::Given(_) => Ok(-1),
                    })
                }
                Work::SelectRows { key_range, count, .. } => {
                    self.log.push(format!("select {key_range} {count:?}"));
                    WorkOutcome::Rows(Ok(vec![ObjectDataModel {
                        object_store_id: 1,
                        key: b"k".to_vec(),
                        data: vec![42],
                    }]))
                }
                Work::DeleteItem { .. } => WorkOutcome::Deleted(Ok(())),
                Work::Clear { .. } => {
                    self.log.push("clear".to_string());
                    WorkOutcome::Cleared(Ok(()))
                }
                Work::Count { .. } => {
                    self.log.push("count".to_string());
                    WorkOutcome::Counted(Ok(6))
                }
            }),
            BatchAction::Commit => {
                self.log.push("commit".to_string());
                BatchEvent::Committed(std::mem::replace(&mut self.commit, Ok(())))
            }
            BatchAction::Send { deliveries } => {
                self.log.push("send".to_string());
                self.sent.extend(deliveries);
                BatchEvent::Sent
            }
            BatchAction::Complete => {
                self.log.push("complete".to_string());
                return None;
            }
        })
    }

    fn run(&mut self, requests: Vec<KvsOperation<u32, String, i32>>) -> Vec<Delivery<u32, String, i64>> {
        let bound = 2 * requests.len() + 3;
        let (mut batch, mut action) = start(requests);
        let mut steps = 0;
        loop {
            match self.answer(action) {
                Some(event) => {
                    steps += 1;
                    assert!(steps <= bound);
                    (batch, action) = step(batch, event);
                }
                None => {
                    assert_eq!(batch, TransactionBatch::Finished);
                    return std::mem::take(&mut self.sent);
                }
            }
        }
    }
}

fn mixed_requests() -> Vec<KvsOperation<u32, String, i32>> {
    vec![
        request("auto", put(1, None)),
        request("none", clear(2)),
        request("books", put(3, None)),
        request("books", get_item(4)),
        request("bad", count(5)),
        request("books", put(6, Some("clash"))),
        request("full", put(7, None)),
        request("books", get_key(8)),
    ]
}

#[test]
fn committed_batch_answers_each_request_on_its_own() {
    let mut world = World::new();
    let deliveries = world.run(mixed_requests());
    assert_eq!(
        deliveries,
        vec![
            Delivery { callback: 1, reply: Reply::PutItem(Ok(5)) },
            Delivery { callback: 2, reply: Reply::Clear(Err(BackendError::StoreNotFound)) },
            Delivery {
                callback: 3,
                reply: Reply::PutItem(Err(db_err("Missing key for PutItem request"))),
            },
            Delivery { callback: 4, reply: Reply::GetItem(Ok(Some(vec![42]))) },
            Delivery { callback: 5, reply: Reply::Count(Err(db_err("lookup"))) },
            Delivery { callback: 6, reply: Reply::PutItem(Err(db_err("clash"))) },
            Delivery { callback: 7, reply: Reply::PutItem(Err(db_err("Key generator overflow"))) },
            Delivery { callback: 8, reply: Reply::GetKey(Ok(Some("k".to_string()))) },
        ]
    );
}

#[test]
fn requests_are_done_in_order_and_committed_once() {
    let mut world = World::new();
    world.run(mixed_requests());
    assert_eq!(
        world.log,
        vec![
            "create",
            "look up auto",
            "put Generated(5) Some(6)",
            "look up none",
            "look up books",
            "look up books",
            "select 4 Some(1)",
            "look up bad",
            "look up books",
            "put Given(\"clash\") None",
            "look up full",
            "look up books",
            "select 4 Some(1)",
            "commit",
            "send",
            "complete",
        ]
    );
}

#[test]
fn failed_commit_fails_the_whole_batch() {
    let mut world = World::new();
    world.commit = Err(OhosRdbError::Api { context: "commit", code: 8 });
    let deliveries = world.run(mixed_requests());
    let error = || db_err("Api { context: \"commit\", code: 8 }");
    assert_eq!(
        deliveries,
        vec![
            Delivery { callback: 1, reply: Reply::PutItem(Err(error())) },
            Delivery { callback: 2, reply: Reply::Clear(Err(error())) },
            Delivery { callback: 3, reply: Reply::PutItem(Err(error())) },
            Delivery { callback: 4, reply: Reply::GetItem(Err(error())) },
            Delivery { callback: 5, reply: Reply::Count(Err(error())) },
            Delivery { callback: 6, reply: Reply::PutItem(Err(error())) },
            Delivery { callback: 7, reply: Reply::PutItem(Err(error())) },
            Delivery { callback: 8, reply: Reply::GetKey(Err(error())) },
        ]
    );
}

#[test]
fn failed_creation_fails_the_whole_batch_at_once() {
    let mut world = World::new();
    world.creation = Err(CreationFailure::Lock { debug: "PoisonError { .. }".to_string() });
    let deliveries = world.run(vec![request("auto", put(1, None)), request("x", get_key(2))]);
    assert_eq!(
        deliveries,
        vec![
            Delivery { callback: 1, reply: Reply::PutItem(Err(db_err("PoisonError { .. }"))) },
            Delivery { callback: 2, reply: Reply::GetKey(Err(db_err("PoisonError { .. }"))) },
        ]
    );
    assert_eq!(world.log, vec!["create", "send", "complete"]);
}

#[test]
fn refused_creation_carries_the_debug_text() {
    let mut world = World::new();
    world.creation =
        Err(CreationFailure::Rdb(OhosRdbError::Api { context: "transaction", code: -1 }));
    let deliveries = world.run(vec![request("auto", count(1))]);
    assert_eq!(
        deliveries,
        vec![Delivery {
            callback: 1,
            reply: Reply::Count(Err(db_err("Api { context: \"transaction\", code: -1 }"))),
        }]
    );
}

#[test]
fn empty_transaction_is_committed() {
    let mut world = World::new();
    assert_eq!(world.run(vec![]), vec![]);
    assert_eq!(world.log, vec!["create", "commit", "send", "complete"]);
}

#[test]
fn no_reply_leaves_before_the_commit() {
    let (batch, action) = start(vec![request("auto", put(1, None))]);
    assert_eq!(action, BatchAction::CreateTransaction);
    let (batch, action) = step(batch, BatchEvent::Created(Ok(())));
    assert_eq!(action, BatchAction::LookUpStore { store_name: "auto".to_string() });
    let (batch, action) = step(batch, BatchEvent::LookedUp(Ok(Some(store("auto", 5)))));
    assert!(matches!(action, BatchAction::Perform { .. }));
    let (batch, action) = step(batch, BatchEvent::Performed(WorkOutcome::Put(Ok(5))));
    assert_eq!(action, BatchAction::Commit);
    let (batch, action) = step(batch, BatchEvent::Committed(Ok(())));
    assert_eq!(
        action,
        BatchAction::Send {
            deliveries: vec![Delivery { callback: 1, reply: Reply::PutItem(Ok(5)) }]
        }
    );
    assert_eq!(batch, TransactionBatch::Sending);
    let (batch, action) = step(batch, BatchEvent::Sent);
    assert_eq!(action, BatchAction::Complete);
    assert_eq!(batch, TransactionBatch::Finished);
}

#[test]
fn only_answers_to_what_was_asked_are_awaited() {
    let (batch, _) = start(vec![request("auto", get_item(1))]);
    assert!(batch.awaits(&BatchEvent::Created(Ok(()))));
    assert!(!batch.awaits(&BatchEvent::Committed(Ok(()))));
    assert!(!batch.awaits(&BatchEvent::LookedUp(Ok(None))));
    let (batch, _) = step(batch, BatchEvent::Created(Ok(())));
    let (batch, _) = step(batch, BatchEvent::LookedUp(Ok(Some(store("auto", 0)))));
    assert!(batch.awaits(&BatchEvent::Performed(WorkOutcome::Rows(Ok(vec![])))));
    assert!(!batch.awaits(&BatchEvent::Performed(WorkOutcome::Counted(Ok(0)))));
    assert!(!batch.awaits(&BatchEvent::Performed(WorkOutcome::Put(Ok(0)))));
    assert!(!batch.awaits(&BatchEvent::Performed(WorkOutcome::Cleared(Ok(())))));
    assert!(!batch.awaits(&BatchEvent::Performed(WorkOutcome::Deleted(Ok(())))));
    let sending: Batch = TransactionBatch::Sending;
    assert!(sending.awaits(&BatchEvent::Sent));
    assert!(!sending.awaits(&BatchEvent::Committed(Ok(()))));
    let finished: Batch = TransactionBatch::Finished;
    assert!(!finished.awaits(&BatchEvent::Sent));
    assert!(!finished.awaits(&BatchEvent::Committed(Ok(()))));
}

#[test]
fn completion_comes_once_and_last_on_every_path() {
    for creation_fails in [false, true] {
        for commit_fails in [false, true] {
            for requests in [mixed_requests(), vec![]] {
                let count = requests.len();
                let mut world = World::new();
                if creation_fails {
                    world.creation = Err(CreationFailure::Rdb(failure("creation")));
                }
                if commit_fails {
                    world.commit = Err(failure("commit"));
                }
                let deliveries = world.run(requests);
                assert_eq!(deliveries.len(), count);
                let end = world.log.len();
                assert_eq!(world.log[end - 2..], ["send", "complete"]);
                assert_eq!(world.log.iter().filter(|entry| *entry == "send").count(), 1);
                assert_eq!(world.log.iter().filter(|entry| *entry == "complete").count(), 1);
                let commits = world.log.iter().filter(|entry| *entry == "commit").count();
                assert_eq!(commits, if creation_fails { 0 } else { 1 });
            }
        }
    }
}
