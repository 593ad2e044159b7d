use std::collections::VecDeque;

use ohos_rdb_engine::batch::{BatchAction, BatchStep, TransactionBatch};
use ohos_rdb_engine::engine::{LookupCall, OhosRdbEngine, StoreCall};
use ohos_rdb_engine::error::{missing_row, OhosRdbError, OhosRdbResult};
use ohos_rdb_engine::lookup::{Lookup, LookupAction};
use ohos_rdb_engine::model::{
    AsyncOperation, AsyncReadWriteOperation, IndexedDBTxnMode, KeyPath, KvsOperation,
    KvsTransaction,
};
use ohos_rdb_engine::opening::{EngineOpening, OpeningAction, OpeningEvent, Pragmas};
use ohos_rdb_engine::session::{SessionAction, SessionEvent, SessionStep, StoreSession};

fn failure(text: &str) -> OhosRdbError {
    OhosRdbError::Reported { debug: text.to_string() }
}

fn engine() -> OhosRdbEngine<u8, &'static str> {
    OhosRdbEngine { store: 1, read_pool: "readers", write_pool: "writers", created_db_path: true }
}

#[test]
fn new_engine_shares_its_pool() {
    let engine = OhosRdbEngine::new(5u8, false, "pool");
    assert_eq!(
        engine,
        OhosRdbEngine { store: 5, read_pool: "pool", write_pool: "pool", created_db_path: false }
    );
    assert!(!engine.created_db_path());
    assert!(OhosRdbEngine::new(5u8, true, "pool").created_db_path());
}

#[test]
fn transactions_run_on_the_pool_of_their_mode() {
    for (mode, pool) in [
        (IndexedDBTxnMode::Readonly, "readers"),
        (IndexedDBTxnMode::Readwrite, "writers"),
        (IndexedDBTxnMode::Versionchange, "writers"),
    ] {
        let requests = || {
            VecDeque::from(vec![KvsOperation {
                store_name: "books".to_string(),
                operation: AsyncOperation::ReadWrite(AsyncReadWriteOperation::Clear(3u32)),
            }])
        };
        let transaction: KvsTransaction<u32, String, i32> =
            KvsTransaction { mode, requests: requests() };
        let engine = engine();
        let (chosen, (batch, action)): (_, BatchStep<u32, String, i32, bool>) =
            engine.process_transaction(transaction);
        assert_eq!(*chosen, pool);
        assert_eq!(batch, TransactionBatch::Creating { requests: requests() });
        assert_eq!(action, BatchAction::CreateTransaction);
    }
}

fn body<R: std::fmt::Debug + PartialEq>(step: SessionStep<StoreCall, R>) -> StoreCall {
    assert_eq!(step.1, SessionAction::Lock);
    match step.0 {
        StoreSession::Locking { body } => body,
        other => panic!("{other:?}"),
    }
}

#[test]
fn methods_make_their_calls_in_a_session() {
    let engine = engine();
    let name = || "books".to_string();
    assert_eq!(
        body(engine.create_store::<u8>(name(), Some(KeyPath::String("id".to_string())), true)),
        StoreCall::CreateStore {
            store_name: name(),
            key_path: Some(KeyPath::String("id".to_string())),
            auto_increment: true,
        }
    );
    assert_eq!(body(engine.delete_store(name())), StoreCall::DeleteStore { store_name: name() });
    assert_eq!(
        body(engine.set_key_generator_current_number(name(), 17)),
        StoreCall::SetKeyGeneratorCurrentNumber { store_name: name(), current_number: 17 }
    );
    assert_eq!(body(engine.object_store_names()), StoreCall::ObjectStoreNames);
    assert_eq!(body(engine.indexes::<u8>(name())), StoreCall::Indexes { store_name: name() });
    assert_eq!(
        body(engine.create_index::<u8>(
            name(),
            "by_author".to_string(),
            KeyPath::Sequence(vec!["author".to_string()]),
            true,
            false
        )),
        StoreCall::CreateIndex {
            store_name: name(),
            index_name: "by_author".to_string(),
            key_path: KeyPath::Sequence(vec!["author".to_string()]),
            unique: true,
            multi_entry: false,
        }
    );
    assert_eq!(
        body(engine.delete_index(name(), "by_author".to_string())),
        StoreCall::DeleteIndex { store_name: name(), index_name: "by_author".to_string() }
    );
    assert_eq!(body(engine.version()), StoreCall::Version);
    assert_eq!(body(engine.set_version(4)), StoreCall::SetVersion { version: 4 });
    assert_eq!(engine.close_store("books"), Ok(()));
}

#[test]
fn lookups_make_their_calls() {
    let engine = engine();
    assert_eq!(
        engine.key_generator_current_number("books".to_string()),
        (
            Lookup::Locking {
                body: LookupCall::KeyGeneratorCurrentNumber { store_name: "books".to_string() }
            },
            LookupAction::Lock
        )
    );
    assert_eq!(
        engine.key_path("books".to_string()),
        (
            Lookup::Locking { body: LookupCall::KeyPath { store_name: "books".to_string() } },
            LookupAction::Lock
        )
    );
}

#[test]
fn missing_rows_are_reported_as_what_was_looked_for() {
    let name = || "books".to_string();
    let create = StoreCall::CreateStore { store_name: name(), key_path: None, auto_increment: false };
    assert_eq!(create.row_error("object_store.count"), missing_row("object_store.count"));
    for call in [
        StoreCall::DeleteStore { store_name: name() },
        StoreCall::SetKeyGeneratorCurrentNumber { store_name: name(), current_number: 1 },
        StoreCall::Indexes { store_name: name() },
        StoreCall::CreateIndex {
            store_name: name(),
            index_name: "i".to_string(),
            key_path: KeyPath::String("k".to_string()),
            unique: false,
            multi_entry: false,
        },
        StoreCall::DeleteIndex { store_name: name(), index_name: "i".to_string() },
    ] {
        assert_eq!(call.row_error("object_store.id"), missing_row("object store lookup"));
    }
    assert_eq!(StoreCall::Version.row_error("x"), missing_row("database version lookup"));
    assert_eq!(
        StoreCall::SetVersion { version: 2 }.row_error("x"),
        missing_row("database version update")
    );
}

struct Answers {
    directory: bool,
    store: bool,
    executed: bool,
    begun: bool,
    ran: bool,
    committed: bool,
}

fn result_of(text: &str, ok: bool) -> OhosRdbResult<()> {
    if ok {
        Ok(())
    } else {
        Err(failure(text))
    }
}

fn open(answers: &Answers) -> (Vec<String>, OhosRdbResult<()>) {
    let pragmas = Pragmas { before: vec!["b0", "b1"], after: vec!["a0"] };
    let (mut opening, mut action) = EngineOpening::start(pragmas, "info");
    let mut log = vec![];
    loop {
        let event = match action {
            OpeningAction::CreateDirectory => {
                log.push("directory".to_string());
                OpeningEvent::DirectoryCreated(result_of("directory", answers.directory))
            }
            OpeningAction::OpenStore { file_name } => {
                log.push(file_name.to_string());
                OpeningEvent::StoreOpened(result_of("store", answers.store))
            }
            OpeningAction::Execute { statement } => {
                log.push(statement.to_string());
                OpeningEvent::Executed(result_of("statement", answers.executed))
            }
            OpeningAction::Schema(action) => OpeningEvent::Schema(match action {
                SessionAction::Begin => {
                    log.push("begin".to_string());
                    SessionEvent::Begun(result_of("begin", answers.begun))
                }
                SessionAction::Run(db_info) => {
                    log.push(format!("set up {db_info}"));
                    SessionEvent::Ran(result_of("run", answers.ran))
                }
                SessionAction::Commit => {
                    log.push("commit".to_string());
                    SessionEvent::Committed(result_of("commit", answers.committed))
                }
                SessionAction::Rollback => {
                    log.push("rollback".to_string());
                    SessionEvent::RolledBack(Ok(()))
                }
                other => panic!("{other:?}"),
            }),
            OpeningAction::Finish(result) => {
                assert_eq!(opening, EngineOpening::Finished);
                return (log, result);
            }
        };
        assert!(opening.awaits(&event));
        (opening, action) = opening.step(event);
    }
}

fn all_well() -> Answers {
    Answers {
        directory: true,
        store: true,
        executed: true,
        begun: true,
        ran: true,
        committed: true,
    }
}

fn names(log: &[&str]) -> Vec<String> {
    log.iter().map(|name| name.to_string()).collect()
}

#[test]
fn opening_takes_all_its_steps() {
    let course =
        names(&["directory", "indexeddb.rdb", "b0", "b1", "begin", "set up info", "commit", "a0"]);
    assert_eq!(open(&all_well()), (course.clone(), Ok(())));
    assert_eq!(open(&Answers { executed: false, ..all_well() }), (course, Ok(())));
}

#[test]
fn opening_ends_with_the_first_error() {
    assert_eq!(
        open(&Answers { directory: false, ..all_well() }),
        (names(&["directory"]), Err(failure("directory")))
    );
    assert_eq!(
        open(&Answers { store: false, ..all_well() }),
        (names(&["directory", "indexeddb.rdb"]), Err(failure("store")))
    );
    assert_eq!(
        open(&Answers { begun: false, ..all_well() }),
        (names(&["directory", "indexeddb.rdb", "b0", "b1", "begin"]), Err(failure("begin")))
    );
    assert_eq!(
        open(&Answers { ran: false, ..all_well() }),
        (
            names(&[
                "directory",
                "indexeddb.rdb",
                "b0",
                "b1",
                "begin",
                "set up info",
                "rollback"
            ]),
            Err(failure("run"))
        )
    );
    assert_eq!(
        open(&Answers { committed: false, ..all_well() }),
        (
            names(&["directory", "indexeddb.rdb", "b0", "b1", "begin", "set up info", "commit"]),
            Err(failure("commit"))
        )
    );
}

#[test]
fn opening_without_statements() {
    let pragmas = Pragmas { before: vec![], after: vec![] };
    let (opening, action) = EngineOpening::start(pragmas, ());
    assert_eq!(action, OpeningAction::CreateDirectory);
    let (opening, action) = opening.step(OpeningEvent::DirectoryCreated(Ok(())));
    assert_eq!(action, OpeningAction::OpenStore { file_name: "indexeddb.rdb" });
    let (opening, action) = opening.step(OpeningEvent::StoreOpened(Ok(())));
    assert_eq!(action, OpeningAction::Schema(SessionAction::Begin));
    assert!(!opening.awaits(&OpeningEvent::Executed(Ok(()))));
    let (opening, _) = opening.step(OpeningEvent::Schema(SessionEvent::Begun(Ok(()))));
    let (opening, _) = opening.step(OpeningEvent::Schema(SessionEvent::Ran(Ok(()))));
    let (opening, action) = opening.step(OpeningEvent::Schema(SessionEvent::Committed(Ok(()))));
    assert_eq!(action, OpeningAction::Finish(Ok(())));
    assert_eq!(opening, EngineOpening::Finished);
}

#[test]
fn repeated_statement_may_fail_once() {
    let pragmas = Pragmas { before: vec!["p", "p"], after: vec!["p", "p"] };
    let (opening, _) = EngineOpening::start(pragmas, ());
    let (opening, _) = opening.step(OpeningEvent::DirectoryCreated(Ok(())));
    let (opening, action) = opening.step(OpeningEvent::StoreOpened(Ok(())));
    assert_eq!(action, OpeningAction::Execute { statement: "p" });
    let (opening, action) = opening.step(OpeningEvent::Executed(Ok(())));
    assert_eq!(action, OpeningAction::Execute { statement: "p" });
    let (opening, action) = opening.step(OpeningEvent::Executed(Err(failure("p"))));
    assert_eq!(action, OpeningAction::Schema(SessionAction::Begin));
    let (opening, _) = opening.step(OpeningEvent::Schema(SessionEvent::Begun(Ok(()))));
    let (opening, _) = opening.step(OpeningEvent::Schema(SessionEvent::Ran(Ok(()))));
    let (opening, action) = opening.step(OpeningEvent::Schema(SessionEvent::Committed(Ok(()))));
    assert_eq!(action, OpeningAction::Execute { statement: "p" });
    let (opening, action) = opening.step(OpeningEvent::Executed(Err(failure("p"))));
    assert_eq!(action, OpeningAction::Execute { statement: "p" });
    let (_, action) = opening.step(OpeningEvent::Executed(Ok(())));
    assert_eq!(action, OpeningAction::Finish(Ok(())));
}
