use ohos_rdb_engine::cursor::{CursorAction, CursorEvent, StoreQuery, StoreReader};
use ohos_rdb_engine::error::{missing_row, OhosRdbError, OhosRdbResult};
use ohos_rdb_engine::model::{ObjectDataModel, ObjectStoreModel};
use ohos_rdb_engine::scan::{RowQuery, RowScan};

fn failure(text: &str) -> OhosRdbError {
    OhosRdbError::Reported { debug: text.to_string() }
}

fn read_store(events: Vec<CursorEvent>) -> OhosRdbResult<Option<ObjectStoreModel>> {
    let (mut reader, mut action) = StoreReader::object_store_by_name("books".to_string());
    let mut events = events.into_iter();
    loop {
        if let CursorAction::Finish(result) = action {
            assert_eq!(reader, StoreReader::Finished);
            assert_eq!(events.next(), None);
            return result;
        }
        let event = events.next().unwrap();
        assert!(reader.awaits(&event));
        (reader, action) = reader.step(event);
    }
}

#[test]
fn store_is_queried_by_name() {
    let (_, action) = StoreReader::object_store_by_name("books".to_string());
    assert_eq!(
        action,
        CursorAction::Query(StoreQuery {
            sql: "SELECT id, key_path, auto_increment FROM object_store WHERE name = ?1;",
            store_name: "books".to_string(),
        })
    );
}

#[test]
fn store_columns_are_read_in_order() {
    let (reader, _) = StoreReader::object_store_by_name("books".to_string());
    let (reader, action) = reader.step(CursorEvent::Queried(Ok(())));
    assert_eq!(action, CursorAction::NextRow);
    let (reader, action) = reader.step(CursorEvent::Advanced(Ok(true)));
    assert_eq!(action, CursorAction::ReadInt { column: 0 });
    let (reader, action) = reader.step(CursorEvent::Int(Ok(Some(3))));
    assert_eq!(action, CursorAction::ReadBlob { column: 1 });
    let (reader, action) = reader.step(CursorEvent::Blob(Ok(Some(vec![7]))));
    assert_eq!(action, CursorAction::ReadInt { column: 2 });
    let (_, action) = reader.step(CursorEvent::Int(Ok(Some(9))));
    assert_eq!(
        action,
        CursorAction::Finish(Ok(Some(ObjectStoreModel {
            id: 3,
            name: "books".to_string(),
            key_path: Some(vec![7]),
            auto_increment: 9,
        })))
    );
}

#[test]
fn empty_key_path_is_not_null() {
    assert_eq!(
        read_store(vec![
            CursorEvent::Queried(Ok(())),
            CursorEvent::Advanced(Ok(true)),
            CursorEvent::Int(Ok(Some(3))),
            CursorEvent::Blob(Ok(Some(vec![]))),
            CursorEvent::Int(Ok(Some(0))),
        ]),
        Ok(Some(ObjectStoreModel {
            id: 3,
            name: "books".to_string(),
            key_path: Some(vec![]),
            auto_increment: 0,
        }))
    );
}

#[test]
fn store_that_is_not_there() {
    assert_eq!(
        read_store(vec![CursorEvent::Queried(Ok(())), CursorEvent::Advanced(Ok(false))]),
        Ok(None)
    );
}

#[test]
fn null_columns_of_a_store_are_errors() {
    assert_eq!(
        read_store(vec![
            CursorEvent::Queried(Ok(())),
            CursorEvent::Advanced(Ok(true)),
            CursorEvent::Int(Ok(None)),
        ]),
        Err(missing_row("object_store.id"))
    );
    assert_eq!(
        read_store(vec![
            CursorEvent::Queried(Ok(())),
            CursorEvent::Advanced(Ok(true)),
            CursorEvent::Int(Ok(Some(3))),
            CursorEvent::Blob(Ok(None)),
        ]),
        Err(missing_row("object_store.key_path"))
    );
    assert_eq!(
        read_store(vec![
            CursorEvent::Queried(Ok(())),
            CursorEvent::Advanced(Ok(true)),
            CursorEvent::Int(Ok(Some(3))),
            CursorEvent::Blob(Ok(Some(vec![7]))),
            CursorEvent::Int(Ok(None)),
        ]),
        Err(missing_row("object_store.auto_increment"))
    );
}

#[test]
fn store_reading_stops_at_the_first_error() {
    let mut before = vec![];
    let steps: Vec<(fn() -> CursorEvent, fn() -> CursorEvent)> = vec![
        (|| CursorEvent::Queried(Ok(())), || CursorEvent::Queried(Err(failure("q")))),
        (|| CursorEvent::Advanced(Ok(true)), || CursorEvent::Advanced(Err(failure("q")))),
        (|| CursorEvent::Int(Ok(Some(1))), || CursorEvent::Int(Err(failure("q")))),
        (|| CursorEvent::Blob(Ok(Some(vec![7]))), || CursorEvent::Blob(Err(failure("q")))),
        (|| CursorEvent::Int(Ok(Some(1))), || CursorEvent::Int(Err(failure("q")))),
    ];
    for (good, bad) in steps {
        let mut events: Vec<CursorEvent> = before.iter().map(|good: &fn() -> CursorEvent| good()).collect();
        events.push(bad());
        assert_eq!(read_store(events), Err(failure("q")));
        before.push(good);
    }
}

fn store() -> ObjectStoreModel {
    ObjectStoreModel { id: 8, name: "books".to_string(), key_path: None, auto_increment: 0 }
}

fn scan(events: Vec<CursorEvent>) -> OhosRdbResult<Vec<ObjectDataModel>> {
    let (mut scan, mut action) = RowScan::object_data_rows(&store(), "range", None);
    let mut events = events.into_iter();
    loop {
        if let CursorAction::Finish(result) = action {
            assert_eq!(scan, RowScan::Finished);
            assert_eq!(events.next(), None);
            return result;
        }
        let event = events.next().unwrap();
        assert!(scan.awaits(&event));
        (scan, action) = scan.step(event);
    }
}

fn row(key: u8, data: u8) -> ObjectDataModel {
    ObjectDataModel { object_store_id: 8, key: vec![key], data: vec![data] }
}

fn row_events(row: &ObjectDataModel) -> Vec<CursorEvent> {
    vec![
        CursorEvent::Advanced(Ok(true)),
        CursorEvent::Int(Ok(Some(row.object_store_id))),
        CursorEvent::Blob(Ok(Some(row.key.clone()))),
        CursorEvent::Blob(Ok(Some(row.data.clone()))),
    ]
}

#[test]
fn scan_asks_for_the_range() {
    let (_, action) = RowScan::object_data_rows(&store(), "range", Some(2));
    assert_eq!(
        action,
        CursorAction::Query(RowQuery {
            columns: "object_store_id, key, data",
            object_store_id: 8,
            key_range: "range",
            count: Some(2),
            ordered: true,
        })
    );
}

#[test]
fn scan_reads_columns_in_order() {
    let (reader, _) = RowScan::object_data_rows(&store(), "range", None);
    let (reader, action) = reader.step::<&str>(CursorEvent::Queried(Ok(())));
    assert_eq!(action, CursorAction::NextRow);
    let (reader, action) = reader.step::<&str>(CursorEvent::Advanced(Ok(true)));
    assert_eq!(action, CursorAction::ReadInt { column: 0 });
    let (reader, action) = reader.step::<&str>(CursorEvent::Int(Ok(Some(8))));
    assert_eq!(action, CursorAction::ReadBlob { column: 1 });
    let (reader, action) = reader.step::<&str>(CursorEvent::Blob(Ok(Some(vec![1]))));
    assert_eq!(action, CursorAction::ReadBlob { column: 2 });
    let (_, action) = reader.step::<&str>(CursorEvent::Blob(Ok(Some(vec![2]))));
    assert_eq!(action, CursorAction::NextRow);
}

#[test]
fn scan_returns_the_rows_in_order() {
    for n in 0..5u8 {
        let rows: Vec<ObjectDataModel> = (0..n).map(|i| row(9 - i, i)).collect();
        let mut events = vec![CursorEvent::Queried(Ok(()))];
        for row in &rows {
            events.extend(row_events(row));
        }
        events.push(CursorEvent::Advanced(Ok(false)));
        assert_eq!(events.len(), 4 * rows.len() + 2);
        assert_eq!(scan(events), Ok(rows));
    }
}

#[test]
fn scan_stops_at_the_first_error() {
    assert_eq!(scan(vec![CursorEvent::Queried(Err(failure("q")))]), Err(failure("q")));
    let mut events = vec![CursorEvent::Queried(Ok(()))];
    events.extend(row_events(&row(1, 1)));
    events.push(CursorEvent::Advanced(Err(failure("next"))));
    assert_eq!(scan(events), Err(failure("next")));
    let mut events = vec![CursorEvent::Queried(Ok(()))];
    events.extend(row_events(&row(1, 1)));
    events.push(CursorEvent::Advanced(Ok(true)));
    events.push(CursorEvent::Int(Err(failure("int"))));
    assert_eq!(scan(events), Err(failure("int")));
    let events = vec![
        CursorEvent::Queried(Ok(())),
        CursorEvent::Advanced(Ok(true)),
        CursorEvent::Int(Ok(Some(8))),
        CursorEvent::Blob(Err(failure("blob"))),
    ];
    assert_eq!(scan(events), Err(failure("blob")));
}

#[test]
fn null_columns_of_a_record_are_errors() {
    let start = || vec![CursorEvent::Queried(Ok(())), CursorEvent::Advanced(Ok(true))];
    let mut events = start();
    events.push(CursorEvent::Int(Ok(None)));
    assert_eq!(scan(events), Err(missing_row("object_data.object_store_id")));
    let mut events = start();
    events.push(CursorEvent::Int(Ok(Some(8))));
    events.push(CursorEvent::Blob(Ok(None)));
    assert_eq!(scan(events), Err(missing_row("object_data.key")));
    let mut events = start();
    events.push(CursorEvent::Int(Ok(Some(8))));
    events.push(CursorEvent::Blob(Ok(Some(vec![1]))));
    events.push(CursorEvent::Blob(Ok(None)));
    assert_eq!(scan(events), Err(missing_row("object_data.data")));
}

#[test]
fn readers_await_only_what_they_asked_for() {
    let (reader, _) = StoreReader::object_store_by_name("books".to_string());
    assert!(reader.awaits(&CursorEvent::Queried(Err(failure("q")))));
    assert!(!reader.awaits(&CursorEvent::Int(Ok(None))));
    let (reader, _) = RowScan::object_data_rows(&store(), "range", None);
    assert!(reader.awaits(&CursorEvent::Queried(Ok(()))));
    assert!(!reader.awaits(&CursorEvent::Advanced(Ok(true))));
    assert!(!RowScan::Finished.awaits(&CursorEvent::Advanced(Ok(true))));
}
