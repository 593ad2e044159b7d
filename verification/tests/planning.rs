use ohos_rdb_engine::error::BackendError;
use ohos_rdb_engine::model::{
    AsyncOperation, AsyncReadOnlyOperation, AsyncReadWriteOperation, ObjectStoreModel, ReplyKind,
};
use ohos_rdb_engine::work::{plan, put_key, Plan, PutKey, Work};

type Key = String;
type Range = (i32, i32);
type Operation = AsyncOperation<u32, Key, Range>;

fn store(auto_increment: i64) -> ObjectStoreModel {
    ObjectStoreModel {
        id: 3,
        name: "books".to_string(),
        key_path: Some(vec![1, 2]),
        auto_increment,
    }
}

fn put(key: Option<&str>, number: Option<i64>) -> Operation {
    AsyncOperation::ReadWrite(AsyncReadWriteOperation::PutItem {
        callback: 11,
        key: key.map(|key| key.to_string()),
        value: vec![9, 8],
        should_overwrite: true,
        key_generator_current_number: number,
    })
}

#[test]
fn given_key_stands() {
    assert_eq!(
        put_key(0, Some("k"), Some(40)),
        Ok((PutKey::Given("k"), Some(40)))
    );
    assert_eq!(put_key(7, Some("k"), None), Ok((PutKey::Given("k"), None)));
}

#[test]
fn generated_key_moves_the_generator_on() {
    assert_eq!(put_key::<Key>(7, None, None), Ok((PutKey::Generated(7), Some(8))));
    assert_eq!(put_key::<Key>(1, None, Some(99)), Ok((PutKey::Generated(1), Some(2))));
    assert_eq!(put_key::<Key>(-5, None, None), Ok((PutKey::Generated(-5), Some(-4))));
    assert_eq!(
        put_key::<Key>(i64::MAX - 1, None, None),
        Ok((PutKey::Generated(i64::MAX - 1), Some(i64::MAX)))
    );
}

#[test]
fn no_key_and_no_generator() {
    assert_eq!(
        put_key::<Key>(0, None, Some(4)),
        Err(BackendError::DbErr("Missing key for PutItem request".to_string()))
    );
}

#[test]
fn generator_overflow() {
    assert_eq!(
        put_key::<Key>(i64::MAX, None, None),
        Err(BackendError::DbErr("Key generator overflow".to_string()))
    );
}

#[test]
fn generated_keys_increase() {
    let mut number = 1;
    let mut last = 0;
    for _ in 0..50 {
        match put_key::<Key>(number, None, None) {
            Ok((PutKey::Generated(key), Some(next))) => {
                assert!(key > last);
                last = key;
                number = next;
            }
            other => panic!("{other:?}"),
        }
    }
    assert_eq!(last, 50);
}

#[test]
fn put_is_planned_with_the_key() {
    assert_eq!(
        plan(store(0), put(Some("k"), Some(2))),
        Plan::Perform {
            callback: 11,
            kind: ReplyKind::PutItem,
            work: Work::PutItem {
                store: store(0),
                key: PutKey::Given("k".to_string()),
                value: vec![9, 8],
                should_overwrite: true,
                key_generator_current_number: Some(2),
            },
        }
    );
}

#[test]
fn put_without_any_key_is_refused() {
    assert_eq!(
        plan(store(0), put(None, None)),
        Plan::Refuse {
            callback: 11,
            kind: ReplyKind::PutItem,
            error: BackendError::DbErr("Missing key for PutItem request".to_string()),
        }
    );
}

fn planned_work(operation: Operation) -> (u32, ReplyKind, Work<Key, Range>) {
    match plan(store(4), operation) {
        Plan::Perform { callback, kind, work } => (callback, kind, work),
        other => panic!("{other:?}"),
    }
}

#[test]
fn single_reads_ask_for_one_row() {
    let select = Work::SelectRows { store: store(4), key_range: (1, 5), count: Some(1) };
    let get_key =
        AsyncOperation::ReadOnly(AsyncReadOnlyOperation::GetKey { callback: 1, key_range: (1, 5) });
    assert_eq!(planned_work(get_key), (1, ReplyKind::GetKey, select));
    let select = Work::SelectRows { store: store(4), key_range: (1, 5), count: Some(1) };
    let get_item =
        AsyncOperation::ReadOnly(AsyncReadOnlyOperation::GetItem { callback: 2, key_range: (1, 5) });
    assert_eq!(planned_work(get_item), (2, ReplyKind::GetItem, select));
}

#[test]
fn list_reads_pass_the_count_on() {
    for count in [None, Some(0), Some(12)] {
        let get_all_keys = AsyncOperation::ReadOnly(AsyncReadOnlyOperation::GetAllKeys {
            callback: 1,
            key_range: (1, 5),
            count,
        });
        assert_eq!(
            planned_work(get_all_keys),
            (
                1,
                ReplyKind::GetAllKeys,
                Work::SelectRows { store: store(4), key_range: (1, 5), count }
            )
        );
        let get_all_items = AsyncOperation::ReadOnly(AsyncReadOnlyOperation::GetAllItems {
            callback: 1,
            key_range: (1, 5),
            count,
        });
        assert_eq!(
            planned_work(get_all_items),
            (
                1,
                ReplyKind::GetAllItems,
                Work::SelectRows { store: store(4), key_range: (1, 5), count }
            )
        );
    }
}

#[test]
fn iterate_count_remove_and_clear() {
    let iterate =
        AsyncOperation::ReadOnly(AsyncReadOnlyOperation::Iterate { callback: 5, key_range: (0, 9) });
    assert_eq!(
        planned_work(iterate),
        (
            5,
            ReplyKind::Iterate,
            Work::SelectRows { store: store(4), key_range: (0, 9), count: None }
        )
    );
    let count =
        AsyncOperation::ReadOnly(AsyncReadOnlyOperation::Count { callback: 6, key_range: (0, 9) });
    assert_eq!(
        planned_work(count),
        (6, ReplyKind::Count, Work::Count { store: store(4), key_range: (0, 9) })
    );
    let remove = AsyncOperation::ReadWrite(AsyncReadWriteOperation::RemoveItem {
        callback: 7,
        key_range: (0, 9),
    });
    assert_eq!(
        planned_work(remove),
        (7, ReplyKind::RemoveItem, Work::DeleteItem { store: store(4), key_range: (0, 9) })
    );
    let clear = AsyncOperation::ReadWrite(AsyncReadWriteOperation::Clear(8));
    assert_eq!(planned_work(clear), (8, ReplyKind::Clear, Work::Clear { store: store(4) }));
}
