use ohos_rdb_engine::batch::CreationFailure;
use ohos_rdb_engine::debug_text::{db_err, decimal_text};
use ohos_rdb_engine::error::{missing_row, required, BackendError, OhosRdbError};

#[test]
fn missing_row_has_code_minus_one() {
    assert_eq!(
        missing_row("object_data.key"),
        OhosRdbError::Api { context: "object_data.key", code: -1 }
    );
}

#[test]
fn api_error_text_quotes_the_context() {
    assert_eq!(
        missing_row("object_store.id").debug_text(),
        "Api { context: \"object_store.id\", code: -1 }"
    );
}

#[test]
fn api_error_text_escapes_the_context() {
    let error = OhosRdbError::Api { context: "a\"b\\c\n", code: 14800011 };
    assert_eq!(error.debug_text(), "Api { context: \"a\\\"b\\\\c\\n\", code: 14800011 }");
}

#[test]
fn api_error_text_is_the_derived_one() {
    for code in [0, 7, 10, 305, -1, -20, i32::MAX, i32::MIN] {
        let error = OhosRdbError::Api { context: "query", code };
        assert_eq!(error.debug_text(), format!("{error:?}"));
    }
}

#[test]
fn reported_error_text_is_kept() {
    let error = OhosRdbError::Reported { debug: "Io(NotFound)".to_string() };
    assert_eq!(error.debug_text(), "Io(NotFound)");
}

#[test]
fn decimal_text_of_edges() {
    assert_eq!(decimal_text(0), "0");
    assert_eq!(decimal_text(9), "9");
    assert_eq!(decimal_text(10), "10");
    assert_eq!(decimal_text(-100), "-100");
    assert_eq!(decimal_text(i32::MAX), "2147483647");
    assert_eq!(decimal_text(i32::MIN), "-2147483648");
}

#[test]
fn required_value_or_missing_row() {
    assert_eq!(required(Some(5), "x"), Ok(5));
    assert_eq!(required::<i64>(None, "x"), Err(missing_row("x")));
}

#[test]
fn db_err_carries_the_text() {
    assert_eq!(
        db_err(&missing_row("c")),
        BackendError::DbErr("Api { context: \"c\", code: -1 }".to_string())
    );
}

#[test]
fn cloned_backend_errors_are_equal() {
    let error = BackendError::DbErr("text".to_string());
    assert_eq!(error.clone(), error);
    assert_eq!(BackendError::StoreNotFound.clone(), BackendError::StoreNotFound);
}

#[test]
fn creation_failure_texts() {
    assert_eq!(
        CreationFailure::Lock { debug: "PoisonError { .. }".to_string() }.answer(),
        BackendError::DbErr("PoisonError { .. }".to_string())
    );
    assert_eq!(
        CreationFailure::Rdb(OhosRdbError::Api { context: "begin", code: 3 }).answer(),
        BackendError::DbErr("Api { context: \"begin\", code: 3 }".to_string())
    );
}
