//! Reading rows with a cursor, column by column.
//!
//! A reader never touches the cursor itself. It says what is to be done next, and
//! is told how that went. The first error ends it.

use vstd::pervasive::unreached;
use vstd::prelude::*;

use crate::error::{required, required_or, OhosRdbError, OhosRdbResult};
use crate::model::ObjectStoreModel;

verus! {

/// What is reported when the id of an object store is null.
pub const STORE_ID_CONTEXT: &'static str = "object_store.id";

/// What is reported when the key path of an object store is null.
pub const KEY_PATH_CONTEXT: &'static str = "object_store.key_path";

/// What is reported when the key generator's number of an object store is null.
pub const AUTO_INCREMENT_CONTEXT: &'static str = "object_store.auto_increment";

/// What is reported when the object store of a record is null.
pub const DATA_STORE_ID_CONTEXT: &'static str = "object_data.object_store_id";

/// What is reported when the key of a record is null.
pub const DATA_KEY_CONTEXT: &'static str = "object_data.key";

/// What is reported when the value of a record is null.
pub const DATA_CONTEXT: &'static str = "object_data.data";

/// The query for the object store of a given name.
pub const STORE_BY_NAME_SQL: &'static str =
    "SELECT id, key_path, auto_increment FROM object_store WHERE name = ?1;";

/// The columns that a record is read from.
pub const DATA_COLUMNS: &'static str = "object_store_id, key, data";

/// What a reader is told.
#[derive(Debug, PartialEq, Eq)]
pub enum CursorEvent {
    /// The query was made, or could not be.
    Queried(OhosRdbResult<()>),
    /// The cursor was moved on; whether there is a row.
    Advanced(OhosRdbResult<bool>),
    /// An integer column was read; it may be null.
    Int(OhosRdbResult<Option<i64>>),
    /// A blob column was read; it may be null.
    Blob(OhosRdbResult<Option<Vec<u8>>>),
}

/// What a reader asks for: `Q` is the query that it makes, `R` what it returns.
#[derive(Debug, PartialEq, Eq)]
pub enum CursorAction<Q, R> {
    /// Make the query.
    Query(Q),
    /// Move the cursor on.
    NextRow,
    /// Read an integer column.
    ReadInt { column: usize },
    /// Read a blob column.
    ReadBlob { column: usize },
    /// Return this result.
    Finish(OhosRdbResult<R>),
}

/// The query for an object store by its name, which is the first parameter of `sql`.
#[derive(Debug, PartialEq, Eq)]
pub struct StoreQuery {
    pub sql: &'static str,
    pub store_name: String,
}

/// Where the reading of an object store's row stands.
#[derive(Debug, PartialEq, Eq)]
pub enum StoreReader {
    /// The query is being made.
    Querying { store_name: String },
    /// The cursor is being moved to the row.
    Advancing { store_name: String },
    /// The id is being read.
    ReadingId { store_name: String },
    /// The key path is being read.
    ReadingKeyPath { store_name: String, id: i64 },
    /// The key generator's number is being read.
    ReadingAutoIncrement { store_name: String, id: i64, key_path: Vec<u8> },
    /// Everything is done.
    Finished,
}

/// What a reader of an object store's row asks for.
pub type StoreReaderAction = CursorAction<StoreQuery, Option<ObjectStoreModel>>;

/// A reader of an object store's row, and what it asks for.
pub type StoreReaderStep = (StoreReader, StoreReaderAction);

/// The event says how that went which the reader has asked for.
pub open spec fn store_reader_awaits(reader: StoreReader, event: CursorEvent) -> bool {
    match reader {
        StoreReader::Querying { .. } => event is Queried,
        StoreReader::Advancing { .. } => event is Advanced,
        StoreReader::ReadingId { .. } => event is Int,
        StoreReader::ReadingKeyPath { .. } => event is Blob,
        StoreReader::ReadingAutoIncrement { .. } => event is Int,
        StoreReader::Finished => false,
    }
}

/// Where a reader stands after the event, and what it asks for next.
pub open spec fn store_reader_next(reader: StoreReader, event: CursorEvent) -> StoreReaderStep
    recommends
        store_reader_awaits(reader, event),
{
    let finish = |result: OhosRdbResult<Option<ObjectStoreModel>>|
        (StoreReader::Finished, CursorAction::<StoreQuery, Option<ObjectStoreModel>>::Finish(result));
    match (reader, event) {
        (StoreReader::Querying { store_name }, CursorEvent::Queried(queried)) => match queried {
            Ok(_) => (StoreReader::Advancing { store_name }, CursorAction::NextRow),
            Err(error) => finish(Err(error)),
        },
        (StoreReader::Advancing { store_name }, CursorEvent::Advanced(advanced)) => match advanced {
            Ok(true) => (
                StoreReader::ReadingId { store_name },
                CursorAction::ReadInt { column: 0 },
            ),
            Ok(false) => finish(Ok(None)),
            Err(error) => finish(Err(error)),
        },
        (StoreReader::ReadingId { store_name }, CursorEvent::Int(value)) => match value {
            Ok(value) => match required_or(value, STORE_ID_CONTEXT) {
                Ok(id) => (
                    StoreReader::ReadingKeyPath { store_name, id },
                    CursorAction::ReadBlob { column: 1 },
                ),
                Err(error) => finish(Err(error)),
            },
            Err(error) => finish(Err(error)),
        },
        (StoreReader::ReadingKeyPath { store_name, id }, CursorEvent::Blob(value)) => match value {
            Ok(value) => match required_or(value, KEY_PATH_CONTEXT) {
                Ok(key_path) => (
                    StoreReader::ReadingAutoIncrement { store_name, id, key_path },
                    CursorAction::ReadInt { column: 2 },
                ),
                Err(error) => finish(Err(error)),
            },
            Err(error) => finish(Err(error)),
        },
        (
            StoreReader::ReadingAutoIncrement { store_name, id, key_path },
            CursorEvent::Int(value),
        ) => match value {
            Ok(value) => match required_or(value, AUTO_INCREMENT_CONTEXT) {
                Ok(auto_increment) => finish(
                    Ok(
                        Some(
                            ObjectStoreModel {
                                id,
                                name: store_name,
                                key_path: Some(key_path),
                                auto_increment,
                            },
                        ),
                    ),
                ),
                Err(error) => finish(Err(error)),
            },
            Err(error) => finish(Err(error)),
        },
        _ => arbitrary(),
    }
}

impl StoreReader {
    /// Reads the row of the object store of the given name.
    pub fn object_store_by_name(store_name: String) -> (step: StoreReaderStep)
        ensures
            step.0 == (StoreReader::Querying { store_name }),
            step.1 == StoreReaderAction::Query(StoreQuery { sql: STORE_BY_NAME_SQL, store_name }),
    {
        let query = StoreQuery { sql: STORE_BY_NAME_SQL, store_name: store_name.clone() };
        (StoreReader::Querying { store_name }, CursorAction::Query(query))
    }

    /// Whether the event says how that went which the reader has asked for.
    pub fn awaits(&self, event: &CursorEvent) -> (result: bool)
        ensures
            result == store_reader_awaits(*self, *event),
    {
        match (self, event) {
            (StoreReader::Querying { .. }, CursorEvent::Queried(_)) => true,
            (StoreReader::Advancing { .. }, CursorEvent::Advanced(_)) => true,
            (StoreReader::ReadingId { .. }, CursorEvent::Int(_)) => true,
            (StoreReader::ReadingKeyPath { .. }, CursorEvent::Blob(_)) => true,
            (StoreReader::ReadingAutoIncrement { .. }, CursorEvent::Int(_)) => true,
            _ => false,
        }
    }

    /// Goes on after the event: where the reader stands then, and what it asks for
    /// next.
    pub fn step(self, event: CursorEvent) -> (step: StoreReaderStep)
        requires
            store_reader_awaits(self, event),
        ensures
            step == store_reader_next(self, event),
    {
        match (self, event) {
            (StoreReader::Querying { store_name }, CursorEvent::Queried(Ok(_))) => (
                StoreReader::Advancing { store_name },
                CursorAction::NextRow,
            ),
            (StoreReader::Advancing { store_name }, CursorEvent::Advanced(Ok(found))) => {
                if found {
                    (StoreReader::ReadingId { store_name }, CursorAction::ReadInt { column: 0 })
                } else {
                    (StoreReader::Finished, CursorAction::Finish(Ok(None)))
                }
            },
            (StoreReader::ReadingId { store_name }, CursorEvent::Int(Ok(value))) => {
                match required(value, STORE_ID_CONTEXT) {
                    Ok(id) => (
                        StoreReader::ReadingKeyPath { store_name, id },
                        CursorAction::ReadBlob { column: 1 },
                    ),
                    Err(error) => (StoreReader::Finished, CursorAction::Finish(Err(error))),
                }
            },
            (StoreReader::ReadingKeyPath { store_name, id }, CursorEvent::Blob(Ok(value))) => {
                match required(value, KEY_PATH_CONTEXT) {
                    Ok(key_path) => (
                        StoreReader::ReadingAutoIncrement { store_name, id, key_path },
                        CursorAction::ReadInt { column: 2 },
                    ),
                    Err(error) => (StoreReader::Finished, CursorAction::Finish(Err(error))),
                }
            },
            (
                StoreReader::ReadingAutoIncrement { store_name, id, key_path },
                CursorEvent::Int(Ok(value)),
            ) => {
                let result = match required(value, AUTO_INCREMENT_CONTEXT) {
                    Ok(auto_increment) => Ok(
                        Some(
                            ObjectStoreModel {
                                id,
                                name: store_name,
                                key_path: Some(key_path),
                                auto_increment,
                            },
                        ),
                    ),
                    Err(error) => Err(error),
                };
                (StoreReader::Finished, CursorAction::Finish(result))
            },
            (StoreReader::Finished, _) => unreached(),
            (_, CursorEvent::Queried(Err(error))) => (
                StoreReader::Finished,
                CursorAction::Finish(Err(error)),
            ),
            (_, CursorEvent::Advanced(Err(error))) => (
                StoreReader::Finished,
                CursorAction::Finish(Err(error)),
            ),
            (_, CursorEvent::Int(Err(error))) => (
                StoreReader::Finished,
                CursorAction::Finish(Err(error)),
            ),
            (_, CursorEvent::Blob(Err(error))) => (
                StoreReader::Finished,
                CursorAction::Finish(Err(error)),
            ),
            _ => unreached(),
        }
    }
}

/// The value of a column that must not be null.
pub open spec fn column_or<T>(
    value: OhosRdbResult<Option<T>>,
    context: &'static str,
) -> OhosRdbResult<T> {
    match value {
        Ok(value) => required_or(value, context),
        Err(error) => Err(error),
    }
}

/// What the database answers when an object store's row is read.
pub struct StoreRowAnswers {
    pub queried: OhosRdbResult<()>,
    pub advanced: OhosRdbResult<bool>,
    pub id: OhosRdbResult<Option<i64>>,
    pub key_path: OhosRdbResult<Option<Vec<u8>>>,
    pub auto_increment: OhosRdbResult<Option<i64>>,
}

/// What a reader is told where it stands.
pub open spec fn store_reader_told(reader: StoreReader, answers: StoreRowAnswers) -> CursorEvent {
    match reader {
        StoreReader::Querying { .. } => CursorEvent::Queried(answers.queried),
        StoreReader::Advancing { .. } => CursorEvent::Advanced(answers.advanced),
        StoreReader::ReadingId { .. } => CursorEvent::Int(answers.id),
        StoreReader::ReadingKeyPath { .. } => CursorEvent::Blob(answers.key_path),
        _ => CursorEvent::Int(answers.auto_increment),
    }
}

/// How many more steps a reader can take at most.
pub open spec fn store_reader_steps_left(reader: StoreReader) -> nat {
    match reader {
        StoreReader::Querying { .. } => 5,
        StoreReader::Advancing { .. } => 4,
        StoreReader::ReadingId { .. } => 3,
        StoreReader::ReadingKeyPath { .. } => 2,
        StoreReader::ReadingAutoIncrement { .. } => 1,
        StoreReader::Finished => 0,
    }
}

/// All that a reader asks for from where it stands to its end.
pub open spec fn store_reader_actions(reader: StoreReader, answers: StoreRowAnswers) -> Seq<
    StoreReaderAction,
>
    decreases store_reader_steps_left(reader),
{
    if reader is Finished {
        Seq::empty()
    } else {
        let (next, action) = store_reader_next(reader, store_reader_told(reader, answers));
        seq![action] + store_reader_actions(next, answers)
    }
}

/// The object store of the given name, as its row describes it; none where there is
/// no row. The first error that comes up is the result, and a null column is such an
/// error: no column of the row can be null unless the row is corrupt or was written by
/// an incompatible version.
pub open spec fn object_store_read(
    store_name: String,
    answers: StoreRowAnswers,
) -> OhosRdbResult<Option<ObjectStoreModel>> {
    match answers.queried {
        Err(error) => Err(error),
        Ok(_) => match answers.advanced {
            Err(error) => Err(error),
            Ok(false) => Ok(None),
            Ok(true) => match column_or(answers.id, STORE_ID_CONTEXT) {
                Err(error) => Err(error),
                Ok(id) => match column_or(answers.key_path, KEY_PATH_CONTEXT) {
                    Err(error) => Err(error),
                    Ok(key_path) => match column_or(
                        answers.auto_increment,
                        AUTO_INCREMENT_CONTEXT,
                    ) {
                        Err(error) => Err(error),
                        Ok(auto_increment) => Ok(
                            Some(
                                ObjectStoreModel {
                                    id,
                                    name: store_name,
                                    key_path: Some(key_path),
                                    auto_increment,
                                },
                            ),
                        ),
                    },
                },
            },
        },
    }
}

/// A reader ends with what its object store's row says, whatever the database answers.
pub proof fn law_store_reader_result(store_name: String, answers: StoreRowAnswers)
    ensures
        store_reader_actions(StoreReader::Querying { store_name }, answers).len() > 0,
        store_reader_actions(StoreReader::Querying { store_name }, answers).last()
            == StoreReaderAction::Finish(object_store_read(store_name, answers)),
{
    reveal_with_fuel(store_reader_actions, 6);
}

/// No column of an object store's row is made up: an object store that was read has the
/// name that was asked for, and every other field is what its column holds. A null
/// column is never passed off as a value, nor as a store without a key path.
pub proof fn law_store_is_what_its_row_holds(
    store_name: String,
    answers: StoreRowAnswers,
    store: ObjectStoreModel,
)
    requires
        object_store_read(store_name, answers) == Ok::<Option<ObjectStoreModel>, OhosRdbError>(
            Some(store),
        ),
    ensures
        store.name == store_name,
        answers.id == Ok::<Option<i64>, OhosRdbError>(Some(store.id)),
        answers.key_path == Ok::<Option<Vec<u8>>, OhosRdbError>(store.key_path),
        store.key_path is Some,
        answers.auto_increment == Ok::<Option<i64>, OhosRdbError>(Some(store.auto_increment)),
{
}

/// The event says how the action went.
pub open spec fn answers_cursor_action<Q, R>(action: CursorAction<Q, R>, event: CursorEvent) -> bool {
    match action {
        CursorAction::Query(_) => event is Queried,
        CursorAction::NextRow => event is Advanced,
        CursorAction::ReadInt { .. } => event is Int,
        CursorAction::ReadBlob { .. } => event is Blob,
        CursorAction::Finish(_) => false,
    }
}

/// Whoever answers what a reader asks for can always hand the answer to the reader:
/// after every step it awaits exactly the events that say how the action went which
/// it asked for.
pub proof fn law_store_reader_answers_are_awaited(
    reader: StoreReader,
    event: CursorEvent,
    answer: CursorEvent,
)
    requires
        store_reader_awaits(reader, event),
    ensures
        store_reader_awaits(store_reader_next(reader, event).0, answer) <==> answers_cursor_action(
            store_reader_next(reader, event).1,
            answer,
        ),
{
}

} // verus!
