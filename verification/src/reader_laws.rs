//! What is read from the rows of a query, column by column.
//!
//! Here the database is a table: every read is answered with the column that it names, of
//! the row that the cursor stands on. What a reader returns is stated over the columns of
//! that table.

use vstd::prelude::*;

use crate::cursor::{
    store_reader_actions, store_reader_awaits, store_reader_next, store_reader_steps_left,
    CursorAction, CursorEvent, StoreReader, StoreReaderAction, StoreReaderStep, StoreRowAnswers,
};
use crate::error::{OhosRdbError, OhosRdbResult};
use crate::model::{ObjectDataModel, ObjectStoreModel};
use crate::scan::{
    law_records_are_what_the_rows_hold, law_scan_result, object_data_read, rows_from, rows_read,
    scan_action_view, scan_awaits, scan_next, scan_told, RowAnswers, RowScan, ScanAction,
    ScanActionView, ScanAnswers, ScanRun, ScanView,
};
use crate::text_laws::reports_missing;

verus! {

/// A row: whether the cursor finds it there, and what its columns hold.
pub struct TableRow {
    pub moved: OhosRdbResult<bool>,
    pub ints: spec_fn(usize) -> OhosRdbResult<Option<i64>>,
    pub blobs: spec_fn(usize) -> OhosRdbResult<Option<Vec<u8>>>,
}

/// How that went which was asked for of the row, where the query went as `queried` says.
pub open spec fn answered<Q, R>(
    action: CursorAction<Q, R>,
    queried: OhosRdbResult<()>,
    row: TableRow,
) -> CursorEvent {
    match action {
        CursorAction::Query(_) => CursorEvent::Queried(queried),
        CursorAction::NextRow => CursorEvent::Advanced(row.moved),
        CursorAction::ReadInt { column } => CursorEvent::Int((row.ints)(column)),
        CursorAction::ReadBlob { column } => CursorEvent::Blob((row.blobs)(column)),
        CursorAction::Finish(_) => arbitrary(),
    }
}

/// What a reader returns that stands there and asks for that.
pub open spec fn store_reader_ends(
    reader: StoreReader,
    action: StoreReaderAction,
    queried: OhosRdbResult<()>,
    row: TableRow,
) -> OhosRdbResult<Option<ObjectStoreModel>>
    decreases store_reader_steps_left(reader),
{
    match action {
        CursorAction::Finish(result) => result,
        _ => {
            let event = answered(action, queried, row);
            if store_reader_awaits(reader, event) {
                let (next, asked) = store_reader_next(reader, event);
                store_reader_ends(next, asked, queried, row)
            } else {
                arbitrary()
            }
        },
    }
}

/// The object store of a name is asked for by that name, and the id, the key path and the
/// number of the key generator are asked for in this order.
pub proof fn law_store_is_asked_for_by_name(store_name: String, step: StoreReaderStep)
    requires
        call_ensures(StoreReader::object_store_by_name, (store_name,), step),
    ensures
        step.1 matches CursorAction::Query(query) && {
            &&& query.store_name == store_name
            &&& query.sql@
                == "SELECT id, key_path, auto_increment FROM object_store WHERE name = ?1;"@
        },
        step.0 matches StoreReader::Querying { store_name: held } && held == store_name,
{
}

/// An object store is read from its row: the id is column 0, the key path column 1 and the
/// number of the key generator column 2, and its name is the one that was asked for. What
/// is returned is the first error on the way, in this order, and a null column is one; and
/// nothing where there is no row.
pub proof fn law_store_is_read_from_its_columns(
    store_name: String,
    first: StoreReaderStep,
    queried: OhosRdbResult<()>,
    row: TableRow,
)
    requires
        call_ensures(StoreReader::object_store_by_name, (store_name,), first),
    ensures
        ({
            let result = store_reader_ends(first.0, first.1, queried, row);
            match queried {
                Err(error) => result == Err::<Option<ObjectStoreModel>, OhosRdbError>(error),
                Ok(_) => match row.moved {
                    Err(error) => result == Err::<Option<ObjectStoreModel>, OhosRdbError>(error),
                    Ok(false) => result == Ok::<Option<ObjectStoreModel>, OhosRdbError>(None),
                    Ok(true) => match ((row.ints)(0), (row.blobs)(1), (row.ints)(2)) {
                        (Err(error), _, _) => result == Err::<
                            Option<ObjectStoreModel>,
                            OhosRdbError,
                        >(error),
                        (Ok(None), _, _) => result matches Err(error) && reports_missing(
                            error,
                            "object_store.id",
                        ),
                        (_, Err(error), _) => result == Err::<
                            Option<ObjectStoreModel>,
                            OhosRdbError,
                        >(error),
                        (_, Ok(None), _) => result matches Err(error) && reports_missing(
                            error,
                            "object_store.key_path",
                        ),
                        (_, _, Err(error)) => result == Err::<
                            Option<ObjectStoreModel>,
                            OhosRdbError,
                        >(error),
                        (_, _, Ok(None)) => result matches Err(error) && reports_missing(
                            error,
                            "object_store.auto_increment",
                        ),
                        (Ok(Some(id)), Ok(Some(path)), Ok(Some(number))) => result matches Ok(
                            Some(store),
                        ) && {
                            &&& store.id == id
                            &&& store.name == store_name
                            &&& store.key_path == Some(path)
                            &&& store.auto_increment == number
                        },
                    },
                },
            }
        }),
{
    reveal_with_fuel(store_reader_ends, 6);
}

/// All that a reader asks for: the row, then column 0, column 1 and column 2, each only if
/// all before it went well and held a value, and then it ends.
pub proof fn law_store_reader_course(store_name: String, answers: StoreRowAnswers)
    ensures
        ({
            let course = store_reader_actions(StoreReader::Querying { store_name }, answers);
            let reads: Seq<StoreReaderAction> = seq![
                CursorAction::NextRow,
                CursorAction::ReadInt { column: 0 },
                CursorAction::ReadBlob { column: 1 },
                CursorAction::ReadInt { column: 2 },
            ];
            let made: int = if answers.queried is Err {
                0
            } else if answers.advanced != Ok::<bool, OhosRdbError>(true) {
                1
            } else if !(answers.id matches Ok(Some(_))) {
                2
            } else if !(answers.key_path matches Ok(Some(_))) {
                3
            } else {
                4
            };
            &&& course.len() == made + 1
            &&& course.drop_last() == reads.take(made)
            &&& course.last() is Finish
        }),
{
    reveal_with_fuel(store_reader_actions, 6);
    let course = store_reader_actions(StoreReader::Querying { store_name }, answers);
    let reads: Seq<StoreReaderAction> = seq![
        CursorAction::NextRow,
        CursorAction::ReadInt { column: 0 },
        CursorAction::ReadBlob { column: 1 },
        CursorAction::ReadInt { column: 2 },
    ];
    assert(course.drop_last() =~= reads.take(course.len() - 1));
}

/// The records of an object store are asked for by the store's id, in the range and up to
/// the count that was given, in order, and with their three columns.
pub proof fn law_records_are_asked_for_as_given<G>(
    store: &ObjectStoreModel,
    key_range: G,
    count: Option<u32>,
    step: (RowScan, ScanAction<G>),
)
    requires
        call_ensures(RowScan::object_data_rows::<G>, (store, key_range, count), step),
    ensures
        step.1 matches CursorAction::Query(query) && {
            &&& query.object_store_id == store.id
            &&& query.key_range == key_range
            &&& query.count == count
            &&& query.ordered
            &&& query.columns@ == "object_store_id, key, data"@
        },
        step.0 is Querying,
{
}

/// Whatever row a scan is at, and whatever it has read before, the object store of a record
/// is read from column 0, its key from column 1 and its value from column 2; the cursor is
/// moved on between rows and at no other time.
pub proof fn law_scan_reads_each_field_from_its_column<G>(
    scan: RowScan,
    event: CursorEvent,
    step: (RowScan, ScanAction<G>),
)
    requires
        scan_awaits(scan@, event),
        call_ensures(RowScan::step::<G>, (scan, event), step),
    ensures
        step.0 is ReadingStoreId ==> step.1 == (ScanAction::<G>::ReadInt { column: 0 }),
        step.0 is ReadingKey ==> step.1 == (ScanAction::<G>::ReadBlob { column: 1 }),
        step.0 is ReadingData ==> step.1 == (ScanAction::<G>::ReadBlob { column: 2 }),
        step.0 is Advancing ==> step.1 is NextRow,
        step.0 is Finished <==> step.1 is Finish,
        !(step.0 is Querying),
{
    let seen = scan_action_view(step.1);
    assert((step.0@, seen) == scan_next::<G>(scan@, event));
}

/// How often the cursor was moved by the first `n` actions.
pub open spec fn moves<G>(actions: Seq<ScanActionView<G>>, n: int) -> int
    decreases n,
{
    if n <= 0 {
        0
    } else {
        moves(actions, n - 1) + if actions[n - 1] is NextRow {
            1int
        } else {
            0int
        }
    }
}

/// The row that the cursor stands on after it was moved `n` times; beyond the table there
/// is none.
pub open spec fn row_after(table: Seq<TableRow>, n: int) -> TableRow {
    if 0 < n <= table.len() {
        table[n - 1]
    } else {
        TableRow { moved: Ok(false), ints: arbitrary(), blobs: arbitrary() }
    }
}

/// What is told in step `n`: how that went which was asked for last, of the row that the
/// cursor stands on.
pub open spec fn told_from_table<G>(
    actions: Seq<ScanActionView<G>>,
    n: int,
    queried: OhosRdbResult<()>,
    table: Seq<TableRow>,
) -> CursorEvent {
    if n == 0 {
        CursorEvent::Queried(queried)
    } else {
        answered(actions[n - 1], queried, row_after(table, moves(actions, n)))
    }
}

impl<G> ScanRun<G> {
    /// This is the course that a scan takes over the table.
    pub open spec fn over(self, queried: OhosRdbResult<()>, table: Seq<TableRow>) -> bool {
        &&& self.states.len() == self.actions.len() + 1
        &&& self.states[0] is Querying
        &&& forall|i: int|
            0 <= i < self.actions.len() ==> #[trigger] self.steps_over(i, queried, table)
    }

    /// Step `i` of this course is the one that a scan takes over the table.
    pub open spec fn steps_over(
        self,
        i: int,
        queried: OhosRdbResult<()>,
        table: Seq<TableRow>,
    ) -> bool {
        &&& !(self.states[i] is Finished)
        &&& (self.states[i + 1], self.actions[i]) == scan_next::<G>(
            self.states[i],
            told_from_table(self.actions, i, queried, table),
        )
    }
}

/// What the three columns of a row hold.
spec fn columns(row: TableRow) -> RowAnswers {
    RowAnswers {
        advanced: row.moved,
        object_store_id: (row.ints)(0),
        key: (row.blobs)(1),
        data: (row.blobs)(2),
    }
}

spec fn answers_of(queried: OhosRdbResult<()>, table: Seq<TableRow>) -> ScanAnswers {
    ScanAnswers { queried, rows: table.map_values(|row: TableRow| columns(row)) }
}

/// The scan stands at the row that the cursor stands on, and has asked for the column that
/// it now waits for.
spec fn is_at<G>(scan: ScanView, actions: Seq<ScanActionView<G>>, n: int, total: int) -> bool {
    match scan {
        ScanView::Querying => n == 0,
        ScanView::Advancing { rows } => {
            &&& n > 0 && actions[n - 1] is NextRow
            &&& moves(actions, n) == rows.len() + 1
        },
        ScanView::ReadingStoreId { rows } => {
            &&& n > 0 && actions[n - 1] == (ScanActionView::<G>::ReadInt { column: 0 })
            &&& moves(actions, n) == rows.len() + 1 <= total
        },
        ScanView::ReadingKey { rows, .. } => {
            &&& n > 0 && actions[n - 1] == (ScanActionView::<G>::ReadBlob { column: 1 })
            &&& moves(actions, n) == rows.len() + 1 <= total
        },
        ScanView::ReadingData { rows, .. } => {
            &&& n > 0 && actions[n - 1] == (ScanActionView::<G>::ReadBlob { column: 2 })
            &&& moves(actions, n) == rows.len() + 1 <= total
        },
        ScanView::Finished => true,
    }
}

proof fn lemma_scan_is_at<G>(
    run: ScanRun<G>,
    queried: OhosRdbResult<()>,
    table: Seq<TableRow>,
    n: int,
)
    requires
        run.over(queried, table),
        0 <= n <= run.actions.len(),
    ensures
        is_at(run.states[n], run.actions, n, table.len() as int),
        n < run.actions.len() ==> told_from_table(run.actions, n, queried, table) == scan_told(
            run.states[n],
            answers_of(queried, table),
        ),
    decreases n,
{
    if n > 0 {
        lemma_scan_is_at(run, queried, table, n - 1);
        let action = run.actions[n - 1];
        assert(run.steps_over(n - 1, queried, table));
        assert(moves(run.actions, n) == moves(run.actions, n - 1) + if action is NextRow {
            1int
        } else {
            0int
        });
    }
    if n < run.actions.len() {
        assert(run.steps_over(n, queried, table));
    }
}

/// The row at position `i` holds the record.
pub open spec fn row_is(table: Seq<TableRow>, i: int, record: ObjectDataModel) -> bool {
    &&& table[i].moved == Ok::<bool, OhosRdbError>(true)
    &&& (table[i].ints)(0) == Ok::<Option<i64>, OhosRdbError>(Some(record.object_store_id))
    &&& (table[i].blobs)(1) == Ok::<Option<Vec<u8>>, OhosRdbError>(Some(record.key))
    &&& (table[i].blobs)(2) == Ok::<Option<Vec<u8>>, OhosRdbError>(Some(record.data))
}

/// Reading the row ends with this error: it is the first one that comes up when the cursor
/// is moved to the row and columns 0, 1 and 2 are read, and a null column is one.
pub open spec fn row_ends_with(row: TableRow, error: OhosRdbError) -> bool {
    match row.moved {
        Err(cause) => error == cause,
        Ok(false) => false,
        Ok(true) => match ((row.ints)(0), (row.blobs)(1), (row.blobs)(2)) {
            (Err(cause), _, _) => error == cause,
            (Ok(None), _, _) => reports_missing(error, "object_data.object_store_id"),
            (_, Err(cause), _) => error == cause,
            (_, Ok(None), _) => reports_missing(error, "object_data.key"),
            (_, _, Err(cause)) => error == cause,
            (_, _, Ok(None)) => reports_missing(error, "object_data.data"),
            _ => false,
        },
    }
}

/// The row is there, and none of its three columns is null.
pub open spec fn holds_a_record(row: TableRow) -> bool {
    &&& row.moved == Ok::<bool, OhosRdbError>(true)
    &&& (row.ints)(0) matches Ok(Some(_))
    &&& (row.blobs)(1) matches Ok(Some(_))
    &&& (row.blobs)(2) matches Ok(Some(_))
}

/// No row before position `i` ends the reading: each is there and holds a record.
pub open spec fn rows_are_read_before(table: Seq<TableRow>, i: int) -> bool {
    forall|j: int| 0 <= j < i ==> holds_a_record(#[trigger] table[j])
}

proof fn lemma_first_error(
    queried: OhosRdbResult<()>,
    table: Seq<TableRow>,
    read: Seq<ObjectDataModel>,
    error: OhosRdbError,
)
    requires
        read.len() <= table.len(),
        rows_are_read_before(table, read.len() as int),
        rows_from(answers_of(queried, table).rows, read) == Err::<
            Seq<ObjectDataModel>,
            OhosRdbError,
        >(error),
    ensures
        exists|i: int|
            0 <= i < table.len() && #[trigger] row_ends_with(table[i], error)
                && rows_are_read_before(table, i),
    decreases table.len() - read.len(),
{
    let rows = answers_of(queried, table).rows;
    let at = read.len() as int;
    assert(read.len() < rows.len());
    assert(rows[at] == columns(table[at]));
    if rows[at].advanced == Ok::<bool, OhosRdbError>(true) {
        match object_data_read(rows[at]) {
            Ok(record) => {
                assert(row_is(table, at, record));
                assert(holds_a_record(table[at]));
                lemma_first_error(queried, table, read.push(record), error);
            },
            Err(_) => {
                assert(row_ends_with(table[at], error));
            },
        }
    } else {
        assert(row_ends_with(table[at], error));
    }
}

proof fn lemma_table_gives_answers<G>(
    run: ScanRun<G>,
    queried: OhosRdbResult<()>,
    table: Seq<TableRow>,
)
    requires
        run.over(queried, table),
    ensures
        run.with(answers_of(queried, table)),
{
    let answers = answers_of(queried, table);
    assert forall|i: int| #![trigger run.actions[i]] 0 <= i < run.actions.len() implies !(
    run.states[i] is Finished) && (run.states[i + 1], run.actions[i]) == scan_next::<G>(
        run.states[i],
        scan_told(run.states[i], answers),
    ) by {
        assert(run.steps_over(i, queried, table));
        lemma_scan_is_at(run, queried, table, i);
    }
    assert forall|i: int| 0 <= i < run.actions.len() implies !(#[trigger] run.states[i]
        is Finished) by {
        assert(run.steps_over(i, queried, table));
    }
}

proof fn lemma_records_are_in_the_table(
    queried: OhosRdbResult<()>,
    table: Seq<TableRow>,
    records: Seq<ObjectDataModel>,
)
    requires
        rows_read(answers_of(queried, table)) == Ok::<Seq<ObjectDataModel>, OhosRdbError>(records),
    ensures
        queried is Ok,
        records.len() <= table.len(),
        forall|i: int| 0 <= i < records.len() ==> row_is(table, i, #[trigger] records[i]),
        records.len() < table.len() ==> table[records.len() as int].moved == Ok::<
            bool,
            OhosRdbError,
        >(false),
{
    let answers = answers_of(queried, table);
    law_records_are_what_the_rows_hold(answers, records);
    assert forall|i: int| 0 <= i < records.len() implies row_is(
        table,
        i,
        #[trigger] records[i],
    ) by {
        assert(answers.rows[i] == columns(table[i]));
    }
    if records.len() < table.len() {
        assert(answers.rows[records.len() as int] == columns(table[records.len() as int]));
    }
}

/// The records of a scan are read from the rows: of every row, column 0 is the object store,
/// column 1 the key and column 2 the value. A scan that has ended returns one record for
/// each row up to where the rows end, in order; or it returns the first error on the way,
/// and a null column is one.
pub proof fn law_records_are_read_from_their_columns<G>(
    run: ScanRun<G>,
    queried: OhosRdbResult<()>,
    table: Seq<TableRow>,
)
    requires
        run.over(queried, table),
        run.states.last() is Finished,
    ensures
        run.actions.len() > 0,
        run.actions.last() matches CursorAction::Finish(result) && match result {
            Ok(records) => {
                &&& queried is Ok
                &&& records.len() <= table.len()
                &&& forall|i: int|
                    0 <= i < records.len() ==> row_is(table, i, #[trigger] records[i])
                &&& records.len() < table.len() ==> table[records.len() as int].moved == Ok::<
                    bool,
                    OhosRdbError,
                >(false)
            },
            Err(error) => {
                ||| queried == Err::<(), OhosRdbError>(error)
                ||| exists|i: int|
                    0 <= i < table.len() && #[trigger] row_ends_with(table[i], error)
                        && rows_are_read_before(table, i) && queried is Ok
            },
        },
{
    lemma_table_gives_answers(run, queried, table);
    law_scan_result(run, answers_of(queried, table));
    match rows_read(answers_of(queried, table)) {
        Ok(records) => {
            lemma_records_are_in_the_table(queried, table, records);
        },
        Err(error) => {
            if queried is Ok {
                lemma_first_error(queried, table, Seq::empty(), error);
            }
        },
    }
}

} // verus!
