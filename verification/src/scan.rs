//! Reading the records of an object store that lie in a range.
//!
//! A scan never touches the cursor itself. It says what is to be done next, and is
//! told how that went. The first error ends it.

use vstd::pervasive::unreached;
use vstd::prelude::*;

use crate::cursor::{
    answers_cursor_action, column_or, CursorAction, CursorEvent, DATA_COLUMNS, DATA_CONTEXT,
    DATA_KEY_CONTEXT, DATA_STORE_ID_CONTEXT,
};
use crate::error::{required, OhosRdbError, OhosRdbResult};
use crate::model::{ObjectDataModel, ObjectStoreModel};

verus! {

/// The query for the records of an object store that lie in a range.
#[derive(Debug, PartialEq, Eq)]
pub struct RowQuery<G> {
    pub columns: &'static str,
    pub object_store_id: i64,
    pub key_range: G,
    pub count: Option<u32>,
    /// Whether the records are asked for in order.
    pub ordered: bool,
}

/// Where a scan stands; `rows` are the records that it has read.
#[derive(Debug, PartialEq, Eq)]
pub enum RowScan {
    /// The query is being made.
    Querying,
    /// The cursor is being moved on.
    Advancing { rows: Vec<ObjectDataModel> },
    /// The object store of a record is being read.
    ReadingStoreId { rows: Vec<ObjectDataModel> },
    /// The key of a record is being read.
    ReadingKey { rows: Vec<ObjectDataModel>, object_store_id: i64 },
    /// The value of a record is being read.
    ReadingData { rows: Vec<ObjectDataModel>, object_store_id: i64, key: Vec<u8> },
    /// Everything is done.
    Finished,
}

/// The mathematical content of a [`RowScan`].
pub enum ScanView {
    Querying,
    Advancing { rows: Seq<ObjectDataModel> },
    ReadingStoreId { rows: Seq<ObjectDataModel> },
    ReadingKey { rows: Seq<ObjectDataModel>, object_store_id: i64 },
    ReadingData { rows: Seq<ObjectDataModel>, object_store_id: i64, key: Vec<u8> },
    Finished,
}

impl View for RowScan {
    type V = ScanView;

    open spec fn view(&self) -> ScanView {
        match self {
            RowScan::Querying => ScanView::Querying,
            RowScan::Advancing { rows } => ScanView::Advancing { rows: rows@ },
            RowScan::ReadingStoreId { rows } => ScanView::ReadingStoreId { rows: rows@ },
            RowScan::ReadingKey { rows, object_store_id } => ScanView::ReadingKey {
                rows: rows@,
                object_store_id: *object_store_id,
            },
            RowScan::ReadingData { rows, object_store_id, key } => ScanView::ReadingData {
                rows: rows@,
                object_store_id: *object_store_id,
                key: *key,
            },
            RowScan::Finished => ScanView::Finished,
        }
    }
}

/// What a scan asks for.
pub type ScanAction<G> = CursorAction<RowQuery<G>, Vec<ObjectDataModel>>;

/// The mathematical content of a [`ScanAction`].
pub type ScanActionView<G> = CursorAction<RowQuery<G>, Seq<ObjectDataModel>>;

/// The mathematical content of what a scan asks for.
pub open spec fn scan_action_view<G>(action: ScanAction<G>) -> ScanActionView<G> {
    match action {
        CursorAction::Query(query) => CursorAction::Query(query),
        CursorAction::NextRow => CursorAction::NextRow,
        CursorAction::ReadInt { column } => CursorAction::ReadInt { column },
        CursorAction::ReadBlob { column } => CursorAction::ReadBlob { column },
        CursorAction::Finish(Ok(rows)) => CursorAction::Finish(Ok(rows@)),
        CursorAction::Finish(Err(error)) => CursorAction::Finish(Err(error)),
    }
}

/// The event says how that went which the scan has asked for.
pub open spec fn scan_awaits(scan: ScanView, event: CursorEvent) -> bool {
    match scan {
        ScanView::Querying => event is Queried,
        ScanView::Advancing { .. } => event is Advanced,
        ScanView::ReadingStoreId { .. } => event is Int,
        ScanView::ReadingKey { .. } => event is Blob,
        ScanView::ReadingData { .. } => event is Blob,
        ScanView::Finished => false,
    }
}

/// A scan that ends with the given result.
pub open spec fn scan_ends<G>(result: OhosRdbResult<Seq<ObjectDataModel>>) -> (
    ScanView,
    ScanActionView<G>,
) {
    (ScanView::Finished, CursorAction::Finish(result))
}

/// Where a scan stands after the event, and what it asks for next.
pub open spec fn scan_next<G>(scan: ScanView, event: CursorEvent) -> (ScanView, ScanActionView<G>)
    recommends
        scan_awaits(scan, event),
{
    match (scan, event) {
        (ScanView::Querying, CursorEvent::Queried(queried)) => match queried {
            Ok(_) => (ScanView::Advancing { rows: Seq::empty() }, CursorAction::NextRow),
            Err(error) => scan_ends(Err(error)),
        },
        (ScanView::Advancing { rows }, CursorEvent::Advanced(advanced)) => match advanced {
            Ok(true) => (ScanView::ReadingStoreId { rows }, CursorAction::ReadInt { column: 0 }),
            Ok(false) => scan_ends(Ok(rows)),
            Err(error) => scan_ends(Err(error)),
        },
        (ScanView::ReadingStoreId { rows }, CursorEvent::Int(value)) => match column_or(
            value,
            DATA_STORE_ID_CONTEXT,
        ) {
            Ok(object_store_id) => (
                ScanView::ReadingKey { rows, object_store_id },
                CursorAction::ReadBlob { column: 1 },
            ),
            Err(error) => scan_ends(Err(error)),
        },
        (ScanView::ReadingKey { rows, object_store_id }, CursorEvent::Blob(value)) =>
            match column_or(value, DATA_KEY_CONTEXT) {
                Ok(key) => (
                    ScanView::ReadingData { rows, object_store_id, key },
                    CursorAction::ReadBlob { column: 2 },
                ),
                Err(error) => scan_ends(Err(error)),
            },
        (ScanView::ReadingData { rows, object_store_id, key }, CursorEvent::Blob(value)) =>
            match column_or(value, DATA_CONTEXT) {
                Ok(data) => (
                    ScanView::Advancing {
                        rows: rows.push(ObjectDataModel { object_store_id, key, data }),
                    },
                    CursorAction::NextRow,
                ),
                Err(error) => scan_ends(Err(error)),
            },
        _ => arbitrary(),
    }
}

/// Ends a scan.
fn finish<G>(result: OhosRdbResult<Vec<ObjectDataModel>>) -> (step: (RowScan, ScanAction<G>))
    ensures
        step.0@ == ScanView::Finished,
        step.1 == ScanAction::<G>::Finish(result),
{
    (RowScan::Finished, CursorAction::Finish(result))
}

impl RowScan {
    /// Reads the records of the object store that lie in the range, in order, and at
    /// most `count` of them.
    pub fn object_data_rows<G>(store: &ObjectStoreModel, key_range: G, count: Option<u32>) -> (step: (
        RowScan,
        ScanAction<G>,
    ))
        ensures
            step.0@ == ScanView::Querying,
            step.1 == ScanAction::<G>::Query(
                RowQuery {
                    columns: DATA_COLUMNS,
                    object_store_id: store.id,
                    key_range,
                    count,
                    ordered: true,
                },
            ),
    {
        let query = RowQuery {
            columns: DATA_COLUMNS,
            object_store_id: store.id,
            key_range,
            count,
            ordered: true,
        };
        (RowScan::Querying, CursorAction::Query(query))
    }

    /// Whether the event says how that went which the scan has asked for.
    pub fn awaits(&self, event: &CursorEvent) -> (result: bool)
        ensures
            result == scan_awaits(self@, *event),
    {
        match (self, event) {
            (RowScan::Querying, CursorEvent::Queried(_)) => true,
            (RowScan::Advancing { .. }, CursorEvent::Advanced(_)) => true,
            (RowScan::ReadingStoreId { .. }, CursorEvent::Int(_)) => true,
            (RowScan::ReadingKey { .. }, CursorEvent::Blob(_)) => true,
            (RowScan::ReadingData { .. }, CursorEvent::Blob(_)) => true,
            _ => false,
        }
    }

    /// Goes on after the event: where the scan stands then, and what it asks for
    /// next.
    pub fn step<G>(self, event: CursorEvent) -> (step: (RowScan, ScanAction<G>))
        requires
            scan_awaits(self@, event),
        ensures
            (step.0@, scan_action_view(step.1)) == scan_next::<G>(self@, event),
    {
        match (self, event) {
            (RowScan::Querying, CursorEvent::Queried(Ok(_))) => (
                RowScan::Advancing { rows: Vec::new() },
                CursorAction::NextRow,
            ),
            (RowScan::Advancing { rows }, CursorEvent::Advanced(Ok(found))) => {
                if found {
                    (RowScan::ReadingStoreId { rows }, CursorAction::ReadInt { column: 0 })
                } else {
                    finish(Ok(rows))
                }
            },
            (RowScan::ReadingStoreId { rows }, CursorEvent::Int(Ok(value))) => match required(
                value,
                DATA_STORE_ID_CONTEXT,
            ) {
                Ok(object_store_id) => (
                    RowScan::ReadingKey { rows, object_store_id },
                    CursorAction::ReadBlob { column: 1 },
                ),
                Err(error) => finish(Err(error)),
            },
            (RowScan::ReadingKey { rows, object_store_id }, CursorEvent::Blob(Ok(value))) => {
                match required(value, DATA_KEY_CONTEXT) {
                    Ok(key) => (
                        RowScan::ReadingData { rows, object_store_id, key },
                        CursorAction::ReadBlob { column: 2 },
                    ),
                    Err(error) => finish(Err(error)),
                }
            },
            (RowScan::ReadingData { rows, object_store_id, key }, CursorEvent::Blob(Ok(value))) => {
                match required(value, DATA_CONTEXT) {
                    Ok(data) => {
                        let mut rows = rows;
                        rows.push(ObjectDataModel { object_store_id, key, data });
                        (RowScan::Advancing { rows }, CursorAction::NextRow)
                    },
                    Err(error) => finish(Err(error)),
                }
            },
            (RowScan::Finished, _) => unreached(),
            (_, CursorEvent::Queried(Err(error))) => finish(Err(error)),
            (_, CursorEvent::Advanced(Err(error))) => finish(Err(error)),
            (_, CursorEvent::Int(Err(error))) => finish(Err(error)),
            (_, CursorEvent::Blob(Err(error))) => finish(Err(error)),
            _ => unreached(),
        }
    }
}

/// What the database answers when the cursor is moved on and a record is read.
pub struct RowAnswers {
    pub advanced: OhosRdbResult<bool>,
    pub object_store_id: OhosRdbResult<Option<i64>>,
    pub key: OhosRdbResult<Option<Vec<u8>>>,
    pub data: OhosRdbResult<Option<Vec<u8>>>,
}

/// The record that a row holds. The first error that comes up is the result, and a
/// null column is such an error.
pub open spec fn object_data_read(answers: RowAnswers) -> OhosRdbResult<ObjectDataModel> {
    match column_or(answers.object_store_id, DATA_STORE_ID_CONTEXT) {
        Err(error) => Err(error),
        Ok(object_store_id) => match column_or(answers.key, DATA_KEY_CONTEXT) {
            Err(error) => Err(error),
            Ok(key) => match column_or(answers.data, DATA_CONTEXT) {
                Err(error) => Err(error),
                Ok(data) => Ok(ObjectDataModel { object_store_id, key, data }),
            },
        },
    }
}

/// What the database answers in the course of a scan: how the query went, and what
/// is found at each position of the cursor. After the last of them there is no row.
pub struct ScanAnswers {
    pub queried: OhosRdbResult<()>,
    pub rows: Seq<RowAnswers>,
}

/// What a scan is told where it stands.
pub open spec fn scan_told(scan: ScanView, answers: ScanAnswers) -> CursorEvent {
    match scan {
        ScanView::Querying => CursorEvent::Queried(answers.queried),
        ScanView::Advancing { rows } => CursorEvent::Advanced(
            if rows.len() < answers.rows.len() {
                answers.rows[rows.len() as int].advanced
            } else {
                Ok(false)
            },
        ),
        ScanView::ReadingStoreId { rows } => CursorEvent::Int(
            answers.rows[rows.len() as int].object_store_id,
        ),
        ScanView::ReadingKey { rows, .. } => CursorEvent::Blob(
            answers.rows[rows.len() as int].key,
        ),
        ScanView::ReadingData { rows, .. } => CursorEvent::Blob(
            answers.rows[rows.len() as int].data,
        ),
        ScanView::Finished => arbitrary(),
    }
}

/// The records from the cursor's position on, after those that are read: they are
/// taken in order up to the first position without a row. The first error that comes
/// up is the result.
pub open spec fn rows_from(rows: Seq<RowAnswers>, read: Seq<ObjectDataModel>) -> OhosRdbResult<
    Seq<ObjectDataModel>,
>
    decreases rows.len() - read.len(),
{
    if read.len() >= rows.len() {
        Ok(read)
    } else {
        match rows[read.len() as int].advanced {
            Err(error) => Err(error),
            Ok(false) => Ok(read),
            Ok(true) => match object_data_read(rows[read.len() as int]) {
                Err(error) => Err(error),
                Ok(row) => rows_from(rows, read.push(row)),
            },
        }
    }
}

/// What a scan returns.
pub open spec fn rows_read(answers: ScanAnswers) -> OhosRdbResult<Seq<ObjectDataModel>> {
    match answers.queried {
        Err(error) => Err(error),
        Ok(_) => rows_from(answers.rows, Seq::empty()),
    }
}

/// The course of a scan: where it stood, and what it asked for on the way.
pub struct ScanRun<G> {
    pub states: Seq<ScanView>,
    pub actions: Seq<ScanActionView<G>>,
}

impl<G> ScanRun<G> {
    /// This is the course that a scan takes with the given answers.
    pub open spec fn with(self, answers: ScanAnswers) -> bool {
        &&& self.states.len() == self.actions.len() + 1
        &&& self.states[0] is Querying
        &&& forall|i: int|
            #![trigger self.actions[i]]
            0 <= i < self.actions.len() ==> !(self.states[i] is Finished) && (
                self.states[i + 1],
                self.actions[i],
            ) == scan_next::<G>(self.states[i], scan_told(self.states[i], answers))
    }
}

/// A scan stands where the answers so far have brought it: what it has read and what
/// is still to come make up what it returns.
spec fn is_on_course(scan: ScanView, answers: ScanAnswers) -> bool {
    match scan {
        ScanView::Querying => true,
        ScanView::Advancing { rows } => {
            &&& rows.len() <= answers.rows.len()
            &&& rows_read(answers) == rows_from(answers.rows, rows)
        },
        ScanView::ReadingStoreId { rows } => {
            &&& rows.len() < answers.rows.len()
            &&& rows_read(answers) == rows_from(answers.rows, rows)
            &&& answers.rows[rows.len() as int].advanced == Ok::<bool, OhosRdbError>(true)
        },
        ScanView::ReadingKey { rows, object_store_id } => {
            let row = answers.rows[rows.len() as int];
            &&& rows.len() < answers.rows.len()
            &&& rows_read(answers) == rows_from(answers.rows, rows)
            &&& row.advanced == Ok::<bool, OhosRdbError>(true)
            &&& column_or(row.object_store_id, DATA_STORE_ID_CONTEXT) == Ok::<i64, OhosRdbError>(
                object_store_id,
            )
        },
        ScanView::ReadingData { rows, object_store_id, key } => {
            let row = answers.rows[rows.len() as int];
            &&& rows.len() < answers.rows.len()
            &&& rows_read(answers) == rows_from(answers.rows, rows)
            &&& row.advanced == Ok::<bool, OhosRdbError>(true)
            &&& column_or(row.object_store_id, DATA_STORE_ID_CONTEXT) == Ok::<i64, OhosRdbError>(
                object_store_id,
            )
            &&& column_or(row.key, DATA_KEY_CONTEXT) == Ok::<Vec<u8>, OhosRdbError>(key)
        },
        ScanView::Finished => true,
    }
}

/// How many more steps a scan can take at most, where `total` positions may hold a row.
spec fn steps_left(scan: ScanView, total: int) -> int {
    match scan {
        ScanView::Querying => 4 * total + 2,
        ScanView::Advancing { rows } => 4 * (total - rows.len()) + 1,
        ScanView::ReadingStoreId { rows } => 4 * (total - rows.len()),
        ScanView::ReadingKey { rows, .. } => 4 * (total - rows.len()) - 1,
        ScanView::ReadingData { rows, .. } => 4 * (total - rows.len()) - 2,
        ScanView::Finished => 0,
    }
}

proof fn lemma_run_on_course<G>(run: ScanRun<G>, answers: ScanAnswers, n: int)
    requires
        run.with(answers),
        0 <= n <= run.actions.len(),
    ensures
        is_on_course(run.states[n], answers),
        n + steps_left(run.states[n], answers.rows.len() as int) <= 4 * answers.rows.len() + 2,
        run.states[n] is Finished ==> n > 0 && run.actions[n - 1] == ScanActionView::<G>::Finish(
            rows_read(answers),
        ),
    decreases n,
{
    if n > 0 {
        lemma_run_on_course(run, answers, n - 1);
        let action = run.actions[n - 1];
        let before = run.states[n - 1];
        assert((run.states[n], action) == scan_next::<G>(before, scan_told(before, answers)));
    }
}

/// A scan that has ended returns what the cursor led to, whatever the database
/// answers: the records in order, or the first error that came up.
pub proof fn law_scan_result<G>(run: ScanRun<G>, answers: ScanAnswers)
    requires
        run.with(answers),
        run.states.last() is Finished,
    ensures
        run.actions.len() > 0,
        run.actions.last() == ScanActionView::<G>::Finish(rows_read(answers)),
{
    lemma_run_on_course(run, answers, run.actions.len() as int);
}

/// The row holds the record: none of its columns is null.
pub open spec fn row_holds(answers: RowAnswers, row: ObjectDataModel) -> bool {
    &&& answers.advanced == Ok::<bool, OhosRdbError>(true)
    &&& answers.object_store_id == Ok::<Option<i64>, OhosRdbError>(Some(row.object_store_id))
    &&& answers.key == Ok::<Option<Vec<u8>>, OhosRdbError>(Some(row.key))
    &&& answers.data == Ok::<Option<Vec<u8>>, OhosRdbError>(Some(row.data))
}

proof fn lemma_rows_held(answers: Seq<RowAnswers>, read: Seq<ObjectDataModel>)
    requires
        read.len() <= answers.len(),
        forall|i: int| 0 <= i < read.len() ==> row_holds(answers[i], #[trigger] read[i]),
    ensures
        rows_from(answers, read) matches Ok(rows) ==> {
            &&& rows.len() <= answers.len()
            &&& forall|i: int| 0 <= i < rows.len() ==> row_holds(answers[i], #[trigger] rows[i])
            &&& rows.len() < answers.len() ==> answers[rows.len() as int].advanced == Ok::<
                bool,
                OhosRdbError,
            >(false)
        },
    decreases answers.len() - read.len(),
{
    if read.len() < answers.len() && answers[read.len() as int].advanced == Ok::<
        bool,
        OhosRdbError,
    >(true) {
        match object_data_read(answers[read.len() as int]) {
            Ok(row) => {
                assert(row_holds(answers[read.len() as int], row));
                lemma_rows_held(answers, read.push(row));
            },
            Err(_) => {},
        }
    }
}

/// No column of a record is made up and no row is left out: the records that a scan
/// returns are, one for one, what the rows hold up to where the cursor comes to its end.
/// A null column is never passed off as a value.
pub proof fn law_records_are_what_the_rows_hold(answers: ScanAnswers, rows: Seq<ObjectDataModel>)
    requires
        rows_read(answers) == Ok::<Seq<ObjectDataModel>, OhosRdbError>(rows),
    ensures
        rows.len() <= answers.rows.len(),
        forall|i: int| 0 <= i < rows.len() ==> row_holds(answers.rows[i], #[trigger] rows[i]),
        rows.len() < answers.rows.len() ==> answers.rows[rows.len() as int].advanced == Ok::<
            bool,
            OhosRdbError,
        >(false),
{
    lemma_rows_held(answers.rows, Seq::empty());
}

/// A scan always comes to its end: it takes four steps for a row at most, and two more.
pub proof fn law_scan_is_bounded<G>(run: ScanRun<G>, answers: ScanAnswers)
    requires
        run.with(answers),
    ensures
        run.actions.len() <= 4 * answers.rows.len() + 2,
{
    lemma_run_on_course(run, answers, run.actions.len() as int);
}

/// Whoever answers what a scan asks for can always hand the answer to the scan: after
/// every step it awaits exactly the events that say how the action went which it
/// asked for.
pub proof fn law_scan_answers_are_awaited<G>(
    scan: ScanView,
    event: CursorEvent,
    answer: CursorEvent,
)
    requires
        scan_awaits(scan, event),
    ensures
        scan_awaits(scan_next::<G>(scan, event).0, answer) <==> answers_cursor_action(
            scan_next::<G>(scan, event).1,
            answer,
        ),
{
}

} // verus!
