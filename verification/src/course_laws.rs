//! What is done step by step, and with what result, in a session, in an opening and in a
//! batch, whatever the database answers.

use std::collections::VecDeque;

use vstd::prelude::*;

use crate::answer::replies_to;
use crate::answer_laws::cause_of;
use crate::batch::{BatchActionView, BatchEvent, BatchStep, CreationFailure, TransactionBatch};
use crate::batch_course::{law_each_reply_stands_on_its_own, BatchAnswers};
use crate::batch_laws::{
    law_failed_commit_fails_all, law_failed_creation_fails_all, BatchRun,
};
use crate::cursor::{CursorEvent, StoreReader, StoreReaderStep};
use crate::error::{BackendError, BackendErrorView, OhosRdbError};
use crate::lookup::{Lookup, LookupEvent, LookupStep};
use crate::model::{
    AsyncOperation, AsyncReadWriteOperation, KvsOperation, ObjectStoreModel, ReplyKind,
};
use crate::opening::{
    executes, law_opening_course, opening_actions, schema_steps, EngineOpening, OpeningAction,
    OpeningAnswers, OpeningEvent, OpeningStep, Pragmas,
};
use crate::reply::Answer;
use crate::scan::{RowScan, ScanAction};
use crate::session::{
    law_locked_transaction_course, law_transaction_course, session_actions, transaction_course,
    SessionAction, SessionAnswers, SessionEvent, SessionStep, StoreSession,
};
use crate::text_laws::reports_missing;
use crate::work::{work_view, WorkOutcome};

verus! {

/// A session on a store that is at hand begins a transaction first; one that is to lock the
/// store asks for the lock first. Both keep the call that they are for.
pub proof fn law_session_starts<B, R>(
    body: B,
    at_hand: SessionStep<B, R>,
    to_lock: SessionStep<B, R>,
)
    requires
        call_ensures(StoreSession::<B, R>::with_transaction, (body,), at_hand),
        call_ensures(StoreSession::<B, R>::with_store, (body,), to_lock),
    ensures
        at_hand.0 matches StoreSession::Beginning { body: held } && held == body,
        at_hand.1 is Begin,
        to_lock.0 matches StoreSession::Locking { body: held } && held == body,
        to_lock.1 is Lock,
{
}

/// All that a session asks for once it has asked for its transaction. A transaction that
/// was not begun ends it with that error. Else the call is made, once; if it succeeds the
/// transaction is committed and the value returned, or the error of the commit; if it
/// fails the transaction is rolled back and the error of the call returned, however the
/// rollback goes.
pub proof fn law_session_outcome<B, R>(body: B, answers: SessionAnswers<R>)
    ensures
        session_actions(StoreSession::<B, R>::Beginning { body }, answers) == match (
            answers.begun,
            answers.ran,
            answers.committed,
        ) {
            (Err(error), _, _) => seq![SessionAction::<B, R>::Finish(Err(error))],
            (Ok(_), Err(error), _) => seq![
                SessionAction::Run(body),
                SessionAction::Rollback,
                SessionAction::Finish(Err(error)),
            ],
            (Ok(_), Ok(_), Err(error)) => seq![
                SessionAction::Run(body),
                SessionAction::Commit,
                SessionAction::Finish(Err(error)),
            ],
            (Ok(_), Ok(value), Ok(_)) => seq![
                SessionAction::Run(body),
                SessionAction::Commit,
                SessionAction::Finish(Ok(value)),
            ],
        },
{
    law_transaction_course(body, answers);
}

/// A session that could not lock the store does nothing and says so; one that could goes
/// on as if the store had been at hand.
pub proof fn law_locking_session_outcome<B, R>(body: B, answers: SessionAnswers<R>)
    ensures
        answers.locked ==> session_actions(StoreSession::<B, R>::Locking { body }, answers)
            == seq![SessionAction::<B, R>::Begin] + session_actions(
            StoreSession::<B, R>::Beginning { body },
            answers,
        ),
        !answers.locked ==> {
            let course = session_actions(StoreSession::<B, R>::Locking { body }, answers);
            &&& course.len() == 1
            &&& course[0] matches SessionAction::Finish(Err(error)) && reports_missing(
                error,
                "OHOS RDB store lock",
            )
        },
{
    law_transaction_course(body, answers);
    law_locked_transaction_course(body, answers);
}

/// An opening starts with the directory, and keeps the statements and the description that
/// it was given.
pub proof fn law_opening_starts<D>(pragmas: Pragmas, db_info: D, step: OpeningStep<D>)
    requires
        call_ensures(EngineOpening::<D>::start, (pragmas, db_info), step),
    ensures
        step.0 matches EngineOpening::CreatingDirectory { pragmas: kept, db_info: described }
            && kept == pragmas && described == db_info,
        step.1 is CreateDirectory,
{
}

/// A directory that cannot be made, or a store that cannot be opened, ends an opening with
/// that error before anything else is done.
pub proof fn law_opening_needs_its_store<D>(
    pragmas: Pragmas,
    db_info: D,
    answers: OpeningAnswers,
)
    ensures
        ({
            let course = opening_actions(
                EngineOpening::CreatingDirectory { pragmas, db_info },
                answers,
            );
            match (answers.directory, answers.store) {
                (Err(error), _) => course == seq![OpeningAction::<D>::Finish(Err(error))],
                (Ok(_), Err(error)) => {
                    &&& course.len() == 2
                    &&& course[0] matches OpeningAction::OpenStore { file_name } && file_name@
                        == "indexeddb.rdb"@
                    &&& course[1] == OpeningAction::<D>::Finish(Err(error))
                },
                _ => course.len() > 2,
            }
        }),
{
    law_opening_course(pragmas, db_info, answers);
}

/// An opening that has its store executes each statement of the first round, in order and
/// whatever became of the ones before; then it sets up the schema in a transaction, with
/// the description of the database; and if that went well it executes each statement of
/// the second round in the same way and succeeds. If it did not go well, that error is the
/// result and the second round is left out.
pub proof fn law_opening_steps<D>(pragmas: Pragmas, db_info: D, answers: OpeningAnswers)
    requires
        answers.directory is Ok,
        answers.store is Ok,
    ensures
        ({
            let course = opening_actions(
                EngineOpening::CreatingDirectory { pragmas, db_info },
                answers,
            );
            let first = pragmas.before@.len() as int;
            let second = pragmas.after@.len() as int;
            &&& course[0] matches OpeningAction::OpenStore { file_name } && file_name@
                == "indexeddb.rdb"@
            &&& forall|i: int|
                0 <= i < first ==> course[1 + i] == (OpeningAction::<D>::Execute {
                    statement: #[trigger] pragmas.before@[i],
                })
            &&& course[first + 1] == OpeningAction::<D>::Schema(SessionAction::Begin)
            &&& match (answers.schema.begun, answers.schema.ran, answers.schema.committed) {
                (Err(error), _, _) => {
                    &&& course.len() == first + 3
                    &&& course[first + 2] == OpeningAction::<D>::Finish(Err(error))
                },
                (Ok(_), Err(error), _) => {
                    &&& course.len() == first + 5
                    &&& course[first + 2] == OpeningAction::<D>::Schema(SessionAction::Run(db_info))
                    &&& course[first + 3] == OpeningAction::<D>::Schema(SessionAction::Rollback)
                    &&& course[first + 4] == OpeningAction::<D>::Finish(Err(error))
                },
                (Ok(_), Ok(_), Err(error)) => {
                    &&& course.len() == first + 5
                    &&& course[first + 2] == OpeningAction::<D>::Schema(SessionAction::Run(db_info))
                    &&& course[first + 3] == OpeningAction::<D>::Schema(SessionAction::Commit)
                    &&& course[first + 4] == OpeningAction::<D>::Finish(Err(error))
                },
                (Ok(_), Ok(_), Ok(_)) => {
                    &&& course.len() == first + second + 5
                    &&& course[first + 2] == OpeningAction::<D>::Schema(SessionAction::Run(db_info))
                    &&& course[first + 3] == OpeningAction::<D>::Schema(SessionAction::Commit)
                    &&& forall|i: int|
                        0 <= i < second ==> course[first + 4 + i] == (OpeningAction::<
                            D,
                        >::Execute { statement: #[trigger] pragmas.after@[i] })
                    &&& course[first + second + 4] matches OpeningAction::Finish(Ok(_))
                },
            }
        }),
{
    law_opening_course(pragmas, db_info, answers);
    let schema = transaction_course::<D, ()>(db_info, answers.schema);
    let before = executes::<D>(pragmas.before@);
    let after = executes::<D>(pragmas.after@);
    assert(before.len() == pragmas.before@.len());
    assert(after.len() == pragmas.after@.len());
    assert(schema_steps(schema).len() == schema.len() - 1);
    assert(forall|i: int|
        0 <= i < pragmas.before@.len() ==> before[i] == (OpeningAction::<D>::Execute {
            statement: #[trigger] pragmas.before@[i],
        }));
    assert(forall|i: int|
        0 <= i < pragmas.after@.len() ==> after[i] == (OpeningAction::<D>::Execute {
            statement: #[trigger] pragmas.after@[i],
        }));
}

/// If the commit fails, each request is told so through its own callback, in a reply of its
/// own kind, with the debug text of the error that ended the commit.
pub proof fn law_failed_commit_tells_each_request<
    C,
    K: Clone,
    G,
    P,
    F: Fn(&Vec<u8>) -> Option<K>,
>(
    run: BatchRun<C, K, G, P>,
    requests: Seq<KvsOperation<C, K, G>>,
    decode: F,
    at: int,
    error: OhosRdbError,
    text: String,
    i: int,
)
    requires
        run.of(requests, decode),
        0 <= at < run.events.len(),
        run.events[at] == BatchEvent::<P>::Committed(Err(error)),
        call_ensures(OhosRdbError::debug_text, (&error,), text),
        0 <= i < requests.len(),
    ensures
        run.actions[at] matches BatchActionView::Send { deliveries } && {
            &&& deliveries.len() == requests.len()
            &&& deliveries[i].callback == requests[i].operation.callback()
            &&& deliveries[i].reply.kind == requests[i].operation.kind()
            &&& deliveries[i].reply.outcome == Err::<Answer<K, P>, BackendErrorView>(
                BackendErrorView::DbErr(text@),
            )
        },
{
    law_failed_commit_fails_all(run, requests, decode, at, error);
}

/// If no transaction can be created, each request is told so through its own callback, in a
/// reply of its own kind, with what the failure is answered with.
pub proof fn law_failed_creation_tells_each_request<
    C,
    K: Clone,
    G,
    P,
    F: Fn(&Vec<u8>) -> Option<K>,
>(
    run: BatchRun<C, K, G, P>,
    requests: Seq<KvsOperation<C, K, G>>,
    decode: F,
    failure: CreationFailure,
    answer: BackendError,
    i: int,
)
    requires
        run.of(requests, decode),
        run.events.len() > 0,
        run.events[0] == BatchEvent::<P>::Created(Err(failure)),
        call_ensures(CreationFailure::answer, (failure,), answer),
        0 <= i < requests.len(),
    ensures
        run.actions[0] matches BatchActionView::Send { deliveries } && {
            &&& deliveries.len() == requests.len()
            &&& deliveries[i].callback == requests[i].operation.callback()
            &&& deliveries[i].reply.kind == requests[i].operation.kind()
            &&& deliveries[i].reply.outcome == Err::<Answer<K, P>, BackendErrorView>(answer@)
        },
{
    law_failed_creation_fails_all(run, requests, decode, failure);
}

/// In a batch that was committed, a request whose object store is not there is told that,
/// and one whose lookup failed is told the debug text of that error.
pub proof fn law_requests_without_a_store_are_told<
    C,
    K: Clone,
    G,
    P,
    F: Fn(&Vec<u8>) -> Option<K>,
>(
    run: BatchRun<C, K, G, P>,
    requests: Seq<KvsOperation<C, K, G>>,
    decode: F,
    answers: BatchAnswers<P>,
    error: OhosRdbError,
    text: String,
    i: int,
)
    requires
        run.of(requests, decode),
        run.answered_by(answers),
        run.finished(),
        answers.created is Ok,
        answers.committed is Ok,
        0 <= i < requests.len(),
        call_ensures(OhosRdbError::debug_text, (&error,), text),
    ensures
        run.deliveries()[i].callback == requests[i].operation.callback(),
        answers.lookups[i] == Ok::<Option<ObjectStoreModel>, OhosRdbError>(None)
            ==> run.deliveries()[i].reply.outcome == Err::<Answer<K, P>, BackendErrorView>(
            BackendErrorView::StoreNotFound,
        ),
        answers.lookups[i] == Err::<Option<ObjectStoreModel>, OhosRdbError>(error)
            ==> run.deliveries()[i].reply.outcome == Err::<Answer<K, P>, BackendErrorView>(
            BackendErrorView::DbErr(text@),
        ),
{
    law_each_reply_stands_on_its_own(run, requests, decode, answers, i);
}

/// In a batch that was committed, a put without a key into a store without a generator, or
/// with one that has come to its end, is told which of the two it was.
pub proof fn law_puts_without_any_key_are_told<
    C,
    K: Clone,
    G,
    P,
    F: Fn(&Vec<u8>) -> Option<K>,
>(
    run: BatchRun<C, K, G, P>,
    requests: Seq<KvsOperation<C, K, G>>,
    decode: F,
    answers: BatchAnswers<P>,
    store: ObjectStoreModel,
    i: int,
)
    requires
        run.of(requests, decode),
        run.answered_by(answers),
        run.finished(),
        answers.created is Ok,
        answers.committed is Ok,
        0 <= i < requests.len(),
        answers.lookups[i] == Ok::<Option<ObjectStoreModel>, OhosRdbError>(Some(store)),
        requests[i].operation matches AsyncOperation::ReadWrite(
            AsyncReadWriteOperation::PutItem { key: None, .. },
        ),
    ensures
        store.auto_increment == 0 ==> run.deliveries()[i].reply.outcome == Err::<
            Answer<K, P>,
            BackendErrorView,
        >(BackendErrorView::DbErr("Missing key for PutItem request"@)),
        store.auto_increment == i64::MAX ==> run.deliveries()[i].reply.outcome == Err::<
            Answer<K, P>,
            BackendErrorView,
        >(BackendErrorView::DbErr("Key generator overflow"@)),
        run.deliveries()[i].reply.kind == ReplyKind::PutItem,
{
    law_each_reply_stands_on_its_own(run, requests, decode, answers, i);
}

/// In a batch that was committed, a request whose work was done is answered with how that
/// work went: a put with what the store layer says of it, a removal and a clearing with
/// success, a count with the number that was counted, and work that failed with the debug
/// text of its error. What reads bring is answered as the rows that were found say.
pub proof fn law_done_work_is_answered<C, K: Clone, G, P, F: Fn(&Vec<u8>) -> Option<K>>(
    run: BatchRun<C, K, G, P>,
    requests: Seq<KvsOperation<C, K, G>>,
    decode: F,
    answers: BatchAnswers<P>,
    store: ObjectStoreModel,
    error: OhosRdbError,
    text: String,
    i: int,
)
    requires
        run.of(requests, decode),
        run.answered_by(answers),
        run.finished(),
        answers.created is Ok,
        answers.committed is Ok,
        0 <= i < requests.len(),
        answers.lookups[i] == Ok::<Option<ObjectStoreModel>, OhosRdbError>(Some(store)),
        work_view(store, requests[i].operation) is Ok,
        call_ensures(OhosRdbError::debug_text, (&error,), text),
    ensures
        ({
            let reply = run.deliveries()[i].reply;
            &&& run.deliveries()[i].callback == requests[i].operation.callback()
            &&& reply.kind == requests[i].operation.kind()
            &&& replies_to(requests[i].operation.kind(), answers.outcomes[i], decode, reply)
            &&& match answers.outcomes[i] {
                WorkOutcome::Put(Ok(put)) => reply.outcome matches Ok(Answer::Put(told)) && told
                    == put,
                WorkOutcome::Deleted(Ok(_)) => reply.outcome matches Ok(Answer::Removed),
                WorkOutcome::Cleared(Ok(_)) => reply.outcome matches Ok(Answer::Cleared),
                WorkOutcome::Counted(Ok(count)) => reply.outcome matches Ok(Answer::Number(told))
                    && told as int == count as int,
                _ => true,
            }
            &&& cause_of(answers.outcomes[i]) == Some(error) ==> reply.outcome == Err::<
                Answer<K, P>,
                BackendErrorView,
            >(BackendErrorView::DbErr(text@))
        }),
{
    law_each_reply_stands_on_its_own(run, requests, decode, answers, i);
}

/// Each machine first awaits the answer to what it first asks for, and nothing else.
pub proof fn law_first_answers_are_awaited<B, R, T, D, C, K: Clone, G, P>(
    batch: BatchStep<C, K, G, P>,
    requests: VecDeque<KvsOperation<C, K, G>>,
    batch_event: BatchEvent<P>,
    batch_awaits: bool,
    session: SessionStep<B, R>,
    body: B,
    session_event: SessionEvent<R>,
    session_awaits: bool,
    lookup: LookupStep<B, T>,
    lookup_event: LookupEvent<T>,
    lookup_awaits: bool,
    opening: OpeningStep<D>,
    pragmas: Pragmas,
    db_info: D,
    opening_event: OpeningEvent,
    opening_awaits: bool,
)
    requires
        call_ensures(TransactionBatch::<C, K, G, P>::start, (requests,), batch),
        call_ensures(
            TransactionBatch::<C, K, G, P>::awaits,
            (&batch.0, &batch_event),
            batch_awaits,
        ),
        call_ensures(StoreSession::<B, R>::with_store, (body,), session),
        call_ensures(
            StoreSession::<B, R>::awaits,
            (&session.0, &session_event),
            session_awaits,
        ),
        call_ensures(Lookup::<B, T>::start, (body,), lookup),
        call_ensures(Lookup::<B, T>::awaits, (&lookup.0, &lookup_event), lookup_awaits),
        call_ensures(EngineOpening::<D>::start, (pragmas, db_info), opening),
        call_ensures(
            EngineOpening::<D>::awaits,
            (&opening.0, &opening_event),
            opening_awaits,
        ),
    ensures
        batch_awaits <==> batch_event is Created,
        session_awaits <==> session_event is Locked,
        lookup_awaits <==> lookup_event is Locked,
        opening_awaits <==> opening_event is DirectoryCreated,
{
}

/// The readers first await how their query went, and nothing else.
pub proof fn law_readers_first_await_their_query<G>(
    store_name: String,
    reader: StoreReaderStep,
    store: &ObjectStoreModel,
    key_range: G,
    count: Option<u32>,
    scan: (RowScan, ScanAction<G>),
    event: CursorEvent,
    reader_awaits: bool,
    scan_awaits: bool,
)
    requires
        call_ensures(StoreReader::object_store_by_name, (store_name,), reader),
        call_ensures(StoreReader::awaits, (&reader.0, &event), reader_awaits),
        call_ensures(RowScan::object_data_rows::<G>, (store, key_range, count), scan),
        call_ensures(RowScan::awaits, (&scan.0, &event), scan_awaits),
    ensures
        reader_awaits <==> event is Queried,
        scan_awaits <==> event is Queried,
{
}

/// A lookup keeps the call that it is for, and asks for the lock first.
pub proof fn law_lookup_starts<B, T>(body: B, step: LookupStep<B, T>)
    requires
        call_ensures(Lookup::<B, T>::start, (body,), step),
    ensures
        step.0 matches Lookup::Locking { body: held } && held == body,
        step.1 is Lock,
{
}

} // verus!
