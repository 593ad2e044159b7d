//! What holds of every transaction batch, whatever the database answers.

use vstd::prelude::*;

use crate::answer::replies_to;
use crate::batch::{
    all_failed, batch_awaits, batch_steps, proceeds, revoked, BatchActionView, BatchEvent,
    BatchView, CreationFailure,
};
use crate::debug_text::db_err_view;
use crate::error::{BackendErrorView, OhosRdbError};
use crate::model::{AsyncOperation, KvsOperation, ObjectStoreModel, ReplyKind};
use crate::reply::{DeliveryView, ReplyView};
use crate::work::{plan_view, put_key_view, work_view, PutKey, Work, WorkOutcome};

verus! {

/// The outcome is one that the piece of work can have.
pub open spec fn yields<K, G, P>(work: Work<K, G>, outcome: WorkOutcome<P>) -> bool {
    match work {
        Work::PutItem { .. } => outcome is Put,
        Work::SelectRows { .. } => outcome is Rows,
        Work::DeleteItem { .. } => outcome is Deleted,
        Work::Clear { .. } => outcome is Cleared,
        Work::Count { .. } => outcome is Counted,
    }
}

/// The event says how the action went.
pub open spec fn answers_action<C, K, G, P>(
    action: BatchActionView<C, K, G, P>,
    event: BatchEvent<P>,
) -> bool {
    match action {
        BatchActionView::CreateTransaction => event is Created,
        BatchActionView::LookUpStore { .. } => event is LookedUp,
        BatchActionView::Perform { work } => match event {
            BatchEvent::Performed(outcome) => yields(work, outcome),
            _ => false,
        },
        BatchActionView::Commit => event is Committed,
        BatchActionView::Send { .. } => event is Sent,
        BatchActionView::Complete => false,
    }
}

/// Whoever answers what a batch asks for can always hand the answer to the batch:
/// after every step the batch awaits exactly the events that say how the action
/// went which it asked for.
pub proof fn law_answers_are_awaited<C, K: Clone, G, P, F: Fn(&Vec<u8>) -> Option<K>>(
    before: BatchView<C, K, G, P>,
    event: BatchEvent<P>,
    decode: F,
    after: BatchView<C, K, G, P>,
    action: BatchActionView<C, K, G, P>,
    answer: BatchEvent<P>,
)
    requires
        batch_steps(before, event, decode, (after, action)),
    ensures
        batch_awaits(after, answer) <==> answers_action(action, answer),
{
}

/// The course of a batch: where it stood, what it was told, and what it then asked for.
pub struct BatchRun<C, K, G, P> {
    pub states: Seq<BatchView<C, K, G, P>>,
    pub events: Seq<BatchEvent<P>>,
    pub actions: Seq<BatchActionView<C, K, G, P>>,
}

impl<C, K: Clone, G, P> BatchRun<C, K, G, P> {
    /// This is a course that a batch of the given requests can take.
    pub open spec fn of<F: Fn(&Vec<u8>) -> Option<K>>(
        self,
        requests: Seq<KvsOperation<C, K, G>>,
        decode: F,
    ) -> bool {
        &&& self.states.len() == self.events.len() + 1
        &&& self.actions.len() == self.events.len()
        &&& self.states[0] == (BatchView::<C, K, G, P>::Creating { requests })
        &&& forall|i: int|
            #![trigger self.events[i]]
            0 <= i < self.events.len() ==> batch_steps(
                self.states[i],
                self.events[i],
                decode,
                (self.states[i + 1], self.actions[i]),
            )
    }

    /// The batch has finished.
    pub open spec fn finished(self) -> bool {
        self.states.last() is Finished
    }

    /// The replies that a finished batch has sent: the last thing that it asked for
    /// before it was complete.
    pub open spec fn deliveries(self) -> Seq<DeliveryView<C, K, P>> {
        self.actions[self.actions.len() - 2]->deliveries
    }
}

/// How many more steps a batch can take at most.
pub open spec fn steps_left<C, K, G, P>(batch: BatchView<C, K, G, P>) -> nat {
    match batch {
        BatchView::Creating { requests } => 2 * requests.len() + 3,
        BatchView::LookingUp { rest, .. } => 2 * rest.len() + 4,
        BatchView::Performing { rest, .. } => 2 * rest.len() + 3,
        BatchView::Committing { .. } => 2,
        BatchView::Sending => 1,
        BatchView::Finished => 0,
    }
}

/// Every step brings a batch closer to its end.
pub proof fn law_step_progresses<C, K: Clone, G, P, F: Fn(&Vec<u8>) -> Option<K>>(
    before: BatchView<C, K, G, P>,
    event: BatchEvent<P>,
    decode: F,
    after: BatchView<C, K, G, P>,
    action: BatchActionView<C, K, G, P>,
)
    requires
        batch_steps(before, event, decode, (after, action)),
    ensures
        steps_left(after) < steps_left(before),
{
}

proof fn lemma_steps_bound<C, K: Clone, G, P, F: Fn(&Vec<u8>) -> Option<K>>(
    run: BatchRun<C, K, G, P>,
    requests: Seq<KvsOperation<C, K, G>>,
    decode: F,
    n: int,
)
    requires
        run.of(requests, decode),
        0 <= n <= run.events.len(),
    ensures
        n + steps_left(run.states[n]) <= 2 * requests.len() + 3,
    decreases n,
{
    if n > 0 {
        lemma_steps_bound(run, requests, decode, n - 1);
        let event = run.events[n - 1];
        law_step_progresses(run.states[n - 1], event, decode, run.states[n], run.actions[n - 1]);
    }
}

/// A batch always comes to its end: it takes two steps for a request at most, and
/// three more.
pub proof fn law_run_is_bounded<C, K: Clone, G, P, F: Fn(&Vec<u8>) -> Option<K>>(
    run: BatchRun<C, K, G, P>,
    requests: Seq<KvsOperation<C, K, G>>,
    decode: F,
)
    requires
        run.of(requests, decode),
    ensures
        run.events.len() <= 2 * requests.len() + 3,
{
    lemma_steps_bound(run, requests, decode, run.events.len() as int);
}

/// The callbacks of queued replies, each with the kind of its reply.
pub open spec fn queue_addressees<C, K, P>(queue: Seq<DeliveryView<C, K, P>>) -> Seq<
    (C, ReplyKind),
> {
    queue.map_values(
        |delivery: DeliveryView<C, K, P>| (delivery.callback, delivery.reply.kind),
    )
}

/// The callbacks of requests, each with the kind of reply that it waits for.
pub open spec fn request_addressees<C, K, G>(requests: Seq<KvsOperation<C, K, G>>) -> Seq<
    (C, ReplyKind),
> {
    requests.map_values(
        |request: KvsOperation<C, K, G>| (request.operation.callback(), request.operation.kind()),
    )
}

/// The callbacks that a batch still owes a reply.
pub open spec fn owed<C, K, G, P>(batch: BatchView<C, K, G, P>) -> Seq<(C, ReplyKind)> {
    match batch {
        BatchView::Creating { requests } => request_addressees(requests),
        BatchView::LookingUp { operation, rest, queue } => queue_addressees(queue).push(
            (operation.callback(), operation.kind()),
        ) + request_addressees(rest),
        BatchView::Performing { callback, kind, rest, queue } => queue_addressees(queue).push(
            (callback, kind),
        ) + request_addressees(rest),
        BatchView::Committing { queue } => queue_addressees(queue),
        BatchView::Sending => Seq::empty(),
        BatchView::Finished => Seq::empty(),
    }
}

proof fn lemma_proceeds_owed<C, K, G, P>(
    rest: Seq<KvsOperation<C, K, G>>,
    queue: Seq<DeliveryView<C, K, P>>,
)
    ensures
        owed(proceeds(rest, queue).0) == queue_addressees(queue) + request_addressees(rest),
{
    assert(owed(proceeds(rest, queue).0) =~= queue_addressees(queue) + request_addressees(rest));
}

/// No step loses a callback, adds one or changes their order, and none changes the
/// kind of reply that a callback waits for: the callbacks owed a reply stay the
/// same until the replies are sent, and then exactly those get one.
pub proof fn law_step_keeps_owed<C, K: Clone, G, P, F: Fn(&Vec<u8>) -> Option<K>>(
    before: BatchView<C, K, G, P>,
    event: BatchEvent<P>,
    decode: F,
    after: BatchView<C, K, G, P>,
    action: BatchActionView<C, K, G, P>,
)
    requires
        batch_steps(before, event, decode, (after, action)),
    ensures
        after is Sending <==> action is Send,
        !(after is Sending) ==> owed(after) == owed(before),
        action matches BatchActionView::Send { deliveries } ==> queue_addressees(deliveries)
            == owed(before),
{
    match (before, event) {
        (BatchView::Creating { requests }, BatchEvent::Created(Ok(_))) => {
            let queue = Seq::<DeliveryView<C, K, P>>::empty();
            lemma_proceeds_owed(requests, queue);
            assert(queue_addressees(queue) + request_addressees(requests) =~= request_addressees(
                requests,
            ));
        },
        (BatchView::Creating { requests }, BatchEvent::Created(Err(failure))) => {
            let deliveries = all_failed::<C, K, G, P>(requests, failure.answer_view());
            assert(queue_addressees(deliveries) =~= request_addressees(requests));
        },
        (BatchView::LookingUp { operation, rest, queue }, BatchEvent::LookedUp(lookup)) => {
            if !(after is Performing) {
                let error = match lookup {
                    Ok(Some(store)) => plan_view(store, operation)->error,
                    Ok(None) => BackendErrorView::StoreNotFound,
                    Err(error) => db_err_view(error),
                };
                let reply = ReplyView::<K, P>::failed(operation.kind(), error);
                let longer = queue.push(DeliveryView { callback: operation.callback(), reply });
                lemma_proceeds_owed(rest, longer);
                assert(queue_addressees(longer) =~= queue_addressees(queue).push(
                    (operation.callback(), operation.kind()),
                ));
            }
        },
        (
            BatchView::Performing { callback, kind, rest, queue },
            BatchEvent::Performed(outcome),
        ) => {
            let reply = choose|reply: ReplyView<K, P>| #[trigger]
                replies_to(kind, outcome, decode, reply) && (after, action) == proceeds(
                    rest,
                    queue.push(DeliveryView { callback, reply }),
                );
            let longer = queue.push(DeliveryView { callback, reply });
            lemma_proceeds_owed(rest, longer);
            assert(queue_addressees(longer) =~= queue_addressees(queue).push((callback, kind)));
        },
        (BatchView::Committing { queue }, BatchEvent::Committed(Err(error))) => {
            assert(queue_addressees(revoked(queue, db_err_view(error))) =~= queue_addressees(
                queue,
            ));
        },
        _ => {},
    }
}

/// A batch that is sending its replies goes on to its end, and nowhere else.
pub proof fn law_sending_is_followed_by_completion<
    C,
    K: Clone,
    G,
    P,
    F: Fn(&Vec<u8>) -> Option<K>,
>(
    before: BatchView<C, K, G, P>,
    event: BatchEvent<P>,
    decode: F,
    after: BatchView<C, K, G, P>,
    action: BatchActionView<C, K, G, P>,
)
    requires
        batch_steps(before, event, decode, (after, action)),
    ensures
        before is Sending <==> after is Finished,
        before is Sending <==> action is Complete,
        before is Sending ==> event is Sent,
{
}

/// What the states of a run say of the replies up to state `n`.
proof fn lemma_run_keeps_owed<C, K: Clone, G, P, F: Fn(&Vec<u8>) -> Option<K>>(
    run: BatchRun<C, K, G, P>,
    requests: Seq<KvsOperation<C, K, G>>,
    decode: F,
    n: int,
)
    requires
        run.of(requests, decode),
        0 <= n <= run.events.len(),
    ensures
        !(run.states[n] is Sending || run.states[n] is Finished) ==> owed(run.states[n])
            == request_addressees(requests),
        run.states[n] is Sending ==> n > 0 && n + 1 >= run.events.len(),
        run.states[n] is Sending ==> run.actions[n - 1] is Send && queue_addressees(
            run.actions[n - 1]->deliveries,
        ) == request_addressees(requests),
        run.states[n] is Finished ==> n == run.events.len() && n > 1,
        run.states[n] is Finished ==> run.states[n - 1] is Sending && run.actions[n - 1]
            is Complete && run.events[n - 1] is Sent && run.actions[n - 2] is Send,
    decreases n,
{
    if n > 0 {
        lemma_run_keeps_owed(run, requests, decode, n - 1);
        let event = run.events[n - 1];
        let (before, after) = (run.states[n - 1], run.states[n]);
        law_step_keeps_owed(before, event, decode, after, run.actions[n - 1]);
        law_sending_is_followed_by_completion(before, event, decode, after, run.actions[n - 1]);
        if n < run.events.len() {
            let next = run.events[n];
            assert(batch_steps(after, next, decode, (run.states[n + 1], run.actions[n])));
            if after is Sending && n + 1 < run.events.len() {
                let further = run.events[n + 1];
                assert(batch_steps(
                    run.states[n + 1],
                    further,
                    decode,
                    (run.states[n + 2], run.actions[n + 1]),
                ));
            }
        }
    }
}

/// Every request gets exactly one reply, of its own kind, and the replies are sent
/// in the order of the requests, all at one point and only once.
pub proof fn law_each_request_is_answered_once<
    C,
    K: Clone,
    G,
    P,
    F: Fn(&Vec<u8>) -> Option<K>,
>(run: BatchRun<C, K, G, P>, requests: Seq<KvsOperation<C, K, G>>, decode: F)
    requires
        run.of(requests, decode),
        run.finished(),
    ensures
        run.actions.len() >= 2,
        forall|j: int|
            0 <= j < run.actions.len() ==> (#[trigger] run.actions[j] is Send <==> j
                == run.actions.len() - 2),
        run.deliveries().len() == requests.len(),
        forall|i: int|
            #![trigger run.deliveries()[i]]
            0 <= i < requests.len() ==> {
                &&& run.deliveries()[i].callback == requests[i].operation.callback()
                &&& run.deliveries()[i].reply.kind == requests[i].operation.kind()
            },
{
    let end = run.events.len() as int;
    lemma_run_keeps_owed(run, requests, decode, end);
    lemma_run_keeps_owed(run, requests, decode, end - 1);
    assert forall|j: int| 0 <= j < run.actions.len() implies (#[trigger] run.actions[j] is Send
        <==> j == run.actions.len() - 2) by {
        if run.actions[j] is Send {
            law_replies_wait_for_the_end(run, requests, decode, j);
        }
    }
    let deliveries = run.deliveries();
    assert(queue_addressees(deliveries).len() == request_addressees(requests).len());
    assert forall|i: int| #![trigger run.deliveries()[i]] 0 <= i < requests.len() implies {
        &&& run.deliveries()[i].callback == requests[i].operation.callback()
        &&& run.deliveries()[i].reply.kind == requests[i].operation.kind()
    } by {
        assert(queue_addressees(deliveries)[i] == request_addressees(requests)[i]);
    }
}

/// Nothing is sent before the end: when a batch sends its replies, all that can follow
/// is that it is complete.
pub proof fn law_replies_wait_for_the_end<C, K: Clone, G, P, F: Fn(&Vec<u8>) -> Option<K>>(
    run: BatchRun<C, K, G, P>,
    requests: Seq<KvsOperation<C, K, G>>,
    decode: F,
    i: int,
)
    requires
        run.of(requests, decode),
        0 <= i < run.events.len(),
        run.actions[i] is Send,
    ensures
        i + 2 >= run.actions.len(),
        i + 1 < run.actions.len() ==> run.actions[i + 1] is Complete,
        run.finished() <==> i + 2 == run.actions.len(),
{
    let event = run.events[i];
    law_step_keeps_owed(run.states[i], event, decode, run.states[i + 1], run.actions[i]);
    lemma_run_keeps_owed(run, requests, decode, i + 1);
    if i + 1 < run.events.len() {
        let next = run.events[i + 1];
        assert(batch_steps(
            run.states[i + 1],
            next,
            decode,
            (run.states[i + 2], run.actions[i + 1]),
        ));
    }
}

/// A batch is reported as complete only at its very end, and only after all its replies
/// were sent.
pub proof fn law_completion_follows_the_replies<C, K: Clone, G, P, F: Fn(&Vec<u8>) -> Option<K>>(
    run: BatchRun<C, K, G, P>,
    requests: Seq<KvsOperation<C, K, G>>,
    decode: F,
    i: int,
)
    requires
        run.of(requests, decode),
        0 <= i < run.events.len(),
        run.actions[i] is Complete,
    ensures
        run.finished(),
        i == run.actions.len() - 1,
        i > 0,
        run.actions[i - 1] == (BatchActionView::<C, K, G, P>::Send {
            deliveries: run.deliveries(),
        }),
        run.events[i] == BatchEvent::<P>::Sent,
{
    let event = run.events[i];
    law_sending_is_followed_by_completion(
        run.states[i],
        event,
        decode,
        run.states[i + 1],
        run.actions[i],
    );
    lemma_run_keeps_owed(run, requests, decode, i + 1);
}

/// Every batch that comes to its end is reported as complete exactly once, after the
/// last of its replies was sent, on whatever path it got there: the transaction could not
/// be created, requests failed, the commit failed, all went well, or there were no
/// requests.
pub proof fn law_completion_comes_once_and_last<C, K: Clone, G, P, F: Fn(&Vec<u8>) -> Option<K>>(
    run: BatchRun<C, K, G, P>,
    requests: Seq<KvsOperation<C, K, G>>,
    decode: F,
)
    requires
        run.of(requests, decode),
        run.finished(),
    ensures
        run.actions.len() >= 2,
        run.events.last() == BatchEvent::<P>::Sent,
        forall|i: int|
            0 <= i < run.actions.len() ==> {
                &&& (#[trigger] run.actions[i] is Complete <==> i == run.actions.len() - 1)
                &&& (run.actions[i] is Send <==> i == run.actions.len() - 2)
            },
{
    lemma_run_keeps_owed(run, requests, decode, run.events.len() as int);
    assert forall|i: int| 0 <= i < run.actions.len() implies {
        &&& (#[trigger] run.actions[i] is Complete <==> i == run.actions.len() - 1)
        &&& (run.actions[i] is Send <==> i == run.actions.len() - 2)
    } by {
        if run.actions[i] is Complete {
            law_completion_follows_the_replies(run, requests, decode, i);
        }
        if run.actions[i] is Send {
            law_replies_wait_for_the_end(run, requests, decode, i);
        }
    }
}

/// A batch that has not come to its end has something to be told, and a batch that has
/// come to its end has nothing: it cannot get stuck before it is complete, nor go on
/// after that.
pub proof fn law_batch_stops_only_when_complete<C, K, G, P>(batch: BatchView<C, K, G, P>)
    ensures
        batch is Finished <==> forall|event: BatchEvent<P>| !#[trigger] batch_awaits(batch, event),
{
    match batch {
        BatchView::Creating { .. } => {
            assert(batch_awaits(batch, BatchEvent::Created(Ok(()))));
        },
        BatchView::LookingUp { .. } => {
            assert(batch_awaits(batch, BatchEvent::LookedUp(Ok(None))));
        },
        BatchView::Performing { kind, .. } => {
            let outcome: WorkOutcome<P> = match kind {
                ReplyKind::PutItem => WorkOutcome::Put(Err(arbitrary())),
                ReplyKind::RemoveItem => WorkOutcome::Deleted(Ok(())),
                ReplyKind::Clear => WorkOutcome::Cleared(Ok(())),
                ReplyKind::Count => WorkOutcome::Counted(Ok(0)),
                _ => WorkOutcome::Rows(Err(arbitrary())),
            };
            assert(batch_awaits(batch, BatchEvent::Performed(outcome)));
        },
        BatchView::Committing { .. } => {
            assert(batch_awaits(batch, BatchEvent::Committed(Ok(()))));
        },
        BatchView::Sending => {
            assert(batch_awaits(batch, BatchEvent::Sent));
        },
        BatchView::Finished => {},
    }
}

/// A success is reported only after the commit: if any of the replies that are sent says
/// that a request succeeded, the transaction was committed just before.
pub proof fn law_success_implies_commit<C, K: Clone, G, P, F: Fn(&Vec<u8>) -> Option<K>>(
    run: BatchRun<C, K, G, P>,
    requests: Seq<KvsOperation<C, K, G>>,
    decode: F,
    deliveries: Seq<DeliveryView<C, K, P>>,
    sent: int,
    i: int,
)
    requires
        run.of(requests, decode),
        0 <= sent < run.actions.len(),
        run.actions[sent] == (BatchActionView::<C, K, G, P>::Send { deliveries }),
        0 <= i < deliveries.len(),
        deliveries[i].reply.outcome is Ok,
    ensures
        run.events[sent] == BatchEvent::<P>::Committed(Ok(())),
{
    let event = run.events[sent];
    assert(batch_steps(
        run.states[sent],
        event,
        decode,
        (run.states[sent + 1], run.actions[sent]),
    ));
    match (run.states[sent], event) {
        (BatchView::Creating { requests }, BatchEvent::Created(Err(failure))) => {
            assert(deliveries[i] == all_failed::<C, K, G, P>(requests, failure.answer_view())[i]);
        },
        (BatchView::Committing { queue }, BatchEvent::Committed(Err(error))) => {
            assert(deliveries[i] == revoked(queue, db_err_view(error))[i]);
        },
        (BatchView::Committing { queue }, BatchEvent::Committed(Ok(unit))) => {
            assert(unit == ());
        },
        _ => {},
    }
}

/// If the commit fails, the whole batch fails: every request is told of the error
/// that ended the commit, and nothing else.
pub proof fn law_failed_commit_fails_all<C, K: Clone, G, P, F: Fn(&Vec<u8>) -> Option<K>>(
    run: BatchRun<C, K, G, P>,
    requests: Seq<KvsOperation<C, K, G>>,
    decode: F,
    at: int,
    error: OhosRdbError,
)
    requires
        run.of(requests, decode),
        0 <= at < run.events.len(),
        run.events[at] == BatchEvent::<P>::Committed(Err(error)),
    ensures
        run.actions[at] == (BatchActionView::<C, K, G, P>::Send {
            deliveries: all_failed(requests, db_err_view(error)),
        }),
{
    let event = run.events[at];
    assert(batch_steps(run.states[at], event, decode, (run.states[at + 1], run.actions[at])));
    lemma_run_keeps_owed(run, requests, decode, at);
    let queue = run.states[at]->Committing_queue;
    let expected = all_failed::<C, K, G, P>(requests, db_err_view(error));
    assert(queue_addressees(queue) == request_addressees(requests));
    assert(queue_addressees(queue).len() == request_addressees(requests).len());
    assert forall|i: int| 0 <= i < requests.len() implies #[trigger] revoked(
        queue,
        db_err_view(error),
    )[i] == expected[i] by {
        assert(queue_addressees(queue)[i] == request_addressees(requests)[i]);
    }
    assert(revoked(queue, db_err_view(error)) =~= expected);
}

/// If no transaction can be created, nothing is done: every request is told why, and
/// then the batch is complete.
pub proof fn law_failed_creation_fails_all<C, K: Clone, G, P, F: Fn(&Vec<u8>) -> Option<K>>(
    run: BatchRun<C, K, G, P>,
    requests: Seq<KvsOperation<C, K, G>>,
    decode: F,
    failure: CreationFailure,
)
    requires
        run.of(requests, decode),
        run.events.len() > 0,
        run.events[0] == BatchEvent::<P>::Created(Err(failure)),
    ensures
        run.actions[0] == (BatchActionView::<C, K, G, P>::Send {
            deliveries: all_failed(requests, failure.answer_view()),
        }),
        run.actions.len() <= 2,
        run.actions.len() == 2 ==> run.finished() && run.actions[1] is Complete,
{
    assert(batch_steps(run.states[0], run.events[0], decode, (run.states[1], run.actions[0])));
    law_replies_wait_for_the_end(run, requests, decode, 0);
}

/// A transaction that was created is committed exactly once, after all else, even
/// where requests failed: only the replies and the completion come after it.
pub proof fn law_commit_is_asked_once<C, K: Clone, G, P, F: Fn(&Vec<u8>) -> Option<K>>(
    run: BatchRun<C, K, G, P>,
    requests: Seq<KvsOperation<C, K, G>>,
    decode: F,
)
    requires
        run.of(requests, decode),
        run.finished(),
        run.events[0] == BatchEvent::<P>::Created(Ok(())),
    ensures
        run.actions.len() >= 3,
        forall|i: int|
            0 <= i < run.actions.len() ==> (#[trigger] run.actions[i] is Commit <==> i
                == run.actions.len() - 3),
{
    let end = run.events.len() as int;
    lemma_run_keeps_owed(run, requests, decode, end);
    let sending = run.events[end - 2];
    let first_event = run.events[0];
    assert(batch_steps(
        run.states[end - 2],
        sending,
        decode,
        (run.states[end - 1], run.actions[end - 2]),
    ));
    assert(batch_steps(run.states[0], first_event, decode, (run.states[1], run.actions[0])));
    assert(end > 2);
    let event_before = run.events[end - 3];
    assert(batch_steps(
        run.states[end - 3],
        event_before,
        decode,
        (run.states[end - 2], run.actions[end - 3]),
    ));
    assert(run.states[end - 2] is Committing);
    assert forall|i: int| 0 <= i < run.actions.len() implies (#[trigger] run.actions[i] is Commit
        <==> i == run.actions.len() - 3) by {
        let event = run.events[i];
        assert(batch_steps(
            run.states[i],
            event,
            decode,
            (run.states[i + 1], run.actions[i]),
        ));
        if run.actions[i] is Commit {
            assert(run.states[i + 1] is Committing);
            assert(i + 1 < end);
            let next = run.events[i + 1];
            assert(batch_steps(
                run.states[i + 1],
                next,
                decode,
                (run.states[i + 2], run.actions[i + 1]),
            ));
            law_replies_wait_for_the_end(run, requests, decode, i + 1);
        }
    }
}

/// A request that only reads never asks for work that writes, and one that writes
/// asks for no other.
pub proof fn law_reads_do_not_write<C, K, G>(
    store: ObjectStoreModel,
    operation: AsyncOperation<C, K, G>,
    work: Work<K, G>,
)
    requires
        work_view(store, operation) == Ok::<Work<K, G>, BackendErrorView>(work),
    ensures
        operation is ReadOnly <==> (work is SelectRows || work is Count),
        operation is ReadWrite <==> (work is PutItem || work is DeleteItem || work is Clear),
{
}

/// Generated keys go up: where a put without a key left the generator of a store at
/// a number, the next put without a key gets a greater key than the first.
pub proof fn law_generated_keys_increase<K>(
    auto_increment: i64,
    first_number: Option<i64>,
    first: i64,
    moved_on: i64,
    second_number: Option<i64>,
    second: i64,
    moved_further: i64,
)
    requires
        put_key_view::<K>(auto_increment, None, first_number) == Ok::<
            (PutKey<K>, Option<i64>),
            BackendErrorView,
        >((PutKey::Generated(first), Some(moved_on))),
        put_key_view::<K>(moved_on, None, second_number) == Ok::<
            (PutKey<K>, Option<i64>),
            BackendErrorView,
        >((PutKey::Generated(second), Some(moved_further))),
    ensures
        first == auto_increment,
        first < second < moved_further,
{
}

} // verus!
