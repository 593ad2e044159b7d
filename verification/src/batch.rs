//! The course of one transaction: its requests are done one after the other, and
//! every reply waits until the commit has shown whether it may be sent.
//!
//! The batch never touches the database itself. It says what is to be done next,
//! and is told how that went. Replies leave it at one point only, at its end: a
//! success is never reported for a write that did not become durable, and where the
//! commit fails the whole batch is told so. Once the replies were sent, the batch is
//! reported as complete.

use std::collections::VecDeque;

use vstd::pervasive::unreached;
use vstd::prelude::*;

use crate::answer::{outcome_fits, reply_to, replies_to, takes_any};
use crate::debug_text::{db_err, db_err_view};
use crate::error::{BackendError, BackendErrorView, OhosRdbError, OhosRdbResult};
use crate::model::{AsyncOperation, KvsOperation, ObjectStoreModel, ReplyKind};
use crate::reply::{
    enqueue_operation_error, enqueue_result, failed_delivery, failed_reply, queue_view, reply_kind,
    Delivery, DeliveryView, ReplyView,
};
use crate::work::{plan, plan_view, Plan, PlanView, Work, WorkOutcome};

verus! {

/// Why no transaction could be created.
#[derive(Debug, PartialEq, Eq)]
pub enum CreationFailure {
    /// The store could not be locked; the text is the debug text of the lock's error.
    Lock { debug: String },
    /// The store refused to create a transaction.
    Rdb(OhosRdbError),
}

impl CreationFailure {
    /// What the requests of the transaction are answered with.
    pub open spec fn answer_view(self) -> BackendErrorView {
        match self {
            CreationFailure::Lock { debug } => BackendErrorView::DbErr(debug@),
            CreationFailure::Rdb(error) => db_err_view(error),
        }
    }

    /// What the requests of the transaction are answered with.
    pub fn answer(self) -> (answer: BackendError)
        ensures
            answer@ == self.answer_view(),
    {
        match self {
            CreationFailure::Lock { debug } => BackendError::DbErr(debug),
            CreationFailure::Rdb(error) => db_err(&error),
        }
    }
}

/// What a batch is told.
#[derive(Debug, PartialEq, Eq)]
pub enum BatchEvent<P> {
    /// The transaction was created, or could not be.
    Created(Result<(), CreationFailure>),
    /// The object store was looked up; there may be none of that name.
    LookedUp(OhosRdbResult<Option<ObjectStoreModel>>),
    /// The work was done, or failed.
    Performed(WorkOutcome<P>),
    /// The transaction was committed, or could not be.
    Committed(OhosRdbResult<()>),
    /// The replies were sent, each to its callback; how a callback took its reply makes
    /// no difference.
    Sent,
}

/// What a batch asks for.
#[derive(Debug, PartialEq, Eq)]
pub enum BatchAction<C, K, G, P> {
    /// Create the transaction.
    CreateTransaction,
    /// Look up the object store of that name.
    LookUpStore { store_name: String },
    /// Do a piece of work.
    Perform { work: Work<K, G> },
    /// Commit the transaction.
    Commit,
    /// Send the replies, in order.
    Send { deliveries: Vec<Delivery<C, K, P>> },
    /// Report that the batch is complete.
    Complete,
}

/// Where a batch stands.
#[derive(Debug, PartialEq, Eq)]
pub enum TransactionBatch<C, K, G, P> {
    /// The transaction is being created.
    Creating { requests: VecDeque<KvsOperation<C, K, G>> },
    /// The object store of a request is being looked up.
    LookingUp {
        operation: AsyncOperation<C, K, G>,
        rest: VecDeque<KvsOperation<C, K, G>>,
        queue: Vec<Delivery<C, K, P>>,
    },
    /// The work for a request is being done.
    Performing {
        callback: C,
        kind: ReplyKind,
        rest: VecDeque<KvsOperation<C, K, G>>,
        queue: Vec<Delivery<C, K, P>>,
    },
    /// The transaction is being committed.
    Committing { queue: Vec<Delivery<C, K, P>> },
    /// The replies are being sent.
    Sending,
    /// Everything is done.
    Finished,
}

/// The mathematical content of a [`TransactionBatch`].
pub enum BatchView<C, K, G, P> {
    Creating { requests: Seq<KvsOperation<C, K, G>> },
    LookingUp {
        operation: AsyncOperation<C, K, G>,
        rest: Seq<KvsOperation<C, K, G>>,
        queue: Seq<DeliveryView<C, K, P>>,
    },
    Performing {
        callback: C,
        kind: ReplyKind,
        rest: Seq<KvsOperation<C, K, G>>,
        queue: Seq<DeliveryView<C, K, P>>,
    },
    Committing { queue: Seq<DeliveryView<C, K, P>> },
    Sending,
    Finished,
}

/// The mathematical content of a [`BatchAction`].
pub enum BatchActionView<C, K, G, P> {
    CreateTransaction,
    LookUpStore { store_name: String },
    Perform { work: Work<K, G> },
    Commit,
    Send { deliveries: Seq<DeliveryView<C, K, P>> },
    Complete,
}

impl<C, K, G, P> View for TransactionBatch<C, K, G, P> {
    type V = BatchView<C, K, G, P>;

    open spec fn view(&self) -> BatchView<C, K, G, P> {
        match self {
            TransactionBatch::Creating { requests } => BatchView::Creating { requests: requests@ },
            TransactionBatch::LookingUp { operation, rest, queue } => BatchView::LookingUp {
                operation: *operation,
                rest: rest@,
                queue: queue_view(queue@),
            },
            TransactionBatch::Performing { callback, kind, rest, queue } => BatchView::Performing {
                callback: *callback,
                kind: *kind,
                rest: rest@,
                queue: queue_view(queue@),
            },
            TransactionBatch::Committing { queue } => BatchView::Committing {
                queue: queue_view(queue@),
            },
            TransactionBatch::Sending => BatchView::Sending,
            TransactionBatch::Finished => BatchView::Finished,
        }
    }
}

impl<C, K, G, P> View for BatchAction<C, K, G, P> {
    type V = BatchActionView<C, K, G, P>;

    open spec fn view(&self) -> BatchActionView<C, K, G, P> {
        match self {
            BatchAction::CreateTransaction => BatchActionView::CreateTransaction,
            BatchAction::LookUpStore { store_name } => BatchActionView::LookUpStore {
                store_name: *store_name,
            },
            BatchAction::Perform { work } => BatchActionView::Perform { work: *work },
            BatchAction::Commit => BatchActionView::Commit,
            BatchAction::Send { deliveries } => BatchActionView::Send {
                deliveries: queue_view(deliveries@),
            },
            BatchAction::Complete => BatchActionView::Complete,
        }
    }
}

/// A batch and what it asks for.
pub type BatchStep<C, K, G, P> = (TransactionBatch<C, K, G, P>, BatchAction<C, K, G, P>);

/// The mathematical content of a [`BatchStep`].
pub type BatchStepView<C, K, G, P> = (BatchView<C, K, G, P>, BatchActionView<C, K, G, P>);

/// The event says how that went which the batch has asked for.
pub open spec fn batch_awaits<C, K, G, P>(
    batch: BatchView<C, K, G, P>,
    event: BatchEvent<P>,
) -> bool {
    match batch {
        BatchView::Creating { .. } => event is Created,
        BatchView::LookingUp { .. } => event is LookedUp,
        BatchView::Performing { kind, .. } => match event {
            BatchEvent::Performed(outcome) => outcome_fits(kind, outcome),
            _ => false,
        },
        BatchView::Committing { .. } => event is Committed,
        BatchView::Sending => event is Sent,
        BatchView::Finished => false,
    }
}

/// The next request is taken up; after the last one comes the commit.
pub open spec fn proceeds<C, K, G, P>(
    rest: Seq<KvsOperation<C, K, G>>,
    queue: Seq<DeliveryView<C, K, P>>,
) -> BatchStepView<C, K, G, P> {
    if rest.len() > 0 {
        (
            BatchView::LookingUp {
                operation: rest[0].operation,
                rest: rest.subrange(1, rest.len() as int),
                queue,
            },
            BatchActionView::LookUpStore { store_name: rest[0].store_name },
        )
    } else {
        (BatchView::Committing { queue }, BatchActionView::Commit)
    }
}

/// Each of the requests is told of the error.
pub open spec fn all_failed<C, K, G, P>(
    requests: Seq<KvsOperation<C, K, G>>,
    error: BackendErrorView,
) -> Seq<DeliveryView<C, K, P>> {
    requests.map_values(|request: KvsOperation<C, K, G>| failed_delivery(request.operation, error))
}

/// Each of the waiting replies is replaced by the error.
pub open spec fn revoked<C, K, P>(
    queue: Seq<DeliveryView<C, K, P>>,
    error: BackendErrorView,
) -> Seq<DeliveryView<C, K, P>> {
    queue.map_values(
        |delivery: DeliveryView<C, K, P>|
            DeliveryView {
                callback: delivery.callback,
                reply: ReplyView::failed(delivery.reply.kind, error),
            },
    )
}

/// Told of `event`, the batch goes from `before` to what `after` holds: where it
/// stands then, and what it asks for next.
pub open spec fn batch_steps<C, K: Clone, G, P, F: Fn(&Vec<u8>) -> Option<K>>(
    before: BatchView<C, K, G, P>,
    event: BatchEvent<P>,
    decode: F,
    after: BatchStepView<C, K, G, P>,
) -> bool {
    match (before, event) {
        // Without a transaction nothing is done: every request is told so at once.
        (BatchView::Creating { requests }, BatchEvent::Created(Ok(_))) => after == proceeds(
            requests,
            Seq::<DeliveryView<C, K, P>>::empty(),
        ),
        (BatchView::Creating { requests }, BatchEvent::Created(Err(failure))) => after == (
            BatchView::<C, K, G, P>::Sending,
            BatchActionView::<C, K, G, P>::Send {
                deliveries: all_failed(requests, failure.answer_view()),
            },
        ),
        // A request that cannot be done is told so; the ones after it go on.
        (BatchView::LookingUp { operation, rest, queue }, BatchEvent::LookedUp(Ok(Some(store)))) =>
            match plan_view(store, operation) {
                PlanView::Refuse { callback, kind, error } => after == proceeds(
                    rest,
                    queue.push(DeliveryView { callback, reply: ReplyView::failed(kind, error) }),
                ),
                PlanView::Perform { callback, kind, work } => after == (
                    BatchView::Performing { callback, kind, rest, queue },
                    BatchActionView::<C, K, G, P>::Perform { work },
                ),
            },
        (BatchView::LookingUp { operation, rest, queue }, BatchEvent::LookedUp(Ok(None))) => after
            == proceeds(
            rest,
            queue.push(failed_delivery(operation, BackendErrorView::StoreNotFound)),
        ),
        (BatchView::LookingUp { operation, rest, queue }, BatchEvent::LookedUp(Err(error))) => after
            == proceeds(rest, queue.push(failed_delivery(operation, db_err_view(error)))),
        // The reply says how the work went.
        (
            BatchView::Performing { callback, kind, rest, queue },
            BatchEvent::Performed(outcome),
        ) => exists|reply: ReplyView<K, P>| #[trigger]
            replies_to(kind, outcome, decode, reply) && after == proceeds(
                rest,
                queue.push(DeliveryView { callback, reply }),
            ),
        // What waits is sent if the commit went well, else revoked.
        (BatchView::Committing { queue }, BatchEvent::Committed(Ok(_))) => after == (
            BatchView::<C, K, G, P>::Sending,
            BatchActionView::<C, K, G, P>::Send { deliveries: queue },
        ),
        (BatchView::Committing { queue }, BatchEvent::Committed(Err(error))) => after == (
            BatchView::<C, K, G, P>::Sending,
            BatchActionView::<C, K, G, P>::Send {
                deliveries: revoked(queue, db_err_view(error)),
            },
        ),
        // When all replies were sent, the batch is complete.
        (BatchView::Sending, BatchEvent::Sent) => after == (
            BatchView::<C, K, G, P>::Finished,
            BatchActionView::<C, K, G, P>::Complete,
        ),
        _ => false,
    }
}

/// Tells each of the requests of the error.
fn fail_all<C, K, G, P>(
    requests: VecDeque<KvsOperation<C, K, G>>,
    error: BackendError,
) -> (deliveries: Vec<Delivery<C, K, P>>)
    ensures
        queue_view(deliveries@) == all_failed::<C, K, G, P>(requests@, error@),
{
    let mut rest = requests;
    let mut deliveries: Vec<Delivery<C, K, P>> = Vec::new();
    let ghost whole = requests@;
    assert(queue_view(deliveries@) =~= all_failed::<C, K, G, P>(whole.take(0), error@));
    assert(whole.skip(0) =~= whole);
    let mut done: Ghost<int> = Ghost(0);
    loop
        invariant_except_break
            0 <= done@ <= whole.len(),
            rest@ == whole.skip(done@),
            queue_view(deliveries@) == all_failed::<C, K, G, P>(whole.take(done@), error@),
        ensures
            queue_view(deliveries@) == all_failed::<C, K, G, P>(whole, error@),
        decreases rest@.len(),
    {
        match rest.pop_front() {
            Some(request) => {
                enqueue_operation_error(&mut deliveries, request.operation, error.clone());
                proof {
                    assert(request == whole[done@]);
                    assert(all_failed::<C, K, G, P>(whole.take(done@ + 1), error@) =~= all_failed::<
                        C,
                        K,
                        G,
                        P,
                    >(whole.take(done@), error@).push(failed_delivery(request.operation, error@)));
                    assert(rest@ =~= whole.skip(done@ + 1));
                    done@ = done@ + 1;
                }
            },
            None => {
                assert(whole.take(done@) =~= whole);
                break;
            },
        }
    }
    deliveries
}

/// Replaces each of the waiting replies by the error.
fn revoke<C, K, P>(queue: Vec<Delivery<C, K, P>>, error: BackendError) -> (deliveries: Vec<
    Delivery<C, K, P>,
>)
    ensures
        queue_view(deliveries@) == revoked(queue_view(queue@), error@),
{
    let mut deliveries: Vec<Delivery<C, K, P>> = Vec::new();
    for delivery in iter: queue
        invariant
            iter.seq() == queue@,
            queue_view(deliveries@) == revoked(
                queue_view(queue@.take(iter.index())),
                error@,
            ),
    {
        assert(delivery == queue@[iter.index()]);
        let kind = reply_kind(&delivery.reply);
        enqueue_result(&mut deliveries, delivery.callback, failed_reply(kind, error.clone()));
        assert(revoked(queue_view(queue@.take(iter.index() + 1)), error@) =~= revoked(
            queue_view(queue@.take(iter.index())),
            error@,
        ).push(
            DeliveryView {
                callback: delivery.callback,
                reply: ReplyView::failed(delivery.reply@.kind, error@),
            },
        ));
    }
    assert(queue@.take(queue@.len() as int) =~= queue@);
    deliveries
}

/// Takes up the next request, or asks for the commit after the last one.
fn proceed<C, K, G, P>(
    rest: VecDeque<KvsOperation<C, K, G>>,
    queue: Vec<Delivery<C, K, P>>,
) -> (step: BatchStep<C, K, G, P>)
    ensures
        (step.0@, step.1@) == proceeds(rest@, queue_view(queue@)),
{
    let mut rest = rest;
    match rest.pop_front() {
        Some(request) => (
            TransactionBatch::LookingUp { operation: request.operation, rest, queue },
            BatchAction::LookUpStore { store_name: request.store_name },
        ),
        None => (TransactionBatch::Committing { queue }, BatchAction::Commit),
    }
}

impl<C, K: Clone, G, P> TransactionBatch<C, K, G, P> {
    /// A batch of the given requests: the first thing to do is to create the
    /// transaction.
    pub fn start(requests: VecDeque<KvsOperation<C, K, G>>) -> (step: BatchStep<C, K, G, P>)
        ensures
            step.0@ == (BatchView::<C, K, G, P>::Creating { requests: requests@ }),
            step.1@ == BatchActionView::<C, K, G, P>::CreateTransaction,
    {
        (TransactionBatch::Creating { requests }, BatchAction::CreateTransaction)
    }

    /// Whether the event says how that went which the batch has asked for.
    pub fn awaits(&self, event: &BatchEvent<P>) -> (result: bool)
        ensures
            result == batch_awaits(self@, *event),
    {
        match (self, event) {
            (TransactionBatch::Creating { .. }, BatchEvent::Created(_)) => true,
            (TransactionBatch::LookingUp { .. }, BatchEvent::LookedUp(_)) => true,
            (TransactionBatch::Committing { .. }, BatchEvent::Committed(_)) => true,
            (TransactionBatch::Sending, BatchEvent::Sent) => true,
            (TransactionBatch::Performing { kind, .. }, BatchEvent::Performed(outcome)) => match (
                outcome,
                kind,
            ) {
                (WorkOutcome::Put(_), ReplyKind::PutItem) => true,
                (WorkOutcome::Rows(_), ReplyKind::GetKey) => true,
                (WorkOutcome::Rows(_), ReplyKind::GetItem) => true,
                (WorkOutcome::Rows(_), ReplyKind::GetAllKeys) => true,
                (WorkOutcome::Rows(_), ReplyKind::GetAllItems) => true,
                (WorkOutcome::Rows(_), ReplyKind::Iterate) => true,
                (WorkOutcome::Deleted(_), ReplyKind::RemoveItem) => true,
                (WorkOutcome::Cleared(_), ReplyKind::Clear) => true,
                (WorkOutcome::Counted(_), ReplyKind::Count) => true,
                _ => false,
            },
            _ => false,
        }
    }

    /// Goes on after the event: where the batch stands then, and what it asks for
    /// next. Encoded keys are read with `decode`.
    pub fn step<F: Fn(&Vec<u8>) -> Option<K>>(self, event: BatchEvent<P>, decode: &F) -> (step:
        BatchStep<C, K, G, P>)
        requires
            batch_awaits(self@, event),
            takes_any(*decode),
        ensures
            batch_steps(self@, event, *decode, (step.0@, step.1@)),
    {
        match (self, event) {
            (TransactionBatch::Creating { requests }, BatchEvent::Created(Ok(_))) => {
                let queue: Vec<Delivery<C, K, P>> = Vec::new();
                assert(queue_view(queue@) =~= Seq::<DeliveryView<C, K, P>>::empty());
                proceed(requests, queue)
            },
            (TransactionBatch::Creating { requests }, BatchEvent::Created(Err(failure))) => {
                let deliveries = fail_all(requests, failure.answer());
                (TransactionBatch::Sending, BatchAction::Send { deliveries })
            },
            (
                TransactionBatch::LookingUp { operation, rest, queue },
                BatchEvent::LookedUp(Ok(Some(store))),
            ) => match plan(store, operation) {
                Plan::Refuse { callback, kind, error } => {
                    let mut queue = queue;
                    enqueue_result(&mut queue, callback, failed_reply(kind, error));
                    proceed(rest, queue)
                },
                Plan::Perform { callback, kind, work } => (
                    TransactionBatch::Performing { callback, kind, rest, queue },
                    BatchAction::Perform { work },
                ),
            },
            (
                TransactionBatch::LookingUp { operation, rest, queue },
                BatchEvent::LookedUp(Ok(None)),
            ) => {
                let mut queue = queue;
                enqueue_operation_error(&mut queue, operation, BackendError::StoreNotFound);
                proceed(rest, queue)
            },
            (
                TransactionBatch::LookingUp { operation, rest, queue },
                BatchEvent::LookedUp(Err(error)),
            ) => {
                let mut queue = queue;
                enqueue_operation_error(&mut queue, operation, db_err(&error));
                proceed(rest, queue)
            },
            (
                TransactionBatch::Performing { callback, kind, rest, queue },
                BatchEvent::Performed(outcome),
            ) => {
                let mut queue = queue;
                let reply = reply_to(kind, outcome, decode);
                enqueue_result(&mut queue, callback, reply);
                proceed(rest, queue)
            },
            (TransactionBatch::Committing { queue }, BatchEvent::Committed(Ok(_))) => (
                TransactionBatch::Sending,
                BatchAction::Send { deliveries: queue },
            ),
            (TransactionBatch::Committing { queue }, BatchEvent::Committed(Err(error))) => {
                let deliveries = revoke(queue, db_err(&error));
                (TransactionBatch::Sending, BatchAction::Send { deliveries })
            },
            (TransactionBatch::Sending, BatchEvent::Sent) => (
                TransactionBatch::Finished,
                BatchAction::Complete,
            ),
            _ => unreached(),
        }
    }
}

} // verus!
