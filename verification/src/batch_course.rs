//! What a batch does for its requests and answers them with, from what the database
//! answers.

use vstd::prelude::*;

use crate::answer::replies_to;
use crate::batch::{
    batch_steps, proceeds, BatchActionView, BatchEvent, BatchView, CreationFailure,
};
use crate::batch_laws::{
    law_completion_comes_once_and_last, law_each_request_is_answered_once, BatchRun,
};
use crate::debug_text::db_err_view;
use crate::error::{BackendErrorView, OhosRdbResult};
use crate::model::{AsyncOperation, KvsOperation, ObjectStoreModel};
use crate::reply::{DeliveryView, ReplyView};
use crate::work::{plan_view, work_view, Work, WorkOutcome};

verus! {

/// What the database answers in the course of a batch: one lookup for each request,
/// and one outcome for the work of each request that comes to be done.
pub struct BatchAnswers<P> {
    pub created: Result<(), CreationFailure>,
    pub lookups: Seq<OhosRdbResult<Option<ObjectStoreModel>>>,
    pub outcomes: Seq<WorkOutcome<P>>,
    pub committed: OhosRdbResult<()>,
}

/// How many requests a batch has a reply for.
pub open spec fn replies_queued<C, K, G, P>(batch: BatchView<C, K, G, P>) -> int {
    match batch {
        BatchView::LookingUp { queue, .. } => queue.len() as int,
        BatchView::Performing { queue, .. } => queue.len() as int,
        BatchView::Committing { queue } => queue.len() as int,
        _ => 0,
    }
}

/// What a batch is told where it stands.
pub open spec fn told<C, K, G, P>(
    batch: BatchView<C, K, G, P>,
    answers: BatchAnswers<P>,
) -> BatchEvent<P> {
    match batch {
        BatchView::Creating { .. } => BatchEvent::Created(answers.created),
        BatchView::LookingUp { .. } => BatchEvent::LookedUp(
            answers.lookups[replies_queued(batch)],
        ),
        BatchView::Performing { .. } => BatchEvent::Performed(
            answers.outcomes[replies_queued(batch)],
        ),
        BatchView::Committing { .. } => BatchEvent::Committed(answers.committed),
        _ => BatchEvent::Sent,
    }
}

impl<C, K: Clone, G, P> BatchRun<C, K, G, P> {
    /// All that the batch was told in this course are these answers.
    pub open spec fn answered_by(self, answers: BatchAnswers<P>) -> bool {
        forall|i: int|
            #![trigger self.events[i]]
            0 <= i < self.events.len() ==> self.events[i] == told(self.states[i], answers)
    }
}

/// `reply` is the reply that a request gets once the transaction is committed: from
/// its own lookup, and from the outcome of its own work where there was work to do.
pub open spec fn replies_on_its_own<C, K: Clone, G, P, F: Fn(&Vec<u8>) -> Option<K>>(
    operation: AsyncOperation<C, K, G>,
    lookup: OhosRdbResult<Option<ObjectStoreModel>>,
    outcome: WorkOutcome<P>,
    decode: F,
    reply: ReplyView<K, P>,
) -> bool {
    match lookup {
        Err(error) => reply == ReplyView::<K, P>::failed(operation.kind(), db_err_view(error)),
        Ok(None) => reply == ReplyView::<K, P>::failed(
            operation.kind(),
            BackendErrorView::StoreNotFound,
        ),
        Ok(Some(store)) => match work_view(store, operation) {
            Err(error) => reply == ReplyView::<K, P>::failed(operation.kind(), error),
            Ok(_) => replies_to(operation.kind(), outcome, decode, reply),
        },
    }
}

/// The queue holds the replies to the first of the requests.
spec fn queue_is_right<C, K: Clone, G, P, F: Fn(&Vec<u8>) -> Option<K>>(
    queue: Seq<DeliveryView<C, K, P>>,
    requests: Seq<KvsOperation<C, K, G>>,
    answers: BatchAnswers<P>,
    decode: F,
) -> bool {
    forall|i: int|
        #![trigger queue[i]]
        0 <= i < queue.len() ==> replies_on_its_own(
            requests[i].operation,
            answers.lookups[i],
            answers.outcomes[i],
            decode,
            queue[i].reply,
        )
}

/// A batch stands where its requests and the answers so far have brought it.
spec fn is_on_course<C, K: Clone, G, P, F: Fn(&Vec<u8>) -> Option<K>>(
    batch: BatchView<C, K, G, P>,
    requests: Seq<KvsOperation<C, K, G>>,
    answers: BatchAnswers<P>,
    decode: F,
) -> bool {
    match batch {
        BatchView::Creating { requests: waiting } => waiting == requests,
        BatchView::LookingUp { operation, rest, queue } => {
            &&& queue.len() < requests.len()
            &&& operation == requests[queue.len() as int].operation
            &&& rest == requests.skip(queue.len() as int + 1)
            &&& queue_is_right(queue, requests, answers, decode)
        },
        BatchView::Performing { callback, kind, rest, queue } => {
            &&& queue.len() < requests.len()
            &&& kind == requests[queue.len() as int].operation.kind()
            &&& rest == requests.skip(queue.len() as int + 1)
            &&& queue_is_right(queue, requests, answers, decode)
            &&& answers.lookups[queue.len() as int] matches Ok(Some(store)) && work_view(
                store,
                requests[queue.len() as int].operation,
            ) is Ok
        },
        BatchView::Committing { queue } => {
            &&& queue.len() == requests.len()
            &&& queue_is_right(queue, requests, answers, decode)
        },
        BatchView::Sending => true,
        BatchView::Finished => true,
    }
}

/// What a batch asks for is what the request at hand needs.
pub open spec fn asks_rightly<C, K, G, P>(
    batch: BatchView<C, K, G, P>,
    action: BatchActionView<C, K, G, P>,
    requests: Seq<KvsOperation<C, K, G>>,
    answers: BatchAnswers<P>,
) -> bool {
    let at = replies_queued(batch);
    match action {
        BatchActionView::CreateTransaction => false,
        BatchActionView::LookUpStore { store_name } => {
            &&& batch is LookingUp
            &&& at < requests.len()
            &&& store_name == requests[at].store_name
        },
        BatchActionView::Perform { work } => {
            &&& batch is Performing
            &&& at < requests.len()
            &&& answers.lookups[at] matches Ok(Some(store)) && work_view(
                store,
                requests[at].operation,
            ) == Ok::<Work<K, G>, BackendErrorView>(work)
        },
        BatchActionView::Commit => batch is Committing && at == requests.len(),
        BatchActionView::Send { .. } => batch is Sending,
        BatchActionView::Complete => batch is Finished,
    }
}

proof fn lemma_proceeds_on_course<C, K: Clone, G, P, F: Fn(&Vec<u8>) -> Option<K>>(
    requests: Seq<KvsOperation<C, K, G>>,
    answers: BatchAnswers<P>,
    decode: F,
    queue: Seq<DeliveryView<C, K, P>>,
)
    requires
        queue.len() <= requests.len(),
        queue_is_right(queue, requests, answers, decode),
    ensures
        is_on_course(
            proceeds(requests.skip(queue.len() as int), queue).0,
            requests,
            answers,
            decode,
        ),
        asks_rightly(
            proceeds(requests.skip(queue.len() as int), queue).0,
            proceeds(requests.skip(queue.len() as int), queue).1,
            requests,
            answers,
        ),
{
    let rest = requests.skip(queue.len() as int);
    if rest.len() > 0 {
        assert(rest.subrange(1, rest.len() as int) =~= requests.skip(queue.len() as int + 1));
    }
}

proof fn lemma_step_on_course<C, K: Clone, G, P, F: Fn(&Vec<u8>) -> Option<K>>(
    requests: Seq<KvsOperation<C, K, G>>,
    answers: BatchAnswers<P>,
    decode: F,
    before: BatchView<C, K, G, P>,
    after: BatchView<C, K, G, P>,
    action: BatchActionView<C, K, G, P>,
)
    requires
        is_on_course(before, requests, answers, decode),
        batch_steps(before, told(before, answers), decode, (after, action)),
    ensures
        is_on_course(after, requests, answers, decode),
        asks_rightly(after, action, requests, answers),
{
    match before {
        BatchView::Creating { .. } => {
            assert(requests.skip(0) =~= requests);
            lemma_proceeds_on_course(
                requests,
                answers,
                decode,
                Seq::<DeliveryView<C, K, P>>::empty(),
            );
        },
        BatchView::LookingUp { operation, rest, queue } => {
            if !(after is Performing) {
                let error = match answers.lookups[queue.len() as int] {
                    Ok(Some(store)) => plan_view(store, operation)->error,
                    Ok(None) => BackendErrorView::StoreNotFound,
                    Err(error) => db_err_view(error),
                };
                let reply = ReplyView::<K, P>::failed(operation.kind(), error);
                let longer = queue.push(DeliveryView { callback: operation.callback(), reply });
                lemma_proceeds_on_course(requests, answers, decode, longer);
            }
        },
        BatchView::Performing { callback, kind, rest, queue } => {
            let outcome = answers.outcomes[queue.len() as int];
            let reply = choose|reply: ReplyView<K, P>| #[trigger]
                replies_to(kind, outcome, decode, reply) && (after, action) == proceeds(
                    rest,
                    queue.push(DeliveryView { callback, reply }),
                );
            let longer = queue.push(DeliveryView { callback, reply });
            lemma_proceeds_on_course(requests, answers, decode, longer);
        },
        _ => {},
    }
}

proof fn lemma_run_on_course<C, K: Clone, G, P, F: Fn(&Vec<u8>) -> Option<K>>(
    run: BatchRun<C, K, G, P>,
    requests: Seq<KvsOperation<C, K, G>>,
    decode: F,
    answers: BatchAnswers<P>,
    n: int,
)
    requires
        run.of(requests, decode),
        run.answered_by(answers),
        0 <= n <= run.events.len(),
    ensures
        is_on_course(run.states[n], requests, answers, decode),
        n > 0 ==> asks_rightly(run.states[n], run.actions[n - 1], requests, answers),
    decreases n,
{
    if n > 0 {
        lemma_run_on_course(run, requests, decode, answers, n - 1);
        let event = run.events[n - 1];
        lemma_step_on_course(
            requests,
            answers,
            decode,
            run.states[n - 1],
            run.states[n],
            run.actions[n - 1],
        );
    }
}

/// All that a batch asks for is right: a lookup is that of the object store which the
/// request at hand names, work is what that request asks of its store, and the commit
/// comes when every request has a reply.
pub proof fn law_batch_asks_rightly<C, K: Clone, G, P, F: Fn(&Vec<u8>) -> Option<K>>(
    run: BatchRun<C, K, G, P>,
    requests: Seq<KvsOperation<C, K, G>>,
    decode: F,
    answers: BatchAnswers<P>,
    i: int,
)
    requires
        run.of(requests, decode),
        run.answered_by(answers),
        0 <= i < run.events.len(),
    ensures
        asks_rightly(run.states[i + 1], run.actions[i], requests, answers),
{
    lemma_run_on_course(run, requests, decode, answers, i + 1);
}

/// Once the transaction is committed, every request gets the reply that follows from
/// its own lookup and its own work: a request that failed does not touch the others.
pub proof fn law_each_reply_stands_on_its_own<
    C,
    K: Clone,
    G,
    P,
    F: Fn(&Vec<u8>) -> Option<K>,
>(
    run: BatchRun<C, K, G, P>,
    requests: Seq<KvsOperation<C, K, G>>,
    decode: F,
    answers: BatchAnswers<P>,
    i: int,
)
    requires
        run.of(requests, decode),
        run.answered_by(answers),
        run.finished(),
        answers.created is Ok,
        answers.committed is Ok,
        0 <= i < requests.len(),
    ensures
        run.deliveries().len() == requests.len(),
        run.deliveries()[i].callback == requests[i].operation.callback(),
        replies_on_its_own(
            requests[i].operation,
            answers.lookups[i],
            answers.outcomes[i],
            decode,
            run.deliveries()[i].reply,
        ),
{
    law_each_request_is_answered_once(run, requests, decode);
    let last = run.events.len() - 2;
    lemma_run_on_course(run, requests, decode, answers, last);
    let event = run.events[last];
    assert(batch_steps(
        run.states[last],
        event,
        decode,
        (run.states[last + 1], run.actions[last]),
    ));
    assert(run.actions[last] is Send);
    assert(run.states[last] is Committing);
    let queue = run.states[last]->Committing_queue;
    assert(run.deliveries() == queue);
    assert(queue[i].reply == run.deliveries()[i].reply);
}

/// The work that is done for a request, from how the lookup of its object store went;
/// none where there is no store, or where the request cannot be done.
pub open spec fn work_for<C, K, G>(
    operation: AsyncOperation<C, K, G>,
    lookup: OhosRdbResult<Option<ObjectStoreModel>>,
) -> Option<Work<K, G>> {
    match lookup {
        Ok(Some(store)) => match work_view(store, operation) {
            Ok(work) => Some(work),
            Err(_) => None,
        },
        _ => None,
    }
}

/// What a batch asks for on behalf of one request: the lookup of its object store, and
/// then its work where there is work to do.
pub open spec fn request_course<C, K, G, P>(
    request: KvsOperation<C, K, G>,
    lookup: OhosRdbResult<Option<ObjectStoreModel>>,
) -> Seq<BatchActionView<C, K, G, P>> {
    let look_up = BatchActionView::LookUpStore { store_name: request.store_name };
    match work_for(request.operation, lookup) {
        Some(work) => seq![look_up, BatchActionView::Perform { work }],
        None => seq![look_up],
    }
}

/// What a batch asks for on behalf of the first `n` requests, one after the other.
pub open spec fn requests_course<C, K, G, P>(
    requests: Seq<KvsOperation<C, K, G>>,
    answers: BatchAnswers<P>,
    n: int,
) -> Seq<BatchActionView<C, K, G, P>>
    decreases n,
{
    if n <= 0 {
        Seq::empty()
    } else {
        requests_course(requests, answers, n - 1) + request_course(
            requests[n - 1],
            answers.lookups[n - 1],
        )
    }
}

/// All that a batch asks for once its transaction was created: what its requests need, in
/// order, then the commit, then that the replies are sent, and last that it is complete.
pub open spec fn batch_course<C, K, G, P>(
    requests: Seq<KvsOperation<C, K, G>>,
    answers: BatchAnswers<P>,
    deliveries: Seq<DeliveryView<C, K, P>>,
) -> Seq<BatchActionView<C, K, G, P>> {
    requests_course(requests, answers, requests.len() as int) + seq![
        BatchActionView::Commit,
        BatchActionView::Send { deliveries },
        BatchActionView::Complete,
    ]
}

/// What a batch has asked for by the time it stands where it does, while its requests are
/// being done.
spec fn asked_by_then<C, K, G, P>(
    batch: BatchView<C, K, G, P>,
    requests: Seq<KvsOperation<C, K, G>>,
    answers: BatchAnswers<P>,
) -> Seq<BatchActionView<C, K, G, P>> {
    let at = replies_queued(batch);
    let before = requests_course::<C, K, G, P>(requests, answers, at);
    match batch {
        BatchView::LookingUp { .. } => before.push(
            BatchActionView::LookUpStore { store_name: requests[at].store_name },
        ),
        BatchView::Performing { .. } => before + request_course(requests[at], answers.lookups[at]),
        BatchView::Committing { .. } => before.push(BatchActionView::Commit),
        _ => Seq::empty(),
    }
}

proof fn lemma_run_course<C, K: Clone, G, P, F: Fn(&Vec<u8>) -> Option<K>>(
    run: BatchRun<C, K, G, P>,
    requests: Seq<KvsOperation<C, K, G>>,
    decode: F,
    answers: BatchAnswers<P>,
    n: int,
)
    requires
        run.of(requests, decode),
        run.answered_by(answers),
        answers.created is Ok,
        0 <= n <= run.events.len(),
    ensures
        run.states[n] is Creating <==> n == 0,
        !(run.states[n] is Sending || run.states[n] is Finished) ==> run.actions.take(n)
            == asked_by_then(run.states[n], requests, answers),
        run.states[n] is Committing ==> replies_queued(run.states[n]) == requests.len(),
        run.states[n] is Sending ==> n > 0 && run.states[n - 1] is Committing,
    decreases n,
{
    if n > 0 {
        lemma_run_course(run, requests, decode, answers, n - 1);
        lemma_run_on_course(run, requests, decode, answers, n - 1);
        lemma_run_on_course(run, requests, decode, answers, n);
        let event = run.events[n - 1];
        let (before, after, action) = (run.states[n - 1], run.states[n], run.actions[n - 1]);
        assert(batch_steps(before, event, decode, (after, action)));
        assert(run.actions.take(n) =~= run.actions.take(n - 1).push(action));
        let at = replies_queued(before);
        match before {
            BatchView::LookingUp { operation, rest, queue } => {
                assert(event == BatchEvent::<P>::LookedUp(answers.lookups[at]));
                if after is Performing {
                    assert(run.actions.take(n) =~= asked_by_then(after, requests, answers));
                } else {
                    assert(replies_queued(after) == at + 1);
                    assert(request_course::<C, K, G, P>(requests[at], answers.lookups[at])
                        =~= seq![
                        BatchActionView::LookUpStore { store_name: requests[at].store_name },
                    ]);
                    assert(requests_course::<C, K, G, P>(requests, answers, at + 1)
                        =~= run.actions.take(n - 1));
                }
            },
            BatchView::Performing { queue, .. } => {
                assert(replies_queued(after) == at + 1);
                assert(requests_course::<C, K, G, P>(requests, answers, at + 1)
                    == run.actions.take(n - 1));
            },
            _ => {},
        }
    } else {
        assert(run.actions.take(0) =~= Seq::empty());
    }
}

/// The requests are done one after the other, in order, and nothing else is done: in a
/// batch that has come to its end, each request's object store was looked up by its name,
/// then the work was done that the request asks of that store; after the last of them came
/// the commit, then the replies, and then the completion.
pub proof fn law_requests_are_done_in_order<C, K: Clone, G, P, F: Fn(&Vec<u8>) -> Option<K>>(
    run: BatchRun<C, K, G, P>,
    requests: Seq<KvsOperation<C, K, G>>,
    decode: F,
    answers: BatchAnswers<P>,
)
    requires
        run.of(requests, decode),
        run.answered_by(answers),
        run.finished(),
        answers.created is Ok,
    ensures
        run.actions == batch_course(requests, answers, run.deliveries()),
{
    law_completion_comes_once_and_last(run, requests, decode);
    let end = run.actions.len() as int;
    let event = run.events[end - 2];
    assert(batch_steps(
        run.states[end - 2],
        event,
        decode,
        (run.states[end - 1], run.actions[end - 2]),
    ));
    assert(run.actions[end - 2] is Send);
    assert(run.actions[end - 1] is Complete);
    lemma_run_course(run, requests, decode, answers, end - 2);
    lemma_run_course(run, requests, decode, answers, end - 1);
    assert(run.actions =~= run.actions.take(end - 2).push(run.actions[end - 2]).push(
        run.actions[end - 1],
    ));
    assert(run.actions =~= batch_course(requests, answers, run.deliveries()));
}

/// Where in the course of a batch the request at position `i` is taken up.
proof fn lemma_request_start<C, K, G, P>(
    requests: Seq<KvsOperation<C, K, G>>,
    answers: BatchAnswers<P>,
    i: int,
    n: int,
)
    requires
        0 <= i < n,
    ensures
        ({
            let course = requests_course::<C, K, G, P>(requests, answers, n);
            let start = requests_course::<C, K, G, P>(requests, answers, i).len() as int;
            let own = request_course::<C, K, G, P>(requests[i], answers.lookups[i]);
            &&& start + own.len() <= course.len()
            &&& forall|k: int| 0 <= k < own.len() ==> course[start + k] == #[trigger] own[k]
        }),
    decreases n,
{
    if i < n - 1 {
        lemma_request_start::<C, K, G, P>(requests, answers, i, n - 1);
    }
}

/// The action at position `j` of the run looks up an object store for the request at
/// position `i`.
pub open spec fn looks_up_for<C, K, G, P>(run: BatchRun<C, K, G, P>, i: int, j: int) -> bool {
    &&& 0 <= j < run.actions.len()
    &&& run.actions[j] is LookUpStore
    &&& replies_queued(run.states[j + 1]) == i
}

/// The action at position `j` of the run does work for the request at position `i`.
pub open spec fn performs_for<C, K, G, P>(run: BatchRun<C, K, G, P>, i: int, j: int) -> bool {
    &&& 0 <= j < run.actions.len()
    &&& run.actions[j] is Perform
    &&& replies_queued(run.states[j + 1]) == i
}

proof fn lemma_places<C, K: Clone, G, P, F: Fn(&Vec<u8>) -> Option<K>>(
    run: BatchRun<C, K, G, P>,
    requests: Seq<KvsOperation<C, K, G>>,
    decode: F,
    answers: BatchAnswers<P>,
    i: int,
    j: int,
)
    requires
        run.of(requests, decode),
        run.answered_by(answers),
        answers.created is Ok,
        looks_up_for(run, i, j) || performs_for(run, i, j),
    ensures
        looks_up_for(run, i, j) ==> j == requests_course::<C, K, G, P>(requests, answers, i).len(),
        performs_for(run, i, j) ==> {
            &&& j == requests_course::<C, K, G, P>(requests, answers, i).len() + 1
            &&& work_for(requests[i].operation, answers.lookups[i]) is Some
        },
{
    lemma_run_course(run, requests, decode, answers, j + 1);
    lemma_run_on_course(run, requests, decode, answers, j + 1);
    assert(run.actions.take(j + 1).len() == j + 1);
}

proof fn lemma_course_grows<C, K, G, P>(
    requests: Seq<KvsOperation<C, K, G>>,
    answers: BatchAnswers<P>,
    i: int,
    n: int,
)
    requires
        0 <= i < n,
    ensures
        requests_course::<C, K, G, P>(requests, answers, i).len() < requests_course::<C, K, G, P>(
            requests,
            answers,
            n,
        ).len(),
{
    lemma_request_start::<C, K, G, P>(requests, answers, i, n);
}

/// The actions at the place of the request at position `i` are for that request.
proof fn lemma_place_is_of_request<C, K: Clone, G, P, F: Fn(&Vec<u8>) -> Option<K>>(
    run: BatchRun<C, K, G, P>,
    requests: Seq<KvsOperation<C, K, G>>,
    decode: F,
    answers: BatchAnswers<P>,
    i: int,
    j: int,
)
    requires
        run.of(requests, decode),
        run.answered_by(answers),
        answers.created is Ok,
        0 <= i < requests.len(),
        0 <= j < run.actions.len(),
        ({
            let start = requests_course::<C, K, G, P>(requests, answers, i).len();
            ||| run.actions[j] is LookUpStore && j == start
            ||| run.actions[j] is Perform && j == start + 1
        }),
    ensures
        replies_queued(run.states[j + 1]) == i,
{
    lemma_run_on_course(run, requests, decode, answers, j + 1);
    let found = replies_queued(run.states[j + 1]);
    lemma_places(run, requests, decode, answers, found, j);
    if found < i {
        lemma_course_grows::<C, K, G, P>(requests, answers, found, i);
    } else if i < found {
        lemma_course_grows::<C, K, G, P>(requests, answers, i, found);
    }
}

/// No request is passed over and none is done twice: in a batch that has come to its end,
/// exactly one action looked up an object store for the request at position `i`, by the
/// name that the request gives; and where the store was there and the request could be
/// done, exactly one action did work for it, the next one, and that work is what the
/// request asks of its store. Otherwise nothing was done for it.
pub proof fn law_each_request_is_taken_up_once<C, K: Clone, G, P, F: Fn(&Vec<u8>) -> Option<K>>(
    run: BatchRun<C, K, G, P>,
    requests: Seq<KvsOperation<C, K, G>>,
    decode: F,
    answers: BatchAnswers<P>,
    i: int,
) -> (at: int)
    requires
        run.of(requests, decode),
        run.answered_by(answers),
        run.finished(),
        answers.created is Ok,
        0 <= i < requests.len(),
    ensures
        looks_up_for(run, i, at),
        run.actions[at] == (BatchActionView::<C, K, G, P>::LookUpStore {
            store_name: requests[i].store_name,
        }),
        forall|j: int| #[trigger] looks_up_for(run, i, j) ==> j == at,
        match answers.lookups[i] {
            Ok(Some(store)) => match work_view(store, requests[i].operation) {
                Ok(work) => {
                    &&& performs_for(run, i, at + 1)
                    &&& run.actions[at + 1] == (BatchActionView::<C, K, G, P>::Perform { work })
                    &&& forall|j: int| #[trigger] performs_for(run, i, j) ==> j == at + 1
                },
                Err(_) => forall|j: int| !#[trigger] performs_for(run, i, j),
            },
            _ => forall|j: int| !#[trigger] performs_for(run, i, j),
        },
{
    let total = requests.len() as int;
    let at = requests_course::<C, K, G, P>(requests, answers, i).len() as int;
    let own = request_course::<C, K, G, P>(requests[i], answers.lookups[i]);
    law_requests_are_done_in_order(run, requests, decode, answers);
    lemma_request_start::<C, K, G, P>(requests, answers, i, total);
    assert(own[0] == run.actions[at]);
    lemma_place_is_of_request(run, requests, decode, answers, i, at);
    if own.len() == 2 {
        assert(own[1] == run.actions[at + 1]);
        lemma_place_is_of_request(run, requests, decode, answers, i, at + 1);
    }
    assert forall|j: int| #[trigger] looks_up_for(run, i, j) implies j == at by {
        lemma_places(run, requests, decode, answers, i, j);
    }
    assert forall|j: int| #[trigger] performs_for(run, i, j) implies j == at + 1 && own.len()
        == 2 by {
        lemma_places(run, requests, decode, answers, i, j);
    }
    at
}

} // verus!
