//! One call of the database in a transaction of its own: the transaction is
//! committed if the call succeeds, and rolled back if it fails.
//!
//! A session never touches the database itself. It says what is to be done next,
//! and is told how that went.

use vstd::pervasive::unreached;
use vstd::prelude::*;

use crate::error::{missing_row, missing_row_error, OhosRdbError, OhosRdbResult};

verus! {

/// What the store is reported as when it cannot be locked.
pub const STORE_LOCK_CONTEXT: &'static str = "OHOS RDB store lock";

/// What a session is told.
#[derive(Debug, PartialEq, Eq)]
pub enum SessionEvent<R> {
    /// Whether the store was locked.
    Locked(bool),
    /// The transaction was begun, or could not be.
    Begun(OhosRdbResult<()>),
    /// The call was made in the transaction; this is its result.
    Ran(OhosRdbResult<R>),
    /// The transaction was committed, or could not be.
    Committed(OhosRdbResult<()>),
    /// The transaction was rolled back, or could not be.
    RolledBack(OhosRdbResult<()>),
}

/// What a session asks for.
#[derive(Debug, PartialEq, Eq)]
pub enum SessionAction<B, R> {
    /// Lock the store.
    Lock,
    /// Begin a transaction.
    Begin,
    /// Make the call in the transaction.
    Run(B),
    /// Commit the transaction.
    Commit,
    /// Roll the transaction back.
    Rollback,
    /// Return this result.
    Finish(OhosRdbResult<R>),
}

/// Where a session stands.
#[derive(Debug, PartialEq, Eq)]
pub enum StoreSession<B, R> {
    /// The store is being locked.
    Locking { body: B },
    /// The transaction is being begun.
    Beginning { body: B },
    /// The call is being made.
    Running,
    /// The transaction is being committed; the call brought `value`.
    Committing { value: R },
    /// The transaction is being rolled back; the call failed with `error`.
    RollingBack { error: OhosRdbError },
    /// Everything is done.
    Finished,
}

/// A session and what it asks for.
pub type SessionStep<B, R> = (StoreSession<B, R>, SessionAction<B, R>);

/// The event says how that went which the session has asked for.
pub open spec fn session_awaits<B, R>(session: StoreSession<B, R>, event: SessionEvent<R>) -> bool {
    match session {
        StoreSession::Locking { .. } => event is Locked,
        StoreSession::Beginning { .. } => event is Begun,
        StoreSession::Running => event is Ran,
        StoreSession::Committing { .. } => event is Committed,
        StoreSession::RollingBack { .. } => event is RolledBack,
        StoreSession::Finished => false,
    }
}

/// Where a session stands after the event, and what it asks for next.
pub open spec fn session_next<B, R>(
    session: StoreSession<B, R>,
    event: SessionEvent<R>,
) -> SessionStep<B, R>
    recommends
        session_awaits(session, event),
{
    let finish = |result: OhosRdbResult<R>|
        (StoreSession::<B, R>::Finished, SessionAction::<B, R>::Finish(result));
    match (session, event) {
        (StoreSession::Locking { body }, SessionEvent::Locked(true)) => (
            StoreSession::Beginning { body },
            SessionAction::Begin,
        ),
        (StoreSession::Locking { .. }, SessionEvent::Locked(false)) => finish(
            Err(missing_row_error(STORE_LOCK_CONTEXT)),
        ),
        (StoreSession::Beginning { body }, SessionEvent::Begun(Ok(_))) => (
            StoreSession::Running,
            SessionAction::Run(body),
        ),
        (StoreSession::Beginning { .. }, SessionEvent::Begun(Err(error))) => finish(Err(error)),
        (StoreSession::Running, SessionEvent::Ran(Ok(value))) => (
            StoreSession::Committing { value },
            SessionAction::Commit,
        ),
        (StoreSession::Running, SessionEvent::Ran(Err(error))) => (
            StoreSession::RollingBack { error },
            SessionAction::Rollback,
        ),
        (StoreSession::Committing { value }, SessionEvent::Committed(Ok(_))) => finish(Ok(value)),
        (StoreSession::Committing { .. }, SessionEvent::Committed(Err(error))) => finish(
            Err(error),
        ),
        (StoreSession::RollingBack { error }, SessionEvent::RolledBack(_)) => finish(Err(error)),
        _ => arbitrary(),
    }
}

impl<B, R> StoreSession<B, R> {
    /// A session that first locks the store.
    pub fn with_store(body: B) -> (step: SessionStep<B, R>)
        ensures
            step.0 == (StoreSession::<B, R>::Locking { body }),
            step.1 == SessionAction::<B, R>::Lock,
    {
        (StoreSession::Locking { body }, SessionAction::Lock)
    }

    /// A session on a store that is at hand.
    pub fn with_transaction(body: B) -> (step: SessionStep<B, R>)
        ensures
            step.0 == (StoreSession::<B, R>::Beginning { body }),
            step.1 == SessionAction::<B, R>::Begin,
    {
        (StoreSession::Beginning { body }, SessionAction::Begin)
    }

    /// Whether the event says how that went which the session has asked for.
    pub fn awaits(&self, event: &SessionEvent<R>) -> (result: bool)
        ensures
            result == session_awaits(*self, *event),
    {
        match (self, event) {
            (StoreSession::Locking { .. }, SessionEvent::Locked(_)) => true,
            (StoreSession::Beginning { .. }, SessionEvent::Begun(_)) => true,
            (StoreSession::Running, SessionEvent::Ran(_)) => true,
            (StoreSession::Committing { .. }, SessionEvent::Committed(_)) => true,
            (StoreSession::RollingBack { .. }, SessionEvent::RolledBack(_)) => true,
            _ => false,
        }
    }

    /// Goes on after the event: where the session stands then, and what it asks for
    /// next. A rollback that fails changes nothing: the result is the error that the
    /// call failed with.
    pub fn step(self, event: SessionEvent<R>) -> (step: SessionStep<B, R>)
        requires
            session_awaits(self, event),
        ensures
            step == session_next(self, event),
    {
        match (self, event) {
            (StoreSession::Locking { body }, SessionEvent::Locked(locked)) => {
                if locked {
                    (StoreSession::Beginning { body }, SessionAction::Begin)
                } else {
                    (
                        StoreSession::Finished,
                        SessionAction::Finish(Err(missing_row(STORE_LOCK_CONTEXT))),
                    )
                }
            },
            (StoreSession::Beginning { body }, SessionEvent::Begun(begun)) => match begun {
                Ok(_) => (StoreSession::Running, SessionAction::Run(body)),
                Err(error) => (StoreSession::Finished, SessionAction::Finish(Err(error))),
            },
            (StoreSession::Running, SessionEvent::Ran(ran)) => match ran {
                Ok(value) => (StoreSession::Committing { value }, SessionAction::Commit),
                Err(error) => (StoreSession::RollingBack { error }, SessionAction::Rollback),
            },
            (StoreSession::Committing { value }, SessionEvent::Committed(committed)) => {
                match committed {
                    Ok(_) => (StoreSession::Finished, SessionAction::Finish(Ok(value))),
                    Err(error) => (StoreSession::Finished, SessionAction::Finish(Err(error))),
                }
            },
            (StoreSession::RollingBack { error }, SessionEvent::RolledBack(_)) => (
                StoreSession::Finished,
                SessionAction::Finish(Err(error)),
            ),
            _ => unreached(),
        }
    }
}

/// What the database answers in the course of a session.
pub struct SessionAnswers<R> {
    pub locked: bool,
    pub begun: OhosRdbResult<()>,
    pub ran: OhosRdbResult<R>,
    pub committed: OhosRdbResult<()>,
    pub rolled_back: OhosRdbResult<()>,
}

/// What a session is told where it stands.
pub open spec fn session_told<B, R>(
    session: StoreSession<B, R>,
    answers: SessionAnswers<R>,
) -> SessionEvent<R> {
    match session {
        StoreSession::Locking { .. } => SessionEvent::Locked(answers.locked),
        StoreSession::Beginning { .. } => SessionEvent::Begun(answers.begun),
        StoreSession::Running => SessionEvent::Ran(answers.ran),
        StoreSession::Committing { .. } => SessionEvent::Committed(answers.committed),
        _ => SessionEvent::RolledBack(answers.rolled_back),
    }
}

/// How many more steps a session can take at most.
pub open spec fn session_steps_left<B, R>(session: StoreSession<B, R>) -> nat {
    match session {
        StoreSession::Locking { .. } => 4,
        StoreSession::Beginning { .. } => 3,
        StoreSession::Running => 2,
        StoreSession::Committing { .. } => 1,
        StoreSession::RollingBack { .. } => 1,
        StoreSession::Finished => 0,
    }
}

/// All that a session asks for from where it stands to its end.
pub open spec fn session_actions<B, R>(
    session: StoreSession<B, R>,
    answers: SessionAnswers<R>,
) -> Seq<SessionAction<B, R>>
    decreases session_steps_left(session),
{
    if session is Finished {
        Seq::empty()
    } else {
        let (next, action) = session_next(session, session_told(session, answers));
        seq![action] + session_actions(next, answers)
    }
}

/// The course of a transaction with the given call: it is committed exactly if the
/// call succeeded and rolled back exactly if the call failed, never both. What is
/// returned is what the call brought, if the commit went well; else the first error
/// that came up, and a rollback that fails adds none.
pub open spec fn transaction_course<B, R>(body: B, answers: SessionAnswers<R>) -> Seq<
    SessionAction<B, R>,
> {
    match answers.begun {
        Err(error) => seq![SessionAction::Finish(Err(error))],
        Ok(_) => match answers.ran {
            Ok(value) => seq![
                SessionAction::Run(body),
                SessionAction::Commit,
                SessionAction::Finish(
                    match answers.committed {
                        Ok(_) => Ok(value),
                        Err(error) => Err(error),
                    },
                ),
            ],
            Err(error) => seq![
                SessionAction::Run(body),
                SessionAction::Rollback,
                SessionAction::Finish(Err(error)),
            ],
        },
    }
}

/// A session on a store that is at hand takes the course of a transaction with its
/// call, whatever the database answers.
pub proof fn law_transaction_course<B, R>(body: B, answers: SessionAnswers<R>)
    ensures
        session_actions(StoreSession::<B, R>::Beginning { body }, answers) == transaction_course(
            body,
            answers,
        ),
{
    reveal_with_fuel(session_actions, 4);
    assert(session_actions(StoreSession::<B, R>::Beginning { body }, answers)
        =~= transaction_course(body, answers));
}

/// A session that locks the store first takes the course of a transaction with its
/// call if the lock was had; else it reports the lock and does nothing.
pub proof fn law_locked_transaction_course<B, R>(body: B, answers: SessionAnswers<R>)
    ensures
        session_actions(StoreSession::<B, R>::Locking { body }, answers) == if answers.locked {
            seq![SessionAction::<B, R>::Begin] + transaction_course(body, answers)
        } else {
            seq![SessionAction::<B, R>::Finish(Err(missing_row_error(STORE_LOCK_CONTEXT)))]
        },
{
    law_transaction_course(body, answers);
    reveal_with_fuel(session_actions, 2);
    assert(session_actions(StoreSession::<B, R>::Locking { body }, answers) =~= if answers.locked {
        seq![SessionAction::<B, R>::Begin] + transaction_course(body, answers)
    } else {
        seq![SessionAction::<B, R>::Finish(Err(missing_row_error(STORE_LOCK_CONTEXT)))]
    });
}

/// The event says how the action went.
pub open spec fn answers_session_action<B, R>(
    action: SessionAction<B, R>,
    event: SessionEvent<R>,
) -> bool {
    match action {
        SessionAction::Lock => event is Locked,
        SessionAction::Begin => event is Begun,
        SessionAction::Run(_) => event is Ran,
        SessionAction::Commit => event is Committed,
        SessionAction::Rollback => event is RolledBack,
        SessionAction::Finish(_) => false,
    }
}

/// Whoever answers what a session asks for can always hand the answer to the
/// session: after every step it awaits exactly the events that say how the action
/// went which it asked for.
pub proof fn law_session_answers_are_awaited<B, R>(
    session: StoreSession<B, R>,
    event: SessionEvent<R>,
    answer: SessionEvent<R>,
)
    requires
        session_awaits(session, event),
    ensures
        session_awaits(session_next(session, event).0, answer) <==> answers_session_action(
            session_next(session, event).1,
            answer,
        ),
{
}

} // verus!
