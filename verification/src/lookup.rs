//! A lookup that brings a value or nothing: whatever goes wrong on the way, the
//! answer is that there is nothing.
//!
//! A lookup never touches the database itself. It says what is to be done next,
//! and is told how that went.

use vstd::pervasive::unreached;
use vstd::prelude::*;

use crate::error::OhosRdbResult;

verus! {

/// What a lookup is told.
#[derive(Debug, PartialEq, Eq)]
pub enum LookupEvent<T> {
    /// Whether the store was locked.
    Locked(bool),
    /// The transaction was begun, or could not be.
    Begun(OhosRdbResult<()>),
    /// The call was made in the transaction; this is its result.
    Ran(OhosRdbResult<Option<T>>),
    /// The transaction was committed, or could not be.
    Committed(OhosRdbResult<()>),
}

/// What a lookup asks for.
#[derive(Debug, PartialEq, Eq)]
pub enum LookupAction<B, T> {
    /// Lock the store.
    Lock,
    /// Begin a transaction.
    Begin,
    /// Make the call in the transaction.
    Run(B),
    /// Commit the transaction.
    Commit,
    /// Return this.
    Finish(Option<T>),
}

/// Where a lookup stands.
#[derive(Debug, PartialEq, Eq)]
pub enum Lookup<B, T> {
    /// The store is being locked.
    Locking { body: B },
    /// The transaction is being begun.
    Beginning { body: B },
    /// The call is being made.
    Running,
    /// The transaction is being committed; the call brought `value`.
    Committing { value: Option<T> },
    /// Everything is done.
    Finished,
}

/// A lookup and what it asks for.
pub type LookupStep<B, T> = (Lookup<B, T>, LookupAction<B, T>);

/// The event says how that went which the lookup has asked for.
pub open spec fn lookup_awaits<B, T>(lookup: Lookup<B, T>, event: LookupEvent<T>) -> bool {
    match lookup {
        Lookup::Locking { .. } => event is Locked,
        Lookup::Beginning { .. } => event is Begun,
        Lookup::Running => event is Ran,
        Lookup::Committing { .. } => event is Committed,
        Lookup::Finished => false,
    }
}

/// Where a lookup stands after the event, and what it asks for next.
pub open spec fn lookup_next<B, T>(lookup: Lookup<B, T>, event: LookupEvent<T>) -> LookupStep<B, T>
    recommends
        lookup_awaits(lookup, event),
{
    let nothing = (Lookup::<B, T>::Finished, LookupAction::<B, T>::Finish(None));
    match (lookup, event) {
        (Lookup::Locking { body }, LookupEvent::Locked(locked)) => if locked {
            (Lookup::Beginning { body }, LookupAction::Begin)
        } else {
            nothing
        },
        (Lookup::Beginning { body }, LookupEvent::Begun(begun)) => if begun is Ok {
            (Lookup::Running, LookupAction::Run(body))
        } else {
            nothing
        },
        (Lookup::Running, LookupEvent::Ran(ran)) => match ran {
            Ok(value) => (Lookup::Committing { value }, LookupAction::Commit),
            Err(_) => nothing,
        },
        (Lookup::Committing { value }, LookupEvent::Committed(committed)) => if committed is Ok {
            (Lookup::Finished, LookupAction::Finish(value))
        } else {
            nothing
        },
        _ => arbitrary(),
    }
}

impl<B, T> Lookup<B, T> {
    /// A lookup by the given call.
    pub fn start(body: B) -> (step: LookupStep<B, T>)
        ensures
            step.0 == (Lookup::<B, T>::Locking { body }),
            step.1 == LookupAction::<B, T>::Lock,
    {
        (Lookup::Locking { body }, LookupAction::Lock)
    }

    /// Whether the event says how that went which the lookup has asked for.
    pub fn awaits(&self, event: &LookupEvent<T>) -> (result: bool)
        ensures
            result == lookup_awaits(*self, *event),
    {
        match (self, event) {
            (Lookup::Locking { .. }, LookupEvent::Locked(_)) => true,
            (Lookup::Beginning { .. }, LookupEvent::Begun(_)) => true,
            (Lookup::Running, LookupEvent::Ran(_)) => true,
            (Lookup::Committing { .. }, LookupEvent::Committed(_)) => true,
            _ => false,
        }
    }

    /// Goes on after the event: where the lookup stands then, and what it asks for
    /// next.
    pub fn step(self, event: LookupEvent<T>) -> (step: LookupStep<B, T>)
        requires
            lookup_awaits(self, event),
        ensures
            step == lookup_next(self, event),
    {
        match (self, event) {
            (Lookup::Locking { body }, LookupEvent::Locked(true)) => (
                Lookup::Beginning { body },
                LookupAction::Begin,
            ),
            (Lookup::Beginning { body }, LookupEvent::Begun(Ok(_))) => (
                Lookup::Running,
                LookupAction::Run(body),
            ),
            (Lookup::Running, LookupEvent::Ran(Ok(value))) => (
                Lookup::Committing { value },
                LookupAction::Commit,
            ),
            (Lookup::Committing { value }, LookupEvent::Committed(Ok(_))) => (
                Lookup::Finished,
                LookupAction::Finish(value),
            ),
            (Lookup::Finished, _) => unreached(),
            _ => (Lookup::Finished, LookupAction::Finish(None)),
        }
    }
}

/// What the database answers in the course of a lookup.
pub struct LookupAnswers<T> {
    pub locked: bool,
    pub begun: OhosRdbResult<()>,
    pub ran: OhosRdbResult<Option<T>>,
    pub committed: OhosRdbResult<()>,
}

/// What a lookup is told where it stands.
pub open spec fn lookup_told<B, T>(
    lookup: Lookup<B, T>,
    answers: LookupAnswers<T>,
) -> LookupEvent<T> {
    match lookup {
        Lookup::Locking { .. } => LookupEvent::Locked(answers.locked),
        Lookup::Beginning { .. } => LookupEvent::Begun(answers.begun),
        Lookup::Running => LookupEvent::Ran(answers.ran),
        _ => LookupEvent::Committed(answers.committed),
    }
}

/// How many more steps a lookup can take at most.
pub open spec fn lookup_steps_left<B, T>(lookup: Lookup<B, T>) -> nat {
    match lookup {
        Lookup::Locking { .. } => 4,
        Lookup::Beginning { .. } => 3,
        Lookup::Running => 2,
        Lookup::Committing { .. } => 1,
        Lookup::Finished => 0,
    }
}

/// All that a lookup asks for from where it stands to its end.
pub open spec fn lookup_actions<B, T>(lookup: Lookup<B, T>, answers: LookupAnswers<T>) -> Seq<
    LookupAction<B, T>,
>
    decreases lookup_steps_left(lookup),
{
    if lookup is Finished {
        Seq::empty()
    } else {
        let (next, action) = lookup_next(lookup, lookup_told(lookup, answers));
        seq![action] + lookup_actions(next, answers)
    }
}

/// A lookup brings what its call brought exactly if nothing went wrong, the commit
/// included; else it brings nothing. The first thing that goes wrong ends it.
pub proof fn law_lookup_course<B, T>(body: B, answers: LookupAnswers<T>)
    ensures
        lookup_actions(Lookup::<B, T>::Locking { body }, answers) == if !answers.locked {
            seq![LookupAction::<B, T>::Finish(None)]
        } else if answers.begun is Err {
            seq![LookupAction::Begin, LookupAction::Finish(None)]
        } else if answers.ran is Err {
            seq![LookupAction::Begin, LookupAction::Run(body), LookupAction::Finish(None)]
        } else if answers.committed is Err {
            seq![
                LookupAction::Begin,
                LookupAction::Run(body),
                LookupAction::Commit,
                LookupAction::Finish(None),
            ]
        } else {
            seq![
                LookupAction::Begin,
                LookupAction::Run(body),
                LookupAction::Commit,
                LookupAction::Finish(answers.ran->Ok_0),
            ]
        },
{
    reveal_with_fuel(lookup_actions, 5);
}

/// The event says how the action went.
pub open spec fn answers_lookup_action<B, T>(
    action: LookupAction<B, T>,
    event: LookupEvent<T>,
) -> bool {
    match action {
        LookupAction::Lock => event is Locked,
        LookupAction::Begin => event is Begun,
        LookupAction::Run(_) => event is Ran,
        LookupAction::Commit => event is Committed,
        LookupAction::Finish(_) => false,
    }
}

/// Whoever answers what a lookup asks for can always hand the answer to the lookup:
/// after every step it awaits exactly the events that say how the action went which
/// it asked for.
pub proof fn law_lookup_answers_are_awaited<B, T>(
    lookup: Lookup<B, T>,
    event: LookupEvent<T>,
    answer: LookupEvent<T>,
)
    requires
        lookup_awaits(lookup, event),
    ensures
        lookup_awaits(lookup_next(lookup, event).0, answer) <==> answers_lookup_action(
            lookup_next(lookup, event).1,
            answer,
        ),
{
}

} // verus!
