//! Opening the database of an engine: its directory is made, the store is opened,
//! and the schema is set up in a transaction, between two rounds of statements that
//! tune the store.
//!
//! An opening never touches the database itself. It says what is to be done next,
//! and is told how that went.

use vstd::pervasive::unreached;
use vstd::prelude::*;

use crate::error::OhosRdbResult;
use crate::session::{
    answers_session_action, law_transaction_course, session_actions, session_awaits, session_next,
    session_steps_left, session_told, transaction_course, SessionAction, SessionAnswers,
    SessionEvent, StoreSession,
};

verus! {

/// The name of the database's file.
pub const INDEXEDDB_FILE_NAME: &'static str = "indexeddb.rdb";

/// The statements that tune the store, before the schema is set up and after.
#[derive(Debug, PartialEq, Eq)]
pub struct Pragmas {
    pub before: Vec<&'static str>,
    pub after: Vec<&'static str>,
}

/// What an opening is told.
#[derive(Debug, PartialEq, Eq)]
pub enum OpeningEvent {
    /// The directory was made, or could not be.
    DirectoryCreated(OhosRdbResult<()>),
    /// The store was opened, or could not be.
    StoreOpened(OhosRdbResult<()>),
    /// A statement was executed, or failed.
    Executed(OhosRdbResult<()>),
    /// What the session that sets up the schema is told.
    Schema(SessionEvent<()>),
}

/// What an opening asks for. `D` describes the database.
#[derive(Debug, PartialEq, Eq)]
pub enum OpeningAction<D> {
    /// Make the directory.
    CreateDirectory,
    /// Open the store in the file of that name.
    OpenStore { file_name: &'static str },
    /// Execute a statement.
    Execute { statement: &'static str },
    /// What the session that sets up the schema asks for.
    Schema(SessionAction<D, ()>),
    /// Return this result.
    Finish(OhosRdbResult<()>),
}

/// Where an opening stands.
#[derive(Debug, PartialEq, Eq)]
pub enum EngineOpening<D> {
    /// The directory is being made.
    CreatingDirectory { pragmas: Pragmas, db_info: D },
    /// The store is being opened.
    OpeningStore { pragmas: Pragmas, db_info: D },
    /// The statement at position `at` of the first round is being executed.
    Preparing { pragmas: Pragmas, db_info: D, at: usize },
    /// The schema is being set up.
    SettingUp { pragmas: Pragmas, session: StoreSession<D, ()> },
    /// The statement at position `at` of the second round is being executed.
    Settling { pragmas: Pragmas, at: usize },
    /// Everything is done.
    Finished,
}

/// An opening and what it asks for.
pub type OpeningStep<D> = (EngineOpening<D>, OpeningAction<D>);

/// The event says how that went which the opening has asked for.
pub open spec fn opening_awaits<D>(opening: EngineOpening<D>, event: OpeningEvent) -> bool {
    match opening {
        EngineOpening::CreatingDirectory { .. } => event is DirectoryCreated,
        EngineOpening::OpeningStore { .. } => event is StoreOpened,
        EngineOpening::Preparing { pragmas, at, .. } => event is Executed && at
            < pragmas.before@.len(),
        EngineOpening::SettingUp { session, .. } => match event {
            OpeningEvent::Schema(event) => session_awaits(session, event),
            _ => false,
        },
        EngineOpening::Settling { pragmas, at } => event is Executed && at < pragmas.after@.len(),
        EngineOpening::Finished => false,
    }
}

/// The first round of statements goes on; after it, the schema is set up.
pub open spec fn prepares<D>(pragmas: Pragmas, db_info: D, at: int) -> OpeningStep<D> {
    if at < pragmas.before@.len() {
        (
            EngineOpening::Preparing { pragmas, db_info, at: at as usize },
            OpeningAction::Execute { statement: pragmas.before@[at] },
        )
    } else {
        (
            EngineOpening::SettingUp { pragmas, session: StoreSession::Beginning { body: db_info } },
            OpeningAction::Schema(SessionAction::Begin),
        )
    }
}

/// The second round of statements goes on; after it, the database is open.
pub open spec fn settles<D>(pragmas: Pragmas, at: int) -> OpeningStep<D> {
    if at < pragmas.after@.len() {
        (
            EngineOpening::Settling { pragmas, at: at as usize },
            OpeningAction::Execute { statement: pragmas.after@[at] },
        )
    } else {
        (EngineOpening::Finished, OpeningAction::Finish(Ok(())))
    }
}

/// Where an opening stands after the event, and what it asks for next. How a
/// statement went makes no difference.
pub open spec fn opening_next<D>(opening: EngineOpening<D>, event: OpeningEvent) -> OpeningStep<D>
    recommends
        opening_awaits(opening, event),
{
    match (opening, event) {
        (
            EngineOpening::CreatingDirectory { pragmas, db_info },
            OpeningEvent::DirectoryCreated(created),
        ) => match created {
            Ok(_) => (
                EngineOpening::OpeningStore { pragmas, db_info },
                OpeningAction::OpenStore { file_name: INDEXEDDB_FILE_NAME },
            ),
            Err(error) => (EngineOpening::Finished, OpeningAction::Finish(Err(error))),
        },
        (EngineOpening::OpeningStore { pragmas, db_info }, OpeningEvent::StoreOpened(opened)) =>
            match opened {
                Ok(_) => prepares(pragmas, db_info, 0),
                Err(error) => (EngineOpening::Finished, OpeningAction::Finish(Err(error))),
            },
        (EngineOpening::Preparing { pragmas, db_info, at }, OpeningEvent::Executed(_)) => prepares(
            pragmas,
            db_info,
            at + 1,
        ),
        (EngineOpening::SettingUp { pragmas, session }, OpeningEvent::Schema(event)) => {
            let (session, action) = session_next(session, event);
            match action {
                SessionAction::Finish(Ok(_)) => settles(pragmas, 0),
                SessionAction::Finish(Err(error)) => (
                    EngineOpening::Finished,
                    OpeningAction::Finish(Err(error)),
                ),
                action => (
                    EngineOpening::SettingUp { pragmas, session },
                    OpeningAction::Schema(action),
                ),
            }
        },
        (EngineOpening::Settling { pragmas, at }, OpeningEvent::Executed(_)) => settles(
            pragmas,
            at + 1,
        ),
        _ => arbitrary(),
    }
}

/// Goes on with the first round of statements.
fn prepare<D>(pragmas: Pragmas, db_info: D, at: usize) -> (step: OpeningStep<D>)
    ensures
        step == prepares(pragmas, db_info, at as int),
{
    if at < pragmas.before.len() {
        let statement = pragmas.before[at];
        (EngineOpening::Preparing { pragmas, db_info, at }, OpeningAction::Execute { statement })
    } else {
        let (session, action) = StoreSession::with_transaction(db_info);
        (EngineOpening::SettingUp { pragmas, session }, OpeningAction::Schema(action))
    }
}

/// Goes on with the second round of statements.
fn settle<D>(pragmas: Pragmas, at: usize) -> (step: OpeningStep<D>)
    ensures
        step == settles::<D>(pragmas, at as int),
{
    if at < pragmas.after.len() {
        let statement = pragmas.after[at];
        (EngineOpening::Settling { pragmas, at }, OpeningAction::Execute { statement })
    } else {
        (EngineOpening::Finished, OpeningAction::Finish(Ok(())))
    }
}

impl<D> EngineOpening<D> {
    /// Opens the database that `db_info` describes: the first thing to do is to make
    /// its directory.
    pub fn start(pragmas: Pragmas, db_info: D) -> (step: OpeningStep<D>)
        ensures
            step.0 == (EngineOpening::CreatingDirectory { pragmas, db_info }),
            step.1 == OpeningAction::<D>::CreateDirectory,
    {
        (EngineOpening::CreatingDirectory { pragmas, db_info }, OpeningAction::CreateDirectory)
    }

    /// Whether the event says how that went which the opening has asked for.
    pub fn awaits(&self, event: &OpeningEvent) -> (result: bool)
        ensures
            result == opening_awaits(*self, *event),
    {
        match (self, event) {
            (EngineOpening::CreatingDirectory { .. }, OpeningEvent::DirectoryCreated(_)) => true,
            (EngineOpening::OpeningStore { .. }, OpeningEvent::StoreOpened(_)) => true,
            (EngineOpening::Preparing { pragmas, at, .. }, OpeningEvent::Executed(_)) => *at
                < pragmas.before.len(),
            (EngineOpening::SettingUp { session, .. }, OpeningEvent::Schema(event)) =>
                session.awaits(event),
            (EngineOpening::Settling { pragmas, at }, OpeningEvent::Executed(_)) => *at
                < pragmas.after.len(),
            _ => false,
        }
    }

    /// Goes on after the event: where the opening stands then, and what it asks for
    /// next.
    pub fn step(self, event: OpeningEvent) -> (step: OpeningStep<D>)
        requires
            opening_awaits(self, event),
        ensures
            step == opening_next(self, event),
    {
        match (self, event) {
            (
                EngineOpening::CreatingDirectory { pragmas, db_info },
                OpeningEvent::DirectoryCreated(created),
            ) => match created {
                Ok(_) => (
                    EngineOpening::OpeningStore { pragmas, db_info },
                    OpeningAction::OpenStore { file_name: INDEXEDDB_FILE_NAME },
                ),
                Err(error) => (EngineOpening::Finished, OpeningAction::Finish(Err(error))),
            },
            (EngineOpening::OpeningStore { pragmas, db_info }, OpeningEvent::StoreOpened(opened)) => {
                match opened {
                    Ok(_) => prepare(pragmas, db_info, 0),
                    Err(error) => (EngineOpening::Finished, OpeningAction::Finish(Err(error))),
                }
            },
            (EngineOpening::Preparing { pragmas, db_info, at }, OpeningEvent::Executed(_)) => {
                assert(at < pragmas.before.len());
                prepare(pragmas, db_info, at + 1)
            },
            (EngineOpening::SettingUp { pragmas, session }, OpeningEvent::Schema(event)) => {
                let (session, action) = session.step(event);
                match action {
                    SessionAction::Finish(Ok(_)) => settle(pragmas, 0),
                    SessionAction::Finish(Err(error)) => (
                        EngineOpening::Finished,
                        OpeningAction::Finish(Err(error)),
                    ),
                    action => (
                        EngineOpening::SettingUp { pragmas, session },
                        OpeningAction::Schema(action),
                    ),
                }
            },
            (EngineOpening::Settling { pragmas, at }, OpeningEvent::Executed(_)) => {
                assert(at < pragmas.after.len());
                settle(pragmas, at + 1)
            },
            _ => unreached(),
        }
    }
}

/// What is answered in the course of an opening; each round of statements is answered
/// position by position.
pub struct OpeningAnswers {
    pub directory: OhosRdbResult<()>,
    pub store: OhosRdbResult<()>,
    pub executed_before: Seq<OhosRdbResult<()>>,
    pub schema: SessionAnswers<()>,
    pub executed_after: Seq<OhosRdbResult<()>>,
}

/// What an opening is told where it stands.
pub open spec fn opening_told<D>(
    opening: EngineOpening<D>,
    answers: OpeningAnswers,
) -> OpeningEvent {
    match opening {
        EngineOpening::CreatingDirectory { .. } => OpeningEvent::DirectoryCreated(
            answers.directory,
        ),
        EngineOpening::OpeningStore { .. } => OpeningEvent::StoreOpened(answers.store),
        EngineOpening::Preparing { at, .. } => OpeningEvent::Executed(
            answers.executed_before[at as int],
        ),
        EngineOpening::SettingUp { session, .. } => OpeningEvent::Schema(
            session_told(session, answers.schema),
        ),
        EngineOpening::Settling { at, .. } => OpeningEvent::Executed(
            answers.executed_after[at as int],
        ),
        EngineOpening::Finished => arbitrary(),
    }
}

/// How many more steps an opening can take at most.
pub open spec fn opening_steps_left<D>(opening: EngineOpening<D>) -> int {
    match opening {
        EngineOpening::CreatingDirectory { pragmas, .. } => 7 + pragmas.before@.len() as int
            + pragmas.after@.len(),
        EngineOpening::OpeningStore { pragmas, .. } => 6 + pragmas.before@.len() as int
            + pragmas.after@.len(),
        EngineOpening::Preparing { pragmas, at, .. } => 5 + pragmas.before@.len() - at
            + pragmas.after@.len(),
        EngineOpening::SettingUp { pragmas, session } => 1 + session_steps_left(session) as int
            + pragmas.after@.len(),
        EngineOpening::Settling { pragmas, at } => 1 + pragmas.after@.len() - at,
        EngineOpening::Finished => 0,
    }
}

/// All that an opening asks for from where it stands to its end.
pub open spec fn opening_actions<D>(opening: EngineOpening<D>, answers: OpeningAnswers) -> Seq<
    OpeningAction<D>,
>
    decreases opening_steps_left(opening),
{
    if !opening_awaits(opening, opening_told(opening, answers)) {
        Seq::empty()
    } else {
        proof {
            match opening {
                EngineOpening::Preparing { pragmas, .. } => {
                    assert(pragmas.before@.len() == pragmas.before.len());
                },
                EngineOpening::Settling { pragmas, .. } => {
                    assert(pragmas.after@.len() == pragmas.after.len());
                },
                _ => {},
            }
        }
        let (next, action) = opening_next(opening, opening_told(opening, answers));
        seq![action] + opening_actions(next, answers)
    }
}

/// The statements are executed one after the other.
pub open spec fn executes<D>(statements: Seq<&'static str>) -> Seq<OpeningAction<D>> {
    statements.map_values(|statement: &'static str| OpeningAction::<D>::Execute { statement })
}

/// All that a session asks for but its end, as an opening passes it on.
pub open spec fn schema_steps<D>(course: Seq<SessionAction<D, ()>>) -> Seq<OpeningAction<D>> {
    course.drop_last().map_values(|action: SessionAction<D, ()>| OpeningAction::Schema(action))
}

/// What follows the setting up of the schema: the second round of statements if it
/// went well, else the end.
pub open spec fn after_schema<D>(pragmas: Pragmas, result: OhosRdbResult<()>) -> Seq<
    OpeningAction<D>,
> {
    match result {
        Ok(_) => executes::<D>(pragmas.after@).push(OpeningAction::Finish(Ok(()))),
        Err(error) => seq![OpeningAction::Finish(Err(error))],
    }
}

/// The course of an opening after the directory was asked for: the store is opened,
/// the first round of statements is executed, the schema is set up in a transaction,
/// and the second round of statements is executed. The first error ends it, but for
/// those of the statements, which make no difference.
pub open spec fn opening_course<D>(
    pragmas: Pragmas,
    db_info: D,
    answers: OpeningAnswers,
) -> Seq<OpeningAction<D>> {
    match answers.directory {
        Err(error) => seq![OpeningAction::Finish(Err(error))],
        Ok(_) => seq![OpeningAction::OpenStore { file_name: INDEXEDDB_FILE_NAME }]
            + match answers.store {
            Err(error) => seq![OpeningAction::Finish(Err(error))],
            Ok(_) => {
                let course = transaction_course(db_info, answers.schema);
                executes::<D>(pragmas.before@).push(OpeningAction::Schema(SessionAction::Begin))
                    + schema_steps(course) + after_schema(pragmas, course.last()->Finish_0)
            },
        },
    }
}

proof fn lemma_settling<D>(pragmas: Pragmas, at: int, answers: OpeningAnswers)
    requires
        0 <= at <= pragmas.after@.len(),
    ensures
        ({
            let (opening, action) = settles::<D>(pragmas, at);
            seq![action] + opening_actions(opening, answers) == executes::<D>(
                pragmas.after@.skip(at),
            ).push(OpeningAction::Finish(Ok(())))
        }),
    decreases pragmas.after@.len() - at,
{
    let (opening, action) = settles::<D>(pragmas, at);
    assert(pragmas.after@.len() == pragmas.after.len());
    if at < pragmas.after@.len() {
        lemma_settling::<D>(pragmas, at + 1, answers);
        assert(executes::<D>(pragmas.after@.skip(at)) =~= seq![action] + executes::<D>(
            pragmas.after@.skip(at + 1),
        ));
        let (next, next_action) = settles::<D>(pragmas, at + 1);
        assert(opening_actions(opening, answers) == seq![next_action] + opening_actions(
            next,
            answers,
        ));
    }
    assert(seq![action] + opening_actions(opening, answers) =~= executes::<D>(
        pragmas.after@.skip(at),
    ).push(OpeningAction::Finish(Ok(()))));
}

proof fn lemma_setting_up<D>(
    pragmas: Pragmas,
    session: StoreSession<D, ()>,
    answers: OpeningAnswers,
)
    requires
        !(session is Finished),
    ensures
        session_actions(session, answers.schema).len() > 0,
        session_actions(session, answers.schema).last() is Finish,
        opening_actions(EngineOpening::SettingUp { pragmas, session }, answers) == schema_steps(
            session_actions(session, answers.schema),
        ) + after_schema(pragmas, session_actions(session, answers.schema).last()->Finish_0),
    decreases session_steps_left(session),
{
    let opening = EngineOpening::SettingUp { pragmas, session };
    let course = session_actions(session, answers.schema);
    let (next, action) = session_next(session, session_told(session, answers.schema));
    let rest = session_actions(next, answers.schema);
    assert(course == seq![action] + rest);
    if next is Finished {
        assert(rest =~= Seq::empty());
        assert(course.last() == action);
        assert(schema_steps(course) =~= Seq::empty());
        assert(action is Finish);
        if action->Finish_0 is Ok {
            lemma_settling::<D>(pragmas, 0, answers);
            assert(pragmas.after@.skip(0) =~= pragmas.after@);
        } else {
            assert(opening_actions(EngineOpening::<D>::Finished, answers) =~= Seq::empty());
        }
    } else {
        lemma_setting_up(pragmas, next, answers);
        assert(!(action is Finish));
        assert(opening_actions(opening, answers) == seq![OpeningAction::Schema(action)]
            + opening_actions(EngineOpening::SettingUp { pragmas, session: next }, answers));
        assert(course.last() == rest.last());
        assert(schema_steps(course) =~= seq![OpeningAction::Schema(action)] + schema_steps(rest));
    }
    assert(opening_actions(opening, answers) =~= schema_steps(course) + after_schema(
        pragmas,
        course.last()->Finish_0,
    ));
}

proof fn lemma_preparing<D>(pragmas: Pragmas, db_info: D, at: int, answers: OpeningAnswers)
    requires
        0 <= at <= pragmas.before@.len(),
    ensures
        ({
            let (opening, action) = prepares(pragmas, db_info, at);
            let course = transaction_course(db_info, answers.schema);
            seq![action] + opening_actions(opening, answers) == executes::<D>(
                pragmas.before@.skip(at),
            ).push(OpeningAction::Schema(SessionAction::Begin)) + schema_steps(course)
                + after_schema(pragmas, course.last()->Finish_0)
        }),
    decreases pragmas.before@.len() - at,
{
    let (opening, action) = prepares(pragmas, db_info, at);
    let course = transaction_course(db_info, answers.schema);
    assert(pragmas.before@.len() == pragmas.before.len());
    if at < pragmas.before@.len() {
        lemma_preparing(pragmas, db_info, at + 1, answers);
        assert(executes::<D>(pragmas.before@.skip(at)) =~= seq![action] + executes::<D>(
            pragmas.before@.skip(at + 1),
        ));
        let (next, next_action) = prepares(pragmas, db_info, at + 1);
        assert(opening_actions(opening, answers) == seq![next_action] + opening_actions(
            next,
            answers,
        ));
    } else {
        law_transaction_course(db_info, answers.schema);
        lemma_setting_up(pragmas, StoreSession::Beginning { body: db_info }, answers);
    }
    assert(seq![action] + opening_actions(opening, answers) =~= executes::<D>(
        pragmas.before@.skip(at),
    ).push(OpeningAction::Schema(SessionAction::Begin)) + schema_steps(course) + after_schema(
        pragmas,
        course.last()->Finish_0,
    ));
}

/// An opening takes its course whatever is answered.
pub proof fn law_opening_course<D>(pragmas: Pragmas, db_info: D, answers: OpeningAnswers)
    ensures
        opening_actions(EngineOpening::CreatingDirectory { pragmas, db_info }, answers)
            == opening_course(pragmas, db_info, answers),
{
    reveal_with_fuel(opening_actions, 3);
    if answers.directory is Ok && answers.store is Ok {
        lemma_preparing(pragmas, db_info, 0, answers);
        assert(pragmas.before@.skip(0) =~= pragmas.before@);
    }
    assert(opening_actions(EngineOpening::CreatingDirectory { pragmas, db_info }, answers)
        =~= opening_course(pragmas, db_info, answers));
}

/// The event says how the action went.
pub open spec fn answers_opening_action<D>(action: OpeningAction<D>, event: OpeningEvent) -> bool {
    match action {
        OpeningAction::CreateDirectory => event is DirectoryCreated,
        OpeningAction::OpenStore { .. } => event is StoreOpened,
        OpeningAction::Execute { .. } => event is Executed,
        OpeningAction::Schema(action) => match event {
            OpeningEvent::Schema(event) => answers_session_action(action, event),
            _ => false,
        },
        OpeningAction::Finish(_) => false,
    }
}

/// Whoever answers what an opening asks for can always hand the answer to the
/// opening: after every step it awaits exactly the events that say how the action
/// went which it asked for.
pub proof fn law_opening_answers_are_awaited<D>(
    opening: EngineOpening<D>,
    event: OpeningEvent,
    answer: OpeningEvent,
)
    requires
        opening_awaits(opening, event),
    ensures
        opening_awaits(opening_next(opening, event).0, answer) <==> answers_opening_action(
            opening_next(opening, event).1,
            answer,
        ),
{
    match opening {
        EngineOpening::Preparing { pragmas, .. } => {
            assert(pragmas.before@.len() == pragmas.before.len());
        },
        EngineOpening::Settling { pragmas, .. } => {
            assert(pragmas.after@.len() == pragmas.after.len());
        },
        _ => {},
    }
}

} // verus!
