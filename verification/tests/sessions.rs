use ohos_rdb_engine::error::{missing_row, OhosRdbError, OhosRdbResult};
use ohos_rdb_engine::lookup::{Lookup, LookupAction, LookupEvent};
use ohos_rdb_engine::session::{SessionAction, SessionEvent, SessionStep, StoreSession};

fn failure(text: &str) -> OhosRdbError {
    OhosRdbError::Reported { debug: text.to_string() }
}

fn result_of(text: &str, ok: bool) -> OhosRdbResult<()> {
    if ok {
        Ok(())
    } else {
        Err(failure(text))
    }
}

struct Answers {
    locked: bool,
    begun: bool,
    ran: bool,
    committed: bool,
    rolled_back: bool,
}

fn drive(first: SessionStep<&'static str, u64>, answers: &Answers) -> (Vec<&'static str>, OhosRdbResult<u64>) {
    let (mut session, mut action) = first;
    let mut log = vec![];
    loop {
        let event = match action {
            SessionAction::Lock => {
                log.push("lock");
                SessionEvent::Locked(answers.locked)
            }
            SessionAction::Begin => {
                log.push("begin");
                SessionEvent::Begun(result_of("begin", answers.begun))
            }
            SessionAction::Run(body) => {
                log.push(body);
                SessionEvent::Ran(result_of("run", answers.ran).map(|_| 77))
            }
            SessionAction::Commit => {
                log.push("commit");
                SessionEvent::Committed(result_of("commit", answers.committed))
            }
            SessionAction::Rollback => {
                log.push("rollback");
                SessionEvent::RolledBack(result_of("rollback", answers.rolled_back))
            }
            SessionAction::Finish(result) => {
                assert_eq!(session, StoreSession::Finished);
                return (log, result);
            }
        };
        assert!(session.awaits(&event));
        (session, action) = session.step(event);
    }
}

fn all_well() -> Answers {
    Answers { locked: true, begun: true, ran: true, committed: true, rolled_back: true }
}

#[test]
fn successful_call_is_committed() {
    assert_eq!(
        drive(StoreSession::with_store("call"), &all_well()),
        (vec!["lock", "begin", "call", "commit"], Ok(77))
    );
    assert_eq!(
        drive(StoreSession::with_transaction("call"), &all_well()),
        (vec!["begin", "call", "commit"], Ok(77))
    );
}

#[test]
fn poisoned_lock_is_a_missing_row() {
    let answers = Answers { locked: false, ..all_well() };
    assert_eq!(
        drive(StoreSession::with_store("call"), &answers),
        (vec!["lock"], Err(missing_row("OHOS RDB store lock")))
    );
}

#[test]
fn transaction_that_does_not_begin() {
    let answers = Answers { begun: false, ..all_well() };
    assert_eq!(
        drive(StoreSession::with_store("call"), &answers),
        (vec!["lock", "begin"], Err(failure("begin")))
    );
}

#[test]
fn failed_call_is_rolled_back() {
    let answers = Answers { ran: false, ..all_well() };
    assert_eq!(
        drive(StoreSession::with_store("call"), &answers),
        (vec!["lock", "begin", "call", "rollback"], Err(failure("run")))
    );
}

#[test]
fn failed_rollback_keeps_the_error_of_the_call() {
    let answers = Answers { ran: false, rolled_back: false, ..all_well() };
    assert_eq!(
        drive(StoreSession::with_transaction("call"), &answers),
        (vec!["begin", "call", "rollback"], Err(failure("run")))
    );
}

#[test]
fn failed_commit_is_the_result() {
    let answers = Answers { committed: false, ..all_well() };
    assert_eq!(
        drive(StoreSession::with_transaction("call"), &answers),
        (vec!["begin", "call", "commit"], Err(failure("commit")))
    );
}

#[test]
fn commit_or_rollback_but_never_both() {
    for bits in 0..32 {
        let answers = Answers {
            locked: bits & 1 != 0,
            begun: bits & 2 != 0,
            ran: bits & 4 != 0,
            committed: bits & 8 != 0,
            rolled_back: bits & 16 != 0,
        };
        let (log, result) = drive(StoreSession::with_store("call"), &answers);
        let ran = answers.locked && answers.begun;
        assert_eq!(log.contains(&"call"), ran);
        assert_eq!(log.contains(&"commit"), ran && answers.ran);
        assert_eq!(log.contains(&"rollback"), ran && !answers.ran);
        assert_eq!(result.is_ok(), ran && answers.ran && answers.committed);
    }
}

#[test]
fn session_awaits_only_what_it_asked_for() {
    let (session, _): SessionStep<&str, u64> = StoreSession::with_store("call");
    assert!(session.awaits(&SessionEvent::Locked(false)));
    assert!(!session.awaits(&SessionEvent::Begun(Ok(()))));
    let (session, _) = session.step(SessionEvent::Locked(true));
    assert!(!session.awaits(&SessionEvent::Locked(true)));
    assert!(session.awaits(&SessionEvent::Begun(Ok(()))));
}

fn look_up(locked: bool, begun: bool, ran: OhosRdbResult<Option<i64>>, committed: bool) -> (Vec<&'static str>, Option<i64>) {
    let (mut lookup, mut action) = Lookup::start("call");
    let mut log = vec![];
    let mut ran = Some(ran);
    loop {
        let event = match action {
            LookupAction::Lock => {
                log.push("lock");
                LookupEvent::Locked(locked)
            }
            LookupAction::Begin => {
                log.push("begin");
                LookupEvent::Begun(result_of("begin", begun))
            }
            LookupAction::Run(body) => {
                log.push(body);
                LookupEvent::Ran(ran.take().unwrap())
            }
            LookupAction::Commit => {
                log.push("commit");
                LookupEvent::Committed(result_of("commit", committed))
            }
            LookupAction::Finish(value) => {
                assert_eq!(lookup, Lookup::Finished);
                return (log, value);
            }
        };
        assert!(lookup.awaits(&event));
        (lookup, action) = lookup.step(event);
    }
}

#[test]
fn lookup_brings_the_value() {
    assert_eq!(
        look_up(true, true, Ok(Some(12)), true),
        (vec!["lock", "begin", "call", "commit"], Some(12))
    );
    assert_eq!(
        look_up(true, true, Ok(None), true),
        (vec!["lock", "begin", "call", "commit"], None)
    );
}

#[test]
fn lookup_brings_nothing_when_anything_fails() {
    assert_eq!(look_up(false, true, Ok(Some(12)), true), (vec!["lock"], None));
    assert_eq!(look_up(true, false, Ok(Some(12)), true), (vec!["lock", "begin"], None));
    assert_eq!(
        look_up(true, true, Err(failure("run")), true),
        (vec!["lock", "begin", "call"], None)
    );
    assert_eq!(
        look_up(true, true, Ok(Some(12)), false),
        (vec!["lock", "begin", "call", "commit"], None)
    );
}
