use baseproject_config::save_queue::{
    step, SaveAction, SaveEvent, SaveState, WriteError, RETRY_DELAY_MILLIS,
};

const FRESH: SaveState = SaveState::Writing { retried: false, pending: false };

#[test]
fn a_request_while_idle_starts_a_write() {
    assert_eq!(step(SaveState::Idle, SaveEvent::Requested), (FRESH, SaveAction::Write));
}

#[test]
fn stray_results_while_idle_do_nothing() {
    assert_eq!(
        step(SaveState::Idle, SaveEvent::Written),
        (SaveState::Idle, SaveAction::Nothing)
    );
    assert_eq!(
        step(SaveState::Idle, SaveEvent::Failed(WriteError::NotWritten)),
        (SaveState::Idle, SaveAction::Nothing)
    );
}

#[test]
fn requests_during_a_write_are_folded_into_one() {
    let (s1, a1) = step(FRESH, SaveEvent::Requested);
    assert_eq!(a1, SaveAction::Nothing);
    assert_eq!(s1, SaveState::Writing { retried: false, pending: true });
    let (s2, a2) = step(s1, SaveEvent::Requested);
    assert_eq!((s2, a2), (s1, SaveAction::Nothing));
    let (s3, a3) = step(s2, SaveEvent::Written);
    assert_eq!((s3, a3), (FRESH, SaveAction::Write));
    assert_eq!(step(s3, SaveEvent::Written), (SaveState::Idle, SaveAction::Nothing));
}

#[test]
fn a_write_without_further_requests_ends_idle() {
    assert_eq!(step(FRESH, SaveEvent::Written), (SaveState::Idle, SaveAction::Nothing));
}

#[test]
fn a_failure_is_retried_once_then_reported() {
    let (s1, a1) = step(FRESH, SaveEvent::Failed(WriteError::NotWritten));
    assert_eq!(a1, SaveAction::RetryAfterDelay);
    assert_eq!(s1, SaveState::Writing { retried: true, pending: false });
    let (s2, a2) = step(s1, SaveEvent::Failed(WriteError::NotReplaced));
    assert_eq!(a2, SaveAction::Report(WriteError::NotReplaced));
    assert_eq!(s2, SaveState::Idle);
}

#[test]
fn a_retry_that_succeeds_ends_idle() {
    let (s1, _) = step(FRESH, SaveEvent::Failed(WriteError::NotReplaced));
    assert_eq!(step(s1, SaveEvent::Written), (SaveState::Idle, SaveAction::Nothing));
}

#[test]
fn a_retry_takes_up_what_was_pending() {
    let pending = SaveState::Writing { retried: false, pending: true };
    assert_eq!(
        step(pending, SaveEvent::Failed(WriteError::NotWritten)),
        (SaveState::Writing { retried: true, pending: false }, SaveAction::RetryAfterDelay)
    );
}

#[test]
fn a_failed_retry_with_a_request_pending_reports_and_writes() {
    let state = SaveState::Writing { retried: true, pending: true };
    assert_eq!(
        step(state, SaveEvent::Failed(WriteError::NotWritten)),
        (FRESH, SaveAction::ReportAndWrite(WriteError::NotWritten))
    );
}

#[test]
fn a_request_during_a_retry_is_kept() {
    let state = SaveState::Writing { retried: true, pending: false };
    assert_eq!(
        step(state, SaveEvent::Requested),
        (SaveState::Writing { retried: true, pending: true }, SaveAction::Nothing)
    );
    assert_eq!(
        step(SaveState::Writing { retried: true, pending: true }, SaveEvent::Written),
        (FRESH, SaveAction::Write)
    );
}

#[test]
fn never_more_than_one_write_under_way() {
    let events = [
        SaveEvent::Requested,
        SaveEvent::Requested,
        SaveEvent::Failed(WriteError::NotWritten),
        SaveEvent::Requested,
        SaveEvent::Failed(WriteError::NotReplaced),
        SaveEvent::Written,
        SaveEvent::Written,
        SaveEvent::Requested,
        SaveEvent::Written,
    ];
    let mut state = SaveState::Idle;
    let mut under_way = 0;
    for event in events {
        if event != SaveEvent::Requested && under_way > 0 {
            under_way -= 1;
        }
        let (next, action) = step(state, event);
        if matches!(
            action,
            SaveAction::Write | SaveAction::RetryAfterDelay | SaveAction::ReportAndWrite(_)
        ) {
            under_way += 1;
        }
        assert!(under_way <= 1);
        assert_eq!(under_way == 1, next != SaveState::Idle);
        state = next;
    }
    assert_eq!(state, SaveState::Idle);
}

#[test]
fn the_retry_delay_is_short_and_fixed() {
    assert_eq!(RETRY_DELAY_MILLIS, 200);
}
