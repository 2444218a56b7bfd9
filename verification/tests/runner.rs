use exsul::migrations::MigrationOutcome;
use exsul::runner::{
    after_batch, migration_start, migration_step, statement_step, BatchAction, BatchFallback,
    MigrationAction, MigrationEvent, RunPhase, RunState,
};

fn step(state: RunState, event: MigrationEvent) -> (RunState, MigrationAction) {
    migration_step(state, false, event)
}

#[test]
fn run_with_no_migrations_is_done_at_once() {
    let (state, action) = step(migration_start(0), MigrationEvent::Continue);
    assert_eq!(action, MigrationAction::Done(0));
    assert_eq!(state.phase, RunPhase::Finished);
    let (_, again) = step(state, MigrationEvent::Applied(false));
    assert_eq!(again, MigrationAction::Done(0));
}

#[test]
fn rerun_skips_applied_migrations_and_reports_no_failure() {
    let (s, a) = step(migration_start(2), MigrationEvent::Continue);
    assert_eq!(a, MigrationAction::CheckApplied(0));
    let (s, a) = step(s, MigrationEvent::Checked(true));
    assert_eq!(a, MigrationAction::CheckApplied(1));
    let (s, a) = step(s, MigrationEvent::Checked(true));
    assert_eq!(a, MigrationAction::Done(0));
    assert_eq!(s.outcomes, vec![MigrationOutcome::AlreadyApplied, MigrationOutcome::AlreadyApplied]);
}

#[test]
fn failed_migration_is_recorded_and_run_goes_on() {
    let (s, a) = step(migration_start(3), MigrationEvent::Continue);
    assert_eq!(a, MigrationAction::CheckApplied(0));
    let (s, a) = migration_step(s, true, MigrationEvent::Checked(false));
    assert_eq!(a, MigrationAction::Apply { index: 0, foreign_keys_off: true });
    let (s, a) = step(s, MigrationEvent::Applied(false));
    assert_eq!(a, MigrationAction::RecordFailure(0));
    let (s, a) = step(s, MigrationEvent::Continue);
    assert_eq!(a, MigrationAction::CheckApplied(1));
    let (s, a) = step(s, MigrationEvent::Checked(false));
    assert_eq!(a, MigrationAction::Apply { index: 1, foreign_keys_off: false });
    let (s, a) = step(s, MigrationEvent::Applied(true));
    assert_eq!(a, MigrationAction::RecordApplied(1));
    let (s, a) = step(s, MigrationEvent::Recorded(false));
    assert_eq!(a, MigrationAction::CheckApplied(2));
    let (s, a) = step(s, MigrationEvent::Checked(false));
    assert_eq!(a, MigrationAction::Apply { index: 2, foreign_keys_off: false });
    let (s, a) = step(s, MigrationEvent::Applied(true));
    assert_eq!(a, MigrationAction::RecordApplied(2));
    let (s, a) = step(s, MigrationEvent::Recorded(true));
    assert_eq!(a, MigrationAction::Done(2));
    assert_eq!(
        s.outcomes,
        vec![MigrationOutcome::Failed, MigrationOutcome::BookkeepingFailed, MigrationOutcome::Applied]
    );
    assert_eq!(s.next, 3);
}

#[test]
fn unexpected_report_repeats_the_pending_action() {
    let (s, _) = step(migration_start(1), MigrationEvent::Continue);
    let (s, a) = step(s, MigrationEvent::Recorded(true));
    assert_eq!(a, MigrationAction::CheckApplied(0));
    assert_eq!(s.phase, RunPhase::Checking);
    let (s, _) = step(s, MigrationEvent::Checked(false));
    let (s, a) = step(s, MigrationEvent::Continue);
    assert_eq!(a, MigrationAction::Apply { index: 0, foreign_keys_off: false });
    assert!(s.outcomes.is_empty());
}

#[test]
fn whole_script_outcomes() {
    assert_eq!(after_batch(None), BatchFallback::Done);
    assert_eq!(after_batch(Some("table items already exists")), BatchFallback::StatementByStatement);
    assert_eq!(after_batch(Some("Duplicate column name: price")), BatchFallback::StatementByStatement);
    assert_eq!(after_batch(Some("no such table: y")), BatchFallback::Fail);
}

#[test]
fn statement_by_statement_skips_blank_and_comment_pieces() {
    let parts: Vec<String> = vec![
        "  ".to_string(),
        " CREATE TABLE a (x) ".to_string(),
        "-- only a comment".to_string(),
        "\nALTER TABLE a ADD y".to_string(),
        "  \n".to_string(),
    ];
    let (i, a) = statement_step(&parts, 0, None);
    assert_eq!((i, a), (2, BatchAction::Execute("CREATE TABLE a (x);".to_string())));
    let (i, a) = statement_step(&parts, i, Some("duplicate column name: y"));
    assert_eq!((i, a), (4, BatchAction::Execute("ALTER TABLE a ADD y;".to_string())));
    let (i, a) = statement_step(&parts, i, None);
    assert_eq!((i, a), (5, BatchAction::Commit));
}

#[test]
fn statement_by_statement_rolls_back_on_other_errors() {
    let parts: Vec<String> = vec!["SELECT 1".to_string(), "SELECT 2".to_string()];
    let (i, a) = statement_step(&parts, 1, Some("syntax error near SELEC"));
    assert_eq!((i, a), (1, BatchAction::Rollback));
    let (i, a) = statement_step(&parts, 2, Some("index ALREADY EXISTS"));
    assert_eq!((i, a), (2, BatchAction::Commit));
    let empty: Vec<String> = Vec::new();
    assert_eq!(statement_step(&empty, 0, None), (0, BatchAction::Commit));
}

#[test]
fn rerun_of_applied_migrations_asks_for_nothing() {
    let mut s = migration_start(4);
    let mut event = MigrationEvent::Continue;
    let mut checks = 0;
    loop {
        let (next, a) = step(s, event);
        s = next;
        match a {
            MigrationAction::CheckApplied(i) => {
                assert_eq!(i, checks);
                checks += 1;
                event = MigrationEvent::Checked(true);
            }
            MigrationAction::Done(c) => {
                assert_eq!(c, 0);
                break;
            }
            other => panic!("rerun asked for {:?}", other),
        }
    }
    assert_eq!(checks, 4);
    assert_eq!(s.outcomes, vec![MigrationOutcome::AlreadyApplied; 4]);
}
