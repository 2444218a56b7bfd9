//! Decisions of the migration runner, as step functions. The caller owns the
//! database: it carries out each action and hands back what happened. The
//! runner never stops the chain at a failed migration: the failure is
//! recorded and the next migration is tried; at the end it reports how many
//! migrations failed.

use vstd::prelude::*;

use crate::knowledge::texts;
use crate::migrations::{
    contains_text, count_failures, executable_statement, failures, is_idempotent_error, lemma_no_failure_reports_zero, lowercase,
    says_already_applied, spec_executable, MigrationOutcome,
};

verus! {

/// Where the run stands with the current migration.
#[derive(Debug, Clone, Copy, PartialEq, Eq, Structural)]
pub enum RunPhase {
    /// Nothing pending: the next step moves on to the next migration.
    Ready,
    /// Waiting to learn whether the current migration was applied before.
    Checking,
    /// Waiting for the outcome of applying the current migration.
    Applying,
    /// Waiting for the outcome of recording the current migration as applied.
    Recording,
    /// Every migration has an outcome.
    Finished,
}

/// What the caller reports back after carrying out an action.
#[derive(Debug, Clone, Copy, PartialEq, Eq, Structural)]
pub enum MigrationEvent {
    /// The action gave nothing to decide on.
    Continue,
    /// Whether the current migration is recorded as applied.
    Checked(bool),
    /// Whether applying the current migration succeeded.
    Applied(bool),
    /// Whether recording the current migration as applied succeeded.
    Recorded(bool),
}

/// What the caller is asked to do next.
#[derive(Debug, Clone, Copy, PartialEq, Eq, Structural)]
pub enum MigrationAction {
    /// Look up whether migration `i` is recorded as applied.
    CheckApplied(usize),
    /// Apply migration `index`; with `foreign_keys_off`, switch foreign-key
    /// enforcement off before and restore it after.
    Apply { index: usize, foreign_keys_off: bool },
    /// Record migration `i` as applied.
    RecordApplied(usize),
    /// Record that migration `i` failed; the run then goes on.
    RecordFailure(usize),
    /// The run is over; this many migrations failed.
    Done(usize),
}

/// State of a migration run over `total` migrations.
pub struct RunState {
    /// Position of the current migration.
    pub next: usize,
    /// Number of migrations in the run.
    pub total: usize,
    pub phase: RunPhase,
    /// Outcome of each migration before `next`, in order.
    pub outcomes: Vec<MigrationOutcome>,
}

/// Abstract value of a [`RunState`].
pub struct RunView {
    pub next: nat,
    pub total: nat,
    pub phase: RunPhase,
    pub outcomes: Seq<MigrationOutcome>,
}

impl View for RunState {
    type V = RunView;

    open spec fn view(&self) -> RunView {
        RunView { next: self.next as nat, total: self.total as nat, phase: self.phase, outcomes: self.outcomes@ }
    }
}

/// A run state is consistent: one outcome per migration before the current
/// one; a migration is pending only while one is left; finished only at the
/// end.
pub open spec fn run_wf(v: RunView) -> bool {
    &&& v.outcomes.len() == v.next
    &&& v.next <= v.total
    &&& v.total <= usize::MAX
    &&& (v.phase == RunPhase::Finished ==> v.next == v.total)
    &&& (v.phase == RunPhase::Checking || v.phase == RunPhase::Applying || v.phase == RunPhase::Recording)
        ==> v.next < v.total
}

impl RunState {
    pub open spec fn wf(&self) -> bool {
        run_wf(self@)
    }
}

/// The state at the start of a run over `total` migrations.
pub open spec fn run_start(total: nat) -> RunView {
    RunView { next: 0, total, phase: RunPhase::Ready, outcomes: Seq::empty() }
}

/// The current migration ends with outcome `o`; the run moves past it.
pub open spec fn settle(v: RunView, o: MigrationOutcome) -> RunView {
    RunView { next: v.next + 1, total: v.total, phase: RunPhase::Ready, outcomes: v.outcomes.push(o) }
}

/// `v` in phase `p`.
pub open spec fn in_phase(v: RunView, p: RunPhase) -> RunView {
    RunView { next: v.next, total: v.total, phase: p, outcomes: v.outcomes }
}

/// Moving on: check the next migration, or finish with the failure count.
pub open spec fn advance(v: RunView) -> (RunView, MigrationAction) {
    if v.next >= v.total {
        (in_phase(v, RunPhase::Finished), MigrationAction::Done(failures(v.outcomes) as usize))
    } else {
        (in_phase(v, RunPhase::Checking), MigrationAction::CheckApplied(v.next as usize))
    }
}

/// One step of the runner: from its state, the foreign-key flag of the
/// current migration and the caller's report, the next state and action. A
/// report that does not answer the pending action leaves the state as it is
/// and asks for that action again.
pub open spec fn spec_migration_step(v: RunView, needs_fk_off: bool, e: MigrationEvent) -> (RunView, MigrationAction) {
    let i = v.next as usize;
    match v.phase {
        RunPhase::Ready => advance(v),
        RunPhase::Finished => (v, MigrationAction::Done(failures(v.outcomes) as usize)),
        RunPhase::Checking => match e {
            MigrationEvent::Checked(true) => advance(settle(v, MigrationOutcome::AlreadyApplied)),
            MigrationEvent::Checked(false) => (
                in_phase(v, RunPhase::Applying),
                MigrationAction::Apply { index: i, foreign_keys_off: needs_fk_off },
            ),
            _ => (v, MigrationAction::CheckApplied(i)),
        },
        RunPhase::Applying => match e {
            MigrationEvent::Applied(true) => (in_phase(v, RunPhase::Recording), MigrationAction::RecordApplied(i)),
            MigrationEvent::Applied(false) => (settle(v, MigrationOutcome::Failed), MigrationAction::RecordFailure(i)),
            _ => (v, MigrationAction::Apply { index: i, foreign_keys_off: needs_fk_off }),
        },
        RunPhase::Recording => match e {
            MigrationEvent::Recorded(true) => advance(settle(v, MigrationOutcome::Applied)),
            MigrationEvent::Recorded(false) => advance(settle(v, MigrationOutcome::BookkeepingFailed)),
            _ => (v, MigrationAction::RecordApplied(i)),
        },
    }
}

/// The failures among some outcomes are at most their number.
pub proof fn lemma_failures_bounded(outcomes: Seq<MigrationOutcome>)
    ensures
        failures(outcomes) <= outcomes.len(),
    decreases outcomes.len(),
{
    if outcomes.len() > 0 {
        lemma_failures_bounded(outcomes.drop_last());
    }
}

/// The state at the start of a run over `total` migrations.
pub fn migration_start(total: usize) -> (s: RunState)
    ensures
        s@ == run_start(total as nat),
        s.wf(),
{
    RunState { next: 0, total, phase: RunPhase::Ready, outcomes: Vec::new() }
}

fn advance_exec(s: RunState) -> (r: (RunState, MigrationAction))
    requires
        s.wf(),
        s.phase == RunPhase::Ready,
    ensures
        r.0@ == advance(s@).0,
        r.1 == advance(s@).1,
{
    if s.next >= s.total {
        proof {
            lemma_failures_bounded(s.outcomes@);
        }
        let c = count_failures(s.outcomes.as_slice());
        (RunState { next: s.next, total: s.total, phase: RunPhase::Finished, outcomes: s.outcomes }, MigrationAction::Done(c))
    } else {
        let i = s.next;
        (RunState { next: s.next, total: s.total, phase: RunPhase::Checking, outcomes: s.outcomes }, MigrationAction::CheckApplied(i))
    }
}

fn settle_exec(s: RunState, o: MigrationOutcome) -> (r: RunState)
    requires
        s.wf(),
        s.next < s.total,
    ensures
        r@ == settle(s@, o),
        r.wf(),
{
    let mut outcomes = s.outcomes;
    outcomes.push(o);
    RunState { next: s.next + 1, total: s.total, phase: RunPhase::Ready, outcomes }
}

/// One step of the migration runner.
pub fn migration_step(state: RunState, needs_fk_off: bool, event: MigrationEvent) -> (r: (RunState, MigrationAction))
    requires
        state.wf(),
    ensures
        r.0@ == spec_migration_step(state@, needs_fk_off, event).0,
        r.1 == spec_migration_step(state@, needs_fk_off, event).1,
        r.0.wf(),
{
    let i = state.next;
    match state.phase {
        RunPhase::Ready => advance_exec(state),
        RunPhase::Finished => {
            proof {
                lemma_failures_bounded(state.outcomes@);
            }
            let c = count_failures(state.outcomes.as_slice());
            (state, MigrationAction::Done(c))
        },
        RunPhase::Checking => match event {
            MigrationEvent::Checked(true) => advance_exec(settle_exec(state, MigrationOutcome::AlreadyApplied)),
            MigrationEvent::Checked(false) => (
                RunState { next: i, total: state.total, phase: RunPhase::Applying, outcomes: state.outcomes },
                MigrationAction::Apply { index: i, foreign_keys_off: needs_fk_off },
            ),
            _ => (state, MigrationAction::CheckApplied(i)),
        },
        RunPhase::Applying => match event {
            MigrationEvent::Applied(true) => (
                RunState { next: i, total: state.total, phase: RunPhase::Recording, outcomes: state.outcomes },
                MigrationAction::RecordApplied(i),
            ),
            MigrationEvent::Applied(false) => (settle_exec(state, MigrationOutcome::Failed), MigrationAction::RecordFailure(i)),
            _ => (state, MigrationAction::Apply { index: i, foreign_keys_off: needs_fk_off }),
        },
        RunPhase::Recording => match event {
            MigrationEvent::Recorded(true) => advance_exec(settle_exec(state, MigrationOutcome::Applied)),
            MigrationEvent::Recorded(false) => advance_exec(settle_exec(state, MigrationOutcome::BookkeepingFailed)),
            _ => (state, MigrationAction::RecordApplied(i)),
        },
    }
}

/// Every step keeps the run state consistent.
pub proof fn lemma_step_keeps_wf(v: RunView, needs_fk_off: bool, e: MigrationEvent)
    requires
        run_wf(v),
    ensures
        run_wf(spec_migration_step(v, needs_fk_off, e).0),
{
}

/// The runner reports the end of a run only once every migration has an
/// outcome, and the count it reports is the number of migrations that failed
/// to apply or to be recorded.
pub proof fn lemma_done_counts_failures(v: RunView, needs_fk_off: bool, e: MigrationEvent, c: usize)
    requires
        run_wf(v),
        spec_migration_step(v, needs_fk_off, e).1 == MigrationAction::Done(c),
    ensures
        ({
            let w = spec_migration_step(v, needs_fk_off, e).0;
            &&& w.phase == RunPhase::Finished
            &&& w.next == w.total
            &&& w.outcomes.len() == w.total
            &&& c == failures(w.outcomes)
        }),
{
    let w = spec_migration_step(v, needs_fk_off, e).0;
    lemma_failures_bounded(w.outcomes);
}

/// A migration that fails to apply does not stop the run: the failure is
/// recorded as its outcome and the next step goes on to the following
/// migration (or ends the run if it was the last).
pub proof fn lemma_failure_moves_on(v: RunView, needs_fk_off: bool, next_fk_off: bool, e: MigrationEvent)
    requires
        run_wf(v),
        v.phase == RunPhase::Applying,
    ensures
        ({
            let (w, a) = spec_migration_step(v, needs_fk_off, MigrationEvent::Applied(false));
            &&& a == MigrationAction::RecordFailure(v.next as usize)
            &&& w.outcomes == v.outcomes.push(MigrationOutcome::Failed)
            &&& w.next == v.next + 1
            &&& spec_migration_step(w, next_fk_off, e).1 == if w.next < w.total {
                MigrationAction::CheckApplied(w.next as usize)
            } else {
                MigrationAction::Done(failures(w.outcomes) as usize)
            }
        }),
{
}

/// The caller's report answers the pending action.
pub open spec fn answers(v: RunView, e: MigrationEvent) -> bool {
    match v.phase {
        RunPhase::Checking => e is Checked,
        RunPhase::Applying => e is Applied,
        RunPhase::Recording => e is Recorded,
        _ => true,
    }
}

/// How far a run is from its end.
pub open spec fn remaining_steps(v: RunView) -> int {
    let rank: int = match v.phase {
        RunPhase::Ready => 4,
        RunPhase::Checking => 3,
        RunPhase::Applying => 2,
        RunPhase::Recording => 1,
        RunPhase::Finished => 0,
    };
    if v.phase == RunPhase::Finished {
        0
    } else {
        5 * (v.total - v.next) + rank
    }
}

/// A run whose reports answer its actions ends: each such step brings it
/// strictly closer to the end, which is never further than five steps per
/// migration.
pub proof fn lemma_answered_step_progresses(v: RunView, needs_fk_off: bool, e: MigrationEvent)
    requires
        run_wf(v),
        v.phase != RunPhase::Finished,
        answers(v, e),
    ensures
        0 <= remaining_steps(spec_migration_step(v, needs_fk_off, e).0) < remaining_steps(v),
        remaining_steps(v) <= 5 * v.total + 4,
{
}

/// The flag of migration `i` among `flags` (off past the end).
pub open spec fn flag_at(flags: Seq<bool>, i: nat) -> bool {
    if i < flags.len() {
        flags[i as int]
    } else {
        false
    }
}

/// The state after feeding a run the reports `events`, with the foreign-key
/// flags of the migrations in `flags`.
pub open spec fn run_from(v: RunView, flags: Seq<bool>, events: Seq<MigrationEvent>) -> RunView
    decreases events.len(),
{
    if events.len() == 0 {
        v
    } else {
        run_from(spec_migration_step(v, flag_at(flags, v.next), events[0]).0, flags, events.drop_first())
    }
}

/// Whatever the reports, a run stays consistent.
pub proof fn lemma_run_keeps_wf(v: RunView, flags: Seq<bool>, events: Seq<MigrationEvent>)
    requires
        run_wf(v),
    ensures
        run_wf(run_from(v, flags, events)),
        run_from(v, flags, events).total == v.total,
    decreases events.len(),
{
    if events.len() > 0 {
        lemma_run_keeps_wf(spec_migration_step(v, flag_at(flags, v.next), events[0]).0, flags, events.drop_first());
    }
}

/// Over any sequence of reports from the start of a run, when the runner
/// says the run is over, every migration has an outcome and the reported
/// count is the number of failed ones.
pub proof fn lemma_run_reports_failures(total: nat, flags: Seq<bool>, events: Seq<MigrationEvent>, e: MigrationEvent, c: usize)
    requires
        total <= usize::MAX,
        ({
            let v = run_from(run_start(total), flags, events);
            spec_migration_step(v, flag_at(flags, v.next), e).1 == MigrationAction::Done(c)
        }),
    ensures
        ({
            let v = run_from(run_start(total), flags, events);
            let w = spec_migration_step(v, flag_at(flags, v.next), e).0;
            &&& w.outcomes.len() == total
            &&& c == failures(w.outcomes)
        }),
{
    let v = run_from(run_start(total), flags, events);
    lemma_run_keeps_wf(run_start(total), flags, events);
    lemma_done_counts_failures(v, flag_at(flags, v.next), e, c);
}

/// Every outcome so far is "already applied".
pub open spec fn all_already_applied(outcomes: Seq<MigrationOutcome>) -> bool {
    forall|i: int| 0 <= i < outcomes.len() ==> #[trigger] outcomes[i] == MigrationOutcome::AlreadyApplied
}

/// A state of a rerun: nothing is being applied or recorded, and every
/// migration so far was found already applied.
pub open spec fn rerun_state(v: RunView) -> bool {
    &&& run_wf(v)
    &&& (v.phase == RunPhase::Ready || v.phase == RunPhase::Checking || v.phase == RunPhase::Finished)
    &&& all_already_applied(v.outcomes)
}

/// Steps left in a rerun before the runner reports the end.
pub open spec fn rerun_pending(v: RunView) -> int {
    match v.phase {
        RunPhase::Ready => v.total - v.next + 1,
        RunPhase::Checking => v.total - v.next,
        _ => 0,
    }
}

proof fn lemma_rerun_step(v: RunView, needs_fk_off: bool)
    requires
        rerun_state(v),
    ensures
        ({
            let (w, a) = spec_migration_step(v, needs_fk_off, MigrationEvent::Checked(true));
            &&& rerun_state(w)
            &&& w.total == v.total
            &&& rerun_pending(w) == if rerun_pending(v) > 0 {
                rerun_pending(v) - 1
            } else {
                0
            }
            &&& !(a is Apply) && !(a is RecordApplied) && !(a is RecordFailure)
            &&& (a is Done <==> rerun_pending(v) <= 1)
            &&& (a matches MigrationAction::Done(c) ==> c == 0)
        }),
{
    let (w, a) = spec_migration_step(v, needs_fk_off, MigrationEvent::Checked(true));
    assert(all_already_applied(w.outcomes)) by {
        if v.phase == RunPhase::Checking {
            assert forall|i: int| 0 <= i < w.outcomes.len() implies #[trigger] w.outcomes[i]
                == MigrationOutcome::AlreadyApplied by {
                if i < v.outcomes.len() {
                    assert(w.outcomes[i] == v.outcomes[i]);
                }
            }
        }
    }
    lemma_no_failure_reports_zero(w.outcomes);
    lemma_no_failure_reports_zero(v.outcomes);
}

proof fn lemma_rerun_run(v: RunView, flags: Seq<bool>, events: Seq<MigrationEvent>)
    requires
        rerun_state(v),
        forall|i: int| 0 <= i < events.len() ==> #[trigger] events[i] == MigrationEvent::Checked(true),
    ensures
        ({
            let w = run_from(v, flags, events);
            &&& rerun_state(w)
            &&& w.total == v.total
            &&& rerun_pending(w) == if rerun_pending(v) > events.len() {
                rerun_pending(v) - events.len()
            } else {
                0
            }
        }),
    decreases events.len(),
{
    if events.len() > 0 {
        let fk = flag_at(flags, v.next);
        assert(events[0] == MigrationEvent::Checked(true));
        lemma_rerun_step(v, fk);
        let rest = events.drop_first();
        assert forall|i: int| 0 <= i < rest.len() implies #[trigger] rest[i] == MigrationEvent::Checked(true) by {
            assert(rest[i] == events[i + 1]);
        }
        lemma_rerun_run(spec_migration_step(v, fk, events[0]).0, flags, rest);
    }
}

/// Rerunning migrations that are all already applied changes nothing: when
/// every "already applied?" check answers yes, the runner never asks to
/// apply or record a migration, every outcome is "already applied", and once
/// each migration has been checked it reports the end of the run with zero
/// failures.
pub proof fn lemma_rerun_applies_nothing(total: nat, flags: Seq<bool>, events: Seq<MigrationEvent>, needs_fk_off: bool)
    requires
        total <= usize::MAX,
        forall|i: int| 0 <= i < events.len() ==> #[trigger] events[i] == MigrationEvent::Checked(true),
    ensures
        ({
            let v = run_from(run_start(total), flags, events);
            let a = spec_migration_step(v, needs_fk_off, MigrationEvent::Checked(true)).1;
            &&& all_already_applied(v.outcomes)
            &&& !(a is Apply) && !(a is RecordApplied) && !(a is RecordFailure)
            &&& (a matches MigrationAction::Done(c) ==> c == 0)
            &&& (events.len() >= total ==> a == MigrationAction::Done(0))
        }),
{
    let st = run_start(total);
    lemma_rerun_run(st, flags, events);
    let v = run_from(st, flags, events);
    lemma_rerun_step(v, needs_fk_off);
}

/// How a whole-script attempt ended, and what follows it.
#[derive(Debug, Clone, Copy, PartialEq, Eq, Structural)]
pub enum BatchFallback {
    /// The script applied in one transaction.
    Done,
    /// It failed because part of it is already in place: roll back and apply
    /// it statement by statement.
    StatementByStatement,
    /// It failed otherwise: roll back and report the failure.
    Fail,
}

/// What follows a whole-script attempt that ended with `error`.
pub open spec fn spec_after_batch(error: Option<Seq<char>>) -> BatchFallback {
    match error {
        None => BatchFallback::Done,
        Some(m) => if says_already_applied(lowercase(m)) {
            BatchFallback::StatementByStatement
        } else {
            BatchFallback::Fail
        },
    }
}

/// The text of an optional message.
pub open spec fn opt_str(o: Option<&str>) -> Option<Seq<char>> {
    match o {
        Some(m) => Some(m@),
        None => None,
    }
}

/// What follows a whole-script attempt (in one transaction) that ended with
/// `error`: done, a statement-by-statement retry when the error says the
/// change is already in place, or a failure.
pub fn after_batch(error: Option<&str>) -> (r: BatchFallback)
    ensures
        r == spec_after_batch(opt_str(error)),
{
    match error {
        None => BatchFallback::Done,
        Some(m) => if is_idempotent_error(m) {
            BatchFallback::StatementByStatement
        } else {
            BatchFallback::Fail
        },
    }
}

/// The next step of a statement-by-statement retry.
#[derive(Debug, Clone, PartialEq, Eq)]
pub enum BatchAction {
    /// Execute this statement.
    Execute(String),
    /// Every statement is done: commit.
    Commit,
    /// A statement failed for another reason than "already applied": roll
    /// back and report its error.
    Rollback,
}

/// Position of the first piece from `i` on that holds a statement to execute
/// (the number of pieces when none is left).
pub open spec fn next_executable(parts: Seq<Seq<char>>, i: int) -> int
    decreases parts.len() - i,
{
    if i < 0 || i >= parts.len() {
        parts.len() as int
    } else if spec_executable(parts[i]) is Some {
        i
    } else {
        next_executable(parts, i + 1)
    }
}

/// The pieces skipped on the way to the next statement hold nothing to
/// execute, and the next statement lies within the script.
pub proof fn lemma_next_executable_skips(parts: Seq<Seq<char>>, i: int)
    requires
        0 <= i <= parts.len(),
    ensures
        i <= next_executable(parts, i) <= parts.len(),
        forall|k: int| i <= k < next_executable(parts, i) ==> spec_executable(#[trigger] parts[k]) is None,
        next_executable(parts, i) < parts.len() ==> spec_executable(parts[next_executable(parts, i)]) is Some,
    decreases parts.len() - i,
{
    if i < parts.len() && spec_executable(parts[i]) is None {
        lemma_next_executable_skips(parts, i + 1);
    }
}

/// The last statement failed for another reason than "already applied".
pub open spec fn fatal_error(last_error: Option<Seq<char>>) -> bool {
    match last_error {
        Some(m) => !says_already_applied(lowercase(m)),
        None => false,
    }
}

/// One step of a statement-by-statement retry over the pieces `parts` of a
/// split script, at position `i`, after the previous statement ended with
/// `last_error`: roll back on an error that does not say "already applied";
/// otherwise execute the next piece that holds a statement (blank and
/// comment-only pieces are skipped) and continue after it, or commit when
/// none is left.
pub fn statement_step(parts: &[String], i: usize, last_error: Option<&str>) -> (r: (usize, BatchAction))
    requires
        i <= parts.len(),
    ensures
        fatal_error(opt_str(last_error)) ==> r.0 == i && r.1 == BatchAction::Rollback,
        !fatal_error(opt_str(last_error)) ==> ({
            let j = next_executable(texts(parts@), i as int);
            if j < parts.len() {
                &&& r.0 == j + 1
                &&& r.1 matches BatchAction::Execute(t) && spec_executable(parts@[j]@) == Some(t@)
            } else {
                r.0 == parts.len() && r.1 == BatchAction::Commit
            }
        }),
{
    if let Some(m) = last_error {
        if !is_idempotent_error(m) {
            return (i, BatchAction::Rollback);
        }
    }
    let ghost tp = texts(parts@);
    let mut j: usize = i;
    while j < parts.len()
        invariant
            i <= j <= parts.len(),
            tp == texts(parts@),
            !fatal_error(opt_str(last_error)),
            next_executable(tp, j as int) == next_executable(tp, i as int),
        decreases parts.len() - j,
    {
        assert(tp[j as int] == parts@[j as int]@);
        match executable_statement(parts[j].as_str()) {
            Some(t) => {
                return (j + 1, BatchAction::Execute(t));
            },
            None => {
                j = j + 1;
            },
        }
    }
    (parts.len(), BatchAction::Commit)
}

/// Only a failure that says the change is already in place leads to the
/// statement-by-statement retry, and only such a failure is skipped there:
/// the lower-cased message must mention "duplicate column name" or "already
/// exists". Any other failure (a violated constraint, a syntax error, a
/// missing table) fails the whole-script attempt and rolls back the retry.
pub proof fn lemma_only_already_applied_is_tolerated(message: Seq<char>)
    ensures
        ({
            let lowered = lowercase(message);
            let tolerated = contains_text(lowered, "duplicate column name"@) || contains_text(
                lowered,
                "already exists"@,
            );
            &&& (spec_after_batch(Some(message)) == BatchFallback::StatementByStatement) == tolerated
            &&& (spec_after_batch(Some(message)) == BatchFallback::Fail) == !tolerated
            &&& fatal_error(Some(message)) == !tolerated
        }),
        spec_after_batch(None) == BatchFallback::Done,
        !fatal_error(None),
{
}

} // verus!
