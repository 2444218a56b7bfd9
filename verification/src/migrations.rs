//! Building blocks of the migration runner: which pieces of a split script
//! are worth executing, which failures mean "already applied", the
//! transaction and foreign-key statements around a migration, and the
//! outcome of each migration in a run.

use vstd::prelude::*;

use crate::answers::opt_text;
use crate::text::{chars_of, push_char, string_from_chars, trim, trim_chars};

verus! {

/// The full Unicode lower-case form of a text, as `str::to_lowercase` gives it.
pub uninterp spec fn lowercase(s: Seq<char>) -> Seq<char>;

/// Lower-cases a text with std's `str::to_lowercase`; the result is named
/// [`lowercase`] of the input and nothing more is claimed of it.
#[verifier::external_body]
fn to_lowercase(s: &str) -> (r: String)
    ensures
        r@ == lowercase(s@),
{
    s.to_lowercase()
}

/// `needle` occurs in `hay`.
pub open spec fn contains_text(hay: Seq<char>, needle: Seq<char>) -> bool {
    exists|i: int| 0 <= i && i + needle.len() <= hay.len() && #[trigger] hay.subrange(i, i + needle.len()) == needle
}

/// Whether `needle` occurs in `hay`.
pub fn text_contains(hay: &str, needle: &str) -> (r: bool)
    ensures
        r == contains_text(hay@, needle@),
{
    let h = chars_of(hay);
    let n = chars_of(needle);
    if n.len() > h.len() {
        return false;
    }
    let last = h.len() - n.len();
    let mut i: usize = 0;
    while i <= last
        invariant
            h@ == hay@,
            n@ == needle@,
            last == h.len() - n.len(),
            n.len() <= h.len(),
            forall|p: int| 0 <= p < i ==> #[trigger] h@.subrange(p, p + n.len()) != n@,
        decreases last + 1 - i,
    {
        let mut k: usize = 0;
        let mut same = true;
        while k < n.len()
            invariant
                i <= last,
                last == h.len() - n.len(),
                k <= n.len(),
                same ==> forall|q: int| 0 <= q < k ==> h@[i + q] == n@[q],
                !same ==> h@.subrange(i as int, i + n.len()) != n@,
            decreases n.len() - k,
        {
            if h[i + k] != n[k] {
                assert(h@.subrange(i as int, i + n.len())[k as int] != n@[k as int]);
                same = false;
            }
            k = k + 1;
        }
        if same {
            assert(h@.subrange(i as int, i + n.len()) =~= n@);
            return true;
        }
        if i == last {
            return false;
        }
        i = i + 1;
    }
    false
}

pub const DUPLICATE_COLUMN: &'static str = "duplicate column name";
pub const ALREADY_EXISTS: &'static str = "already exists";

/// A lower-cased error message says the change is already in place.
pub open spec fn says_already_applied(lowered: Seq<char>) -> bool {
    contains_text(lowered, DUPLICATE_COLUMN@) || contains_text(lowered, ALREADY_EXISTS@)
}

/// Whether a lower-cased error message reports a duplicate column or an
/// object that already exists.
pub fn mentions_already_applied(lowered: &str) -> (r: bool)
    ensures
        r == says_already_applied(lowered@),
{
    text_contains(lowered, DUPLICATE_COLUMN) || text_contains(lowered, ALREADY_EXISTS)
}

/// Whether a failure message means the migration (or statement) was already
/// applied, so that it can be skipped: the lower-cased message mentions a
/// duplicate column or something that already exists.
pub fn is_idempotent_error(message: &str) -> (r: bool)
    ensures
        r == says_already_applied(lowercase(message@)),
{
    let lowered = to_lowercase(message);
    mentions_already_applied(lowered.as_str())
}

/// End of the line that starts at `i` (the next `\n`, or the end).
pub open spec fn line_end(t: Seq<char>, i: int) -> int
    decreases t.len() - i,
{
    if i < 0 || i >= t.len() {
        t.len() as int
    } else if t[i] == '\n' {
        i
    } else {
        line_end(t, i + 1)
    }
}

/// A line that is blank or a `--` comment.
pub open spec fn blank_or_comment(line: Seq<char>) -> bool {
    let t = trim(line);
    t.len() == 0 || (t.len() >= 2 && t[0] == '-' && t[1] == '-')
}

/// Every line of `t` from position `i` on is blank or a comment.
pub open spec fn only_comments_from(t: Seq<char>, i: int) -> bool
    decreases t.len() + 1 - i,
{
    if i < 0 || i > t.len() {
        true
    } else {
        let e = line_end(t, i);
        proof {
            lemma_line_end_bounds(t, i);
        }
        blank_or_comment(t.subrange(i, e)) && (e >= t.len() || only_comments_from(t, e + 1))
    }
}

/// The statement to execute for one piece of a split script: the trimmed
/// piece with its `;` restored, or `None` when the piece is blank or only
/// comments.
pub open spec fn spec_executable(stmt: Seq<char>) -> Option<Seq<char>> {
    let t = trim(stmt);
    if t.len() == 0 || only_comments_from(t, 0) {
        None
    } else {
        Some(t.push(';'))
    }
}

/// A line ends within the text, at or after its start.
pub proof fn lemma_line_end_bounds(t: Seq<char>, i: int)
    requires
        0 <= i <= t.len(),
    ensures
        i <= line_end(t, i) <= t.len(),
    decreases t.len() - i,
{
    if i < t.len() && t[i] != '\n' {
        lemma_line_end_bounds(t, i + 1);
    }
}

/// Whether every line of `t` is blank or a comment.
fn only_comment_lines(t: &Vec<char>) -> (r: bool)
    ensures
        r == only_comments_from(t@, 0),
{
    let n = t.len();
    let mut i: usize = 0;
    loop
        invariant
            n == t@.len(),
            i <= n,
            only_comments_from(t@, i as int) == only_comments_from(t@, 0),
        decreases n + 1 - i,
    {
        let mut e: usize = i;
        while e < n && t[e] != '\n'
            invariant
                n == t@.len(),
                i <= e <= n,
                line_end(t@, e as int) == line_end(t@, i as int),
            decreases n - e,
        {
            e = e + 1;
        }
        let mut line: Vec<char> = Vec::new();
        let mut k = i;
        while k < e
            invariant
                i <= k <= e <= n,
                n == t@.len(),
                line@ == t@.subrange(i as int, k as int),
            decreases e - k,
        {
            line.push(t[k]);
            k = k + 1;
        }
        let trimmed = trim_chars(line.as_slice());
        let ok = trimmed.len() == 0 || (trimmed.len() >= 2 && trimmed[0] == '-' && trimmed[1] == '-');
        if !ok {
            return false;
        }
        if e >= n {
            return true;
        }
        i = e + 1;
    }
}

/// The statement to execute for one piece of a split script: the trimmed
/// piece followed by `;`, or `None` when it is blank or holds only comments.
pub fn executable_statement(stmt: &str) -> (r: Option<String>)
    ensures
        opt_text(r) == spec_executable(stmt@),
{
    let v = chars_of(stmt);
    let t = trim_chars(v.as_slice());
    if t.len() == 0 || only_comment_lines(&t) {
        return None;
    }
    let mut s = string_from_chars(t.as_slice());
    push_char(&mut s, ';');
    Some(s)
}

pub const TRANSACTION_BEGIN: &'static str = "BEGIN IMMEDIATE;\n";
pub const TRANSACTION_COMMIT: &'static str = "\nCOMMIT;";
pub const FOREIGN_KEYS_ON: &'static str = "PRAGMA foreign_keys = ON;";
pub const FOREIGN_KEYS_OFF: &'static str = "PRAGMA foreign_keys = OFF;";

/// A whole migration script wrapped in one immediate transaction, so that it
/// applies all or nothing.
pub fn wrap_in_transaction(sql: &str) -> (r: String)
    ensures
        r@ == TRANSACTION_BEGIN@ + sql@ + TRANSACTION_COMMIT@,
{
    let mut r = TRANSACTION_BEGIN.to_owned();
    r.append(sql);
    r.append(TRANSACTION_COMMIT);
    r
}

/// The statement that puts foreign-key enforcement back as it was before a
/// migration that needed it off.
pub fn foreign_keys_restore(prior_enabled: bool) -> (r: &'static str)
    ensures
        r@ == if prior_enabled {
            FOREIGN_KEYS_ON@
        } else {
            FOREIGN_KEYS_OFF@
        },
{
    if prior_enabled {
        FOREIGN_KEYS_ON
    } else {
        FOREIGN_KEYS_OFF
    }
}

/// What became of one migration in a run.
#[derive(Debug, Clone, Copy, PartialEq, Eq, Structural)]
pub enum MigrationOutcome {
    /// Recorded as applied by an earlier run; not attempted.
    AlreadyApplied,
    /// Applied and recorded.
    Applied,
    /// Applied, but recording it failed.
    BookkeepingFailed,
    /// Applying it failed; the failure was recorded and the run went on.
    Failed,
}

/// Whether an outcome counts as a failure of the run.
pub open spec fn is_failure(o: MigrationOutcome) -> bool {
    o == MigrationOutcome::BookkeepingFailed || o == MigrationOutcome::Failed
}

/// Number of failures among the outcomes.
pub open spec fn failures(outcomes: Seq<MigrationOutcome>) -> nat
    decreases outcomes.len(),
{
    if outcomes.len() == 0 {
        0
    } else {
        failures(outcomes.drop_last()) + if is_failure(outcomes.last()) {
            1nat
        } else {
            0nat
        }
    }
}

/// Number of migrations of a run that failed (to apply, or to be recorded).
/// A run never stops at a failure; this is what it reports.
pub fn count_failures(outcomes: &[MigrationOutcome]) -> (r: usize)
    ensures
        r == failures(outcomes@),
        r <= outcomes.len(),
{
    let mut n: usize = 0;
    let mut i: usize = 0;
    while i < outcomes.len()
        invariant
            i <= outcomes.len(),
            n == failures(outcomes@.subrange(0, i as int)),
            n <= i,
        decreases outcomes.len() - i,
    {
        assert(outcomes@.subrange(0, i + 1).drop_last() =~= outcomes@.subrange(0, i as int));
        if outcomes[i] == MigrationOutcome::BookkeepingFailed || outcomes[i] == MigrationOutcome::Failed {
            n = n + 1;
        }
        i = i + 1;
    }
    assert(outcomes@.subrange(0, outcomes.len() as int) =~= outcomes@);
    n
}

/// A run reports a failure count of zero exactly when no migration failed;
/// in particular a rerun, where every migration is already applied, reports
/// none.
pub proof fn lemma_no_failure_reports_zero(outcomes: Seq<MigrationOutcome>)
    ensures
        (failures(outcomes) == 0) == (forall|i: int| 0 <= i < outcomes.len() ==> !is_failure(#[trigger] outcomes[i])),
    decreases outcomes.len(),
{
    if outcomes.len() > 0 {
        let d = outcomes.drop_last();
        lemma_no_failure_reports_zero(d);
        if failures(outcomes) == 0 {
            assert forall|i: int| 0 <= i < outcomes.len() implies !is_failure(#[trigger] outcomes[i]) by {
                if i < outcomes.len() - 1 {
                    assert(d[i] == outcomes[i]);
                }
            }
        } else if forall|i: int| 0 <= i < outcomes.len() ==> !is_failure(#[trigger] outcomes[i]) {
            assert forall|i: int| 0 <= i < d.len() implies !is_failure(#[trigger] d[i]) by {
                assert(d[i] == outcomes[i]);
            }
            assert(!is_failure(outcomes[outcomes.len() - 1]));
        }
    }
}

} // verus!
