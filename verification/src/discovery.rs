//! Discovery engine: builds the localized interview questions, finds the next
//! unanswered question and computes interview progress. Pure logic.

use vstd::prelude::*;

use crate::content::{question, question_key, spec_question, total, QuestionSpec, QUESTION_COUNT};
use crate::text::str_eq;
use crate::types::{DiscoveryProgress, DiscoveryQuestion};

verus! {

/// `q` is question `i` of the interview, localized and numbered.
pub open spec fn question_matches(q: DiscoveryQuestion, i: int) -> bool {
    let s = spec_question(i);
    &&& q.key@ == s.key@
    &&& q.index == i + 1
    &&& q.total == QUESTION_COUNT
    &&& q.prompt@ == s.prompt@
    &&& q.purpose@ == s.purpose@
    &&& q.explanation@ == s.explanation@
    &&& q.example@ == s.example@
    &&& q.optional == s.optional
}

/// The key `k` occurs among the answered keys.
pub open spec fn key_answered(keys: Seq<String>, k: Seq<char>) -> bool {
    exists|j: int| 0 <= j < keys.len() && #[trigger] keys[j]@ == k
}

/// `r` is the first question, in interview order, whose key is not answered
/// (`None` once every question is answered).
pub open spec fn is_next_question(keys: Seq<String>, r: Option<DiscoveryQuestion>) -> bool {
    match r {
        None => forall|i: int| 0 <= i < QUESTION_COUNT ==> key_answered(keys, #[trigger] question_key(i)),
        Some(q) => exists|i: int|
            0 <= i < QUESTION_COUNT && question_matches(q, i) && !key_answered(
                keys,
                #[trigger] question_key(i),
            ) && forall|j: int| 0 <= j < i ==> key_answered(keys, #[trigger] question_key(j)),
    }
}

/// The question built from content entry `spec` at 0-based position `idx`.
pub fn to_question(spec: &QuestionSpec, idx: usize, total: usize) -> (q: DiscoveryQuestion)
    requires
        idx < usize::MAX,
    ensures
        q.key@ == spec.key@,
        q.index == idx + 1,
        q.total == total,
        q.prompt@ == spec.prompt@,
        q.purpose@ == spec.purpose@,
        q.explanation@ == spec.explanation@,
        q.example@ == spec.example@,
        q.optional == spec.optional,
{
    DiscoveryQuestion {
        key: spec.key.to_owned(),
        index: idx + 1,
        total,
        prompt: spec.prompt.to_owned(),
        purpose: spec.purpose.to_owned(),
        explanation: spec.explanation.to_owned(),
        example: spec.example.to_owned(),
        optional: spec.optional,
    }
}

/// The full ordered interview, localized.
pub fn all_questions() -> (r: Vec<DiscoveryQuestion>)
    ensures
        r.len() == QUESTION_COUNT,
        forall|i: int| 0 <= i < QUESTION_COUNT ==> question_matches(#[trigger] r[i], i),
{
    let n = total();
    let mut out: Vec<DiscoveryQuestion> = Vec::new();
    let mut i: usize = 0;
    while i < n
        invariant
            n == QUESTION_COUNT,
            i <= n,
            out.len() == i,
            forall|k: int| 0 <= k < i ==> question_matches(#[trigger] out[k], k),
        decreases n - i,
    {
        let spec = question(i);
        out.push(to_question(&spec, i, n));
        i = i + 1;
    }
    out
}

/// Look up a single question by its key.
pub fn question_by_key(key: &str) -> (r: Option<DiscoveryQuestion>)
    ensures
        r is None <==> forall|i: int| 0 <= i < QUESTION_COUNT ==> #[trigger] question_key(i) != key@,
        forall|i: int|
            0 <= i < QUESTION_COUNT && #[trigger] question_key(i) == key@ ==> (r matches Some(q)
                && question_matches(q, i)),
{
    let n = total();
    let mut i: usize = 0;
    while i < n
        invariant
            n == QUESTION_COUNT,
            i <= n,
            forall|k: int| 0 <= k < i ==> #[trigger] question_key(k) != key@,
        decreases n - i,
    {
        let spec = question(i);
        if str_eq(spec.key, key) {
            let q = to_question(&spec, i, n);
            assert(question_key(i as int) == key@);
            assert forall|j: int|
                0 <= j < QUESTION_COUNT && #[trigger] question_key(j) == key@ implies j == i by {
                if j != i {
                    crate::content::lemma_question_keys_distinct(i as int, j);
                }
            }
            return Some(q);
        }
        i = i + 1;
    }
    None
}

/// Whether `key` is among `keys`.
fn contains_key(keys: &[String], key: &str) -> (r: bool)
    ensures
        r == key_answered(keys@, key@),
{
    let mut j: usize = 0;
    while j < keys.len()
        invariant
            j <= keys.len(),
            forall|k: int| 0 <= k < j ==> keys@[k]@ != key@,
        decreases keys.len() - j,
    {
        if str_eq(keys[j].as_str(), key) {
            assert(keys@[j as int]@ == key@);
            return true;
        }
        j = j + 1;
    }
    false
}

/// First question, in order, whose key is not yet among `answered_keys`.
pub fn next_question(answered_keys: &[String]) -> (r: Option<DiscoveryQuestion>)
    ensures
        is_next_question(answered_keys@, r),
{
    let n = total();
    let mut i: usize = 0;
    while i < n
        invariant
            n == QUESTION_COUNT,
            i <= n,
            forall|j: int| 0 <= j < i ==> key_answered(answered_keys@, #[trigger] question_key(j)),
        decreases n - i,
    {
        let spec = question(i);
        if !contains_key(answered_keys, spec.key) {
            let q = to_question(&spec, i, n);
            assert(question_matches(q, i as int));
            assert(!key_answered(answered_keys@, question_key(i as int)));
            return Some(q);
        }
        i = i + 1;
    }
    None
}

/// `p` is the progress snapshot of the session `session_id` at stage `stage`
/// with the given answered keys: answered count capped at the interview size,
/// complete exactly when no question is left, and the next question.
pub open spec fn is_progress(p: DiscoveryProgress, session_id: Seq<char>, stage: Seq<char>, keys: Seq<String>) -> bool {
    &&& p.session_id@ == session_id
    &&& p.stage@ == stage
    &&& p.answered == if keys.len() < QUESTION_COUNT {
        keys.len() as usize
    } else {
        QUESTION_COUNT
    }
    &&& p.total == QUESTION_COUNT
    &&& p.complete == (p.next_question is None)
    &&& is_next_question(keys, p.next_question)
}

/// A progress snapshot from the already-answered question keys.
pub fn progress(session_id: &str, stage: &str, answered_keys: &[String]) -> (p: DiscoveryProgress)
    ensures
        is_progress(p, session_id@, stage@, answered_keys@),
{
    let n = total();
    let next = next_question(answered_keys);
    let len = answered_keys.len();
    let answered = if len < n {
        len
    } else {
        n
    };
    let complete = next.is_none();
    DiscoveryProgress {
        session_id: session_id.to_owned(),
        stage: stage.to_owned(),
        answered,
        total: n,
        complete,
        next_question: next,
    }
}

/// Once every question key has been answered there is no next question, and
/// the interview is complete.
pub proof fn lemma_all_answered_is_complete(keys: Seq<String>, r: Option<DiscoveryQuestion>)
    requires
        forall|i: int| 0 <= i < QUESTION_COUNT ==> key_answered(keys, #[trigger] question_key(i)),
        is_next_question(keys, r),
    ensures
        r is None,
{
    if let Some(q) = r {
        let i = choose|i: int|
            0 <= i < QUESTION_COUNT && question_matches(q, i) && !key_answered(
                keys,
                #[trigger] question_key(i),
            ) && forall|j: int| 0 <= j < i ==> key_answered(keys, #[trigger] question_key(j));
        assert(key_answered(keys, question_key(i)));
    }
}

/// Answering the next question moves the interview strictly forward: the new
/// next question, if any, comes later in the interview.
pub proof fn lemma_answering_advances(
    keys: Seq<String>,
    q: DiscoveryQuestion,
    answer: String,
    r: Option<DiscoveryQuestion>,
)
    requires
        is_next_question(keys, Some(q)),
        answer@ == q.key@,
        is_next_question(keys.push(answer), r),
    ensures
        r matches Some(q2) ==> q2.index > q.index,
{
    let i = choose|i: int|
        0 <= i < QUESTION_COUNT && question_matches(q, i) && !key_answered(
            keys,
            #[trigger] question_key(i),
        ) && forall|j: int| 0 <= j < i ==> key_answered(keys, #[trigger] question_key(j));
    let keys2 = keys.push(answer);
    assert(keys2[keys.len() as int]@ == question_key(i));
    assert(key_answered(keys2, question_key(i)));
    if let Some(q2) = r {
        let i2 = choose|i2: int|
            0 <= i2 < QUESTION_COUNT && question_matches(q2, i2) && !key_answered(
                keys2,
                #[trigger] question_key(i2),
            ) && forall|j: int| 0 <= j < i2 ==> key_answered(keys2, #[trigger] question_key(j));
        if i2 < i {
            assert(key_answered(keys, question_key(i2)));
            let w = choose|w: int| 0 <= w < keys.len() && #[trigger] keys[w]@ == question_key(i2);
            assert(keys2[w]@ == question_key(i2));
        }
    }
}

/// The texts of a list of keys.
pub open spec fn key_texts(keys: Seq<String>) -> Seq<Seq<char>> {
    keys.map_values(|k: String| k@)
}

/// The keys of the interview, in order.
pub open spec fn interview_keys() -> Seq<Seq<char>> {
    Seq::new(QUESTION_COUNT as nat, |i: int| question_key(i))
}

/// `k` is the key of one of the interview's questions.
pub open spec fn is_interview_key(k: Seq<char>) -> bool {
    exists|i: int| 0 <= i < QUESTION_COUNT && #[trigger] question_key(i) == k
}

/// When the answered keys are distinct interview keys, a progress snapshot is
/// complete exactly when its answered count reaches the total.
pub proof fn lemma_complete_iff_count_reaches_total(
    p: DiscoveryProgress,
    session_id: Seq<char>,
    stage: Seq<char>,
    keys: Seq<String>,
)
    requires
        is_progress(p, session_id, stage, keys),
        key_texts(keys).no_duplicates(),
        forall|j: int| 0 <= j < keys.len() ==> is_interview_key(#[trigger] keys[j]@),
    ensures
        p.complete <==> p.answered == p.total,
{
    let kt = key_texts(keys);
    let ik = interview_keys();
    assert forall|a: int, b: int| 0 <= a < ik.len() && 0 <= b < ik.len() && a != b implies ik[a] != ik[b] by {
        crate::content::lemma_question_keys_distinct(a, b);
    }
    assert(ik.no_duplicates());
    ik.unique_seq_to_set();
    kt.unique_seq_to_set();
    let kset = kt.to_set();
    let qset = ik.to_set();
    assert forall|x: Seq<char>| kset.contains(x) implies qset.contains(x) by {
        assert(kt.contains(x));
        let j = choose|j: int| 0 <= j < kt.len() && kt[j] == x;
        assert(kt[j] == keys[j]@);
        assert(is_interview_key(keys[j]@));
        let i = choose|i: int| 0 <= i < QUESTION_COUNT && #[trigger] question_key(i) == keys[j]@;
        assert(ik[i] == question_key(i));
        assert(ik.contains(x));
    }
    assert(kset.subset_of(qset));
    vstd::set_lib::lemma_len_subset(kset, qset);
    assert(keys.len() <= QUESTION_COUNT);
    if p.complete {
        assert forall|x: Seq<char>| qset.contains(x) implies kset.contains(x) by {
            assert(ik.contains(x));
            let i = choose|i: int| 0 <= i < ik.len() && ik[i] == x;
            assert(key_answered(keys, question_key(i)));
            let j = choose|j: int| 0 <= j < keys.len() && #[trigger] keys[j]@ == question_key(i);
            assert(kt[j] == x);
            assert(kt.contains(x));
        }
        assert(qset.subset_of(kset));
        vstd::set_lib::lemma_len_subset(qset, kset);
    }
    if p.answered == p.total {
        assert(keys.len() == QUESTION_COUNT);
        vstd::set_lib::lemma_subset_equality(kset, qset);
        assert forall|i: int| 0 <= i < QUESTION_COUNT implies key_answered(keys, #[trigger] question_key(i)) by {
            assert(ik[i] == question_key(i));
            assert(ik.contains(question_key(i)));
            assert(qset.contains(question_key(i)));
            assert(kset.contains(question_key(i)));
            assert(kt.contains(question_key(i)));
            let j = choose|j: int| 0 <= j < kt.len() && kt[j] == question_key(i);
            assert(keys[j]@ == question_key(i));
        }
        lemma_all_answered_is_complete(keys, p.next_question);
    }
}

} // verus!
