//! Reading the discovery answers as a map from question key to answer text:
//! blank answers are ignored, texts are trimmed, and a later answer to the
//! same question replaces an earlier one.

use vstd::prelude::*;

use crate::text::{str_eq, trim, trim_str};
use crate::types::DiscoveryAnswer;

verus! {

/// The view of an optional string.
pub open spec fn opt_text(o: Option<String>) -> Option<Seq<char>> {
    match o {
        Some(s) => Some(s@),
        None => None,
    }
}

/// The trimmed text of an answer, when it is present and not blank.
pub open spec fn usable_text(a: DiscoveryAnswer) -> Option<Seq<char>> {
    match a.answer_text {
        Some(t) => if trim(t@).len() > 0 {
            Some(trim(t@))
        } else {
            None
        },
        None => None,
    }
}

/// The answer text recorded for `key`: the last usable answer to it.
pub open spec fn answer_for(answers: Seq<DiscoveryAnswer>, key: Seq<char>) -> Option<Seq<char>>
    decreases answers.len(),
{
    if answers.len() == 0 {
        None
    } else if answers.last().question_key@ == key && usable_text(answers.last()) is Some {
        usable_text(answers.last())
    } else {
        answer_for(answers.drop_last(), key)
    }
}

/// Answer `i` is the one recorded for its key: it is usable and no later
/// answer to the same key is.
pub open spec fn is_recorded(answers: Seq<DiscoveryAnswer>, i: int) -> bool {
    &&& usable_text(answers[i]) is Some
    &&& answer_for(answers.subrange(i + 1, answers.len() as int), answers[i].question_key@) is None
}

/// The recorded `(key, text)` entries among the first `n` answers, in answer order.
pub open spec fn recorded_entries(answers: Seq<DiscoveryAnswer>, n: int) -> Seq<(Seq<char>, Seq<char>)>
    decreases n,
{
    if n <= 0 {
        Seq::empty()
    } else if is_recorded(answers, n - 1) {
        recorded_entries(answers, n - 1).push(
            (answers[n - 1].question_key@, usable_text(answers[n - 1])->0),
        )
    } else {
        recorded_entries(answers, n - 1)
    }
}

/// The view of a list of `(key, text)` entries.
pub open spec fn entries_view(v: Seq<(String, String)>) -> Seq<(Seq<char>, Seq<char>)> {
    v.map_values(|e: (String, String)| (e.0@, e.1@))
}

/// The trimmed text of `a`, when present and not blank.
pub fn usable_answer_text(a: &DiscoveryAnswer) -> (r: Option<String>)
    ensures
        opt_text(r) == usable_text(*a),
{
    match &a.answer_text {
        Some(t) => {
            let trimmed = trim_str(t.as_str());
            if trimmed.as_str().unicode_len() == 0 {
                None
            } else {
                Some(trimmed)
            }
        },
        None => None,
    }
}

/// The text recorded for `key` among the answers from position `lo` on.
pub fn answer_from(answers: &[DiscoveryAnswer], lo: usize, key: &str) -> (r: Option<String>)
    requires
        lo <= answers.len(),
    ensures
        opt_text(r) == answer_for(answers@.subrange(lo as int, answers.len() as int), key@),
{
    let n = answers.len();
    let mut j: usize = n;
    while j > lo
        invariant
            n == answers@.len(),
            lo <= j <= n,
            answer_for(answers@.subrange(lo as int, n as int), key@) == answer_for(
                answers@.subrange(lo as int, j as int),
                key@,
            ),
        decreases j,
    {
        let ghost s = answers@.subrange(lo as int, j as int);
        assert(s.drop_last() =~= answers@.subrange(lo as int, j - 1));
        assert(s.last() == answers@[j - 1]);
        if str_eq(answers[j - 1].question_key.as_str(), key) {
            let t = usable_answer_text(&answers[j - 1]);
            if t.is_some() {
                return t;
            }
        }
        j = j - 1;
    }
    None
}

/// The text recorded for `key`: the last non-blank answer to it, trimmed.
pub fn answer_text_for(answers: &[DiscoveryAnswer], key: &str) -> (r: Option<String>)
    ensures
        opt_text(r) == answer_for(answers@, key@),
{
    let r = answer_from(answers, 0, key);
    assert(answers@.subrange(0, answers.len() as int) =~= answers@);
    r
}

/// The recorded answers as `(question key, trimmed text)` entries, one per
/// answered key, in the order in which the recorded answers were given.
pub fn answers_map(answers: &[DiscoveryAnswer]) -> (r: Vec<(String, String)>)
    ensures
        entries_view(r@) == recorded_entries(answers@, answers.len() as int),
{
    let n = answers.len();
    let mut out: Vec<(String, String)> = Vec::new();
    let mut i: usize = 0;
    while i < n
        invariant
            n == answers@.len(),
            i <= n,
            entries_view(out@) =~= recorded_entries(answers@, i as int),
        decreases n - i,
    {
        let t = usable_answer_text(&answers[i]);
        match t {
            Some(text) => {
                let later = answer_from(answers, i + 1, answers[i].question_key.as_str());
                if later.is_none() {
                    let key = answers[i].question_key.clone();
                    assert(key@ == answers@[i as int].question_key@);
                    out.push((key, text));
                }
            },
            None => {},
        }
        i = i + 1;
    }
    out
}

/// Looking a key up in two runs of answers: the later run wins when it has
/// an answer for the key.
proof fn lemma_answer_for_concat(p: Seq<DiscoveryAnswer>, q: Seq<DiscoveryAnswer>, key: Seq<char>)
    ensures
        answer_for(p + q, key) == if answer_for(q, key) is Some {
            answer_for(q, key)
        } else {
            answer_for(p, key)
        },
    decreases q.len(),
{
    if q.len() == 0 {
        assert(p + q =~= p);
    } else {
        assert((p + q).drop_last() =~= p + q.drop_last());
        assert((p + q).last() == q.last());
        lemma_answer_for_concat(p, q.drop_last(), key);
    }
}

/// A usable answer to `key` anywhere in the run means the key has a text.
proof fn lemma_answer_for_some(q: Seq<DiscoveryAnswer>, j: int, key: Seq<char>)
    requires
        0 <= j < q.len(),
        q[j].question_key@ == key,
        usable_text(q[j]) is Some,
    ensures
        answer_for(q, key) is Some,
    decreases q.len(),
{
    if j < q.len() - 1 && !(q.last().question_key@ == key && usable_text(q.last()) is Some) {
        assert(q.drop_last()[j] == q[j]);
        lemma_answer_for_some(q.drop_last(), j, key);
    }
}

/// The text of a recorded answer is the text recorded for its key.
proof fn lemma_recorded_text(a: Seq<DiscoveryAnswer>, i: int)
    requires
        0 <= i < a.len(),
        is_recorded(a, i),
    ensures
        answer_for(a, a[i].question_key@) == usable_text(a[i]),
{
    let p = a.subrange(0, i + 1);
    let q = a.subrange(i + 1, a.len() as int);
    assert(a =~= p + q);
    lemma_answer_for_concat(p, q, a[i].question_key@);
    assert(p.last() == a[i]);
}

/// A key with a text has a recorded answer.
proof fn lemma_text_is_recorded(a: Seq<DiscoveryAnswer>, key: Seq<char>)
    requires
        answer_for(a, key) is Some,
    ensures
        exists|i: int| 0 <= i < a.len() && is_recorded(a, i) && #[trigger] a[i].question_key@ == key,
    decreases a.len(),
{
    let n = a.len() as int;
    if a.last().question_key@ == key && usable_text(a.last()) is Some {
        assert(a.subrange(n, n) =~= Seq::<DiscoveryAnswer>::empty());
        assert(is_recorded(a, n - 1));
        assert(a[n - 1].question_key@ == key);
    } else {
        let d = a.drop_last();
        lemma_text_is_recorded(d, key);
        let i = choose|i: int| 0 <= i < d.len() && is_recorded(d, i) && #[trigger] d[i].question_key@ == key;
        let k = d[i].question_key@;
        let rest = d.subrange(i + 1, d.len() as int);
        assert(a.subrange(i + 1, n) =~= rest + seq![a.last()]);
        lemma_answer_for_concat(rest, seq![a.last()], k);
        let one = seq![a.last()];
        assert(one.drop_last() =~= Seq::<DiscoveryAnswer>::empty());
        assert(answer_for(one.drop_last(), k) is None);
        assert(one.last() == a.last());
        assert(k == key);
        assert(answer_for(one, k) is None);
        assert(a[i] == d[i]);
        assert(is_recorded(a, i));
    }
}

/// The entry that a recorded answer contributes.
pub open spec fn entry_of(a: Seq<DiscoveryAnswer>, i: int) -> (Seq<char>, Seq<char>) {
    (a[i].question_key@, usable_text(a[i])->0)
}

/// `e` is the entry of a recorded answer before position `n`.
pub open spec fn from_recorded(a: Seq<DiscoveryAnswer>, n: int, e: (Seq<char>, Seq<char>)) -> bool {
    exists|i: int| 0 <= i < n && is_recorded(a, i) && #[trigger] entry_of(a, i) == e
}

/// Every recorded entry among the first `n` answers comes from a recorded
/// answer before `n`, every recorded answer before `n` has its entry, and no
/// key occurs twice.
proof fn lemma_entries_origin(a: Seq<DiscoveryAnswer>, n: int)
    requires
        0 <= n <= a.len(),
    ensures
        forall|m: int|
            0 <= m < recorded_entries(a, n).len() ==> from_recorded(a, n, #[trigger] recorded_entries(a, n)[m]),
        forall|i: int|
            0 <= i < n && is_recorded(a, i) ==> exists|m: int|
                0 <= m < recorded_entries(a, n).len() && #[trigger] recorded_entries(a, n)[m] == entry_of(a, i),
        forall|m1: int, m2: int|
            0 <= m1 < m2 < recorded_entries(a, n).len() ==> (#[trigger] recorded_entries(a, n)[m1]).0
                != (#[trigger] recorded_entries(a, n)[m2]).0,
    decreases n,
{
    if n > 0 {
        lemma_entries_origin(a, n - 1);
        let prev = recorded_entries(a, n - 1);
        let cur = recorded_entries(a, n);
        assert forall|m: int| 0 <= m < prev.len() implies from_recorded(a, n, #[trigger] prev[m]) by {
            assert(from_recorded(a, n - 1, prev[m]));
            let i = choose|i: int| 0 <= i < n - 1 && is_recorded(a, i) && #[trigger] entry_of(a, i) == prev[m];
            assert(0 <= i < n && is_recorded(a, i) && entry_of(a, i) == prev[m]);
        }
        if is_recorded(a, n - 1) {
            let added = entry_of(a, n - 1);
            assert(cur == prev.push(added));
            assert forall|m: int| 0 <= m < prev.len() implies (#[trigger] prev[m]).0 != added.0 by {
                assert(from_recorded(a, n - 1, prev[m]));
                let i = choose|i: int| 0 <= i < n - 1 && is_recorded(a, i) && #[trigger] entry_of(a, i) == prev[m];
                if prev[m].0 == added.0 {
                    let q = a.subrange(i + 1, a.len() as int);
                    assert(q[n - 1 - (i + 1)] == a[n - 1]);
                    lemma_answer_for_some(q, n - 1 - (i + 1), a[i].question_key@);
                }
            }
            assert forall|m: int| 0 <= m < cur.len() implies from_recorded(a, n, #[trigger] cur[m]) by {
                if m < prev.len() {
                    assert(cur[m] == prev[m]);
                    assert(from_recorded(a, n, prev[m]));
                } else {
                    assert(cur[m] == added);
                    assert(entry_of(a, n - 1) == added);
                }
            }
            assert forall|i: int| 0 <= i < n && is_recorded(a, i) implies exists|m: int|
                0 <= m < cur.len() && #[trigger] cur[m] == entry_of(a, i) by {
                if i < n - 1 {
                    let m = choose|m: int| 0 <= m < prev.len() && #[trigger] prev[m] == entry_of(a, i);
                    assert(cur[m] == prev[m]);
                } else {
                    assert(cur[prev.len() as int] == added);
                }
            }
            assert forall|m1: int, m2: int| 0 <= m1 < m2 < cur.len() implies (#[trigger] cur[m1]).0
                != (#[trigger] cur[m2]).0 by {
                if m2 < prev.len() {
                    assert(cur[m1] == prev[m1] && cur[m2] == prev[m2]);
                } else {
                    assert(cur[m1] == prev[m1]);
                    assert(cur[m2] == added);
                }
            }
        } else {
            assert(cur == prev);
            assert forall|i: int| 0 <= i < n && is_recorded(a, i) implies exists|m: int|
                0 <= m < cur.len() && #[trigger] cur[m] == entry_of(a, i) by {
                let m = choose|m: int| 0 <= m < prev.len() && #[trigger] prev[m] == entry_of(a, i);
                assert(cur[m] == prev[m]);
            }
        }
    } else {
        assert(recorded_entries(a, n).len() == 0);
    }
}

/// The answers read as a map: the recorded entries hold each answered key
/// exactly once, with the last non-blank (trimmed) answer to it; keys without
/// such an answer do not appear.
pub proof fn lemma_entries_are_answer_map(answers: Seq<DiscoveryAnswer>)
    ensures
        ({
            let e = recorded_entries(answers, answers.len() as int);
            &&& forall|m1: int, m2: int| 0 <= m1 < m2 < e.len() ==> (#[trigger] e[m1]).0 != (#[trigger] e[m2]).0
            &&& forall|m: int| 0 <= m < e.len() ==> answer_for(answers, (#[trigger] e[m]).0) == Some(e[m].1)
            &&& forall|key: Seq<char>|
                #[trigger] answer_for(answers, key) is Some ==> exists|m: int| 0 <= m < e.len() && (#[trigger] e[m]).0 == key
        }),
{
    let n = answers.len() as int;
    let e = recorded_entries(answers, n);
    lemma_entries_origin(answers, n);
    assert forall|m: int| 0 <= m < e.len() implies answer_for(answers, (#[trigger] e[m]).0) == Some(e[m].1) by {
        assert(from_recorded(answers, n, e[m]));
        let i = choose|i: int| 0 <= i < n && is_recorded(answers, i) && #[trigger] entry_of(answers, i) == e[m];
        lemma_recorded_text(answers, i);
    }
    assert forall|key: Seq<char>| #[trigger] answer_for(answers, key) is Some implies exists|m: int|
        0 <= m < e.len() && (#[trigger] e[m]).0 == key by {
        lemma_text_is_recorded(answers, key);
        let i = choose|i: int| 0 <= i < n && is_recorded(answers, i) && #[trigger] answers[i].question_key@ == key;
        let m = choose|m: int| 0 <= m < e.len() && #[trigger] e[m] == entry_of(answers, i);
        assert(e[m].0 == key);
    }
}

} // verus!
