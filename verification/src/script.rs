//! Splitting a SQL script into its top-level statements. `BEGIN … END`
//! blocks (trigger bodies) stay whole, and so do single-quoted strings (`''`
//! escapes a quote), quoted identifiers (`"…"`, `[…]`, `` `…` ``) and
//! `--` / `/* */` comments. Inside a block, the `END` of a `CASE` expression
//! closes the `CASE`, not the block.

use vstd::prelude::*;

use crate::knowledge::texts;
use crate::text::{chars_of, is_white_space, push_char, skip_white, cut_white_end, trim, trim_str};

verus! {

/// ASCII letters, digits and `_`: the characters that continue a word.
pub open spec fn is_word_char(c: char) -> bool {
    ('0' <= c && c <= '9') || ('A' <= c && c <= 'Z') || ('a' <= c && c <= 'z') || c == '_'
}

/// `c` is the upper-case ASCII letter or symbol `k`, in either case.
pub open spec fn same_ignoring_ascii_case(c: char, k: char) -> bool {
    c == k || ('A' <= k && k <= 'Z' && c as int == k as int + 32)
}

/// The upper-case keyword `kw` occurs at `pos` as a whole word, in any ASCII
/// letter case.
pub open spec fn keyword_at(text: Seq<char>, pos: int, kw: Seq<char>) -> bool {
    &&& 0 <= pos
    &&& pos + kw.len() <= text.len()
    &&& forall|k: int| 0 <= k < kw.len() ==> same_ignoring_ascii_case(#[trigger] text[pos + k], kw[k])
    &&& (pos == 0 || !is_word_char(text[pos - 1]))
    &&& (pos + kw.len() == text.len() || !is_word_char(text[pos + kw.len()]))
}

fn is_word(c: char) -> (r: bool)
    ensures
        r == is_word_char(c),
{
    ('0' <= c && c <= '9') || ('A' <= c && c <= 'Z') || ('a' <= c && c <= 'z') || c == '_'
}

fn same_letter(c: char, k: char) -> (r: bool)
    ensures
        r == same_ignoring_ascii_case(c, k),
{
    c == k || ('A' <= k && k <= 'Z' && (c as u32) == (k as u32) + 32)
}

/// Whole-word, case-insensitive match of the upper-case keyword `kw` at
/// `text[pos]`.
pub fn matches_keyword_at(text: &[char], pos: usize, kw: &[char]) -> (r: bool)
    ensures
        r == keyword_at(text@, pos as int, kw@),
{
    if kw.len() > text.len() || pos > text.len() - kw.len() {
        return false;
    }
    let mut k: usize = 0;
    while k < kw.len()
        invariant
            pos + kw.len() <= text.len(),
            k <= kw.len(),
            forall|j: int| 0 <= j < k ==> same_ignoring_ascii_case(#[trigger] text@[pos + j], kw@[j]),
        decreases kw.len() - k,
    {
        if !same_letter(text[pos + k], kw[k]) {
            assert(!same_ignoring_ascii_case(text@[pos + k], kw@[k as int]));
            return false;
        }
        k = k + 1;
    }
    let before_ok = pos == 0 || !is_word(text[pos - 1]);
    let after_ok = pos + kw.len() == text.len() || !is_word(text[pos + kw.len()]);
    before_ok && after_ok
}

pub open spec fn begin_kw() -> Seq<char> {
    seq!['B', 'E', 'G', 'I', 'N']
}

pub open spec fn end_kw() -> Seq<char> {
    seq!['E', 'N', 'D']
}

pub open spec fn case_kw() -> Seq<char> {
    seq!['C', 'A', 'S', 'E']
}

/// Scanner state while splitting a script.
pub struct SplitState {
    /// Statements split off so far.
    pub out: Seq<Seq<char>>,
    /// Text of the statement being read.
    pub buf: Seq<char>,
    pub in_str: bool,
    pub in_line_comment: bool,
    pub in_block_comment: bool,
    /// The character that closes the quoted identifier being read (`NUL`
    /// outside one).
    pub ident_close: char,
    /// Number of open `BEGIN` blocks.
    pub depth: nat,
    /// Number of `CASE` expressions open inside a block.
    pub case_depth: nat,
    /// Position of the next character to read.
    pub pos: int,
}

/// The state before the first character.
pub open spec fn split_start() -> SplitState {
    SplitState {
        out: Seq::empty(),
        buf: Seq::empty(),
        in_str: false,
        in_line_comment: false,
        in_block_comment: false,
        ident_close: '\0',
        depth: 0,
        case_depth: 0,
        pos: 0,
    }
}

/// The character after `i` (`NUL` past the end).
pub open spec fn next_char(text: Seq<char>, i: int) -> char {
    if i + 1 < text.len() {
        text[i + 1]
    } else {
        '\0'
    }
}

/// The state with the next `n` characters of the script added to the current
/// statement.
pub open spec fn take(text: Seq<char>, s: SplitState, n: int) -> SplitState {
    SplitState { buf: s.buf + text.subrange(s.pos, s.pos + n), pos: s.pos + n, ..s }
}

/// The state with the keyword at the current position added to the current
/// statement in upper case.
pub open spec fn take_kw(s: SplitState, kw: Seq<char>) -> SplitState {
    SplitState { buf: s.buf + kw, pos: s.pos + kw.len(), ..s }
}

/// The character that closes a quoted identifier opened by `c` (`NUL` when
/// `c` opens none).
pub open spec fn ident_closer(c: char) -> char {
    if c == '"' || c == '`' {
        c
    } else if c == '[' {
        ']'
    } else {
        '\0'
    }
}

/// One scanning step at position `s.pos < text.len()`. A line comment runs to
/// the end of the line, a block comment to `*/`, a string to its closing quote
/// (`''` escapes a quote), a quoted identifier to its closing `"`, `]` or
/// `` ` ``. Outside those, whole-word `BEGIN` opens a block, `CASE` inside a
/// block opens an expression, `END` closes the innermost open `CASE` or else
/// the innermost block, and a `;` outside any block ends the statement.
/// `BEGIN` and `END` are written in upper case.
pub open spec fn split_step(text: Seq<char>, s: SplitState) -> SplitState {
    let i = s.pos;
    let c = text[i];
    let next = next_char(text, i);
    if s.in_line_comment {
        SplitState { in_line_comment: c != '\n', ..take(text, s, 1) }
    } else if s.in_block_comment {
        if c == '*' && next == '/' {
            SplitState { in_block_comment: false, ..take(text, s, 2) }
        } else {
            take(text, s, 1)
        }
    } else if s.in_str {
        if c == '\'' && next == '\'' {
            take(text, s, 2)
        } else if c == '\'' {
            SplitState { in_str: false, ..take(text, s, 1) }
        } else {
            take(text, s, 1)
        }
    } else if s.ident_close != '\0' {
        if c == s.ident_close {
            SplitState { ident_close: '\0', ..take(text, s, 1) }
        } else {
            take(text, s, 1)
        }
    } else if c == '-' && next == '-' {
        SplitState { in_line_comment: true, ..take(text, s, 1) }
    } else if c == '/' && next == '*' {
        SplitState { in_block_comment: true, ..take(text, s, 2) }
    } else if c == '\'' {
        SplitState { in_str: true, ..take(text, s, 1) }
    } else if ident_closer(c) != '\0' {
        SplitState { ident_close: ident_closer(c), ..take(text, s, 1) }
    } else if keyword_at(text, i, begin_kw()) {
        SplitState { depth: s.depth + 1, ..take_kw(s, begin_kw()) }
    } else if s.depth > 0 && keyword_at(text, i, case_kw()) {
        SplitState { case_depth: s.case_depth + 1, ..take(text, s, 4) }
    } else if keyword_at(text, i, end_kw()) {
        if s.case_depth > 0 {
            SplitState { case_depth: (s.case_depth - 1) as nat, ..take_kw(s, end_kw()) }
        } else if s.depth > 0 {
            SplitState { depth: (s.depth - 1) as nat, ..take_kw(s, end_kw()) }
        } else {
            take_kw(s, end_kw())
        }
    } else if c == ';' && s.depth == 0 {
        SplitState { out: s.out.push(s.buf), buf: Seq::empty(), pos: i + 1, ..s }
    } else {
        take(text, s, 1)
    }
}

/// A `CASE` is only ever open inside a block, so none is open where a
/// statement ends.
pub open spec fn case_in_block(s: SplitState) -> bool {
    s.case_depth > 0 ==> s.depth > 0
}

/// Each scanning step moves forward, stays within the script and keeps open
/// `CASE` expressions inside blocks.
pub proof fn lemma_step_advances(text: Seq<char>, s: SplitState)
    requires
        0 <= s.pos < text.len(),
    ensures
        s.pos < split_step(text, s).pos <= text.len(),
        case_in_block(s) ==> case_in_block(split_step(text, s)),
{
}

/// The state after scanning from `s` to the end of `text`.
pub open spec fn split_run(text: Seq<char>, s: SplitState) -> SplitState
    decreases text.len() - s.pos,
{
    if s.pos < 0 || s.pos >= text.len() {
        s
    } else {
        proof {
            lemma_step_advances(text, s);
        }
        split_run(text, split_step(text, s))
    }
}

/// The statements of a finished scan: the split-off ones, and the last one
/// when it is not blank.
pub open spec fn split_finish(s: SplitState) -> Seq<Seq<char>> {
    if trim(s.buf).len() > 0 {
        s.out.push(s.buf)
    } else {
        s.out
    }
}

/// The top-level statements of a script.
pub open spec fn spec_smart_split(text: Seq<char>) -> Seq<Seq<char>> {
    split_finish(split_run(text, split_start()))
}

/// The scanner state held in the loop variables of [`smart_split`].
pub open spec fn state_of(
    out: Seq<String>,
    buf: Seq<char>,
    flags: (bool, bool, bool),
    ident_close: char,
    depth: u64,
    case_depth: u64,
    pos: usize,
) -> SplitState {
    SplitState {
        out: texts(out),
        buf,
        in_str: flags.0,
        in_line_comment: flags.1,
        in_block_comment: flags.2,
        ident_close,
        depth: depth as nat,
        case_depth: case_depth as nat,
        pos: pos as int,
    }
}

/// Appends `v[from..to]` to `buf`.
fn push_range(buf: &mut String, v: &[char], from: usize, to: usize)
    requires
        from <= to <= v.len(),
    ensures
        final(buf)@ == old(buf)@ + v@.subrange(from as int, to as int),
{
    let mut k = from;
    while k < to
        invariant
            from <= k <= to <= v.len(),
            buf@ == old(buf)@ + v@.subrange(from as int, k as int),
        decreases to - k,
    {
        push_char(buf, v[k]);
        k = k + 1;
        assert(buf@ =~= old(buf)@ + v@.subrange(from as int, k as int));
    }
}

/// Split a SQL script into top-level statements, each a piece of the script
/// as written, with whole-word `BEGIN` and `END` in upper case. Respects
/// `BEGIN … END` blocks (trigger bodies stay whole, and the `END` of a `CASE`
/// inside them does not close them), single-quoted strings (`''` escapes),
/// quoted identifiers and `--` / `/* */` comments. A blank tail after the
/// last `;` is dropped.
pub fn smart_split(sql: &str) -> (r: Vec<String>)
    ensures
        texts(r@) == spec_smart_split(sql@),
{
    let v = chars_of(sql);
    let n = v.len();
    let begin: [char; 5] = ['B', 'E', 'G', 'I', 'N'];
    let end: [char; 3] = ['E', 'N', 'D'];
    let case: [char; 4] = ['C', 'A', 'S', 'E'];
    assert(begin@ =~= begin_kw());
    assert(end@ =~= end_kw());
    assert(case@ =~= case_kw());
    assert(begin@.subrange(0, 5) =~= begin_kw());
    assert(end@.subrange(0, 3) =~= end_kw());
    let mut out: Vec<String> = Vec::new();
    let mut buf = String::new();
    let mut in_str = false;
    let mut in_line_comment = false;
    let mut in_block_comment = false;
    let mut ident_close: char = '\0';
    let mut depth: u64 = 0;
    let mut case_depth: u64 = 0;
    let mut i: usize = 0;
    assert(texts(out@) =~= Seq::<Seq<char>>::empty());
    assert(state_of(out@, buf@, (in_str, in_line_comment, in_block_comment), ident_close, depth, case_depth, i)
        == split_start());
    while i < n
        invariant
            v@ == sql@,
            n == v@.len(),
            begin@ == begin_kw(),
            end@ == end_kw(),
            case@ == case_kw(),
            begin@.subrange(0, 5) == begin_kw(),
            end@.subrange(0, 3) == end_kw(),
            i <= n,
            depth <= i,
            case_depth <= i,
            split_run(
                v@,
                state_of(out@, buf@, (in_str, in_line_comment, in_block_comment), ident_close, depth, case_depth, i),
            ) == split_run(v@, split_start()),
        decreases n - i,
    {
        let ghost st = state_of(out@, buf@, (in_str, in_line_comment, in_block_comment), ident_close, depth, case_depth, i);
        let ghost stepped = split_step(v@, st);
        let c = v[i];
        let next = if i + 1 < n {
            v[i + 1]
        } else {
            '\0'
        };
        let opens: char = if c == '"' || c == '`' {
            c
        } else if c == '[' {
            ']'
        } else {
            '\0'
        };
        if in_line_comment {
            push_range(&mut buf, &v, i, i + 1);
            if c == '\n' {
                in_line_comment = false;
            }
            i = i + 1;
        } else if in_block_comment {
            if c == '*' && next == '/' {
                push_range(&mut buf, &v, i, i + 2);
                in_block_comment = false;
                i = i + 2;
            } else {
                push_range(&mut buf, &v, i, i + 1);
                i = i + 1;
            }
        } else if in_str {
            if c == '\'' && next == '\'' {
                push_range(&mut buf, &v, i, i + 2);
                i = i + 2;
            } else {
                push_range(&mut buf, &v, i, i + 1);
                if c == '\'' {
                    in_str = false;
                }
                i = i + 1;
            }
        } else if ident_close != '\0' {
            push_range(&mut buf, &v, i, i + 1);
            if c == ident_close {
                ident_close = '\0';
            }
            i = i + 1;
        } else if c == '-' && next == '-' {
            in_line_comment = true;
            push_range(&mut buf, &v, i, i + 1);
            i = i + 1;
        } else if c == '/' && next == '*' {
            in_block_comment = true;
            push_range(&mut buf, &v, i, i + 2);
            i = i + 2;
        } else if c == '\'' {
            in_str = true;
            push_range(&mut buf, &v, i, i + 1);
            i = i + 1;
        } else if opens != '\0' {
            ident_close = opens;
            push_range(&mut buf, &v, i, i + 1);
            i = i + 1;
        } else if matches_keyword_at(&v, i, &begin) {
            depth = depth + 1;
            push_range(&mut buf, &begin, 0, 5);
            i = i + 5;
        } else if depth > 0 && matches_keyword_at(&v, i, &case) {
            case_depth = case_depth + 1;
            push_range(&mut buf, &v, i, i + 4);
            i = i + 4;
        } else if matches_keyword_at(&v, i, &end) {
            if case_depth > 0 {
                case_depth = case_depth - 1;
            } else if depth > 0 {
                depth = depth - 1;
            }
            push_range(&mut buf, &end, 0, 3);
            i = i + 3;
        } else if c == ';' && depth == 0 {
            out.push(buf);
            buf = String::new();
            i = i + 1;
        } else {
            push_range(&mut buf, &v, i, i + 1);
            i = i + 1;
        }
        proof {
            lemma_step_advances(v@, st);
            assert(texts(out@) =~= stepped.out);
            assert(buf@ =~= stepped.buf);
            assert(state_of(out@, buf@, (in_str, in_line_comment, in_block_comment), ident_close, depth, case_depth, i)
                == stepped);
        }
    }
    if trim_str(buf.as_str()).as_str().unicode_len() > 0 {
        out.push(buf);
    }
    let ghost fin = split_run(v@, split_start());
    assert(texts(out@) =~= split_finish(fin));
    out
}

/// Statements joined back together, each followed by its `;`.
pub open spec fn joined_statements(out: Seq<Seq<char>>) -> Seq<char>
    decreases out.len(),
{
    if out.len() == 0 {
        Seq::empty()
    } else {
        joined_statements(out.drop_last()) + out.last() + seq![';']
    }
}

/// The text a scanner state has consumed: the split-off statements with their
/// separators, then the current statement.
pub open spec fn consumed(s: SplitState) -> Seq<char> {
    joined_statements(s.out) + s.buf
}

/// Position `k` of `text` lies within a whole-word `BEGIN` or `END`.
pub open spec fn in_keyword(text: Seq<char>, k: int) -> bool {
    ||| exists|p: int| k - 5 < p <= k && #[trigger] keyword_at(text, p, begin_kw())
    ||| exists|p: int| k - 3 < p <= k && #[trigger] keyword_at(text, p, end_kw())
}

/// `u` is the first `n` characters of `text`, except that letters of a
/// whole-word `BEGIN` or `END` may be written in upper case.
pub open spec fn same_up_to_keyword_case(text: Seq<char>, u: Seq<char>, n: int) -> bool {
    &&& u.len() == n
    &&& n <= text.len()
    &&& forall|k: int|
        0 <= k < n ==> (#[trigger] u[k] == text[k] || (in_keyword(text, k) && same_ignoring_ascii_case(
            text[k],
            u[k],
        )))
}

proof fn lemma_kw_taken(text: Seq<char>, s: SplitState, kw: Seq<char>)
    requires
        0 <= s.pos,
        same_up_to_keyword_case(text, consumed(s), s.pos),
        keyword_at(text, s.pos, kw),
        kw == begin_kw() || kw == end_kw(),
    ensures
        same_up_to_keyword_case(text, consumed(take_kw(s, kw)), s.pos + kw.len()),
{
    let t = take_kw(s, kw);
    let u = consumed(t);
    assert(u =~= consumed(s) + kw);
    assert forall|k: int| 0 <= k < s.pos + kw.len() implies (#[trigger] u[k] == text[k] || (in_keyword(text, k)
        && same_ignoring_ascii_case(text[k], u[k]))) by {
        if k >= s.pos {
            assert(u[k] == kw[k - s.pos]);
            assert(same_ignoring_ascii_case(text[s.pos + (k - s.pos)], kw[k - s.pos]));
            if kw == begin_kw() {
                assert(keyword_at(text, s.pos, begin_kw()));
            } else {
                assert(keyword_at(text, s.pos, end_kw()));
            }
            assert(in_keyword(text, k));
        } else {
            assert(u[k] == consumed(s)[k]);
        }
    }
}

proof fn lemma_step_keeps_text(text: Seq<char>, s: SplitState)
    requires
        0 <= s.pos < text.len(),
        same_up_to_keyword_case(text, consumed(s), s.pos),
    ensures
        same_up_to_keyword_case(text, consumed(split_step(text, s)), split_step(text, s).pos),
{
    let t = split_step(text, s);
    lemma_step_advances(text, s);
    let i = s.pos;
    let c = text[i];
    let plain = s.in_line_comment || s.in_block_comment || s.in_str || s.ident_close != '\0' || (c == '-'
        && next_char(text, i) == '-') || (c == '/' && next_char(text, i) == '*') || c == '\''
        || ident_closer(c) != '\0';
    if !plain && keyword_at(text, i, begin_kw()) {
        lemma_kw_taken(text, s, begin_kw());
    } else if !plain && !(s.depth > 0 && keyword_at(text, i, case_kw())) && keyword_at(text, i, end_kw()) {
        lemma_kw_taken(text, s, end_kw());
    } else if t.out == s.out {
        assert(t.buf =~= s.buf + text.subrange(s.pos, t.pos));
        let u = consumed(t);
        assert(u =~= consumed(s) + text.subrange(s.pos, t.pos));
        assert forall|k: int| 0 <= k < t.pos implies (#[trigger] u[k] == text[k] || (in_keyword(text, k)
            && same_ignoring_ascii_case(text[k], u[k]))) by {
            if k < s.pos {
                assert(u[k] == consumed(s)[k]);
            }
        }
    } else {
        assert(t.out.drop_last() =~= s.out);
        assert(t.out.last() == s.buf);
        assert(text[s.pos] == ';');
        let u = consumed(t);
        assert(u =~= consumed(s) + seq![';']);
        assert forall|k: int| 0 <= k < t.pos implies (#[trigger] u[k] == text[k] || (in_keyword(text, k)
            && same_ignoring_ascii_case(text[k], u[k]))) by {
            if k < s.pos {
                assert(u[k] == consumed(s)[k]);
            }
        }
    }
}

proof fn lemma_run_keeps_text(text: Seq<char>, s: SplitState)
    requires
        0 <= s.pos <= text.len(),
        same_up_to_keyword_case(text, consumed(s), s.pos),
    ensures
        split_run(text, s).pos == text.len(),
        same_up_to_keyword_case(text, consumed(split_run(text, s)), text.len() as int),
    decreases text.len() - s.pos,
{
    if s.pos < text.len() {
        lemma_step_advances(text, s);
        lemma_step_keeps_text(text, s);
        lemma_run_keeps_text(text, split_step(text, s));
    }
}

/// Splitting loses nothing: rejoining the statements with their `;`
/// separators, followed by the unfinished last statement, gives back the
/// script, up to the letter case of `BEGIN` and `END`, which come out in upper
/// case. The result keeps that last statement unless it is blank, so only a
/// blank tail after the last separator is dropped.
pub proof fn lemma_split_keeps_text(text: Seq<char>)
    ensures
        ({
            let fin = split_run(text, split_start());
            &&& same_up_to_keyword_case(text, joined_statements(fin.out) + fin.buf, text.len() as int)
            &&& spec_smart_split(text) == if trim(fin.buf).len() > 0 {
                fin.out.push(fin.buf)
            } else {
                fin.out
            }
        }),
{
    let st = split_start();
    assert(consumed(st) =~= Seq::<char>::empty());
    lemma_run_keeps_text(text, st);
}

/// Statements joined with `;` between them.
pub open spec fn join_parts(parts: Seq<Seq<char>>) -> Seq<char>
    decreases parts.len(),
{
    if parts.len() == 0 {
        Seq::empty()
    } else if parts.len() == 1 {
        parts[0]
    } else {
        join_parts(parts.drop_last()) + seq![';'] + parts.last()
    }
}

proof fn lemma_join_parts_separated(parts: Seq<Seq<char>>)
    requires
        parts.len() > 0,
    ensures
        join_parts(parts) + seq![';'] == joined_statements(parts),
    decreases parts.len(),
{
    if parts.len() == 1 {
        assert(parts.drop_last() =~= Seq::<Seq<char>>::empty());
        assert(joined_statements(parts.drop_last()) =~= Seq::<char>::empty());
        assert(joined_statements(parts) =~= parts[0] + seq![';']);
    } else {
        lemma_join_parts_separated(parts.drop_last());
        assert(join_parts(parts) + seq![';'] =~= joined_statements(parts.drop_last()) + parts.last() + seq![';']);
    }
}

proof fn lemma_skip_white_all(s: Seq<char>, i: int)
    requires
        0 <= i <= s.len(),
        skip_white(s, i) == s.len(),
    ensures
        forall|k: int| i <= k < s.len() ==> is_white_space(#[trigger] s[k]),
    decreases s.len() - i,
{
    if i < s.len() {
        lemma_skip_white_all(s, i + 1);
    }
}

proof fn lemma_cut_keeps_non_white(s: Seq<char>, lo: int, j: int)
    requires
        0 <= lo < j <= s.len(),
        !is_white_space(s[lo]),
    ensures
        cut_white_end(s, lo, j) > lo,
    decreases j - lo,
{
    if j - 1 > lo && is_white_space(s[j - 1]) {
        lemma_cut_keeps_non_white(s, lo, j - 1);
    }
}

proof fn lemma_cut_bounds(s: Seq<char>, lo: int, j: int)
    requires
        0 <= lo <= j <= s.len(),
    ensures
        lo <= cut_white_end(s, lo, j) <= j,
    decreases j - lo,
{
    if j > lo && is_white_space(s[j - 1]) {
        lemma_cut_bounds(s, lo, j - 1);
    }
}

proof fn lemma_skip_white_bounds(s: Seq<char>, i: int)
    requires
        0 <= i <= s.len(),
    ensures
        i <= skip_white(s, i) <= s.len(),
        skip_white(s, i) < s.len() ==> !is_white_space(s[skip_white(s, i)]),
    decreases s.len() - i,
{
    if i < s.len() && is_white_space(s[i]) {
        lemma_skip_white_bounds(s, i + 1);
    }
}

/// A text trims to nothing exactly when it is all whitespace.
pub proof fn lemma_trim_empty_iff_white(s: Seq<char>)
    ensures
        (trim(s).len() == 0) == (forall|k: int| 0 <= k < s.len() ==> is_white_space(#[trigger] s[k])),
{
    if trim(s).len() == 0 {
        lemma_blank_is_white(s);
    } else {
        lemma_skip_white_bounds(s, 0);
        let lo = skip_white(s, 0);
        if lo >= s.len() {
            lemma_cut_bounds(s, lo, s.len() as int);
        } else {
            assert(!is_white_space(s[lo]));
        }
    }
}

/// A text that trims to nothing is all whitespace.
proof fn lemma_blank_is_white(s: Seq<char>)
    requires
        trim(s).len() == 0,
    ensures
        forall|k: int| 0 <= k < s.len() ==> is_white_space(#[trigger] s[k]),
{
    lemma_skip_white_bounds(s, 0);
    let lo = skip_white(s, 0);
    if lo < s.len() {
        lemma_cut_keeps_non_white(s, lo, s.len() as int);
        lemma_cut_bounds(s, lo, s.len() as int);
        assert(trim(s).len() > 0);
    }
    lemma_skip_white_all(s, 0);
}

/// Rejoining the statements of a script with `;` gives back the script, up to
/// the letter case of `BEGIN` and `END`; the only thing dropped is a tail of
/// whitespace after the last `;` (and a script of whitespace alone splits
/// into no statements).
pub proof fn lemma_rejoin_gives_script(text: Seq<char>)
    ensures
        ({
            let parts = spec_smart_split(text);
            let j = join_parts(parts);
            ||| same_up_to_keyword_case(text, j, text.len() as int)
            ||| (parts.len() > 0 && j.len() < text.len() && same_up_to_keyword_case(text, j.push(';'), j.len() + 1int)
                && forall|k: int| j.len() + 1 <= k < text.len() ==> is_white_space(#[trigger] text[k]))
            ||| (parts.len() == 0 && forall|k: int| 0 <= k < text.len() ==> is_white_space(#[trigger] text[k]))
        }),
{
    lemma_split_keeps_text(text);
    let fin = split_run(text, split_start());
    let parts = spec_smart_split(text);
    let j = join_parts(parts);
    let u = joined_statements(fin.out) + fin.buf;
    if trim(fin.buf).len() > 0 {
        if fin.out.len() == 0 {
            assert(joined_statements(fin.out) =~= Seq::<char>::empty());
            assert(parts =~= seq![fin.buf]);
            assert(u =~= j);
        } else {
            lemma_join_parts_separated(fin.out);
            assert(parts.drop_last() =~= fin.out);
            assert(u =~= j);
        }
    } else {
        lemma_blank_is_white(fin.buf);
        let base = joined_statements(fin.out).len() as int;
        assert forall|k: int| base <= k < text.len() implies is_white_space(#[trigger] text[k]) by {
            assert(u[k] == fin.buf[k - base]);
            assert(is_white_space(u[k]));
        }
        if fin.out.len() == 0 {
            assert(joined_statements(fin.out) =~= Seq::<char>::empty());
        } else {
            lemma_join_parts_separated(fin.out);
            let p = j.push(';');
            assert(p =~= joined_statements(fin.out));
            assert forall|k: int| 0 <= k < j.len() + 1 implies (#[trigger] p[k] == text[k] || (in_keyword(text, k)
                && same_ignoring_ascii_case(text[k], p[k]))) by {
                assert(p[k] == u[k]);
            }
        }
    }
}
} // verus!
