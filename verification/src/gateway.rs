//! Decisions of the business gateway: assembling a session view, the
//! structured not-found answer, the default session language, and the
//! validation of a submitted answer. Persistence happens around these.

use vstd::prelude::*;

use crate::answers::opt_text;
use crate::content::{question_key, spec_question, QUESTION_COUNT};
use crate::discovery::{is_progress, progress, question_by_key};
use crate::errors::{is_error, BusinessError, BusinessErrorCode};
use crate::text::{is_white_space, trim, trim_str};
use crate::types::{DiscoveryAnswer, LaunchSession, SessionDetail};

verus! {

pub const DEFAULT_LANGUAGE: &'static str = "ka";
pub const SESSION_PREFIX: &'static str = "session '";
pub const NOT_FOUND_SUFFIX: &'static str = "' not found";
pub const UNKNOWN_QUESTION_PREFIX: &'static str = "unknown question '";
pub const QUOTE: &'static str = "'";
pub const SKIP_REFUSED_KA: &'static str = "ამ კითხვის გამოტოვება არ შეიძლება — გთხოვთ უპასუხოთ.";
pub const EMPTY_ANSWER_KA: &'static str = "პასუხი ცარიელია — გთხოვთ შეავსოთ ან გამოტოვოთ (თუ დასაშვებია).";

/// The full session view: the session row, its answers and the progress
/// computed from the answered keys.
pub fn build_detail(session: LaunchSession, answers: Vec<DiscoveryAnswer>, answered_keys: &[String]) -> (d:
    SessionDetail)
    ensures
        d.session == session,
        d.answers == answers,
        is_progress(d.progress, session.id@, session.stage@, answered_keys@),
{
    let progress = progress(session.id.as_str(), session.stage.as_str(), answered_keys);
    SessionDetail { session, answers, progress }
}

/// The message of the not-found error for a session id.
pub open spec fn session_not_found_message(session_id: Seq<char>) -> Seq<char> {
    SESSION_PREFIX@ + session_id + NOT_FOUND_SUFFIX@
}

/// The session that was looked up, or a structured not-found error naming it.
pub fn require_session(session_id: &str, found: Option<LaunchSession>) -> (r: Result<
    LaunchSession,
    BusinessError,
>)
    ensures
        match found {
            Some(s) => r == Ok::<LaunchSession, BusinessError>(s),
            None => r matches Err(e) && is_error(
                e,
                BusinessErrorCode::NotFound,
                session_not_found_message(session_id@),
            ),
        },
{
    match found {
        Some(s) => Ok(s),
        None => {
            let mut message = SESSION_PREFIX.to_owned();
            message.append(session_id);
            message.append(NOT_FOUND_SUFFIX);
            Err(BusinessError::not_found(message))
        },
    }
}

/// The language of a new session: the requested one, Georgian by default.
pub fn session_language(language: Option<&str>) -> (r: String)
    ensures
        r@ == match language {
            Some(l) => l@,
            None => DEFAULT_LANGUAGE@,
        },
{
    match language {
        Some(l) => l.to_owned(),
        None => DEFAULT_LANGUAGE.to_owned(),
    }
}

/// The answer text once trimmed, when present and not blank.
pub open spec fn trimmed_answer(answer_text: Option<&str>) -> Option<Seq<char>> {
    match answer_text {
        Some(t) => if trim(t@).len() > 0 {
            Some(trim(t@))
        } else {
            None
        },
        None => None,
    }
}

/// The outcome of submitting an answer to question `i`: skipping is refused
/// for a required question, an answer that is not skipped must not be blank,
/// and an accepted submission stores the trimmed text (if any).
pub open spec fn answer_outcome(i: int, answer_text: Option<&str>, skipped: bool, r: Result<Option<String>, BusinessError>) -> bool {
    if skipped && !spec_question(i).optional {
        r matches Err(e) && is_error(e, BusinessErrorCode::InvalidInput, SKIP_REFUSED_KA@)
    } else if !skipped && trimmed_answer(answer_text) is None {
        r matches Err(e) && is_error(e, BusinessErrorCode::InvalidInput, EMPTY_ANSWER_KA@)
    } else {
        r matches Ok(t) && opt_text(t) == trimmed_answer(answer_text)
    }
}

/// Validate an answer to a discovery question. Returns the text to store, or
/// an invalid-input error for an unknown question, a refused skip or a blank
/// answer.
pub fn check_answer(question_key_text: &str, answer_text: Option<&str>, skipped: bool) -> (r: Result<
    Option<String>,
    BusinessError,
>)
    ensures
        (forall|i: int| 0 <= i < QUESTION_COUNT ==> #[trigger] question_key(i) != question_key_text@)
            ==> (r matches Err(e) && is_error(
            e,
            BusinessErrorCode::InvalidInput,
            UNKNOWN_QUESTION_PREFIX@ + question_key_text@ + QUOTE@,
        )),
        forall|i: int|
            0 <= i < QUESTION_COUNT && #[trigger] question_key(i) == question_key_text@
                ==> answer_outcome(i, answer_text, skipped, r),
{
    let question = match question_by_key(question_key_text) {
        Some(q) => q,
        None => {
            let mut message = UNKNOWN_QUESTION_PREFIX.to_owned();
            message.append(question_key_text);
            message.append(QUOTE);
            return Err(BusinessError::invalid_input(message));
        },
    };
    let trimmed: Option<String> = match answer_text {
        Some(t) => {
            let s = trim_str(t);
            if s.as_str().unicode_len() == 0 {
                None
            } else {
                Some(s)
            }
        },
        None => None,
    };
    assert(opt_text(trimmed) == trimmed_answer(answer_text));
    if skipped {
        if !question.optional {
            return Err(BusinessError::invalid_input(SKIP_REFUSED_KA.to_owned()));
        }
    } else if trimmed.is_none() {
        return Err(BusinessError::invalid_input(EMPTY_ANSWER_KA.to_owned()));
    }
    Ok(trimmed)
}

/// The error for a database lock that cannot be taken.
pub fn lock_err(detail: &str) -> (r: BusinessError)
    ensures
        is_error(r, BusinessErrorCode::Internal, "database lock unavailable: "@ + detail@),
{
    let mut message = "database lock unavailable: ".to_owned();
    message.append(detail);
    BusinessError::internal(message)
}

/// The answer text is missing or blank (whitespace alone).
pub open spec fn blank_answer(answer_text: Option<&str>) -> bool {
    match answer_text {
        Some(t) => forall|k: int| 0 <= k < t@.len() ==> is_white_space(#[trigger] t@[k]),
        None => true,
    }
}

/// What a submission to a known question leads to: an answer that is not
/// skipped must have some text other than whitespace, for an optional question
/// as much as for a required one, or it is refused as an empty answer and
/// nothing is stored; skipping a required question is refused; an accepted
/// answer that is not skipped stores its text without surrounding whitespace,
/// and a skipped one stores the trimmed text only when there is any.
pub proof fn lemma_submission_rules(i: int, answer_text: Option<&str>, skipped: bool, r: Result<Option<String>, BusinessError>)
    requires
        0 <= i < QUESTION_COUNT,
        answer_outcome(i, answer_text, skipped, r),
    ensures
        !skipped && blank_answer(answer_text) ==> (r matches Err(e) && e.code == BusinessErrorCode::InvalidInput
            && e.message@ == "პასუხი ცარიელია — გთხოვთ შეავსოთ ან გამოტოვოთ (თუ დასაშვებია)."@),
        skipped && !spec_question(i).optional ==> (r matches Err(e) && e.code == BusinessErrorCode::InvalidInput
            && e.message@ == "ამ კითხვის გამოტოვება არ შეიძლება — გთხოვთ უპასუხოთ."@),
        !skipped && !blank_answer(answer_text) ==> (r matches Ok(Some(t)) && answer_text matches Some(a) && t@
            == trim(a@) && t@.len() > 0),
        skipped && spec_question(i).optional ==> (r matches Ok(stored) && (stored matches Some(t) ==> (
            answer_text matches Some(a) && t@ == trim(a@) && t@.len() > 0))),
{
    if let Some(t) = answer_text {
        crate::script::lemma_trim_empty_iff_white(t@);
    }
}

} // verus!
