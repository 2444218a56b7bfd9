use exsul::errors::BusinessErrorCode;
use exsul::gateway::{build_detail, check_answer, lock_err, require_session, session_language};
use exsul::types::LaunchSession;

fn session(id: &str) -> LaunchSession {
    LaunchSession {
        id: id.to_string(),
        stage: "discovery".to_string(),
        status: "active".to_string(),
        language: "ka".to_string(),
        title: None,
        created_at: "t0".to_string(),
        updated_at: "t0".to_string(),
    }
}

#[test]
fn require_session_passes_found_session() {
    let s = require_session("a", Some(session("a"))).unwrap();
    assert_eq!(s.id, "a");
}

#[test]
fn require_session_reports_not_found() {
    let e = require_session("missing", None).unwrap_err();
    assert_eq!(e.code, BusinessErrorCode::NotFound);
    assert_eq!(e.message, "session 'missing' not found");
    assert!(!e.retryable);
}

#[test]
fn language_defaults_to_georgian() {
    assert_eq!(session_language(None), "ka");
    assert_eq!(session_language(Some("en")), "en");
}

#[test]
fn build_detail_computes_progress() {
    let keys = vec!["business_idea".to_string()];
    let d = build_detail(session("s1"), Vec::new(), &keys);
    assert_eq!(d.session.id, "s1");
    assert_eq!(d.progress.session_id, "s1");
    assert_eq!(d.progress.stage, "discovery");
    assert_eq!(d.progress.answered, 1);
    assert_eq!(d.progress.next_question.unwrap().key, "target_audience");
}

#[test]
fn check_answer_unknown_question() {
    let e = check_answer("nope", Some("x"), false).unwrap_err();
    assert_eq!(e.code, BusinessErrorCode::InvalidInput);
    assert_eq!(e.message, "unknown question 'nope'");
}

#[test]
fn check_answer_trims_text() {
    assert_eq!(check_answer("business_idea", Some("  ცხობა \n"), false).unwrap(), Some("ცხობა".to_string()));
}

#[test]
fn check_answer_refuses_blank() {
    let e = check_answer("business_idea", Some("   "), false).unwrap_err();
    assert_eq!(e.code, BusinessErrorCode::InvalidInput);
    assert_eq!(e.message, "პასუხი ცარიელია — გთხოვთ შეავსოთ ან გამოტოვოთ (თუ დასაშვებია).");
    assert!(check_answer("business_idea", None, false).is_err());
}

#[test]
fn check_answer_skip_rules() {
    let e = check_answer("business_idea", None, true).unwrap_err();
    assert_eq!(e.message, "ამ კითხვის გამოტოვება არ შეიძლება — გთხოვთ უპასუხოთ.");
    assert_eq!(check_answer("growth_plans", None, true).unwrap(), None);
    assert_eq!(check_answer("growth_plans", Some(" later "), true).unwrap(), Some("later".to_string()));
}

#[test]
fn lock_error_is_internal() {
    let e = lock_err("poisoned");
    assert_eq!(e.code, BusinessErrorCode::Internal);
    assert_eq!(e.message, "database lock unavailable: poisoned");
    assert!(!e.retryable);
}
