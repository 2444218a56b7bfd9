use exsul::migrations::{
    count_failures, executable_statement, foreign_keys_restore, is_idempotent_error,
    wrap_in_transaction, MigrationOutcome,
};
use exsul::script::{matches_keyword_at, smart_split};

fn chars(s: &str) -> Vec<char> {
    s.chars().collect()
}

#[test]
fn smart_split_keeps_trigger_body_intact() {
    let sql = "CREATE TRIGGER t AFTER INSERT ON x BEGIN UPDATE y SET a=1; UPDATE y SET b=2; END; SELECT 1;";
    let parts = smart_split(sql);
    // Trigger (with its inner `;`) is one statement; the SELECT is another.
    assert_eq!(parts.len(), 2, "got: {:?}", parts);
}

#[test]
fn smart_split_respects_strings_and_comments() {
    let sql = "INSERT INTO t VALUES ('a;b', 'it''s'); -- note; here\nSELECT 2 /* x; y */;\n  ";
    let parts = smart_split(sql);
    assert_eq!(
        parts,
        vec![
            "INSERT INTO t VALUES ('a;b', 'it''s')".to_string(),
            " -- note; here\nSELECT 2 /* x; y */".to_string(),
        ]
    );
}

#[test]
fn smart_split_uppercases_keywords_and_keeps_tail() {
    let parts = smart_split("create trigger t after insert on x begin select 1; end; select 2");
    assert_eq!(
        parts,
        vec!["create trigger t after insert on x BEGIN select 1; END".to_string(), " select 2".to_string()]
    );
    assert_eq!(smart_split("begin;end"), vec!["BEGIN;END".to_string()]);
}

#[test]
fn smart_split_ignores_case_outside_blocks() {
    assert_eq!(
        smart_split("\"case\";BEGIN;END;A"),
        vec!["\"case\"".to_string(), "BEGIN;END".to_string(), "A".to_string()]
    );
    assert_eq!(
        smart_split("SELECT CASE WHEN 1 THEN 2 END; BEGIN; END; SELECT 3;"),
        vec!["SELECT CASE WHEN 1 THEN 2 END".to_string(), " BEGIN; END".to_string(), " SELECT 3".to_string()]
    );
}

#[test]
fn smart_split_keeps_quoted_identifiers_whole() {
    assert_eq!(
        smart_split("SELECT \"a;end\" FROM [begin;x]; SELECT `case;`;"),
        vec!["SELECT \"a;end\" FROM [begin;x]".to_string(), " SELECT `case;`".to_string()]
    );
    let trigger = "CREATE TRIGGER t AFTER UPDATE ON x BEGIN UPDATE y SET \"end\" = 1; END; SELECT 1;";
    let parts = smart_split(trigger);
    assert_eq!(parts.len(), 2, "got: {:?}", parts);
}

#[test]
fn smart_split_keeps_non_ascii_text() {
    assert_eq!(
        smart_split("SELECT 'ჩაი'; SELECT 1;"),
        vec!["SELECT 'ჩაი'".to_string(), " SELECT 1".to_string()]
    );
    assert_eq!(
        smart_split("INSERT INTO t VALUES ('ჩაი; ყავა'); -- კომენტარი; აქ\nSELECT 2;"),
        vec![
            "INSERT INTO t VALUES ('ჩაი; ყავა')".to_string(),
            " -- კომენტარი; აქ\nSELECT 2".to_string(),
        ]
    );
}

#[test]
fn smart_split_case_end_does_not_close_trigger() {
    let sql = "CREATE TRIGGER t AFTER INSERT ON x BEGIN UPDATE y SET a = CASE WHEN 1 THEN 2 ELSE 3 END; UPDATE y SET b=2; END; SELECT 1;";
    let parts = smart_split(sql);
    assert_eq!(parts.len(), 2, "got: {:?}", parts);
    assert_eq!(parts[1], " SELECT 1");
}

#[test]
fn smart_split_rejoins_to_script() {
    let sql = "CREATE TABLE a (x TEXT DEFAULT 'ა;ბ'); BEGIN; END;\n  ";
    let parts = smart_split(sql);
    let joined = parts.join(";");
    assert!(sql.starts_with(&(joined.clone() + ";")));
    assert!(sql[joined.len() + 1..].trim().is_empty());
    let whole = "a; b";
    assert_eq!(smart_split(whole).join(";"), whole);
    assert!(smart_split("  \n ").is_empty());
}

#[test]
fn smart_split_loses_only_separators() {
    let sql = "a; b ;c;  ";
    let parts = smart_split(sql);
    assert_eq!(parts, vec!["a".to_string(), " b ".to_string(), "c".to_string()]);
    let rejoined: String = parts.iter().map(|p| format!("{};", p)).collect::<String>() + "  ";
    assert_eq!(rejoined, sql);
}

#[test]
fn keyword_match_needs_word_boundaries() {
    let begin = chars("BEGIN");
    let end = chars("END");
    assert!(matches_keyword_at(&chars("x BEGIN y"), 2, &begin));
    assert!(matches_keyword_at(&chars("ჩაი begin;"), 4, &begin));
    assert!(!matches_keyword_at(&chars("BEGINNER"), 0, &begin));
    assert!(!matches_keyword_at(&chars("_end"), 1, &end));
    assert!(matches_keyword_at(&chars("end"), 0, &end));
    assert!(!matches_keyword_at(&chars("en"), 0, &end));
}

#[test]
fn executable_statements() {
    assert_eq!(executable_statement("  SELECT 1  "), Some("SELECT 1;".to_string()));
    assert_eq!(executable_statement("   \n  "), None);
    assert_eq!(executable_statement("-- only a comment\n   -- another"), None);
    assert_eq!(executable_statement("-- c\nSELECT 1"), Some("-- c\nSELECT 1;".to_string()));
}

#[test]
fn idempotent_errors() {
    assert!(is_idempotent_error("Duplicate column name: x"));
    assert!(is_idempotent_error("table items ALREADY EXISTS"));
    assert!(!is_idempotent_error("no such table: y"));
}

#[test]
fn transaction_wrapping_and_pragmas() {
    assert_eq!(wrap_in_transaction("SELECT 1;"), "BEGIN IMMEDIATE;\nSELECT 1;\nCOMMIT;");
    assert_eq!(foreign_keys_restore(true), "PRAGMA foreign_keys = ON;");
    assert_eq!(foreign_keys_restore(false), "PRAGMA foreign_keys = OFF;");
}

#[test]
fn failures_are_counted() {
    use_outcomes();
}

fn use_outcomes() {
    let (applied, failed, already, bookkeeping) = (
        MigrationOutcome::Applied,
        MigrationOutcome::Failed,
        MigrationOutcome::AlreadyApplied,
        MigrationOutcome::BookkeepingFailed,
    );
    assert_eq!(count_failures(&[applied, failed, already, bookkeeping]), 2);
    assert_eq!(count_failures(&[already, already]), 0);
    assert_eq!(count_failures(&[]), 0);
}
