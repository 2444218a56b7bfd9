use exsul::discovery::{all_questions, next_question, progress, question_by_key};

#[test]
fn first_question_is_business_idea() {
    let q = next_question(&[]).expect("must have a first question");
    assert_eq!(q.key, "business_idea");
    assert_eq!(q.index, 1);
}

#[test]
fn next_skips_answered_in_order() {
    let answered = vec!["business_idea".to_string()];
    let q = next_question(&answered).expect("must have a next question");
    assert_eq!(q.key, "target_audience");
}

#[test]
fn progress_is_complete_when_all_answered() {
    let answered: Vec<String> = all_questions().iter().map(|q| q.key.to_string()).collect();
    let p = progress("s1", "discovery", &answered);
    assert!(p.complete);
    assert!(p.next_question.is_none());
    assert_eq!(p.answered, p.total);
}

#[test]
fn unknown_key_has_no_question() {
    assert!(question_by_key("does_not_exist").is_none());
}

#[test]
fn all_questions_are_numbered_in_order() {
    let qs = all_questions();
    assert_eq!(qs.len(), 10);
    for (i, q) in qs.iter().enumerate() {
        assert_eq!(q.index, i + 1);
        assert_eq!(q.total, 10);
        assert!(!q.prompt.is_empty());
    }
    assert_eq!(qs[4].key, "expected_turnover");
    assert!(!qs[0].optional);
    assert!(qs[9].optional);
}

#[test]
fn lookup_agrees_with_listing() {
    for q in all_questions() {
        let found = question_by_key(&q.key).expect("listed key must be found");
        assert_eq!(found.key, q.key);
        assert_eq!(found.index, q.index);
        assert_eq!(found.prompt, q.prompt);
        assert_eq!(found.optional, q.optional);
    }
}

#[test]
fn next_question_skips_out_of_order_answers() {
    let answered = vec!["target_audience".to_string()];
    let q = next_question(&answered).unwrap();
    assert_eq!(q.key, "business_idea");
    let answered = vec!["target_audience".to_string(), "business_idea".to_string()];
    let q = next_question(&answered).unwrap();
    assert_eq!(q.key, "product_category");
    assert_eq!(q.index, 3);
}

#[test]
fn answering_next_question_advances() {
    let mut answered: Vec<String> = Vec::new();
    let mut last_index = 0;
    while let Some(q) = next_question(&answered) {
        assert!(q.index > last_index);
        last_index = q.index;
        answered.push(q.key.clone());
    }
    assert_eq!(last_index, 10);
}

#[test]
fn progress_caps_answered_and_reports_next() {
    let p = progress("s2", "discovery", &[]);
    assert_eq!(p.session_id, "s2");
    assert_eq!(p.stage, "discovery");
    assert_eq!(p.answered, 0);
    assert!(!p.complete);
    assert_eq!(p.next_question.unwrap().key, "business_idea");

    let mut many: Vec<String> = all_questions().iter().map(|q| q.key.clone()).collect();
    many.push("extra".to_string());
    many.push("business_idea".to_string());
    let p = progress("s3", "profiling", &many);
    assert_eq!(p.answered, 10);
    assert!(p.complete);
}

#[test]
fn unknown_answered_keys_do_not_complete() {
    let answered = vec!["foo".to_string(), "bar".to_string()];
    let p = progress("s4", "discovery", &answered);
    assert_eq!(p.answered, 2);
    assert!(!p.complete);
    assert_eq!(p.next_question.unwrap().index, 1);
}

#[test]
fn progress_complete_exactly_when_count_reaches_total() {
    let keys: Vec<String> = all_questions().iter().map(|q| q.key.to_string()).collect();
    for n in 0..=keys.len() {
        let p = progress("s2", "discovery", &keys[..n]);
        assert_eq!(p.complete, p.answered == p.total, "after {} answers", n);
        assert_eq!(p.answered, n);
    }
    // Distinct keys answered out of order: still incomplete until all are in.
    let mut shuffled = keys.clone();
    shuffled.reverse();
    let p = progress("s2", "discovery", &shuffled[..9]);
    assert!(!p.complete);
    assert_eq!(p.next_question.unwrap().key, keys[0]);
}
