use exsul::knowledge::{classify_tax, parse_amount, parse_count, registration_plan};

#[test]
fn micro_without_staff() {
    let t = classify_tax(20_000, 0);
    assert_eq!(t.category, "micro");
    assert_eq!(t.category_ka, "მიკრო ბიზნესი");
    assert!(!t.vat_relevant);
    assert_eq!(t.confidence_percent, 90);
    assert_eq!(
        t.reasoning_ka,
        "მოსალოდნელი წლიური ბრუნვა (~20000 ₾) არ აღემატება მიკრო ბიზნესის ზღვარს (30000 ₾) და დაქირავებული თანამშრომელი არ არის."
    );
    assert_eq!(t.obligations_ka.len(), 3);
    assert_eq!(t.obligations_ka[1], "წლიური დეკლარაციის წარდგენა.");
}

#[test]
fn micro_limit_is_inclusive() {
    assert_eq!(classify_tax(30_000, 0).category, "micro");
    assert_eq!(classify_tax(30_001, 0).category, "small");
    assert_eq!(classify_tax(0, -3).category, "micro");
}

#[test]
fn staff_rules_out_micro() {
    let t = classify_tax(10_000, 2);
    assert_eq!(t.category, "small");
    assert_eq!(t.confidence_percent, 85);
}

#[test]
fn small_below_vat() {
    let t = classify_tax(40_000, 1);
    assert_eq!(t.category, "small");
    assert!(!t.vat_relevant);
    assert_eq!(
        t.reasoning_ka,
        "მოსალოდნელი წლიური ბრუნვა (~40000 ₾) ჯდება მცირე ბიზნესის ზღვარში (500000 ₾)."
    );
    assert_eq!(t.obligations_ka[2], "ბრუნვის მონიტორინგი დღგ-ის ზღვართან მიახლოებისას.");
}

#[test]
fn small_above_vat() {
    let t = classify_tax(100_000, 0);
    assert_eq!(t.category, "small");
    assert!(t.vat_relevant);
    assert_eq!(
        t.reasoning_ka,
        "მოსალოდნელი წლიური ბრუნვა (~100000 ₾) ჯდება მცირე ბიზნესის ზღვარში (500000 ₾). ბრუნვა აღემატება დღგ-ის ზღვარს (100000 ₾) — დღგ-ზე რეგისტრაცია სავალდებულოა."
    );
    assert_eq!(t.obligations_ka[2], "დღგ-ზე რეგისტრაცია და 18% დღგ-ის ადმინისტრირება.");
    assert!(!classify_tax(99_999, 0).vat_relevant);
}

#[test]
fn standard_above_small_limit() {
    assert_eq!(classify_tax(500_000, 0).category, "small");
    let t = classify_tax(500_001, 0);
    assert_eq!(t.category, "standard");
    assert!(t.vat_relevant);
    assert_eq!(t.confidence_percent, 80);
    assert_eq!(
        t.reasoning_ka,
        "მოსალოდნელი წლიური ბრუნვა (~500001 ₾) აღემატება მცირე ბიზნესის ზღვარს (500000 ₾) — რეკომენდებულია იურიდიული პირი (შპს) სტანდარტული რეჟიმით."
    );
    assert_eq!(classify_tax(u64::MAX, 5).category, "standard");
}

#[test]
fn category_never_drops_with_turnover() {
    let rank = |c: &str| match c {
        "micro" => 0,
        "small" => 1,
        _ => 2,
    };
    let points = [0u64, 1, 29_999, 30_000, 30_001, 99_999, 100_000, 499_999, 500_000, 500_001, 10_000_000];
    for e in [0i64, 1] {
        for w in points.windows(2) {
            assert!(rank(&classify_tax(w[0], e).category) <= rank(&classify_tax(w[1], e).category));
        }
    }
}

#[test]
fn registration_plan_for_individual() {
    let p = registration_plan("micro");
    assert_eq!(p.recommended_path_ka, "ინდივიდუალური მეწარმე (ფიზიკური პირი)");
    assert_eq!(p.steps.len(), 3);
    assert_eq!(p.steps[2].title_ka, "მიკრო ბიზნესის სტატუსის მოპოვება");
    assert_eq!(p.steps[0].cost_ka, "უფასო ან მინიმალური მოსაკრებელი");
    assert_eq!(p.required_documents_ka, vec!["პირადობის მოწმობა".to_string()]);
    assert_eq!(p.institutions_ka.len(), 3);
    assert_eq!(p.estimated_timeline_ka, "ჯამში ≈ 1–3 სამუშაო დღე");
    assert_eq!(p.estimated_cost_ka, "≈ 0–50 ₾");

    let s = registration_plan("small");
    assert_eq!(s.steps.len(), 3);
    assert_eq!(s.steps[2].cost_ka, "სალაროს ღირებულება დამოკიდებულია მოდელზე");
}

#[test]
fn registration_plan_for_company() {
    let p = registration_plan("standard");
    assert_eq!(p.recommended_path_ka, "შეზღუდული პასუხისმგებლობის საზოგადოება (შპს)");
    assert_eq!(p.steps.len(), 2);
    assert_eq!(p.steps[0].duration_ka, "1 სამუშაო დღე");
    assert_eq!(p.required_documents_ka.len(), 4);
    assert_eq!(p.required_documents_ka[3], "დამფუძნებელთა გადაწყვეტილება");
    assert_eq!(p.estimated_cost_ka, "≈ 100–250 ₾");
}

#[test]
fn registration_plan_for_unknown_category() {
    let p = registration_plan("other");
    assert_eq!(p.steps.len(), 2);
    assert_eq!(p.required_documents_ka.len(), 1);
}

#[test]
fn plan_follows_classification() {
    for (t, llc) in [(1_000u64, false), (200_000, false), (600_000, true)] {
        let tax = classify_tax(t, 1);
        let plan = registration_plan(&tax.category);
        assert_eq!(plan.recommended_path_ka == "შეზღუდული პასუხისმგებლობის საზოგადოება (შპს)", llc);
    }
}

#[test]
fn parse_amount_reads_first_amount() {
    assert_eq!(parse_amount("დაახლოებით 40 000 ₾"), Some(40_000));
    assert_eq!(parse_amount("30 000-დან 50 000-მდე"), Some(30_000));
    assert_eq!(parse_amount("1\u{a0}250\u{202f}000 ლარი"), Some(1_250_000));
    assert_eq!(parse_amount("1,250,000"), Some(1_250_000));
    assert_eq!(parse_amount("40.000 ₾"), Some(40_000));
    assert_eq!(parse_amount("5, 10 ან 20"), Some(5));
    assert_eq!(parse_amount("2024 წელს  5 თანამშრომელი"), Some(2024));
    assert_eq!(parse_amount("ფასი: 12 "), Some(12));
    assert_eq!(parse_amount("007"), Some(7));
    assert_eq!(parse_amount("no digits"), None);
    assert_eq!(parse_amount(""), None);
    assert_eq!(parse_amount("99999999999999999999999"), Some(u64::MAX));
}

#[test]
fn parse_count_takes_first_number() {
    assert_eq!(parse_count("2 თანამშრომელი, 3 სტაჟიორი"), Some(2));
    assert_eq!(parse_count("around 15"), Some(15));
    assert_eq!(parse_count("none"), None);
    assert_eq!(parse_count("-4"), Some(4));
    assert_eq!(parse_count("9223372036854775807"), Some(i64::MAX));
    assert_eq!(parse_count("9223372036854775808"), None);
}
