use exsul::answers::{answer_text_for, answers_map};
use exsul::profiling::{build_draft, narrative_prompt, report_with_narrative};
use exsul::types::DiscoveryAnswer;

fn answer(key: &str, text: Option<&str>) -> DiscoveryAnswer {
    DiscoveryAnswer {
        question_key: key.to_string(),
        answer_text: text.map(|t| t.to_string()),
        skipped: text.is_none(),
        answered_at: "2024-01-01T00:00:00.000Z".to_string(),
    }
}

fn sample() -> Vec<DiscoveryAnswer> {
    vec![
        answer("business_idea", Some("  კერამიკის სახელოსნო  ")),
        answer("product_category", Some("კერამიკა")),
        answer("expected_turnover", Some("დაახლოებით 40 000 ₾")),
        answer("number_of_employees", Some("2")),
        answer("online_presence", Some("Instagram")),
        answer("import_export", None),
    ]
}

#[test]
fn answers_map_trims_and_keeps_last() {
    let answers = vec![
        answer("a", Some(" first ")),
        answer("b", Some("   ")),
        answer("a", Some("second")),
        answer("c", None),
    ];
    let map = answers_map(&answers);
    assert_eq!(map, vec![("a".to_string(), "second".to_string())]);
    assert_eq!(answer_text_for(&answers, "a"), Some("second".to_string()));
    assert_eq!(answer_text_for(&answers, "b"), None);
    assert_eq!(answer_text_for(&answers, "c"), None);
}

#[test]
fn blank_later_answer_does_not_erase_earlier() {
    let answers = vec![answer("a", Some("kept")), answer("a", Some(" "))];
    assert_eq!(answer_text_for(&answers, "a"), Some("kept".to_string()));
    assert_eq!(answers_map(&answers), vec![("a".to_string(), "kept".to_string())]);
}

#[test]
fn draft_from_answers() {
    let d = build_draft("s1", &sample());
    assert_eq!(d.session_id, "s1");
    assert_eq!(d.turnover, 40_000);
    assert_eq!(d.employees, 2);
    assert!(d.online);
    assert!(!d.has_physical);
    assert_eq!(d.tax.category, "small");
    assert_eq!(d.business_type_ka, "პროდუქტის გაყიდვა");
    assert_eq!(d.industry_ka, "კერამიკა");
    assert_eq!(d.scale_ka, "მცირე ბიზნესი");
    assert_eq!(d.risk_level_ka, "დაბალი (მცირე საწყისი დანახარჯები)");
    assert_eq!(d.growth_potential_ka, "საშუალო — ზრდის გეგმა დასაზუსტებელია");
    assert_eq!(
        d.deterministic_analysis,
        "იდეა: კერამიკის სახელოსნო. ტიპი: პროდუქტის გაყიდვა, მასштაბი: მცირე ბიზნესი. მოსალოდნელი ბრუნვა ~40000 ₾, თანამშრომლები: 2. საგადასახადო რეჟიმი: მცირე ბიზნესი. რეკომენდებული ფორმა: ინდივიდუალური მეწარმე (ფიზიკური პირი)."
    );
}

#[test]
fn draft_without_answers_uses_defaults() {
    let d = build_draft("s0", &[]);
    assert_eq!(d.turnover, 0);
    assert_eq!(d.employees, 0);
    assert_eq!(d.tax.category, "micro");
    assert_eq!(d.business_type_ka, "შერეული / დასაზუსტებელი");
    assert_eq!(d.industry_ka, "ზოგადი");
    assert!(d.deterministic_analysis.starts_with("იდეა: (იდეა დასაზუსტებელია). "));
    let r = report_with_narrative(d, None);
    assert_eq!(r.risks_ka[0], "ბრუნვა მითითებული არ არის — საგადასახადო შეფასება სავარაუდოა.");
    assert_eq!(r.risks_ka.len(), 2);
    assert_eq!(r.generated_by, "deterministic");
    assert_eq!(r.confidence_percent, 90);
}

#[test]
fn draft_type_and_risk_rules() {
    let answers = vec![
        answer("product_category", Some("ყავა")),
        answer("services_category", Some("კაფე")),
        answer("physical_location", Some("ვაკე")),
        answer("import_export", Some("იმპორტი")),
        answer("growth_plans", Some("ფილიალები")),
        answer("expected_turnover", Some("900000")),
    ];
    let d = build_draft("s5", &answers);
    assert_eq!(d.business_type_ka, "პროდუქტი და მომსახურება");
    assert_eq!(d.industry_ka, "ყავა");
    assert_eq!(d.risk_level_ka, "საშუალო-მაღალი (იმპორტი/ექსპორტი, საბაჟო)");
    assert_eq!(d.growth_potential_ka, "მაღალი — მკაფიო ზრდის გეგმა");
    assert_eq!(d.tax.category, "standard");
    assert_eq!(d.scale_ka, "საშუალო ან მსხვილი");

    let services_only = vec![answer("services_category", Some("დიზაინი")), answer("physical_location", Some("ოფისი"))];
    let d = build_draft("s6", &services_only);
    assert_eq!(d.business_type_ka, "მომსახურება");
    assert_eq!(d.industry_ka, "დიზაინი");
    assert_eq!(d.risk_level_ka, "საშუალო (ფიზიკური სივრცე, ქირა, ნებართვები)");
}

#[test]
fn report_assembles_sections() {
    let d = build_draft("s1", &sample());
    let r = report_with_narrative(d, Some(("ანალიზი".to_string(), "openai".to_string())));
    assert_eq!(r.analysis_ka, "ანალიზი");
    assert_eq!(r.generated_by, "openai");
    assert_eq!(r.confidence_percent, 85);
    assert_eq!(
        r.banking_requirements_ka,
        vec![
            "ბიზნეს ანგარიში (ფიზიკურისგან გამიჯნული)".to_string(),
            "ონლაინ-ეკვაირინგი გადახდებისთვის".to_string(),
        ]
    );
    assert_eq!(r.marketing_requirements_ka.len(), 2);
    assert_eq!(
        r.recommendations_ka,
        vec![
            "აირჩიეთ ფორმა: ინდივიდუალური მეწარმე (ფიზიკური პირი)".to_string(),
            "საგადასახადო რეჟიმი: მცირე ბიზნესი".to_string(),
            "გახსენით ცალკე ბიზნეს-ანგარიში პირადი ფინანსებისგან გასამიჯნად.".to_string(),
        ]
    );
    assert_eq!(r.risks_ka, vec!["ზღვრები/განაკვეთები გადაამოწმეთ rs.ge-ზე — კანონმდებლობა იცვლება.".to_string()]);
    assert_eq!(r.next_actions_ka[1], "დაიწყეთ რეგისტრაცია: ინდივიდუალური მეწარმე (ფიზიკური პირი)");
    assert_eq!(r.required_documents_ka, r.registration.required_documents_ka);
    assert_eq!(r.estimated_timeline_ka, r.registration.estimated_timeline_ka);
}

#[test]
fn report_with_vat_and_physical_location() {
    let answers = vec![
        answer("expected_turnover", Some("150000")),
        answer("physical_location", Some("მაღაზია")),
    ];
    let r = report_with_narrative(build_draft("s7", &answers), None);
    assert!(r.tax.vat_relevant);
    assert_eq!(r.banking_requirements_ka.len(), 3);
    assert_eq!(r.banking_requirements_ka[1], "POS ტერმინალი ადგილზე გადახდისთვის");
    assert_eq!(r.marketing_requirements_ka, vec!["ლოკალური მარკეტინგი და რეკომენდაციები".to_string()]);
    assert_eq!(r.recommendations_ka[2], "დაგეგმეთ დღგ-ზე რეგისტრაცია წინასწარ.");
    assert_eq!(r.risks_ka[0], "დღგ-ის ზღვრის გადაჭარბება ზრდის ადმინისტრირების ტვირთს.");
    assert!(r.analysis_ka.contains("150000"));
}

#[test]
fn narrative_prompt_lists_answers_and_assessment() {
    let answers = vec![answer("business_idea", Some(" ცხობა ")), answer("target_audience", Some("მეზობლები"))];
    let d = build_draft("s8", &answers);
    let p = narrative_prompt(&answers, &d);
    assert_eq!(
        p,
        "შენ ხარ ქართველი მეწარმის თანადამფუძნებელი-კონსულტანტი. ქვემოთ მოცემულია ბიზნესის აღმოჩენის ინტერვიუს პასუხები:\n- business_idea: ცხობა\n- target_audience: მეზობლები\n\nდეტერმინისტული შეფასება: საგადასახადო რეჟიმი — მიკრო ბიზნესი, რეკომენდებული ფორმა — ინდივიდუალური მეწარმე (ფიზიკური პირი), მასშტაბი — მიკრო / სტარტაპი.\n\nდაწერე მოკლე (3–5 წინადადება), ბუნებრივი ქართული ანალიზი ამ ბიზნესის სიცოცხლისუნარიანობასა და მთავარ ნაბიჯებზე. ნუ გამოიგონებ ფაქტებს; დაეყრდენი მხოლოდ მოცემულ ინფორმაციას."
    );
}
