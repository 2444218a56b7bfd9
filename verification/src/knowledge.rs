//! Georgian registration and taxation reference data, and the deterministic
//! rules built on it: tax classification by turnover and headcount, the
//! registration roadmap, and number extraction from free-text answers.
//!
//! Amounts are whole lari (₾). Thresholds and rates may change over time and
//! must be checked against the Revenue Service (rs.ge).

use vstd::prelude::*;

use crate::text::{
    chars_of, decimal, digit_value, digits_value, is_ascii_digit, is_digit, push_decimal, str_eq,
};

verus! {

/// Annual turnover limit of a micro business (₾).
pub const MICRO_TURNOVER_LIMIT_GEL: u64 = 30_000;
/// Annual turnover limit of a small business (₾).
pub const SMALL_TURNOVER_LIMIT_GEL: u64 = 500_000;
/// Mandatory VAT registration threshold on 12-month turnover (₾).
pub const VAT_THRESHOLD_GEL: u64 = 100_000;

pub const CATEGORY_MICRO: &'static str = "micro";
pub const CATEGORY_SMALL: &'static str = "small";
pub const CATEGORY_STANDARD: &'static str = "standard";

pub const MICRO_CATEGORY_KA: &'static str = "მიკრო ბიზნესი";
pub const MICRO_RATE_KA: &'static str = "საშემოსავლო გადასახადი 0% (გარკვეული საქმიანობები გამორიცხულია).";
pub const MICRO_REASON_1: &'static str = "მოსალოდნელი წლიური ბრუნვა (~";
pub const MICRO_REASON_2: &'static str = " ₾) არ აღემატება მიკრო ბიზნესის ზღვარს (";
pub const MICRO_REASON_3: &'static str = " ₾) და დაქირავებული თანამშრომელი არ არის.";
pub const MICRO_OBLIGATION_1: &'static str = "მიკრო ბიზნესის სტატუსის მოპოვება შემოსავლების სამსახურში.";
pub const MICRO_OBLIGATION_2: &'static str = "წლიური დეკლარაციის წარდგენა.";
pub const MICRO_OBLIGATION_3: &'static str = "ნებადართული საქმიანობების ნუსხის დაცვა.";

pub const SMALL_CATEGORY_KA: &'static str = "მცირე ბიზნესი";
pub const SMALL_RATE_KA: &'static str = "ბრუნვის გადასახადი 1% (ზღვრის გადაჭარბებისას ნაწილზე — 3%).";
pub const SMALL_REASON_1: &'static str = "მოსალოდნელი წლიური ბრუნვა (~";
pub const SMALL_REASON_2: &'static str = " ₾) ჯდება მცირე ბიზნესის ზღვარში (";
pub const SMALL_REASON_3: &'static str = " ₾).";
pub const SMALL_VAT_REASON_1: &'static str = " ბრუნვა აღემატება დღგ-ის ზღვარს (";
pub const SMALL_VAT_REASON_2: &'static str = " ₾) — დღგ-ზე რეგისტრაცია სავალდებულოა.";
pub const SMALL_OBLIGATION_1: &'static str = "მცირე ბიზნესის სტატუსის მოპოვება და სალარო აპარატის გამოყენება.";
pub const SMALL_OBLIGATION_2: &'static str = "ყოველთვიური დეკლარაცია 1% განაკვეთით.";
pub const SMALL_OBLIGATION_VAT: &'static str = "დღგ-ზე რეგისტრაცია და 18% დღგ-ის ადმინისტრირება.";
pub const SMALL_OBLIGATION_WATCH: &'static str = "ბრუნვის მონიტორინგი დღგ-ის ზღვართან მიახლოებისას.";

pub const STANDARD_CATEGORY_KA: &'static str = "სტანდარტული რეჟიმი (შპს/იურიდიული პირი)";
pub const STANDARD_RATE_KA: &'static str = "მოგების გადასახადი 15% (განაწილებისას), დივიდენდი 5%, დღგ 18%.";
pub const STANDARD_REASON_1: &'static str = "მოსალოდნელი წლიური ბრუნვა (~";
pub const STANDARD_REASON_2: &'static str = " ₾) აღემატება მცირე ბიზნესის ზღვარს (";
pub const STANDARD_REASON_3: &'static str = " ₾) — რეკომენდებულია იურიდიული პირი (შპს) სტანდარტული რეჟიმით.";
pub const STANDARD_OBLIGATION_1: &'static str = "შპს-ის რეგისტრაცია საჯარო რეესტრში.";
pub const STANDARD_OBLIGATION_2: &'static str = "დღგ-ზე რეგისტრაცია (18%).";
pub const STANDARD_OBLIGATION_3: &'static str = "ბუღალტრული აღრიცხვა და ყოველთვიური დეკლარაციები.";

/// Tax classification outcome, decided from the official thresholds.
#[derive(Debug, Clone)]
pub struct TaxClassification {
    /// Machine code: `micro`, `small` or `standard`.
    pub category: String,
    pub category_ka: String,
    pub rate_ka: String,
    pub vat_relevant: bool,
    pub reasoning_ka: String,
    pub obligations_ka: Vec<String>,
    /// Confidence of the threshold-based decision, in percent.
    pub confidence_percent: u8,
}

/// The texts of a list of strings.
pub open spec fn texts(v: Seq<String>) -> Seq<Seq<char>> {
    v.map_values(|s: String| s@)
}

/// Abstract value of a [`TaxClassification`].
pub struct TaxView {
    pub category: Seq<char>,
    pub category_ka: Seq<char>,
    pub rate_ka: Seq<char>,
    pub vat_relevant: bool,
    pub reasoning_ka: Seq<char>,
    pub obligations_ka: Seq<Seq<char>>,
    pub confidence_percent: nat,
}

impl View for TaxClassification {
    type V = TaxView;

    open spec fn view(&self) -> TaxView {
        TaxView {
            category: self.category@,
            category_ka: self.category_ka@,
            rate_ka: self.rate_ka@,
            vat_relevant: self.vat_relevant,
            reasoning_ka: self.reasoning_ka@,
            obligations_ka: texts(self.obligations_ka@),
            confidence_percent: self.confidence_percent as nat,
        }
    }
}

/// Micro status: turnover within the micro limit and no hired staff.
pub open spec fn is_micro(turnover: nat, employees: int) -> bool {
    turnover <= MICRO_TURNOVER_LIMIT_GEL && employees <= 0
}

/// The tax classification of a business with the given annual turnover (₾)
/// and number of employees.
pub open spec fn spec_classify_tax(turnover: nat, employees: int) -> TaxView {
    let vat_relevant = turnover >= VAT_THRESHOLD_GEL;
    if is_micro(turnover, employees) {
        TaxView {
            category: CATEGORY_MICRO@,
            category_ka: MICRO_CATEGORY_KA@,
            rate_ka: MICRO_RATE_KA@,
            vat_relevant,
            reasoning_ka: MICRO_REASON_1@ + decimal(turnover) + MICRO_REASON_2@ + decimal(
                MICRO_TURNOVER_LIMIT_GEL as nat,
            ) + MICRO_REASON_3@,
            obligations_ka: seq![MICRO_OBLIGATION_1@, MICRO_OBLIGATION_2@, MICRO_OBLIGATION_3@],
            confidence_percent: 90,
        }
    } else if turnover <= SMALL_TURNOVER_LIMIT_GEL {
        TaxView {
            category: CATEGORY_SMALL@,
            category_ka: SMALL_CATEGORY_KA@,
            rate_ka: SMALL_RATE_KA@,
            vat_relevant,
            reasoning_ka: SMALL_REASON_1@ + decimal(turnover) + SMALL_REASON_2@ + decimal(
                SMALL_TURNOVER_LIMIT_GEL as nat,
            ) + SMALL_REASON_3@ + if vat_relevant {
                SMALL_VAT_REASON_1@ + decimal(VAT_THRESHOLD_GEL as nat) + SMALL_VAT_REASON_2@
            } else {
                Seq::empty()
            },
            obligations_ka: seq![
                SMALL_OBLIGATION_1@,
                SMALL_OBLIGATION_2@,
                if vat_relevant {
                    SMALL_OBLIGATION_VAT@
                } else {
                    SMALL_OBLIGATION_WATCH@
                },
            ],
            confidence_percent: 85,
        }
    } else {
        TaxView {
            category: CATEGORY_STANDARD@,
            category_ka: STANDARD_CATEGORY_KA@,
            rate_ka: STANDARD_RATE_KA@,
            vat_relevant: true,
            reasoning_ka: STANDARD_REASON_1@ + decimal(turnover) + STANDARD_REASON_2@ + decimal(
                SMALL_TURNOVER_LIMIT_GEL as nat,
            ) + STANDARD_REASON_3@,
            obligations_ka: seq![
                STANDARD_OBLIGATION_1@,
                STANDARD_OBLIGATION_2@,
                STANDARD_OBLIGATION_3@,
            ],
            confidence_percent: 80,
        }
    }
}

/// Classify a business by annual turnover (whole ₾) and headcount, using the
/// official Georgian thresholds. Micro status is for individual entrepreneurs
/// without hired staff.
pub fn classify_tax(annual_turnover_gel: u64, employees: i64) -> (r: TaxClassification)
    ensures
        r@ == spec_classify_tax(annual_turnover_gel as nat, employees as int),
{
    let vat_relevant = annual_turnover_gel >= VAT_THRESHOLD_GEL;
    if annual_turnover_gel <= MICRO_TURNOVER_LIMIT_GEL && employees <= 0 {
        let mut reasoning = MICRO_REASON_1.to_owned();
        push_decimal(&mut reasoning, annual_turnover_gel);
        reasoning.append(MICRO_REASON_2);
        push_decimal(&mut reasoning, MICRO_TURNOVER_LIMIT_GEL);
        reasoning.append(MICRO_REASON_3);
        let obligations = vec![
            MICRO_OBLIGATION_1.to_owned(),
            MICRO_OBLIGATION_2.to_owned(),
            MICRO_OBLIGATION_3.to_owned(),
        ];
        let r = TaxClassification {
            category: CATEGORY_MICRO.to_owned(),
            category_ka: MICRO_CATEGORY_KA.to_owned(),
            rate_ka: MICRO_RATE_KA.to_owned(),
            vat_relevant,
            reasoning_ka: reasoning,
            obligations_ka: obligations,
            confidence_percent: 90,
        };
        assert(r@.obligations_ka =~= spec_classify_tax(annual_turnover_gel as nat, employees as int).obligations_ka);
        return r;
    }
    if annual_turnover_gel <= SMALL_TURNOVER_LIMIT_GEL {
        let mut reasoning = SMALL_REASON_1.to_owned();
        push_decimal(&mut reasoning, annual_turnover_gel);
        reasoning.append(SMALL_REASON_2);
        push_decimal(&mut reasoning, SMALL_TURNOVER_LIMIT_GEL);
        reasoning.append(SMALL_REASON_3);
        let ghost base = reasoning@;
        if vat_relevant {
            reasoning.append(SMALL_VAT_REASON_1);
            push_decimal(&mut reasoning, VAT_THRESHOLD_GEL);
            reasoning.append(SMALL_VAT_REASON_2);
            assert(reasoning@ =~= base + (SMALL_VAT_REASON_1@ + decimal(VAT_THRESHOLD_GEL as nat)
                + SMALL_VAT_REASON_2@));
        } else {
            assert(reasoning@ =~= base + Seq::<char>::empty());
        }
        let last = if vat_relevant {
            SMALL_OBLIGATION_VAT.to_owned()
        } else {
            SMALL_OBLIGATION_WATCH.to_owned()
        };
        let obligations = vec![SMALL_OBLIGATION_1.to_owned(), SMALL_OBLIGATION_2.to_owned(), last];
        let r = TaxClassification {
            category: CATEGORY_SMALL.to_owned(),
            category_ka: SMALL_CATEGORY_KA.to_owned(),
            rate_ka: SMALL_RATE_KA.to_owned(),
            vat_relevant,
            reasoning_ka: reasoning,
            obligations_ka: obligations,
            confidence_percent: 85,
        };
        assert(r@.obligations_ka =~= spec_classify_tax(annual_turnover_gel as nat, employees as int).obligations_ka);
        return r;
    }
    let mut reasoning = STANDARD_REASON_1.to_owned();
    push_decimal(&mut reasoning, annual_turnover_gel);
    reasoning.append(STANDARD_REASON_2);
    push_decimal(&mut reasoning, SMALL_TURNOVER_LIMIT_GEL);
    reasoning.append(STANDARD_REASON_3);
    let obligations = vec![
        STANDARD_OBLIGATION_1.to_owned(),
        STANDARD_OBLIGATION_2.to_owned(),
        STANDARD_OBLIGATION_3.to_owned(),
    ];
    let r = TaxClassification {
        category: CATEGORY_STANDARD.to_owned(),
        category_ka: STANDARD_CATEGORY_KA.to_owned(),
        rate_ka: STANDARD_RATE_KA.to_owned(),
        vat_relevant: true,
        reasoning_ka: reasoning,
        obligations_ka: obligations,
        confidence_percent: 80,
    };
    assert(r@.obligations_ka =~= spec_classify_tax(annual_turnover_gel as nat, employees as int).obligations_ka);
    r
}

pub const LLC_PATH_KA: &'static str = "შეზღუდული პასუხისმგებლობის საზოგადოება (შპს)";
pub const INDIVIDUAL_PATH_KA: &'static str = "ინდივიდუალური მეწარმე (ფიზიკური პირი)";
pub const JUSTICE_TITLE_KA: &'static str = "რეგისტრაცია იუსტიციის სახლში";
pub const JUSTICE_DETAIL_LLC_KA: &'static str = "შპს-ის რეგისტრაცია: დამფუძნებლის პირადობა, წესდება, იურიდიული მისამართის დამადასტურებელი.";
pub const JUSTICE_DETAIL_INDIVIDUAL_KA: &'static str = "ინდ. მეწარმედ რეგისტრაცია პირადობის მოწმობით — ჩვეულებრივ იმავე დღეს.";
pub const JUSTICE_INSTITUTION_KA: &'static str = "იუსტიციის სახლი / საჯარო რეესტრის ეროვნული სააგენტო";
pub const JUSTICE_COST_LLC_KA: &'static str = "≈ 100 ₾ (სტანდარტული), ≈ 200 ₾ (დაჩქარებული)";
pub const JUSTICE_COST_INDIVIDUAL_KA: &'static str = "უფასო ან მინიმალური მოსაკრებელი";
pub const JUSTICE_DURATION_KA: &'static str = "1 სამუშაო დღე";
pub const REVENUE_TITLE_KA: &'static str = "საგადასახადო აღრიცხვა შემოსავლების სამსახურში";
pub const REVENUE_DETAIL_KA: &'static str = "ელექტრონული პორტალის (rs.ge) აქტივაცია და საგადასახადო სტატუსის მოპოვება.";
pub const REVENUE_INSTITUTION_KA: &'static str = "შემოსავლების სამსახური (rs.ge)";
pub const FREE_KA: &'static str = "უფასო";
pub const ONE_DAY_KA: &'static str = "1 დღე";
pub const MICRO_STEP_TITLE_KA: &'static str = "მიკრო ბიზნესის სტატუსის მოპოვება";
pub const MICRO_STEP_DETAIL_KA: &'static str = "განცხადება მიკრო ბიზნესის სტატუსზე (საშემოსავლო 0%).";
pub const REVENUE_SERVICE_KA: &'static str = "შემოსავლების სამსახური";
pub const ONE_TO_THREE_DAYS_KA: &'static str = "1–3 დღე";
pub const SMALL_STEP_TITLE_KA: &'static str = "მცირე ბიზნესის სტატუსისა და სალარო აპარატის გაფორმება";
pub const SMALL_STEP_DETAIL_KA: &'static str = "მცირე ბიზნესის სტატუსი (1%) და სალარო აპარატის რეგისტრაცია.";
pub const SMALL_STEP_COST_KA: &'static str = "სალაროს ღირებულება დამოკიდებულია მოდელზე";
pub const ID_CARD_KA: &'static str = "პირადობის მოწმობა";
pub const CHARTER_KA: &'static str = "შპს-ის წესდება";
pub const ADDRESS_PROOF_KA: &'static str = "იურიდიული მისამართის დამადასტურებელი";
pub const FOUNDERS_DECISION_KA: &'static str = "დამფუძნებელთა გადაწყვეტილება";
pub const JUSTICE_HOUSE_KA: &'static str = "იუსტიციის სახლი";
pub const PUBLIC_REGISTRY_KA: &'static str = "საჯარო რეესტრის ეროვნული სააგენტო";
pub const TIMELINE_LLC_KA: &'static str = "ჯამში ≈ 2–5 სამუშაო დღე";
pub const TIMELINE_INDIVIDUAL_KA: &'static str = "ჯამში ≈ 1–3 სამუშაო დღე";
pub const COST_LLC_KA: &'static str = "≈ 100–250 ₾";
pub const COST_INDIVIDUAL_KA: &'static str = "≈ 0–50 ₾";

/// One step of the registration roadmap.
#[derive(Debug, Clone)]
pub struct RegistrationStep {
    pub title_ka: String,
    pub detail_ka: String,
    pub institution_ka: String,
    pub cost_ka: String,
    pub duration_ka: String,
}

/// Abstract value of a [`RegistrationStep`].
pub struct StepView {
    pub title_ka: Seq<char>,
    pub detail_ka: Seq<char>,
    pub institution_ka: Seq<char>,
    pub cost_ka: Seq<char>,
    pub duration_ka: Seq<char>,
}

impl View for RegistrationStep {
    type V = StepView;

    open spec fn view(&self) -> StepView {
        StepView {
            title_ka: self.title_ka@,
            detail_ka: self.detail_ka@,
            institution_ka: self.institution_ka@,
            cost_ka: self.cost_ka@,
            duration_ka: self.duration_ka@,
        }
    }
}

/// Recommended legal form and roadmap derived from the tax category.
#[derive(Debug, Clone)]
pub struct RegistrationPlan {
    pub recommended_path_ka: String,
    pub institutions_ka: Vec<String>,
    pub required_documents_ka: Vec<String>,
    pub steps: Vec<RegistrationStep>,
    pub estimated_timeline_ka: String,
    pub estimated_cost_ka: String,
}

/// Abstract value of a [`RegistrationPlan`].
pub struct PlanView {
    pub recommended_path_ka: Seq<char>,
    pub institutions_ka: Seq<Seq<char>>,
    pub required_documents_ka: Seq<Seq<char>>,
    pub steps: Seq<StepView>,
    pub estimated_timeline_ka: Seq<char>,
    pub estimated_cost_ka: Seq<char>,
}

impl View for RegistrationPlan {
    type V = PlanView;

    open spec fn view(&self) -> PlanView {
        PlanView {
            recommended_path_ka: self.recommended_path_ka@,
            institutions_ka: texts(self.institutions_ka@),
            required_documents_ka: texts(self.required_documents_ka@),
            steps: self.steps@.map_values(|s: RegistrationStep| s@),
            estimated_timeline_ka: self.estimated_timeline_ka@,
            estimated_cost_ka: self.estimated_cost_ka@,
        }
    }
}

/// The roadmap steps for a tax category: justice house and revenue service
/// for everyone, then the micro or small status step where it applies.
pub open spec fn spec_steps(category: Seq<char>) -> Seq<StepView> {
    let is_company = category == CATEGORY_STANDARD@;
    let base = seq![
        StepView {
            title_ka: JUSTICE_TITLE_KA@,
            detail_ka: if is_company { JUSTICE_DETAIL_LLC_KA@ } else { JUSTICE_DETAIL_INDIVIDUAL_KA@ },
            institution_ka: JUSTICE_INSTITUTION_KA@,
            cost_ka: if is_company { JUSTICE_COST_LLC_KA@ } else { JUSTICE_COST_INDIVIDUAL_KA@ },
            duration_ka: JUSTICE_DURATION_KA@,
        },
        StepView {
            title_ka: REVENUE_TITLE_KA@,
            detail_ka: REVENUE_DETAIL_KA@,
            institution_ka: REVENUE_INSTITUTION_KA@,
            cost_ka: FREE_KA@,
            duration_ka: ONE_DAY_KA@,
        },
    ];
    if category == CATEGORY_MICRO@ {
        base.push(
            StepView {
                title_ka: MICRO_STEP_TITLE_KA@,
                detail_ka: MICRO_STEP_DETAIL_KA@,
                institution_ka: REVENUE_SERVICE_KA@,
                cost_ka: FREE_KA@,
                duration_ka: ONE_TO_THREE_DAYS_KA@,
            },
        )
    } else if category == CATEGORY_SMALL@ {
        base.push(
            StepView {
                title_ka: SMALL_STEP_TITLE_KA@,
                detail_ka: SMALL_STEP_DETAIL_KA@,
                institution_ka: REVENUE_SERVICE_KA@,
                cost_ka: SMALL_STEP_COST_KA@,
                duration_ka: ONE_TO_THREE_DAYS_KA@,
            },
        )
    } else {
        base
    }
}

/// The registration roadmap for a tax category: an LLC for the standard
/// regime, an individual entrepreneur otherwise.
pub open spec fn spec_registration_plan(category: Seq<char>) -> PlanView {
    let is_company = category == CATEGORY_STANDARD@;
    PlanView {
        recommended_path_ka: if is_company { LLC_PATH_KA@ } else { INDIVIDUAL_PATH_KA@ },
        institutions_ka: seq![JUSTICE_HOUSE_KA@, PUBLIC_REGISTRY_KA@, REVENUE_INSTITUTION_KA@],
        required_documents_ka: if is_company {
            seq![ID_CARD_KA@, CHARTER_KA@, ADDRESS_PROOF_KA@, FOUNDERS_DECISION_KA@]
        } else {
            seq![ID_CARD_KA@]
        },
        steps: spec_steps(category),
        estimated_timeline_ka: if is_company { TIMELINE_LLC_KA@ } else { TIMELINE_INDIVIDUAL_KA@ },
        estimated_cost_ka: if is_company { COST_LLC_KA@ } else { COST_INDIVIDUAL_KA@ },
    }
}

fn step(title: &str, detail: &str, institution: &str, cost: &str, duration: &str) -> (r:
    RegistrationStep)
    ensures
        r@ == (StepView {
            title_ka: title@,
            detail_ka: detail@,
            institution_ka: institution@,
            cost_ka: cost@,
            duration_ka: duration@,
        }),
{
    RegistrationStep {
        title_ka: title.to_owned(),
        detail_ka: detail.to_owned(),
        institution_ka: institution.to_owned(),
        cost_ka: cost.to_owned(),
        duration_ka: duration.to_owned(),
    }
}

/// Build the registration roadmap. Individual entrepreneur for micro and
/// small, LLC for the standard regime.
pub fn registration_plan(tax_category: &str) -> (r: RegistrationPlan)
    ensures
        r@ == spec_registration_plan(tax_category@),
{
    let is_company = str_eq(tax_category, CATEGORY_STANDARD);
    let recommended_path_ka = if is_company {
        LLC_PATH_KA.to_owned()
    } else {
        INDIVIDUAL_PATH_KA.to_owned()
    };
    let first = step(
        JUSTICE_TITLE_KA,
        if is_company { JUSTICE_DETAIL_LLC_KA } else { JUSTICE_DETAIL_INDIVIDUAL_KA },
        JUSTICE_INSTITUTION_KA,
        if is_company { JUSTICE_COST_LLC_KA } else { JUSTICE_COST_INDIVIDUAL_KA },
        JUSTICE_DURATION_KA,
    );
    let second = step(REVENUE_TITLE_KA, REVENUE_DETAIL_KA, REVENUE_INSTITUTION_KA, FREE_KA, ONE_DAY_KA);
    let mut steps = vec![first, second];
    if str_eq(tax_category, CATEGORY_MICRO) {
        steps.push(
            step(
                MICRO_STEP_TITLE_KA,
                MICRO_STEP_DETAIL_KA,
                REVENUE_SERVICE_KA,
                FREE_KA,
                ONE_TO_THREE_DAYS_KA,
            ),
        );
    } else if str_eq(tax_category, CATEGORY_SMALL) {
        steps.push(
            step(
                SMALL_STEP_TITLE_KA,
                SMALL_STEP_DETAIL_KA,
                REVENUE_SERVICE_KA,
                SMALL_STEP_COST_KA,
                ONE_TO_THREE_DAYS_KA,
            ),
        );
    }
    let mut required_documents_ka = vec![ID_CARD_KA.to_owned()];
    if is_company {
        required_documents_ka.push(CHARTER_KA.to_owned());
        required_documents_ka.push(ADDRESS_PROOF_KA.to_owned());
        required_documents_ka.push(FOUNDERS_DECISION_KA.to_owned());
    }
    let r = RegistrationPlan {
        recommended_path_ka,
        institutions_ka: vec![
            JUSTICE_HOUSE_KA.to_owned(),
            PUBLIC_REGISTRY_KA.to_owned(),
            REVENUE_INSTITUTION_KA.to_owned(),
        ],
        required_documents_ka,
        steps,
        estimated_timeline_ka: if is_company {
            TIMELINE_LLC_KA.to_owned()
        } else {
            TIMELINE_INDIVIDUAL_KA.to_owned()
        },
        estimated_cost_ka: if is_company {
            COST_LLC_KA.to_owned()
        } else {
            COST_INDIVIDUAL_KA.to_owned()
        },
    };
    let ghost spec = spec_registration_plan(tax_category@);
    assert(r@.institutions_ka =~= spec.institutions_ka);
    assert(r@.required_documents_ka =~= spec.required_documents_ka);
    assert(r@.steps =~= spec.steps);
    r
}

/// The ASCII digits of `s`, in order.
pub open spec fn ascii_digits(s: Seq<char>) -> Seq<char>
    decreases s.len(),
{
    if s.len() == 0 {
        Seq::empty()
    } else if is_ascii_digit(s.last()) {
        ascii_digits(s.drop_last()).push(s.last())
    } else {
        ascii_digits(s.drop_last())
    }
}

/// `n` clamped to the `u64` range.
pub open spec fn saturate_u64(n: nat) -> u64 {
    if n <= u64::MAX {
        n as u64
    } else {
        u64::MAX
    }
}

/// Characters that group the digits of one number, as in "40 000",
/// "1,250,000" or "1.250.000": spaces, commas and points.
pub open spec fn is_group_separator(c: char) -> bool {
    c == ' ' || c == '\u{a0}' || c == '\u{202f}' || c == ',' || c == '.'
}

/// End of the number that continues at `i`: digits, and single group
/// separators that are followed by a digit.
pub open spec fn amount_end(s: Seq<char>, i: int) -> int
    decreases s.len() - i,
{
    if i < 0 || i >= s.len() {
        s.len() as int
    } else if is_ascii_digit(s[i]) {
        amount_end(s, i + 1)
    } else if i + 1 < s.len() && is_group_separator(s[i]) && is_ascii_digit(s[i + 1]) {
        amount_end(s, i + 1)
    } else {
        i
    }
}

/// The first amount written in `s` (a number whose digits may be grouped by
/// spaces, commas or points), or `None` when `s` holds no digit.
pub open spec fn spec_parse_amount(s: Seq<char>) -> Option<u64> {
    let lo = skip_non_digits(s, 0);
    if lo >= s.len() {
        None
    } else {
        Some(saturate_u64(digits_value(ascii_digits(s.subrange(lo, amount_end(s, lo))))))
    }
}

/// Index of the first ASCII digit at or after `i` (or the length).
pub open spec fn skip_non_digits(s: Seq<char>, i: int) -> int
    decreases s.len() - i,
{
    if i < 0 || i >= s.len() {
        s.len() as int
    } else if is_ascii_digit(s[i]) {
        i
    } else {
        skip_non_digits(s, i + 1)
    }
}

/// End of the run of ASCII digits that starts at `i`.
pub open spec fn digit_run_end(s: Seq<char>, i: int) -> int
    decreases s.len() - i,
{
    if i < 0 || i >= s.len() {
        s.len() as int
    } else if is_ascii_digit(s[i]) {
        digit_run_end(s, i + 1)
    } else {
        i
    }
}

/// The first maximal run of ASCII digits in `s` (empty when there is none).
pub open spec fn first_digit_run(s: Seq<char>) -> Seq<char> {
    let lo = skip_non_digits(s, 0);
    s.subrange(lo, digit_run_end(s, lo))
}

/// The first whole number of `s` as an `i64`: `None` when `s` has no digit or
/// the number does not fit.
pub open spec fn spec_parse_count(s: Seq<char>) -> Option<i64> {
    let run = first_digit_run(s);
    if run.len() == 0 || digits_value(run) > i64::MAX {
        None
    } else {
        Some(digits_value(run) as i64)
    }
}

proof fn lemma_digits_value_extend(s: Seq<char>, lo: int, j: int)
    requires
        0 <= lo <= j < s.len(),
    ensures
        digits_value(s.subrange(lo, j + 1)) == digits_value(s.subrange(lo, j)) * 10 + digit_value(
            s[j],
        ),
{
    assert(s.subrange(lo, j + 1).drop_last() =~= s.subrange(lo, j));
}

/// Value of the ASCII digit `c`.
fn digit_of(c: char) -> (d: u64)
    requires
        is_ascii_digit(c),
    ensures
        d == digit_value(c),
        d < 10,
{
    ((c as u32) - 48) as u64
}

fn is_group_sep(c: char) -> (r: bool)
    ensures
        r == is_group_separator(c),
{
    c == ' ' || c == '\u{a0}' || c == '\u{202f}' || c == ',' || c == '.'
}

/// Extract the first amount written in free text, such as
/// "დაახლოებით 40 000 ₾" (40000): the first number, whose digits may be
/// grouped by single spaces, commas or points, each followed by a digit; the
/// digits of that number are read together. `None` when there is no digit;
/// amounts beyond
/// `u64::MAX` are clamped to it.
pub fn parse_amount(text: &str) -> (r: Option<u64>)
    ensures
        r == spec_parse_amount(text@),
{
    let v = chars_of(text);
    let n = v.len();
    let mut lo: usize = 0;
    while lo < n && !is_digit(v[lo])
        invariant
            n == v@.len(),
            v@ == text@,
            lo <= n,
            skip_non_digits(v@, lo as int) == skip_non_digits(v@, 0),
        decreases n - lo,
    {
        lo = lo + 1;
    }
    if lo == n {
        return None;
    }
    let mut acc: u64 = 0;
    let mut j: usize = lo;
    assert(v@.subrange(lo as int, lo as int) =~= Seq::<char>::empty());
    while j < n && (is_digit(v[j]) || (j + 1 < n && is_group_sep(v[j]) && is_digit(v[j + 1])))
        invariant
            n == v@.len(),
            v@ == text@,
            lo <= j <= n,
            amount_end(v@, j as int) == amount_end(v@, lo as int),
            acc == saturate_u64(digits_value(ascii_digits(v@.subrange(lo as int, j as int)))),
        decreases n - j,
    {
        let ghost before = ascii_digits(v@.subrange(lo as int, j as int));
        assert(v@.subrange(lo as int, j + 1).drop_last() =~= v@.subrange(lo as int, j as int));
        let c = v[j];
        if is_digit(c) {
            let d = digit_of(c);
            let ghost after = before.push(c);
            assert(after.drop_last() =~= before);
            assert(digits_value(after) == digits_value(before) * 10 + d);
            if acc == u64::MAX {
                assert(digits_value(before) >= u64::MAX);
            } else if acc > (u64::MAX - d) / 10 {
                assert(acc * 10 + d > u64::MAX) by (nonlinear_arith)
                    requires
                        acc > (u64::MAX - d) / 10,
                        d < 10,
                ;
                acc = u64::MAX;
            } else {
                assert(acc * 10 + d <= u64::MAX) by (nonlinear_arith)
                    requires
                        acc <= (u64::MAX - d) / 10,
                        d < 10,
                ;
                acc = acc * 10 + d;
            }
        }
        j = j + 1;
    }
    Some(acc)
}

/// Extract the first whole number (e.g. an employee count) from text: the
/// first run of ASCII digits, if it fits in an `i64`.
pub fn parse_count(text: &str) -> (r: Option<i64>)
    ensures
        r == spec_parse_count(text@),
{
    let v = chars_of(text);
    let n = v.len();
    let mut lo: usize = 0;
    while lo < n && !is_digit(v[lo])
        invariant
            n == v@.len(),
            v@ == text@,
            lo <= n,
            skip_non_digits(v@, lo as int) == skip_non_digits(v@, 0),
        decreases n - lo,
    {
        lo = lo + 1;
    }
    let mut j: usize = lo;
    let mut acc: u64 = 0;
    let mut overflow = false;
    let max: u64 = 0x7fff_ffff_ffff_ffff;
    while j < n && is_digit(v[j])
        invariant
            n == v@.len(),
            v@ == text@,
            lo == skip_non_digits(v@, 0),
            lo <= j <= n,
            max == i64::MAX,
            digit_run_end(v@, j as int) == digit_run_end(v@, lo as int),
            overflow ==> digits_value(v@.subrange(lo as int, j as int)) > i64::MAX,
            !overflow ==> acc == digits_value(v@.subrange(lo as int, j as int)) && acc <= i64::MAX,
        decreases n - j,
    {
        let d = digit_of(v[j]);
        proof {
            lemma_digits_value_extend(v@, lo as int, j as int);
        }
        if !overflow {
            if acc > (max - d) / 10 {
                assert(acc * 10 + d > max) by (nonlinear_arith)
                    requires
                        acc > (max - d) / 10,
                        d < 10,
                ;
                overflow = true;
            } else {
                assert(acc * 10 + d <= max) by (nonlinear_arith)
                    requires
                        acc <= (max - d) / 10,
                        d < 10,
                ;
                acc = acc * 10 + d;
            }
        }
        j = j + 1;
    }
    if j == lo || overflow {
        None
    } else {
        Some(acc as i64)
    }
}

/// Rank of a tax category: micro 0, small 1, standard 2.
pub open spec fn category_rank(category: Seq<char>) -> int {
    if category == CATEGORY_MICRO@ {
        0
    } else if category == CATEGORY_SMALL@ {
        1
    } else {
        2
    }
}

proof fn lemma_category_names_distinct()
    ensures
        CATEGORY_MICRO@ != CATEGORY_SMALL@,
        CATEGORY_MICRO@ != CATEGORY_STANDARD@,
        CATEGORY_SMALL@ != CATEGORY_STANDARD@,
{
    reveal_strlit("micro");
    reveal_strlit("small");
    reveal_strlit("standard");
    assert(CATEGORY_MICRO@[0] != CATEGORY_SMALL@[0]);
    assert(CATEGORY_SMALL@.len() != CATEGORY_STANDARD@.len());
    assert(CATEGORY_MICRO@.len() != CATEGORY_STANDARD@.len());
}

/// VAT matters exactly from the VAT threshold on, whatever the category.
pub proof fn lemma_vat_relevant_iff_threshold(turnover: nat, employees: int)
    ensures
        spec_classify_tax(turnover, employees).vat_relevant == (turnover >= 100_000),
{
}

/// A higher turnover never yields a lower tax category.
pub proof fn lemma_category_monotone_in_turnover(t1: nat, t2: nat, employees: int)
    requires
        t1 <= t2,
    ensures
        category_rank(spec_classify_tax(t1, employees).category) <= category_rank(
            spec_classify_tax(t2, employees).category,
        ),
{
    lemma_category_names_distinct();
}

/// Hiring staff rules out micro status.
pub proof fn lemma_staff_rules_out_micro(turnover: nat, employees: int)
    requires
        employees > 0,
    ensures
        spec_classify_tax(turnover, employees).category != CATEGORY_MICRO@,
{
    lemma_category_names_distinct();
}

/// The roadmap for a classified business recommends an LLC exactly when the
/// turnover exceeds the small-business limit, and has a status step (three
/// steps in all) exactly when it does not.
pub proof fn lemma_plan_follows_turnover(turnover: nat, employees: int)
    ensures
        ({
            let plan = spec_registration_plan(spec_classify_tax(turnover, employees).category);
            &&& (plan.recommended_path_ka == LLC_PATH_KA@) == (turnover > SMALL_TURNOVER_LIMIT_GEL)
            &&& plan.steps.len() == if turnover > SMALL_TURNOVER_LIMIT_GEL {
                2int
            } else {
                3int
            }
            &&& plan.required_documents_ka.len() == if turnover > SMALL_TURNOVER_LIMIT_GEL {
                4int
            } else {
                1int
            }
        }),
{
    lemma_category_names_distinct();
    reveal_strlit("შეზღუდული პასუხისმგებლობის საზოგადოება (შპს)");
    reveal_strlit("ინდივიდუალური მეწარმე (ფიზიკური პირი)");
    assert(LLC_PATH_KA@[0] != INDIVIDUAL_PATH_KA@[0]);
}

/// The three rate texts differ from one another.
proof fn lemma_rate_texts_distinct()
    ensures
        MICRO_RATE_KA@ != SMALL_RATE_KA@,
        MICRO_RATE_KA@ != STANDARD_RATE_KA@,
        SMALL_RATE_KA@ != STANDARD_RATE_KA@,
{
    reveal_strlit("საშემოსავლო გადასახადი 0% (გარკვეული საქმიანობები გამორიცხულია).");
    reveal_strlit("ბრუნვის გადასახადი 1% (ზღვრის გადაჭარბებისას ნაწილზე — 3%).");
    reveal_strlit("მოგების გადასახადი 15% (განაწილებისას), დივიდენდი 5%, დღგ 18%.");
    assert(MICRO_RATE_KA@[0] != SMALL_RATE_KA@[0]);
    assert(MICRO_RATE_KA@[0] != STANDARD_RATE_KA@[0]);
    assert(SMALL_RATE_KA@[0] != STANDARD_RATE_KA@[0]);
}

/// The tax rate goes with the category, and both follow the thresholds: a
/// business with at most 30 000 ₾ turnover and no staff is micro and pays the
/// 0% income-tax rate; otherwise, up to 500 000 ₾, it is small and pays the
/// 1% turnover tax; above that it is standard and pays the profit-tax
/// regime. The micro 0% rate never appears for any other status.
pub proof fn lemma_rate_follows_category(turnover: nat, employees: int)
    ensures
        ({
            let c = spec_classify_tax(turnover, employees);
            let micro = turnover <= 30_000 && employees <= 0;
            let small = !micro && turnover <= 500_000;
            &&& (c.category == "micro"@) == micro
            &&& (c.category == "small"@) == small
            &&& (c.category == "standard"@) == (turnover > 500_000)
            &&& (c.rate_ka == "საშემოსავლო გადასახადი 0% (გარკვეული საქმიანობები გამორიცხულია)."@) == micro
            &&& (c.rate_ka == "ბრუნვის გადასახადი 1% (ზღვრის გადაჭარბებისას ნაწილზე — 3%)."@) == small
            &&& (c.rate_ka == "მოგების გადასახადი 15% (განაწილებისას), დივიდენდი 5%, დღგ 18%."@) == (
            turnover > 500_000)
        }),
{
    lemma_category_names_distinct();
    lemma_rate_texts_distinct();
}

/// The first step of every roadmap is registration at the justice house, and
/// it follows the recommended legal form: an LLC roadmap (category
/// `standard`) registers an LLC at the LLC fee; every other roadmap registers
/// an individual entrepreneur at the individual fee.
pub proof fn lemma_justice_step_follows_form(category: Seq<char>)
    ensures
        ({
            let plan = spec_registration_plan(category);
            let first = plan.steps[0];
            let llc = category == "standard"@;
            &&& plan.steps.len() >= 2
            &&& first.title_ka == "რეგისტრაცია იუსტიციის სახლში"@
            &&& (plan.recommended_path_ka == "შეზღუდული პასუხისმგებლობის საზოგადოება (შპს)"@) == llc
            &&& (llc ==> first.detail_ka
                == "შპს-ის რეგისტრაცია: დამფუძნებლის პირადობა, წესდება, იურიდიული მისამართის დამადასტურებელი."@
                && first.cost_ka == "≈ 100 ₾ (სტანდარტული), ≈ 200 ₾ (დაჩქარებული)"@)
            &&& (!llc ==> first.detail_ka == "ინდ. მეწარმედ რეგისტრაცია პირადობის მოწმობით — ჩვეულებრივ იმავე დღეს."@
                && first.cost_ka == "უფასო ან მინიმალური მოსაკრებელი"@)
        }),
{
    reveal_strlit("შეზღუდული პასუხისმგებლობის საზოგადოება (შპს)");
    reveal_strlit("ინდივიდუალური მეწარმე (ფიზიკური პირი)");
    assert(LLC_PATH_KA@[0] != INDIVIDUAL_PATH_KA@[0]);
}

/// For a classified business, the justice-house step registers an LLC exactly
/// when the turnover exceeds 500 000 ₾.
pub proof fn lemma_justice_step_follows_turnover(turnover: nat, employees: int)
    ensures
        ({
            let first = spec_registration_plan(spec_classify_tax(turnover, employees).category).steps[0];
            &&& (turnover > 500_000 ==> first.detail_ka
                == "შპს-ის რეგისტრაცია: დამფუძნებლის პირადობა, წესდება, იურიდიული მისამართის დამადასტურებელი."@
                && first.cost_ka == "≈ 100 ₾ (სტანდარტული), ≈ 200 ₾ (დაჩქარებული)"@)
            &&& (turnover <= 500_000 ==> first.detail_ka
                == "ინდ. მეწარმედ რეგისტრაცია პირადობის მოწმობით — ჩვეულებრივ იმავე დღეს."@
                && first.cost_ka == "უფასო ან მინიმალური მოსაკრებელი"@)
        }),
{
    lemma_rate_follows_category(turnover, employees);
    lemma_justice_step_follows_form(spec_classify_tax(turnover, employees).category);
}

/// The confidence of a classification is highest for micro (90%), then small
/// (85%), then standard (80%); a small business registers for VAT exactly
/// when its turnover reaches 100 000 ₾, and otherwise is told to watch the
/// threshold; every classification lists three obligations.
pub proof fn lemma_confidence_and_obligations(turnover: nat, employees: int)
    ensures
        ({
            let c = spec_classify_tax(turnover, employees);
            let micro = turnover <= 30_000 && employees <= 0;
            let small = !micro && turnover <= 500_000;
            &&& c.confidence_percent == if micro {
                90nat
            } else if small {
                85nat
            } else {
                80nat
            }
            &&& c.obligations_ka.len() == 3
            &&& (small ==> (c.obligations_ka[2] == "დღგ-ზე რეგისტრაცია და 18% დღგ-ის ადმინისტრირება."@) == (
            turnover >= 100_000))
            &&& (small && turnover < 100_000 ==> c.obligations_ka[2]
                == "ბრუნვის მონიტორინგი დღგ-ის ზღვართან მიახლოებისას."@)
        }),
{
    reveal_strlit("დღგ-ზე რეგისტრაცია და 18% დღგ-ის ადმინისტრირება.");
    reveal_strlit("ბრუნვის მონიტორინგი დღგ-ის ზღვართან მიახლოებისას.");
    assert(SMALL_OBLIGATION_VAT@[0] != SMALL_OBLIGATION_WATCH@[0]);
}

} // verus!
