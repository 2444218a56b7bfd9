//! Profiling engine: turns the discovery answers into a business profile
//! report. The core is deterministic (official thresholds, works offline); an
//! optional narrative produced elsewhere is layered on top of it.

use vstd::prelude::*;

use crate::answers::{answer_for, answer_text_for, answers_map, recorded_entries};
use crate::content::{
    KEY_BUSINESS_IDEA, KEY_EXPECTED_TURNOVER, KEY_GROWTH_PLANS, KEY_IMPORT_EXPORT,
    KEY_NUMBER_OF_EMPLOYEES, KEY_ONLINE_PRESENCE, KEY_PHYSICAL_LOCATION, KEY_PRODUCT_CATEGORY,
    KEY_SERVICES_CATEGORY,
};
use crate::knowledge::{
    classify_tax, parse_amount, parse_count, registration_plan, spec_classify_tax,
    spec_parse_amount, spec_parse_count, spec_registration_plan, texts, PlanView,
    RegistrationPlan, TaxClassification, TaxView, CATEGORY_MICRO, CATEGORY_SMALL,
};
use crate::text::{decimal, push_decimal, str_eq};
use crate::types::DiscoveryAnswer;

verus! {

pub const TYPE_PRODUCT_AND_SERVICE_KA: &'static str = "პროდუქტი და მომსახურება";
pub const TYPE_PRODUCT_KA: &'static str = "პროდუქტის გაყიდვა";
pub const TYPE_SERVICE_KA: &'static str = "მომსახურება";
pub const TYPE_UNDECIDED_KA: &'static str = "შერეული / დასაზუსტებელი";
pub const GENERAL_INDUSTRY_KA: &'static str = "ზოგადი";
pub const SCALE_MICRO_KA: &'static str = "მიკრო / სტარტაპი";
pub const SCALE_SMALL_KA: &'static str = "მცირე ბიზნესი";
pub const SCALE_LARGER_KA: &'static str = "საშუალო ან მსხვილი";
pub const RISK_TRADE_KA: &'static str = "საშუალო-მაღალი (იმპორტი/ექსპორტი, საბაჟო)";
pub const RISK_PHYSICAL_KA: &'static str = "საშუალო (ფიზიკური სივრცე, ქირა, ნებართვები)";
pub const RISK_LOW_KA: &'static str = "დაბალი (მცირე საწყისი დანახარჯები)";
pub const GROWTH_HIGH_KA: &'static str = "მაღალი — მკაფიო ზრდის გეგმა";
pub const GROWTH_MEDIUM_KA: &'static str = "საშუალო — ზრდის გეგმა დასაზუსტებელია";
pub const IDEA_UNKNOWN_KA: &'static str = "(იდეა დასაზუსტებელია)";
pub const ANALYSIS_IDEA: &'static str = "იდეა: ";
pub const ANALYSIS_TYPE: &'static str = ". ტიპი: ";
pub const ANALYSIS_SCALE: &'static str = ", მასштაბი: ";
pub const ANALYSIS_TURNOVER: &'static str = ". მოსალოდნელი ბრუნვა ~";
pub const ANALYSIS_EMPLOYEES: &'static str = " ₾, თანამშრომლები: ";
pub const ANALYSIS_REGIME: &'static str = ". საგადასახადო რეჟიმი: ";
pub const ANALYSIS_FORM: &'static str = ". რეკომენდებული ფორმა: ";
pub const ANALYSIS_END: &'static str = ".";

/// Deterministic intermediate built purely from the answers and official rules.
pub struct ProfileDraft {
    pub session_id: String,
    /// Expected annual turnover, whole ₾.
    pub turnover: u64,
    pub employees: i64,
    pub online: bool,
    pub has_physical: bool,
    pub tax: TaxClassification,
    pub registration: RegistrationPlan,
    pub business_type_ka: String,
    pub industry_ka: String,
    pub scale_ka: String,
    pub risk_level_ka: String,
    pub growth_potential_ka: String,
    pub deterministic_analysis: String,
}

/// Abstract value of a [`ProfileDraft`].
pub struct DraftView {
    pub session_id: Seq<char>,
    pub turnover: nat,
    pub employees: int,
    pub online: bool,
    pub has_physical: bool,
    pub tax: TaxView,
    pub registration: PlanView,
    pub business_type_ka: Seq<char>,
    pub industry_ka: Seq<char>,
    pub scale_ka: Seq<char>,
    pub risk_level_ka: Seq<char>,
    pub growth_potential_ka: Seq<char>,
    pub deterministic_analysis: Seq<char>,
}

impl View for ProfileDraft {
    type V = DraftView;

    open spec fn view(&self) -> DraftView {
        DraftView {
            session_id: self.session_id@,
            turnover: self.turnover as nat,
            employees: self.employees as int,
            online: self.online,
            has_physical: self.has_physical,
            tax: self.tax@,
            registration: self.registration@,
            business_type_ka: self.business_type_ka@,
            industry_ka: self.industry_ka@,
            scale_ka: self.scale_ka@,
            risk_level_ka: self.risk_level_ka@,
            growth_potential_ka: self.growth_potential_ka@,
            deterministic_analysis: self.deterministic_analysis@,
        }
    }
}

/// Expected turnover from the answers: the amount in the turnover answer, 0 when
/// missing or without digits.
pub open spec fn spec_turnover(answers: Seq<DiscoveryAnswer>) -> nat {
    match answer_for(answers, KEY_EXPECTED_TURNOVER@) {
        Some(t) => match spec_parse_amount(t) {
            Some(v) => v as nat,
            None => 0,
        },
        None => 0,
    }
}

/// Number of employees from the answers: the first number in the employees
/// answer, 0 when missing or unreadable.
pub open spec fn spec_employees(answers: Seq<DiscoveryAnswer>) -> int {
    match answer_for(answers, KEY_NUMBER_OF_EMPLOYEES@) {
        Some(t) => match spec_parse_count(t) {
            Some(v) => v as int,
            None => 0,
        },
        None => 0,
    }
}

pub open spec fn answered(answers: Seq<DiscoveryAnswer>, key: &str) -> bool {
    answer_for(answers, key@) is Some
}

/// Business type from which of product and services were described.
pub open spec fn spec_business_type(has_product: bool, has_services: bool) -> Seq<char> {
    if has_product && has_services {
        TYPE_PRODUCT_AND_SERVICE_KA@
    } else if has_product {
        TYPE_PRODUCT_KA@
    } else if has_services {
        TYPE_SERVICE_KA@
    } else {
        TYPE_UNDECIDED_KA@
    }
}

/// Industry: the product category, else the services category, else general.
pub open spec fn spec_industry(answers: Seq<DiscoveryAnswer>) -> Seq<char> {
    match answer_for(answers, KEY_PRODUCT_CATEGORY@) {
        Some(t) => t,
        None => match answer_for(answers, KEY_SERVICES_CATEGORY@) {
            Some(t) => t,
            None => GENERAL_INDUSTRY_KA@,
        },
    }
}

/// Scale label of a tax category.
pub open spec fn spec_scale(category: Seq<char>) -> Seq<char> {
    if category == CATEGORY_MICRO@ {
        SCALE_MICRO_KA@
    } else if category == CATEGORY_SMALL@ {
        SCALE_SMALL_KA@
    } else {
        SCALE_LARGER_KA@
    }
}

/// Risk level: foreign trade first, then a physical location, else low.
pub open spec fn spec_risk(import_export: bool, has_physical: bool) -> Seq<char> {
    if import_export {
        RISK_TRADE_KA@
    } else if has_physical {
        RISK_PHYSICAL_KA@
    } else {
        RISK_LOW_KA@
    }
}

/// The business idea as answered, or a placeholder.
pub open spec fn spec_idea(answers: Seq<DiscoveryAnswer>) -> Seq<char> {
    match answer_for(answers, KEY_BUSINESS_IDEA@) {
        Some(t) => t,
        None => IDEA_UNKNOWN_KA@,
    }
}

/// The deterministic analysis sentence.
pub open spec fn spec_analysis(
    idea: Seq<char>,
    business_type: Seq<char>,
    scale: Seq<char>,
    turnover: nat,
    employees: nat,
    category_ka: Seq<char>,
    path: Seq<char>,
) -> Seq<char> {
    ANALYSIS_IDEA@ + idea + ANALYSIS_TYPE@ + business_type + ANALYSIS_SCALE@ + scale
        + ANALYSIS_TURNOVER@ + decimal(turnover) + ANALYSIS_EMPLOYEES@ + decimal(employees)
        + ANALYSIS_REGIME@ + category_ka + ANALYSIS_FORM@ + path + ANALYSIS_END@
}

/// The deterministic draft for a session with the given answers.
pub open spec fn spec_build_draft(session_id: Seq<char>, answers: Seq<DiscoveryAnswer>) -> DraftView {
    let turnover = spec_turnover(answers);
    let employees = spec_employees(answers);
    let tax = spec_classify_tax(turnover, employees);
    let registration = spec_registration_plan(tax.category);
    let business_type = spec_business_type(
        answered(answers, KEY_PRODUCT_CATEGORY),
        answered(answers, KEY_SERVICES_CATEGORY),
    );
    let scale = spec_scale(tax.category);
    DraftView {
        session_id,
        turnover,
        employees,
        online: answered(answers, KEY_ONLINE_PRESENCE),
        has_physical: answered(answers, KEY_PHYSICAL_LOCATION),
        tax,
        registration,
        business_type_ka: business_type,
        industry_ka: spec_industry(answers),
        scale_ka: scale,
        risk_level_ka: spec_risk(
            answered(answers, KEY_IMPORT_EXPORT),
            answered(answers, KEY_PHYSICAL_LOCATION),
        ),
        growth_potential_ka: if answered(answers, KEY_GROWTH_PLANS) {
            GROWTH_HIGH_KA@
        } else {
            GROWTH_MEDIUM_KA@
        },
        deterministic_analysis: spec_analysis(
            spec_idea(answers),
            business_type,
            scale,
            turnover,
            employees as nat,
            tax.category_ka,
            registration.recommended_path_ka,
        ),
    }
}

fn owned_or(o: Option<String>, default: &str) -> (r: String)
    ensures
        r@ == match o {
            Some(s) => s@,
            None => default@,
        },
{
    match o {
        Some(s) => s,
        None => default.to_owned(),
    }
}

/// Build the deterministic draft (no AI). Always succeeds: missing answers fall
/// back to safe defaults so the engine works offline.
pub fn build_draft(session_id: &str, answers: &[DiscoveryAnswer]) -> (d: ProfileDraft)
    ensures
        d@ == spec_build_draft(session_id@, answers@),
{
    let turnover: u64 = match answer_text_for(answers, KEY_EXPECTED_TURNOVER) {
        Some(t) => match parse_amount(t.as_str()) {
            Some(v) => v,
            None => 0,
        },
        None => 0,
    };
    let employees: i64 = match answer_text_for(answers, KEY_NUMBER_OF_EMPLOYEES) {
        Some(t) => match parse_count(t.as_str()) {
            Some(v) => v,
            None => 0,
        },
        None => 0,
    };
    assert(employees >= 0);
    let has_product = answer_text_for(answers, KEY_PRODUCT_CATEGORY).is_some();
    let has_services = answer_text_for(answers, KEY_SERVICES_CATEGORY).is_some();
    let online = answer_text_for(answers, KEY_ONLINE_PRESENCE).is_some();
    let has_physical = answer_text_for(answers, KEY_PHYSICAL_LOCATION).is_some();
    let import_export = answer_text_for(answers, KEY_IMPORT_EXPORT).is_some();
    let has_growth = answer_text_for(answers, KEY_GROWTH_PLANS).is_some();

    let tax = classify_tax(turnover, employees);
    let registration = registration_plan(tax.category.as_str());

    let business_type_ka = if has_product && has_services {
        TYPE_PRODUCT_AND_SERVICE_KA.to_owned()
    } else if has_product {
        TYPE_PRODUCT_KA.to_owned()
    } else if has_services {
        TYPE_SERVICE_KA.to_owned()
    } else {
        TYPE_UNDECIDED_KA.to_owned()
    };

    let industry_ka = match answer_text_for(answers, KEY_PRODUCT_CATEGORY) {
        Some(t) => t,
        None => owned_or(answer_text_for(answers, KEY_SERVICES_CATEGORY), GENERAL_INDUSTRY_KA),
    };

    let scale_ka = if str_eq(tax.category.as_str(), CATEGORY_MICRO) {
        SCALE_MICRO_KA.to_owned()
    } else if str_eq(tax.category.as_str(), CATEGORY_SMALL) {
        SCALE_SMALL_KA.to_owned()
    } else {
        SCALE_LARGER_KA.to_owned()
    };

    let risk_level_ka = if import_export {
        RISK_TRADE_KA.to_owned()
    } else if has_physical {
        RISK_PHYSICAL_KA.to_owned()
    } else {
        RISK_LOW_KA.to_owned()
    };

    let growth_potential_ka = if has_growth {
        GROWTH_HIGH_KA.to_owned()
    } else {
        GROWTH_MEDIUM_KA.to_owned()
    };

    let idea = owned_or(answer_text_for(answers, KEY_BUSINESS_IDEA), IDEA_UNKNOWN_KA);
    let mut analysis = ANALYSIS_IDEA.to_owned();
    analysis.append(idea.as_str());
    analysis.append(ANALYSIS_TYPE);
    analysis.append(business_type_ka.as_str());
    analysis.append(ANALYSIS_SCALE);
    analysis.append(scale_ka.as_str());
    analysis.append(ANALYSIS_TURNOVER);
    push_decimal(&mut analysis, turnover);
    analysis.append(ANALYSIS_EMPLOYEES);
    push_decimal(&mut analysis, employees as u64);
    analysis.append(ANALYSIS_REGIME);
    analysis.append(tax.category_ka.as_str());
    analysis.append(ANALYSIS_FORM);
    analysis.append(registration.recommended_path_ka.as_str());
    analysis.append(ANALYSIS_END);

    ProfileDraft {
        session_id: session_id.to_owned(),
        turnover,
        employees,
        online,
        has_physical,
        tax,
        registration,
        business_type_ka,
        industry_ka,
        scale_ka,
        risk_level_ka,
        growth_potential_ka,
        deterministic_analysis: analysis,
    }
}

pub const BANK_ACCOUNT_KA: &'static str = "ბიზნეს ანგარიში (ფიზიკურისგან გამიჯნული)";
pub const BANK_ONLINE_KA: &'static str = "ონლაინ-ეკვაირინგი გადახდებისთვის";
pub const BANK_POS_KA: &'static str = "POS ტერმინალი ადგილზე გადახდისთვის";
pub const BANK_VAT_KA: &'static str = "დღგ-ის ადმინისტრირებაზე მორგებული ბუღალტერია";
pub const MARKETING_SOCIAL_KA: &'static str = "სოციალური ქსელები (Instagram/Facebook) და გვერდი";
pub const MARKETING_BRAND_KA: &'static str = "ბრენდინგი: სახელი, ლოგო, დომენი";
pub const MARKETING_LOCAL_KA: &'static str = "ლოკალური მარკეტინგი და რეკომენდაციები";
pub const RECOMMEND_FORM_KA: &'static str = "აირჩიეთ ფორმა: ";
pub const RECOMMEND_REGIME_KA: &'static str = "საგადასახადო რეჟიმი: ";
pub const RECOMMEND_VAT_KA: &'static str = "დაგეგმეთ დღგ-ზე რეგისტრაცია წინასწარ.";
pub const RECOMMEND_ACCOUNT_KA: &'static str = "გახსენით ცალკე ბიზნეს-ანგარიში პირადი ფინანსებისგან გასამიჯნად.";
pub const RISK_NO_TURNOVER_KA: &'static str = "ბრუნვა მითითებული არ არის — საგადასახადო შეფასება სავარაუდოა.";
pub const RISK_VAT_KA: &'static str = "დღგ-ის ზღვრის გადაჭარბება ზრდის ადმინისტრირების ტვირთს.";
pub const RISK_VERIFY_KA: &'static str = "ზღვრები/განაკვეთები გადაამოწმეთ rs.ge-ზე — კანონმდებლობა იცვლება.";
pub const ACTION_FINISH_KA: &'static str = "დაასრულეთ აღმოჩენის ინტერვიუ ყველა კითხვაზე.";
pub const ACTION_REGISTER_KA: &'static str = "დაიწყეთ რეგისტრაცია: ";
pub const ACTION_BRAND_KA: &'static str = "გადადით ბრენდის შექმნის ეტაპზე.";
pub const DETERMINISTIC_SOURCE: &'static str = "deterministic";

/// Full business profile report returned to the UI and persisted (versioned).
#[derive(Debug, Clone)]
pub struct BusinessProfileReport {
    pub session_id: String,
    pub business_type_ka: String,
    pub industry_ka: String,
    pub scale_ka: String,
    pub risk_level_ka: String,
    pub growth_potential_ka: String,
    pub tax: TaxClassification,
    pub registration: RegistrationPlan,
    pub banking_requirements_ka: Vec<String>,
    pub marketing_requirements_ka: Vec<String>,
    pub analysis_ka: String,
    pub recommendations_ka: Vec<String>,
    /// Confidence of the report, in percent.
    pub confidence_percent: u8,
    pub risks_ka: Vec<String>,
    pub next_actions_ka: Vec<String>,
    pub required_documents_ka: Vec<String>,
    pub estimated_timeline_ka: String,
    pub estimated_cost_ka: String,
    /// Name of the narrative's source, or `deterministic`.
    pub generated_by: String,
}

/// Abstract value of a [`BusinessProfileReport`].
pub struct ReportView {
    pub session_id: Seq<char>,
    pub business_type_ka: Seq<char>,
    pub industry_ka: Seq<char>,
    pub scale_ka: Seq<char>,
    pub risk_level_ka: Seq<char>,
    pub growth_potential_ka: Seq<char>,
    pub tax: TaxView,
    pub registration: PlanView,
    pub banking_requirements_ka: Seq<Seq<char>>,
    pub marketing_requirements_ka: Seq<Seq<char>>,
    pub analysis_ka: Seq<char>,
    pub recommendations_ka: Seq<Seq<char>>,
    pub confidence_percent: nat,
    pub risks_ka: Seq<Seq<char>>,
    pub next_actions_ka: Seq<Seq<char>>,
    pub required_documents_ka: Seq<Seq<char>>,
    pub estimated_timeline_ka: Seq<char>,
    pub estimated_cost_ka: Seq<char>,
    pub generated_by: Seq<char>,
}

impl View for BusinessProfileReport {
    type V = ReportView;

    open spec fn view(&self) -> ReportView {
        ReportView {
            session_id: self.session_id@,
            business_type_ka: self.business_type_ka@,
            industry_ka: self.industry_ka@,
            scale_ka: self.scale_ka@,
            risk_level_ka: self.risk_level_ka@,
            growth_potential_ka: self.growth_potential_ka@,
            tax: self.tax@,
            registration: self.registration@,
            banking_requirements_ka: texts(self.banking_requirements_ka@),
            marketing_requirements_ka: texts(self.marketing_requirements_ka@),
            analysis_ka: self.analysis_ka@,
            recommendations_ka: texts(self.recommendations_ka@),
            confidence_percent: self.confidence_percent as nat,
            risks_ka: texts(self.risks_ka@),
            next_actions_ka: texts(self.next_actions_ka@),
            required_documents_ka: texts(self.required_documents_ka@),
            estimated_timeline_ka: self.estimated_timeline_ka@,
            estimated_cost_ka: self.estimated_cost_ka@,
            generated_by: self.generated_by@,
        }
    }
}

/// `items` followed by `item` when `cond` holds.
pub open spec fn push_if(items: Seq<Seq<char>>, cond: bool, item: Seq<char>) -> Seq<Seq<char>> {
    if cond {
        items.push(item)
    } else {
        items
    }
}

/// Banking needs: a business account, online acquiring when selling online, a
/// POS terminal with a physical location, VAT-aware bookkeeping when VAT applies.
pub open spec fn spec_banking(d: DraftView) -> Seq<Seq<char>> {
    push_if(
        push_if(push_if(seq![BANK_ACCOUNT_KA@], d.online, BANK_ONLINE_KA@), d.has_physical, BANK_POS_KA@),
        d.tax.vat_relevant,
        BANK_VAT_KA@,
    )
}

/// Marketing needs: social media and branding online, local marketing otherwise.
pub open spec fn spec_marketing(d: DraftView) -> Seq<Seq<char>> {
    if d.online {
        seq![MARKETING_SOCIAL_KA@, MARKETING_BRAND_KA@]
    } else {
        seq![MARKETING_LOCAL_KA@]
    }
}

pub open spec fn spec_recommendations(d: DraftView) -> Seq<Seq<char>> {
    push_if(
        seq![
            RECOMMEND_FORM_KA@ + d.registration.recommended_path_ka,
            RECOMMEND_REGIME_KA@ + d.tax.category_ka,
        ],
        d.tax.vat_relevant,
        RECOMMEND_VAT_KA@,
    ).push(RECOMMEND_ACCOUNT_KA@)
}

pub open spec fn spec_risks(d: DraftView) -> Seq<Seq<char>> {
    push_if(push_if(Seq::empty(), d.turnover == 0, RISK_NO_TURNOVER_KA@), d.tax.vat_relevant, RISK_VAT_KA@).push(
        RISK_VERIFY_KA@,
    )
}

pub open spec fn spec_next_actions(d: DraftView) -> Seq<Seq<char>> {
    seq![
        ACTION_FINISH_KA@,
        ACTION_REGISTER_KA@ + d.registration.recommended_path_ka,
        ACTION_BRAND_KA@,
    ]
}

/// The report assembled from a draft, a narrative and its source.
pub open spec fn spec_report(d: DraftView, analysis: Seq<char>, generated_by: Seq<char>) -> ReportView {
    ReportView {
        session_id: d.session_id,
        business_type_ka: d.business_type_ka,
        industry_ka: d.industry_ka,
        scale_ka: d.scale_ka,
        risk_level_ka: d.risk_level_ka,
        growth_potential_ka: d.growth_potential_ka,
        tax: d.tax,
        registration: d.registration,
        banking_requirements_ka: spec_banking(d),
        marketing_requirements_ka: spec_marketing(d),
        analysis_ka: analysis,
        recommendations_ka: spec_recommendations(d),
        confidence_percent: d.tax.confidence_percent,
        risks_ka: spec_risks(d),
        next_actions_ka: spec_next_actions(d),
        required_documents_ka: d.registration.required_documents_ka,
        estimated_timeline_ka: d.registration.estimated_timeline_ka,
        estimated_cost_ka: d.registration.estimated_cost_ka,
        generated_by,
    }
}

fn joined(a: &str, b: &str) -> (r: String)
    ensures
        r@ == a@ + b@,
{
    let mut r = a.to_owned();
    r.append(b);
    r
}

/// A copy of a list of strings.
fn copy_texts(v: &Vec<String>) -> (r: Vec<String>)
    ensures
        texts(r@) == texts(v@),
{
    let mut r: Vec<String> = Vec::new();
    let mut i: usize = 0;
    while i < v.len()
        invariant
            i <= v.len(),
            texts(r@) =~= texts(v@.subrange(0, i as int)),
        decreases v.len() - i,
    {
        let ghost before = r@;
        let c = v[i].clone();
        r.push(c);
        assert(v@.subrange(0, i + 1) =~= v@.subrange(0, i as int).push(v@[i as int]));
        assert(r@ =~= before.push(c));
        assert(texts(r@) =~= texts(before).push(c@));
        i = i + 1;
    }
    assert(v@.subrange(0, v.len() as int) =~= v@);
    r
}

impl ProfileDraft {
    fn banking_requirements(&self) -> (r: Vec<String>)
        ensures
            texts(r@) == spec_banking(self@),
    {
        let mut out = vec![BANK_ACCOUNT_KA.to_owned()];
        if self.online {
            out.push(BANK_ONLINE_KA.to_owned());
        }
        if self.has_physical {
            out.push(BANK_POS_KA.to_owned());
        }
        if self.tax.vat_relevant {
            out.push(BANK_VAT_KA.to_owned());
        }
        assert(texts(out@) =~= spec_banking(self@));
        out
    }

    fn marketing_requirements(&self) -> (r: Vec<String>)
        ensures
            texts(r@) == spec_marketing(self@),
    {
        let mut out: Vec<String> = Vec::new();
        if self.online {
            out.push(MARKETING_SOCIAL_KA.to_owned());
            out.push(MARKETING_BRAND_KA.to_owned());
        } else {
            out.push(MARKETING_LOCAL_KA.to_owned());
        }
        assert(texts(out@) =~= spec_marketing(self@));
        out
    }

    fn recommendations(&self) -> (r: Vec<String>)
        ensures
            texts(r@) == spec_recommendations(self@),
    {
        let mut out = vec![
            joined(RECOMMEND_FORM_KA, self.registration.recommended_path_ka.as_str()),
            joined(RECOMMEND_REGIME_KA, self.tax.category_ka.as_str()),
        ];
        if self.tax.vat_relevant {
            out.push(RECOMMEND_VAT_KA.to_owned());
        }
        out.push(RECOMMEND_ACCOUNT_KA.to_owned());
        assert(texts(out@) =~= spec_recommendations(self@));
        out
    }

    fn risks(&self) -> (r: Vec<String>)
        ensures
            texts(r@) == spec_risks(self@),
    {
        let mut out: Vec<String> = Vec::new();
        if self.turnover == 0 {
            out.push(RISK_NO_TURNOVER_KA.to_owned());
        }
        if self.tax.vat_relevant {
            out.push(RISK_VAT_KA.to_owned());
        }
        out.push(RISK_VERIFY_KA.to_owned());
        assert(texts(out@) =~= spec_risks(self@));
        out
    }

    fn next_actions(&self) -> (r: Vec<String>)
        ensures
            texts(r@) == spec_next_actions(self@),
    {
        let out = vec![
            ACTION_FINISH_KA.to_owned(),
            joined(ACTION_REGISTER_KA, self.registration.recommended_path_ka.as_str()),
            ACTION_BRAND_KA.to_owned(),
        ];
        assert(texts(out@) =~= spec_next_actions(self@));
        out
    }

    /// Assemble the final report, attaching the narrative and its source.
    pub fn into_report(self, analysis_ka: String, generated_by: String) -> (r: BusinessProfileReport)
        ensures
            r@ == spec_report(self@, analysis_ka@, generated_by@),
    {
        let confidence_percent = self.tax.confidence_percent;
        let banking_requirements_ka = self.banking_requirements();
        let marketing_requirements_ka = self.marketing_requirements();
        let recommendations_ka = self.recommendations();
        let risks_ka = self.risks();
        let next_actions_ka = self.next_actions();
        let required_documents_ka = copy_texts(&self.registration.required_documents_ka);
        let estimated_timeline_ka = self.registration.estimated_timeline_ka.clone();
        let estimated_cost_ka = self.registration.estimated_cost_ka.clone();

        BusinessProfileReport {
            session_id: self.session_id,
            business_type_ka: self.business_type_ka,
            industry_ka: self.industry_ka,
            scale_ka: self.scale_ka,
            risk_level_ka: self.risk_level_ka,
            growth_potential_ka: self.growth_potential_ka,
            tax: self.tax,
            registration: self.registration,
            banking_requirements_ka,
            marketing_requirements_ka,
            analysis_ka,
            recommendations_ka,
            confidence_percent,
            risks_ka,
            next_actions_ka,
            required_documents_ka,
            estimated_timeline_ka,
            estimated_cost_ka,
            generated_by,
        }
    }
}

/// The report for a draft given the outcome of the narrative request: the
/// narrative and its source when one came back, else the deterministic
/// analysis, marked `deterministic`.
pub fn report_with_narrative(draft: ProfileDraft, narrative: Option<(String, String)>) -> (r:
    BusinessProfileReport)
    ensures
        r@ == match narrative {
            Some((text, source)) => spec_report(draft@, text@, source@),
            None => spec_report(draft@, draft@.deterministic_analysis, DETERMINISTIC_SOURCE@),
        },
{
    match narrative {
        Some((text, source)) => draft.into_report(text, source),
        None => {
            let analysis = draft.deterministic_analysis.clone();
            draft.into_report(analysis, DETERMINISTIC_SOURCE.to_owned())
        },
    }
}

pub const PROMPT_INTRO: &'static str = "შენ ხარ ქართველი მეწარმის თანადამფუძნებელი-კონსულტანტი. ქვემოთ მოცემულია ბიზნესის აღმოჩენის ინტერვიუს პასუხები:\n";
pub const PROMPT_ASSESSMENT: &'static str = "\nდეტერმინისტული შეფასება: საგადასახადო რეჟიმი — ";
pub const PROMPT_FORM: &'static str = ", რეკომენდებული ფორმა — ";
pub const PROMPT_SCALE: &'static str = ", მასშტაბი — ";
pub const PROMPT_TASK: &'static str = ".\n\nდაწერე მოკლე (3–5 წინადადება), ბუნებრივი ქართული ანალიზი ამ ბიზნესის სიცოცხლისუნარიანობასა და მთავარ ნაბიჯებზე. ნუ გამოიგონებ ფაქტებს; დაეყრდენი მხოლოდ მოცემულ ინფორმაციას.";
pub const LINE_BULLET: &'static str = "- ";
pub const LINE_SEPARATOR: &'static str = ": ";
pub const LINE_END: &'static str = "\n";

/// One `- key: text` line per entry.
pub open spec fn answer_lines(entries: Seq<(Seq<char>, Seq<char>)>) -> Seq<char>
    decreases entries.len(),
{
    if entries.len() == 0 {
        Seq::empty()
    } else {
        answer_lines(entries.drop_last()) + LINE_BULLET@ + entries.last().0 + LINE_SEPARATOR@
            + entries.last().1 + LINE_END@
    }
}

/// The prompt asking for a narrative grounded on the answers and the draft.
pub open spec fn spec_narrative_prompt(answers: Seq<DiscoveryAnswer>, d: DraftView) -> Seq<char> {
    PROMPT_INTRO@ + answer_lines(recorded_entries(answers, answers.len() as int))
        + PROMPT_ASSESSMENT@ + d.tax.category_ka + PROMPT_FORM@ + d.registration.recommended_path_ka
        + PROMPT_SCALE@ + d.scale_ka + PROMPT_TASK@
}

/// Georgian prompt for the narrative request. Grounds the model on the
/// recorded answers and the deterministic classification, and asks for a
/// short, natural Georgian analysis.
pub fn narrative_prompt(answers: &[DiscoveryAnswer], draft: &ProfileDraft) -> (r: String)
    ensures
        r@ == spec_narrative_prompt(answers@, draft@),
{
    let map = answers_map(answers);
    let ghost entries = recorded_entries(answers@, answers.len() as int);
    let mut lines = String::new();
    let mut i: usize = 0;
    while i < map.len()
        invariant
            i <= map.len(),
            crate::answers::entries_view(map@) == entries,
            lines@ == answer_lines(entries.subrange(0, i as int)),
        decreases map.len() - i,
    {
        lines.append(LINE_BULLET);
        lines.append(map[i].0.as_str());
        lines.append(LINE_SEPARATOR);
        lines.append(map[i].1.as_str());
        lines.append(LINE_END);
        assert(entries.subrange(0, i + 1).drop_last() =~= entries.subrange(0, i as int));
        assert(entries[i as int] == (map@[i as int].0@, map@[i as int].1@));
        assert(lines@ =~= answer_lines(entries.subrange(0, i + 1)));
        i = i + 1;
    }
    assert(entries.subrange(0, map.len() as int) =~= entries);
    let mut out = PROMPT_INTRO.to_owned();
    out.append(lines.as_str());
    out.append(PROMPT_ASSESSMENT);
    out.append(draft.tax.category_ka.as_str());
    out.append(PROMPT_FORM);
    out.append(draft.registration.recommended_path_ka.as_str());
    out.append(PROMPT_SCALE);
    out.append(draft.scale_ka.as_str());
    out.append(PROMPT_TASK);
    out
}

/// A report is consistent with its classification: the roadmap is the one
/// for the report's tax category, the required documents, timeline and cost
/// are the roadmap's, the confidence is the classification's, and the scale
/// label follows the category.
pub proof fn lemma_report_consistent(
    session_id: Seq<char>,
    answers: Seq<DiscoveryAnswer>,
    analysis: Seq<char>,
    generated_by: Seq<char>,
)
    ensures
        ({
            let d = spec_build_draft(session_id, answers);
            let r = spec_report(d, analysis, generated_by);
            &&& r.tax == spec_classify_tax(d.turnover, d.employees)
            &&& r.registration == spec_registration_plan(r.tax.category)
            &&& r.required_documents_ka == r.registration.required_documents_ka
            &&& r.estimated_timeline_ka == r.registration.estimated_timeline_ka
            &&& r.estimated_cost_ka == r.registration.estimated_cost_ka
            &&& r.confidence_percent == r.tax.confidence_percent
            &&& r.scale_ka == spec_scale(r.tax.category)
        }),
{
}

/// Without any answers the engine still produces a draft, on safe defaults:
/// no turnover, no staff, micro classification, undecided business type,
/// general industry, and a report that warns the turnover is missing.
pub proof fn lemma_no_answers_defaults(session_id: Seq<char>)
    ensures
        ({
            let d = spec_build_draft(session_id, Seq::empty());
            &&& d.turnover == 0
            &&& d.employees == 0
            &&& d.tax.category == CATEGORY_MICRO@
            &&& d.business_type_ka == TYPE_UNDECIDED_KA@
            &&& d.industry_ka == GENERAL_INDUSTRY_KA@
            &&& spec_risks(d).contains(RISK_NO_TURNOVER_KA@)
        }),
{
    let d = spec_build_draft(session_id, Seq::empty());
    assert(spec_risks(d)[0] == RISK_NO_TURNOVER_KA@);
}

/// Whether the draft sells online and has premises depends only on the
/// answers to those two questions: it sells online exactly when the
/// online-presence question has a non-blank answer, and has premises exactly
/// when the physical-location question has one, whatever else was answered.
/// Marketing and banking follow: social media, branding and online acquiring
/// only when selling online, local marketing otherwise.
pub proof fn lemma_online_follows_its_answer(session_id: Seq<char>, answers: Seq<DiscoveryAnswer>)
    ensures
        ({
            let d = spec_build_draft(session_id, answers);
            let online = answer_for(answers, "online_presence"@) is Some;
            let acquiring = "ონლაინ-ეკვაირინგი გადახდებისთვის"@;
            &&& d.online == online
            &&& d.has_physical == (answer_for(answers, "physical_location"@) is Some)
            &&& spec_marketing(d) == if online {
                seq!["სოციალური ქსელები (Instagram/Facebook) და გვერდი"@, "ბრენდინგი: სახელი, ლოგო, დომენი"@]
            } else {
                seq!["ლოკალური მარკეტინგი და რეკომენდაციები"@]
            }
            &&& spec_banking(d).contains(acquiring) ==> online
            &&& online ==> spec_banking(d)[1] == acquiring
        }),
{
    let d = spec_build_draft(session_id, answers);
    reveal_strlit("ბიზნეს ანგარიში (ფიზიკურისგან გამიჯნული)");
    reveal_strlit("ონლაინ-ეკვაირინგი გადახდებისთვის");
    reveal_strlit("POS ტერმინალი ადგილზე გადახდისთვის");
    reveal_strlit("დღგ-ის ადმინისტრირებაზე მორგებული ბუღალტერია");
    assert(BANK_ONLINE_KA@[0] != BANK_ACCOUNT_KA@[0]);
    assert(BANK_ONLINE_KA@[0] != BANK_POS_KA@[0]);
    assert(BANK_ONLINE_KA@[0] != BANK_VAT_KA@[0]);
    let b = spec_banking(d);
    if b.contains(BANK_ONLINE_KA@) {
        let k = choose|k: int| 0 <= k < b.len() && b[k] == BANK_ONLINE_KA@;
        assert(b[k][0] == BANK_ONLINE_KA@[0]);
    }
}

/// Each part of the draft comes from its own question: the turnover is the
/// amount in the expected-turnover answer (0 without one), the industry is the
/// product category, else the services category, else "general"; foreign
/// trade makes the risk medium-high and premises alone make it medium; a
/// growth plan makes the growth potential high.
pub proof fn lemma_draft_fields_follow_their_answers(session_id: Seq<char>, answers: Seq<DiscoveryAnswer>)
    ensures
        ({
            let d = spec_build_draft(session_id, answers);
            let trade = answer_for(answers, "import_export"@) is Some;
            let premises = answer_for(answers, "physical_location"@) is Some;
            &&& d.session_id == session_id
            &&& d.turnover == match answer_for(answers, "expected_turnover"@) {
                Some(t) => match spec_parse_amount(t) {
                    Some(v) => v as nat,
                    None => 0nat,
                },
                None => 0nat,
            }
            &&& d.tax == spec_classify_tax(d.turnover, d.employees)
            &&& d.industry_ka == match answer_for(answers, "product_category"@) {
                Some(t) => t,
                None => match answer_for(answers, "services_category"@) {
                    Some(t) => t,
                    None => "ზოგადი"@,
                },
            }
            &&& d.risk_level_ka == if trade {
                "საშუალო-მაღალი (იმპორტი/ექსპორტი, საბაჟო)"@
            } else if premises {
                "საშუალო (ფიზიკური სივრცე, ქირა, ნებართვები)"@
            } else {
                "დაბალი (მცირე საწყისი დანახარჯები)"@
            }
            &&& d.growth_potential_ka == if answer_for(answers, "growth_plans"@) is Some {
                "მაღალი — მკაფიო ზრდის გეგმა"@
            } else {
                "საშუალო — ზრდის გეგმა დასაზუსტებელია"@
            }
        }),
{
}

} // verus!
