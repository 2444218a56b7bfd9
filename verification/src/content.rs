//! The discovery interview content (Georgian): ten questions in interview
//! order, each with its key, prompt, purpose, explanation, example answer and
//! whether it may be skipped.

use vstd::prelude::*;

verus! {

/// Number of questions in the discovery interview.
pub const QUESTION_COUNT: usize = 10;

pub const KEY_BUSINESS_IDEA: &'static str = "business_idea";
pub const KEY_TARGET_AUDIENCE: &'static str = "target_audience";
pub const KEY_PRODUCT_CATEGORY: &'static str = "product_category";
pub const KEY_SERVICES_CATEGORY: &'static str = "services_category";
pub const KEY_EXPECTED_TURNOVER: &'static str = "expected_turnover";
pub const KEY_NUMBER_OF_EMPLOYEES: &'static str = "number_of_employees";
pub const KEY_ONLINE_PRESENCE: &'static str = "online_presence";
pub const KEY_PHYSICAL_LOCATION: &'static str = "physical_location";
pub const KEY_IMPORT_EXPORT: &'static str = "import_export";
pub const KEY_GROWTH_PLANS: &'static str = "growth_plans";

pub const IDEA_PROMPT: &'static str = "რა არის თქვენი ბიზნეს იდეა?";
pub const IDEA_PURPOSE: &'static str = "იდეა განსაზღვრავს ბიზნესის ტიპს და ყველა შემდგომ რეკომენდაციას.";
pub const IDEA_EXPLANATION: &'static str = "მოკლედ აღწერეთ, რას გააკეთებთ და რა პრობლემას გადაჭრით.";
pub const IDEA_EXAMPLE: &'static str = "ხელნაკეთი კერამიკის ონლაინ მაღაზია.";

pub const AUDIENCE_PROMPT: &'static str = "ვინ არიან თქვენი მომხმარებლები?";
pub const AUDIENCE_PURPOSE: &'static str = "მომხმარებელი განსაზღვრავს ფასს, არხებს და მარკეტინგს.";
pub const AUDIENCE_EXPLANATION: &'static str = "აღწერეთ ასაკი, ადგილმდებარეობა, შემოსავალი ან ბიზნეს-კლიენტები.";
pub const AUDIENCE_EXAMPLE: &'static str = "25–45 წლის ქალები თბილისში, რომლებიც ინტერიერის დეკორს ყიდულობენ.";

pub const PRODUCT_PROMPT: &'static str = "რა პროდუქტს გაყიდით?";
pub const PRODUCT_PURPOSE: &'static str = "პროდუქტის კატეგორია განსაზღვრავს დარგს და ნებართვებს.";
pub const PRODUCT_EXPLANATION: &'static str = "დაასახელეთ პროდუქტის ტიპი; თუ მხოლოდ მომსახურებას სთავაზობთ, გამოტოვეთ.";
pub const PRODUCT_EXAMPLE: &'static str = "კერამიკული ჭურჭელი და დეკორი.";

pub const SERVICES_PROMPT: &'static str = "რა მომსახურებას შესთავაზებთ?";
pub const SERVICES_PURPOSE: &'static str = "მომსახურების სფერო განსაზღვრავს დარგს და მოთხოვნებს.";
pub const SERVICES_EXPLANATION: &'static str = "დაასახელეთ მომსახურების ტიპი; თუ მხოლოდ პროდუქტს ყიდით, გამოტოვეთ.";
pub const SERVICES_EXAMPLE: &'static str = "კერამიკის მასტერკლასები.";

pub const TURNOVER_PROMPT: &'static str = "რა წლიურ ბრუნვას ელით (₾)?";
pub const TURNOVER_PURPOSE: &'static str = "ბრუნვა განსაზღვრავს საგადასახადო რეჟიმს და დღგ-ის ვალდებულებას.";
pub const TURNOVER_EXPLANATION: &'static str = "მიუთითეთ სავარაუდო თანხა ლარში პირველი წლისთვის.";
pub const TURNOVER_EXAMPLE: &'static str = "დაახლოებით 40 000 ₾";

pub const EMPLOYEES_PROMPT: &'static str = "რამდენ თანამშრომელს დაიქირავებთ?";
pub const EMPLOYEES_PURPOSE: &'static str = "დაქირავებული პერსონალი გავლენას ახდენს საგადასახადო სტატუსზე.";
pub const EMPLOYEES_EXPLANATION: &'static str = "მიუთითეთ დაქირავებულების რაოდენობა; თუ მარტო მუშაობთ — 0.";
pub const EMPLOYEES_EXAMPLE: &'static str = "2";

pub const ONLINE_PROMPT: &'static str = "გეგმავთ თუ არა ონლაინ გაყიდვებს?";
pub const ONLINE_PURPOSE: &'static str = "ონლაინ არხები განსაზღვრავს გადახდის და მარკეტინგის საჭიროებებს.";
pub const ONLINE_EXPLANATION: &'static str = "აღწერეთ ვებგვერდი, სოციალური ქსელები ან მარკეტპლეისები.";
pub const ONLINE_EXAMPLE: &'static str = "Instagram-ის გვერდი და საკუთარი ვებგვერდი.";

pub const PHYSICAL_PROMPT: &'static str = "გექნებათ თუ არა ფიზიკური სივრცე?";
pub const PHYSICAL_PURPOSE: &'static str = "ფიზიკური სივრცე ნიშნავს ქირას, ნებართვებს და POS ტერმინალს.";
pub const PHYSICAL_EXPLANATION: &'static str = "მიუთითეთ მაღაზია, სახელოსნო ან ოფისი, თუ გაქვთ.";
pub const PHYSICAL_EXAMPLE: &'static str = "პატარა სახელოსნო ვაკეში.";

pub const TRADE_PROMPT: &'static str = "გეგმავთ თუ არა იმპორტს ან ექსპორტს?";
pub const TRADE_PURPOSE: &'static str = "საგარეო ვაჭრობა მოითხოვს საბაჟო პროცედურებს და ზრდის რისკს.";
pub const TRADE_EXPLANATION: &'static str = "მიუთითეთ, რას შემოიტანთ ან გაიტანთ და საიდან.";
pub const TRADE_EXAMPLE: &'static str = "თიხის შემოტანა თურქეთიდან.";

pub const GROWTH_PROMPT: &'static str = "როგორ ხედავთ ბიზნესის ზრდას?";
pub const GROWTH_PURPOSE: &'static str = "ზრდის გეგმა განსაზღვრავს მომავალ საჭიროებებს და პოტენციალს.";
pub const GROWTH_EXPLANATION: &'static str = "აღწერეთ, სად გინდათ იყოთ ერთ ან სამ წელიწადში.";
pub const GROWTH_EXAMPLE: &'static str = "ორ წელიწადში მეორე სახელოსნოს გახსნა.";

/// One interview question as stored in the content table.
#[derive(Debug, Clone, Copy)]
pub struct QuestionSpec {
    pub key: &'static str,
    pub prompt: &'static str,
    pub purpose: &'static str,
    pub explanation: &'static str,
    pub example: &'static str,
    pub optional: bool,
}

/// The content table: question `i` of the interview, for `i < QUESTION_COUNT`.
pub open spec fn spec_question(i: int) -> QuestionSpec {
    if i == 0 {
        QuestionSpec {
            key: KEY_BUSINESS_IDEA,
            prompt: IDEA_PROMPT,
            purpose: IDEA_PURPOSE,
            explanation: IDEA_EXPLANATION,
            example: IDEA_EXAMPLE,
            optional: false,
        }
    } else if i == 1 {
        QuestionSpec {
            key: KEY_TARGET_AUDIENCE,
            prompt: AUDIENCE_PROMPT,
            purpose: AUDIENCE_PURPOSE,
            explanation: AUDIENCE_EXPLANATION,
            example: AUDIENCE_EXAMPLE,
            optional: false,
        }
    } else if i == 2 {
        QuestionSpec {
            key: KEY_PRODUCT_CATEGORY,
            prompt: PRODUCT_PROMPT,
            purpose: PRODUCT_PURPOSE,
            explanation: PRODUCT_EXPLANATION,
            example: PRODUCT_EXAMPLE,
            optional: true,
        }
    } else if i == 3 {
        QuestionSpec {
            key: KEY_SERVICES_CATEGORY,
            prompt: SERVICES_PROMPT,
            purpose: SERVICES_PURPOSE,
            explanation: SERVICES_EXPLANATION,
            example: SERVICES_EXAMPLE,
            optional: true,
        }
    } else if i == 4 {
        QuestionSpec {
            key: KEY_EXPECTED_TURNOVER,
            prompt: TURNOVER_PROMPT,
            purpose: TURNOVER_PURPOSE,
            explanation: TURNOVER_EXPLANATION,
            example: TURNOVER_EXAMPLE,
            optional: false,
        }
    } else if i == 5 {
        QuestionSpec {
            key: KEY_NUMBER_OF_EMPLOYEES,
            prompt: EMPLOYEES_PROMPT,
            purpose: EMPLOYEES_PURPOSE,
            explanation: EMPLOYEES_EXPLANATION,
            example: EMPLOYEES_EXAMPLE,
            optional: false,
        }
    } else if i == 6 {
        QuestionSpec {
            key: KEY_ONLINE_PRESENCE,
            prompt: ONLINE_PROMPT,
            purpose: ONLINE_PURPOSE,
            explanation: ONLINE_EXPLANATION,
            example: ONLINE_EXAMPLE,
            optional: true,
        }
    } else if i == 7 {
        QuestionSpec {
            key: KEY_PHYSICAL_LOCATION,
            prompt: PHYSICAL_PROMPT,
            purpose: PHYSICAL_PURPOSE,
            explanation: PHYSICAL_EXPLANATION,
            example: PHYSICAL_EXAMPLE,
            optional: true,
        }
    } else if i == 8 {
        QuestionSpec {
            key: KEY_IMPORT_EXPORT,
            prompt: TRADE_PROMPT,
            purpose: TRADE_PURPOSE,
            explanation: TRADE_EXPLANATION,
            example: TRADE_EXAMPLE,
            optional: true,
        }
    } else {
        QuestionSpec {
            key: KEY_GROWTH_PLANS,
            prompt: GROWTH_PROMPT,
            purpose: GROWTH_PURPOSE,
            explanation: GROWTH_EXPLANATION,
            example: GROWTH_EXAMPLE,
            optional: true,
        }
    }
}

/// The key of question `i`.
pub open spec fn question_key(i: int) -> Seq<char> {
    spec_question(i).key@
}

/// Number of questions in the interview.
pub fn total() -> (n: usize)
    ensures
        n == QUESTION_COUNT,
{
    QUESTION_COUNT
}

/// Question `i` of the content table.
pub fn question(i: usize) -> (q: QuestionSpec)
    requires
        i < QUESTION_COUNT,
    ensures
        q == spec_question(i as int),
{
    if i == 0 {
        QuestionSpec {
            key: KEY_BUSINESS_IDEA,
            prompt: IDEA_PROMPT,
            purpose: IDEA_PURPOSE,
            explanation: IDEA_EXPLANATION,
            example: IDEA_EXAMPLE,
            optional: false,
        }
    } else if i == 1 {
        QuestionSpec {
            key: KEY_TARGET_AUDIENCE,
            prompt: AUDIENCE_PROMPT,
            purpose: AUDIENCE_PURPOSE,
            explanation: AUDIENCE_EXPLANATION,
            example: AUDIENCE_EXAMPLE,
            optional: false,
        }
    } else if i == 2 {
        QuestionSpec {
            key: KEY_PRODUCT_CATEGORY,
            prompt: PRODUCT_PROMPT,
            purpose: PRODUCT_PURPOSE,
            explanation: PRODUCT_EXPLANATION,
            example: PRODUCT_EXAMPLE,
            optional: true,
        }
    } else if i == 3 {
        QuestionSpec {
            key: KEY_SERVICES_CATEGORY,
            prompt: SERVICES_PROMPT,
            purpose: SERVICES_PURPOSE,
            explanation: SERVICES_EXPLANATION,
            example: SERVICES_EXAMPLE,
            optional: true,
        }
    } else if i == 4 {
        QuestionSpec {
            key: KEY_EXPECTED_TURNOVER,
            prompt: TURNOVER_PROMPT,
            purpose: TURNOVER_PURPOSE,
            explanation: TURNOVER_EXPLANATION,
            example: TURNOVER_EXAMPLE,
            optional: false,
        }
    } else if i == 5 {
        QuestionSpec {
            key: KEY_NUMBER_OF_EMPLOYEES,
            prompt: EMPLOYEES_PROMPT,
            purpose: EMPLOYEES_PURPOSE,
            explanation: EMPLOYEES_EXPLANATION,
            example: EMPLOYEES_EXAMPLE,
            optional: false,
        }
    } else if i == 6 {
        QuestionSpec {
            key: KEY_ONLINE_PRESENCE,
            prompt: ONLINE_PROMPT,
            purpose: ONLINE_PURPOSE,
            explanation: ONLINE_EXPLANATION,
            example: ONLINE_EXAMPLE,
            optional: true,
        }
    } else if i == 7 {
        QuestionSpec {
            key: KEY_PHYSICAL_LOCATION,
            prompt: PHYSICAL_PROMPT,
            purpose: PHYSICAL_PURPOSE,
            explanation: PHYSICAL_EXPLANATION,
            example: PHYSICAL_EXAMPLE,
            optional: true,
        }
    } else if i == 8 {
        QuestionSpec {
            key: KEY_IMPORT_EXPORT,
            prompt: TRADE_PROMPT,
            purpose: TRADE_PURPOSE,
            explanation: TRADE_EXPLANATION,
            example: TRADE_EXAMPLE,
            optional: true,
        }
    } else {
        QuestionSpec {
            key: KEY_GROWTH_PLANS,
            prompt: GROWTH_PROMPT,
            purpose: GROWTH_PURPOSE,
            explanation: GROWTH_EXPLANATION,
            example: GROWTH_EXAMPLE,
            optional: true,
        }
    }
}

/// No two questions of the interview share a key, so a key names exactly one
/// question.
pub proof fn lemma_question_keys_distinct(i: int, j: int)
    requires
        0 <= i < QUESTION_COUNT,
        0 <= j < QUESTION_COUNT,
        i != j,
    ensures
        question_key(i) != question_key(j),
{
    reveal_strlit("business_idea");
    reveal_strlit("target_audience");
    reveal_strlit("product_category");
    reveal_strlit("services_category");
    reveal_strlit("expected_turnover");
    reveal_strlit("number_of_employees");
    reveal_strlit("online_presence");
    reveal_strlit("physical_location");
    reveal_strlit("import_export");
    reveal_strlit("growth_plans");
    if question_key(i) == question_key(j) {
        assert(question_key(i).len() == question_key(j).len());
        assert(question_key(i)[0] == question_key(j)[0]);
    }
}

} // verus!
