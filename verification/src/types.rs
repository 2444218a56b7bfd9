//! The typed contract of the launch system: pipeline stages, versioned entity
//! kinds, sessions, discovery questions, answers and progress snapshots.

use vstd::prelude::*;

verus! {

/// Launch pipeline stage, from discovery to completion.
#[derive(Debug, Clone, Copy, PartialEq, Eq, Structural)]
pub enum LaunchStage {
    Discovery,
    Profiling,
    Brand,
    Logo,
    Registration,
    Tax,
    Banking,
    Completed,
}

/// The stored name of a stage.
pub open spec fn stage_name(stage: LaunchStage) -> Seq<char> {
    match stage {
        LaunchStage::Discovery => "discovery"@,
        LaunchStage::Profiling => "profiling"@,
        LaunchStage::Brand => "brand"@,
        LaunchStage::Logo => "logo"@,
        LaunchStage::Registration => "registration"@,
        LaunchStage::Tax => "tax"@,
        LaunchStage::Banking => "banking"@,
        LaunchStage::Completed => "completed"@,
    }
}

impl LaunchStage {
    pub fn as_str(self) -> (r: &'static str)
        ensures
            r@ == stage_name(self),
    {
        match self {
            LaunchStage::Discovery => "discovery",
            LaunchStage::Profiling => "profiling",
            LaunchStage::Brand => "brand",
            LaunchStage::Logo => "logo",
            LaunchStage::Registration => "registration",
            LaunchStage::Tax => "tax",
            LaunchStage::Banking => "banking",
            LaunchStage::Completed => "completed",
        }
    }
}

/// Versioned business entity kinds.
#[derive(Debug, Clone, Copy, PartialEq, Eq, Structural)]
pub enum EntityKind {
    BusinessProfile,
    RegistrationProfile,
    TaxProfile,
    BrandProfile,
    LogoProfile,
    BankProfile,
    MarketProfile,
    GrowthProfile,
}

/// The stored name of an entity kind.
pub open spec fn entity_kind_name(kind: EntityKind) -> Seq<char> {
    match kind {
        EntityKind::BusinessProfile => "BusinessProfile"@,
        EntityKind::RegistrationProfile => "RegistrationProfile"@,
        EntityKind::TaxProfile => "TaxProfile"@,
        EntityKind::BrandProfile => "BrandProfile"@,
        EntityKind::LogoProfile => "LogoProfile"@,
        EntityKind::BankProfile => "BankProfile"@,
        EntityKind::MarketProfile => "MarketProfile"@,
        EntityKind::GrowthProfile => "GrowthProfile"@,
    }
}

impl EntityKind {
    pub fn as_str(self) -> (r: &'static str)
        ensures
            r@ == entity_kind_name(self),
    {
        match self {
            EntityKind::BusinessProfile => "BusinessProfile",
            EntityKind::RegistrationProfile => "RegistrationProfile",
            EntityKind::TaxProfile => "TaxProfile",
            EntityKind::BrandProfile => "BrandProfile",
            EntityKind::LogoProfile => "LogoProfile",
            EntityKind::BankProfile => "BankProfile",
            EntityKind::MarketProfile => "MarketProfile",
            EntityKind::GrowthProfile => "GrowthProfile",
        }
    }
}

/// Distinct stages are stored under distinct names, so a stored name
/// identifies its stage.
pub proof fn lemma_stage_names_distinct(a: LaunchStage, b: LaunchStage)
    requires
        a != b,
    ensures
        stage_name(a) != stage_name(b),
{
    reveal_strlit("discovery");
    reveal_strlit("profiling");
    reveal_strlit("brand");
    reveal_strlit("logo");
    reveal_strlit("registration");
    reveal_strlit("tax");
    reveal_strlit("banking");
    reveal_strlit("completed");
    if stage_name(a) == stage_name(b) {
        assert(stage_name(a).len() == stage_name(b).len());
        assert(stage_name(a)[0] == stage_name(b)[0]);
        assert(stage_name(a)[1] == stage_name(b)[1]);
    }
}

/// Distinct entity kinds are stored under distinct names.
pub proof fn lemma_entity_kind_names_distinct(a: EntityKind, b: EntityKind)
    requires
        a != b,
    ensures
        entity_kind_name(a) != entity_kind_name(b),
{
    reveal_strlit("BusinessProfile");
    reveal_strlit("RegistrationProfile");
    reveal_strlit("TaxProfile");
    reveal_strlit("BrandProfile");
    reveal_strlit("LogoProfile");
    reveal_strlit("BankProfile");
    reveal_strlit("MarketProfile");
    reveal_strlit("GrowthProfile");
    if entity_kind_name(a) == entity_kind_name(b) {
        assert(entity_kind_name(a).len() == entity_kind_name(b).len());
        assert(entity_kind_name(a)[0] == entity_kind_name(b)[0]);
        assert(entity_kind_name(a)[1] == entity_kind_name(b)[1]);
    }
}

/// A launch session row (one entrepreneur journey).
#[derive(Debug, Clone)]
pub struct LaunchSession {
    pub id: String,
    pub stage: String,
    pub status: String,
    pub language: String,
    pub title: Option<String>,
    pub created_at: String,
    pub updated_at: String,
}

/// One discovery-interview question, fully localized.
#[derive(Debug, Clone)]
pub struct DiscoveryQuestion {
    pub key: String,
    /// 1-based position in the interview.
    pub index: usize,
    pub total: usize,
    /// The question itself.
    pub prompt: String,
    /// Why the question is asked.
    pub purpose: String,
    /// How the question should be understood.
    pub explanation: String,
    /// An example answer.
    pub example: String,
    pub optional: bool,
}

/// A persisted answer to a discovery question.
#[derive(Debug, Clone)]
pub struct DiscoveryAnswer {
    pub question_key: String,
    pub answer_text: Option<String>,
    pub skipped: bool,
    pub answered_at: String,
}

/// Progress snapshot returned after each answer or on request.
#[derive(Debug, Clone)]
pub struct DiscoveryProgress {
    pub session_id: String,
    pub stage: String,
    pub answered: usize,
    pub total: usize,
    pub complete: bool,
    /// The next unanswered question, or `None` when discovery is complete.
    pub next_question: Option<DiscoveryQuestion>,
}

/// Full session view: session row, collected answers and current progress.
#[derive(Debug, Clone)]
pub struct SessionDetail {
    pub session: LaunchSession,
    pub answers: Vec<DiscoveryAnswer>,
    pub progress: DiscoveryProgress,
}

} // verus!
