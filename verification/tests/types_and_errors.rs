use exsul::errors::{BusinessError, BusinessErrorCode};
use exsul::types::{EntityKind, LaunchStage};

#[test]
fn stage_names() {
    assert_eq!(LaunchStage::Discovery.as_str(), "discovery");
    assert_eq!(LaunchStage::Profiling.as_str(), "profiling");
    assert_eq!(LaunchStage::Brand.as_str(), "brand");
    assert_eq!(LaunchStage::Logo.as_str(), "logo");
    assert_eq!(LaunchStage::Registration.as_str(), "registration");
    assert_eq!(LaunchStage::Tax.as_str(), "tax");
    assert_eq!(LaunchStage::Banking.as_str(), "banking");
    assert_eq!(LaunchStage::Completed.as_str(), "completed");
}

#[test]
fn entity_kind_names() {
    assert_eq!(EntityKind::BusinessProfile.as_str(), "BusinessProfile");
    assert_eq!(EntityKind::RegistrationProfile.as_str(), "RegistrationProfile");
    assert_eq!(EntityKind::TaxProfile.as_str(), "TaxProfile");
    assert_eq!(EntityKind::BrandProfile.as_str(), "BrandProfile");
    assert_eq!(EntityKind::LogoProfile.as_str(), "LogoProfile");
    assert_eq!(EntityKind::BankProfile.as_str(), "BankProfile");
    assert_eq!(EntityKind::MarketProfile.as_str(), "MarketProfile");
    assert_eq!(EntityKind::GrowthProfile.as_str(), "GrowthProfile");
}

#[test]
fn stage_names_are_distinct() {
    let all = [
        LaunchStage::Discovery,
        LaunchStage::Profiling,
        LaunchStage::Brand,
        LaunchStage::Logo,
        LaunchStage::Registration,
        LaunchStage::Tax,
        LaunchStage::Banking,
        LaunchStage::Completed,
    ];
    for a in all.iter() {
        for b in all.iter() {
            assert_eq!(a == b, a.as_str() == b.as_str());
        }
    }
}

#[test]
fn error_constructors_set_code_and_retry() {
    let e = BusinessError::not_found("x".to_string());
    assert_eq!(e.code, BusinessErrorCode::NotFound);
    assert_eq!(e.message, "x");
    assert!(!e.retryable);
    let e = BusinessError::invalid_input("bad".to_string());
    assert_eq!(e.code, BusinessErrorCode::InvalidInput);
    assert!(!e.retryable);
    let e = BusinessError::storage("db".to_string());
    assert_eq!(e.code, BusinessErrorCode::Storage);
    assert!(e.retryable);
    let e = BusinessError::gateway("ai".to_string());
    assert_eq!(e.code, BusinessErrorCode::Gateway);
    assert!(e.retryable);
    let e = BusinessError::internal("oops".to_string());
    assert_eq!(e.code, BusinessErrorCode::Internal);
    assert!(!e.retryable);
}

#[test]
fn error_display_text() {
    let e = BusinessError::not_found("session 'a' not found".to_string());
    assert_eq!(e.to_string(), "[NotFound] session 'a' not found");
    let e = BusinessError::invalid_input(String::new());
    assert_eq!(e.to_string(), "[InvalidInput] ");
}
