//! The closed set of failures raised by the domain and its ports.

use vstd::prelude::*;

verus! {

/// Failures of domain operations.
#[derive(Debug)]
pub enum DomainError {
    /// No record exists for the given key.
    NotFound { entity_type: &'static str, key: String },
    /// An input broke an invariant (a malformed email, for instance).
    ValidationError(String),
    /// A business rule forbids the operation.
    BusinessRuleViolation(String),
    /// The operation would duplicate an existing entity.
    Conflict(String),
    /// A storage or delivery backend failed; the text describes the cause.
    Infrastructure(String),
}

impl DomainError {
    /// A not-found error for an entity of kind `entity_type` looked up by `key`.
    pub fn not_found(entity_type: &'static str, key: String) -> (r: DomainError)
        ensures
            r matches DomainError::NotFound { entity_type: t, key: k } && t == entity_type && k == key,
    {
        DomainError::NotFound { entity_type, key }
    }

    /// A validation error carrying `message`.
    pub fn validation(message: &str) -> (r: DomainError)
        ensures
            r matches DomainError::ValidationError(m) && m@ == message@,
    {
        DomainError::ValidationError(String::from_str(message))
    }

    /// A business-rule error carrying `message`.
    pub fn business_rule(message: &str) -> (r: DomainError)
        ensures
            r matches DomainError::BusinessRuleViolation(m) && m@ == message@,
    {
        DomainError::BusinessRuleViolation(String::from_str(message))
    }

    /// A conflict error carrying `message`.
    pub fn conflict(message: &str) -> (r: DomainError)
        ensures
            r matches DomainError::Conflict(m) && m@ == message@,
    {
        DomainError::Conflict(String::from_str(message))
    }
}

} // verus!
