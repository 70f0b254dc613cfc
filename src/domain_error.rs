use vstd::prelude::*;

verus! {

/// The failures that the domain reports to its callers.
#[derive(Debug, Clone)]
pub enum DomainError {
    /// User input violates a documented constraint; the message says which.
    UserValidationError(String),
    /// A registration token was not accepted.
    InvalidRegistrationToken,
    /// A well-formed but incorrect admin password.
    AdminAuthError,
    /// A system fault (storage, malformed stored data, highlighter); the
    /// message names the operation that failed.
    UnexpectedError(String),
}

impl DomainError {
    /// The human-readable description of the error.
    pub fn message(&self) -> (r: String)
        ensures
            self matches DomainError::UserValidationError(m) ==> r@ == m@,
            self matches DomainError::UnexpectedError(m) ==> r@ == m@,
            self is InvalidRegistrationToken ==> r@ == "The registration token is not valid"@,
            self is AdminAuthError ==> r@ == "Incorrect admin password"@,
    {
        match self {
            DomainError::UserValidationError(m) => m.clone(),
            DomainError::InvalidRegistrationToken => String::from_str("The registration token is not valid"),
            DomainError::AdminAuthError => String::from_str("Incorrect admin password"),
            DomainError::UnexpectedError(m) => m.clone(),
        }
    }
}

} // verus!
