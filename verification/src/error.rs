//! The errors that governance operations report.

use vstd::prelude::*;
use vstd::string::*;

verus! {

/// Why a governance operation was refused or could not finish.
#[derive(Debug, Clone)]
pub enum GovernanceError {
    /// The store failed, or a uniqueness rule of the store was broken.
    DatabaseError(String),
    /// A signature, a proof or a tag did not verify.
    CryptoError(String),
    /// A configuration value is unknown, malformed or of the wrong type.
    ConfigError(String),
    /// The code host could not be reached or answered with an error.
    GitHubError(String),
}

impl GovernanceError {
    /// The text that came with the error.
    pub open spec fn text(self) -> Seq<char> {
        match self {
            GovernanceError::DatabaseError(m) => m@,
            GovernanceError::CryptoError(m) => m@,
            GovernanceError::ConfigError(m) => m@,
            GovernanceError::GitHubError(m) => m@,
        }
    }

    /// The text that came with the error.
    pub fn message(&self) -> (text: String)
        ensures
            text@ == self.text(),
    {
        match self {
            GovernanceError::DatabaseError(m) => m.clone(),
            GovernanceError::CryptoError(m) => m.clone(),
            GovernanceError::ConfigError(m) => m.clone(),
            GovernanceError::GitHubError(m) => m.clone(),
        }
    }
}

/// A store error with the given text.
pub fn database_error(text: &str) -> (e: GovernanceError)
    ensures
        e is DatabaseError,
        e.text() == text@,
{
    GovernanceError::DatabaseError(text.to_owned())
}

/// A verification error with the given text.
pub fn crypto_error(text: &str) -> (e: GovernanceError)
    ensures
        e is CryptoError,
        e.text() == text@,
{
    GovernanceError::CryptoError(text.to_owned())
}

/// A configuration error with the given text.
pub fn config_error(text: &str) -> (e: GovernanceError)
    ensures
        e is ConfigError,
        e.text() == text@,
{
    GovernanceError::ConfigError(text.to_owned())
}

/// A configuration error whose text is three parts in a row.
pub fn config_error_about(before: &str, subject: &str, after: &str) -> (e: GovernanceError)
    ensures
        e is ConfigError,
        e.text() == before@ + subject@ + after@,
{
    GovernanceError::ConfigError(crate::text::concat3(before, subject, after))
}

/// A store error whose text is two parts in a row.
pub fn database_error_about(before: &str, subject: &str) -> (e: GovernanceError)
    ensures
        e is DatabaseError,
        e.text() == before@ + subject@,
{
    let mut text = before.to_owned();
    text.append(subject);
    GovernanceError::DatabaseError(text)
}

/// A verification error whose text is two parts in a row.
pub fn crypto_error_about(before: &str, subject: &str) -> (e: GovernanceError)
    ensures
        e is CryptoError,
        e.text() == before@ + subject@,
{
    let mut text = before.to_owned();
    text.append(subject);
    GovernanceError::CryptoError(text)
}

} // verus!
