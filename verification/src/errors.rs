//! Error types shared by the model's parsers and validators.
use vstd::prelude::*;

verus! {

/// Errors raised when a value read from a request or from the database
/// does not denote a value of the model.
#[derive(Debug, Clone)]
pub enum ModelError {
    /// An argument is outside the set of values the model accepts.
    InvalidArgument(String),
    /// A value read from the database names no variant of the model.
    DatabaseTypeConversionError(String),
}

/// Errors raised when user-supplied configuration breaks a rule.
#[derive(Debug, Clone)]
pub enum ConfigValidationError {
    /// The value breaks a rule; the text says which.
    InvalidValue(String),
}

impl ModelError {
    /// The text carried by the error.
    pub fn message(&self) -> (r: &str)
        ensures
            r@ == match self {
                ModelError::InvalidArgument(m) => m@,
                ModelError::DatabaseTypeConversionError(m) => m@,
            },
    {
        match self {
            ModelError::InvalidArgument(m) => m.as_str(),
            ModelError::DatabaseTypeConversionError(m) => m.as_str(),
        }
    }
}

impl ConfigValidationError {
    /// The text carried by the error.
    pub fn message(&self) -> (r: &str)
        ensures
            r@ == match self {
                ConfigValidationError::InvalidValue(m) => m@,
            },
    {
        match self {
            ConfigValidationError::InvalidValue(m) => m.as_str(),
        }
    }
}

} // verus!
