use vstd::prelude::*;

verus! {

/// Errors that can occur when working with signposts.
#[derive(Debug, Clone, Copy, PartialEq, Eq, Structural)]
pub enum SignpostError {
    /// The signpost system has not been configured.
    NotConfigured,
    /// The process-wide configuration was already set.
    AlreadyConfigured,
    /// Invalid scope for the requested operation.
    InvalidScope,
    /// Signpost id is invalid or uses a reserved value.
    InvalidId,
}

/// The human-readable description of each error.
pub open spec fn error_text(e: SignpostError) -> Seq<char> {
    match e {
        SignpostError::NotConfigured => "Signpost not initialized"@,
        SignpostError::AlreadyConfigured => "Signpost already configured"@,
        SignpostError::InvalidScope => "Invalid scope for operation"@,
        SignpostError::InvalidId => "Invalid signpost ID"@,
    }
}

impl SignpostError {
    /// Describes the error in words.
    pub fn message(&self) -> (r: String)
        ensures
            r@ == error_text(*self),
    {
        match self {
            SignpostError::NotConfigured => String::from_str("Signpost not initialized"),
            SignpostError::AlreadyConfigured => String::from_str("Signpost already configured"),
            SignpostError::InvalidScope => String::from_str("Invalid scope for operation"),
            SignpostError::InvalidId => String::from_str("Invalid signpost ID"),
        }
    }
}

} // verus!
