use vstd::prelude::*;

verus! {

/// The failure kinds a request can end in. Every handler maps each failure
/// into exactly one of these; nothing else escapes to the caller.
#[derive(Clone, Copy, Debug, PartialEq, Eq, Structural)]
pub enum ApiError {
    /// The request body is missing a required field or has the wrong shape.
    MalformedRequest,
    /// An address field is not valid base-58 or does not decode to 32 bytes.
    InvalidAddress,
    /// The mint amount is zero.
    InvalidAmount,
    /// A parameter was rejected by the instruction-building collaborator.
    InvalidProgramArgument,
    /// The cryptographic collaborator failed.
    CryptoFailure,
}

impl ApiError {
    /// The human-readable message carried by the error envelope for this kind.
    pub open spec fn message_spec(self) -> Seq<char> {
        match self {
            ApiError::MalformedRequest => "Missing required fields"@,
            ApiError::InvalidAddress => "Invalid address"@,
            ApiError::InvalidAmount => "Invalid amount"@,
            ApiError::InvalidProgramArgument => "Invalid program argument"@,
            ApiError::CryptoFailure => "Cryptographic operation failed"@,
        }
    }

    /// Renders the error as the message string placed in the error envelope.
    pub fn message(&self) -> (r: String)
        ensures
            r@ == self.message_spec(),
    {
        match self {
            ApiError::MalformedRequest => "Missing required fields".to_string(),
            ApiError::InvalidAddress => "Invalid address".to_string(),
            ApiError::InvalidAmount => "Invalid amount".to_string(),
            ApiError::InvalidProgramArgument => "Invalid program argument".to_string(),
            ApiError::CryptoFailure => "Cryptographic operation failed".to_string(),
        }
    }
}

} // verus!
