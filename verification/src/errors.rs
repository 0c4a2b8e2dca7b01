//! The failures that the issuer's operations report, and the kind of each.

use vstd::prelude::*;

verus! {

/// What went wrong, in broad terms. A caller decides by the kind whether the
/// input, the deployment or an attacker is to blame.
#[derive(Clone, Copy, Debug, PartialEq, Eq)]
pub enum ErrorKind {
    /// The input has the wrong size, cannot be decoded, or is encoded in a
    /// form other than the canonical one.
    InputMalformed,
    /// More tokens were requested than the policy allows.
    PolicyViolation,
    /// A key could not be created, derived or loaded.
    KeyManagementFailure,
    /// The token is not bound to the challenge, or names a key that is not
    /// known.
    ProtocolIntegrityFailure,
    /// The token was redeemed before.
    DoubleSpend,
}

/// Why a token could not be validated. A token that is well formed but does
/// not verify is no error: validation then answers `false`.
#[derive(Clone, Copy, Debug, PartialEq, Eq)]
pub enum ValidateTokenError {
    /// The challenge has no byte form to take a digest of.
    Serialize,
    /// The token has this many bytes, which is not the size of a token.
    WrongTokenSize(usize),
    /// The secret key could not be loaded.
    CreateKeypair,
    /// The token's bytes do not parse as a token.
    TlsDeserialize,
    /// The digest inside the token is not that of the challenge.
    ChallengeDigest,
    /// The token was redeemed before.
    DoubleSpending,
    /// The token names a key that is not the one loaded.
    KeyIdNotFound,
    /// Redemption failed for a reason that has no name here.
    RedeemToken,
    /// The token's text is not URL-safe base64.
    Base64Decode,
    /// The token's text decodes, but is not the one text that its bytes
    /// encode to.
    NonCanonicalEncoding,
}

/// Why no key pair was generated.
#[derive(Clone, Copy, Debug, PartialEq, Eq)]
pub enum GenKeysError {
    /// The operating system gave no random seed.
    SeedUnavailable,
    /// The key pair could not be created from the seed.
    CreateKeypair,
    /// The secret key could not be derived from the seed again.
    DeriveKey,
}

/// Why no token response was issued.
#[derive(Clone, Copy, Debug, PartialEq, Eq)]
pub enum GenTokenResponseError {
    /// The request holds the first number of blinded elements, and the
    /// second is the most that are allowed.
    RequestedTooManyTokens(usize, usize),
    /// The secret key could not be loaded.
    CreateKeypair,
    /// Blind evaluation failed.
    IssueTokenResponse,
    /// The secret key's or the request's text is not URL-safe base64.
    Base64Decode,
    /// The request's bytes do not parse as a token request.
    TlsDeserialize,
}

impl ValidateTokenError {
    /// The kind of this failure.
    pub open spec fn kind_of(self) -> ErrorKind {
        match self {
            ValidateTokenError::Serialize => ErrorKind::InputMalformed,
            ValidateTokenError::WrongTokenSize(_) => ErrorKind::InputMalformed,
            ValidateTokenError::CreateKeypair => ErrorKind::KeyManagementFailure,
            ValidateTokenError::TlsDeserialize => ErrorKind::InputMalformed,
            ValidateTokenError::ChallengeDigest => ErrorKind::ProtocolIntegrityFailure,
            ValidateTokenError::DoubleSpending => ErrorKind::DoubleSpend,
            ValidateTokenError::KeyIdNotFound => ErrorKind::ProtocolIntegrityFailure,
            ValidateTokenError::RedeemToken => ErrorKind::ProtocolIntegrityFailure,
            ValidateTokenError::Base64Decode => ErrorKind::InputMalformed,
            ValidateTokenError::NonCanonicalEncoding => ErrorKind::InputMalformed,
        }
    }

    /// The kind of this failure.
    pub fn kind(&self) -> (kind: ErrorKind)
        ensures
            kind == self.kind_of(),
    {
        match self {
            ValidateTokenError::Serialize => ErrorKind::InputMalformed,
            ValidateTokenError::WrongTokenSize(_) => ErrorKind::InputMalformed,
            ValidateTokenError::CreateKeypair => ErrorKind::KeyManagementFailure,
            ValidateTokenError::TlsDeserialize => ErrorKind::InputMalformed,
            ValidateTokenError::ChallengeDigest => ErrorKind::ProtocolIntegrityFailure,
            ValidateTokenError::DoubleSpending => ErrorKind::DoubleSpend,
            ValidateTokenError::KeyIdNotFound => ErrorKind::ProtocolIntegrityFailure,
            ValidateTokenError::RedeemToken => ErrorKind::ProtocolIntegrityFailure,
            ValidateTokenError::Base64Decode => ErrorKind::InputMalformed,
            ValidateTokenError::NonCanonicalEncoding => ErrorKind::InputMalformed,
        }
    }
}

impl GenKeysError {
    /// The kind of this failure: each one is a failure of key management.
    pub fn kind(&self) -> (kind: ErrorKind)
        ensures
            kind == ErrorKind::KeyManagementFailure,
    {
        ErrorKind::KeyManagementFailure
    }
}

impl GenTokenResponseError {
    /// The kind of this failure.
    pub open spec fn kind_of(self) -> ErrorKind {
        match self {
            GenTokenResponseError::RequestedTooManyTokens(_, _) => ErrorKind::PolicyViolation,
            GenTokenResponseError::CreateKeypair => ErrorKind::KeyManagementFailure,
            GenTokenResponseError::IssueTokenResponse => ErrorKind::InputMalformed,
            GenTokenResponseError::Base64Decode => ErrorKind::InputMalformed,
            GenTokenResponseError::TlsDeserialize => ErrorKind::InputMalformed,
        }
    }

    /// The kind of this failure.
    pub fn kind(&self) -> (kind: ErrorKind)
        ensures
            kind == self.kind_of(),
    {
        match self {
            GenTokenResponseError::RequestedTooManyTokens(_, _) => ErrorKind::PolicyViolation,
            GenTokenResponseError::CreateKeypair => ErrorKind::KeyManagementFailure,
            GenTokenResponseError::IssueTokenResponse => ErrorKind::InputMalformed,
            GenTokenResponseError::Base64Decode => ErrorKind::InputMalformed,
            GenTokenResponseError::TlsDeserialize => ErrorKind::InputMalformed,
        }
    }
}

} // verus!
